//! One browsing session: the navigator, the list that turns with the clock,
//! and what the session does with a key press and with the time that passed.

use crate::model::Command;
use crate::navigator::DualPaneNavigator;
use crate::tree::StateTree;
use vstd::prelude::*;

verus! {

/// A key press, as far as the session tells keys apart.
#[derive(Debug, Clone, Copy, PartialEq, Eq, Structural)]
pub enum Key {
    Char(char),
    Left,
    Right,
    Up,
    Down,
    Other,
}

/// Whether the session goes on after an input.
#[derive(Debug, Clone, Copy, PartialEq, Eq, Structural)]
pub enum Flow {
    Continue,
    Quit,
}

/// The command that a key stands for: the arrows move, every other key
/// stands for none.
pub open spec fn key_command(key: Key) -> Option<Command> {
    match key {
        Key::Left => Some(Command::MoveLeft),
        Key::Right => Some(Command::MoveRight),
        Key::Down => Some(Command::MoveNext),
        Key::Up => Some(Command::MovePrevious),
        _ => None,
    }
}

/// The key that ends the session.
pub open spec fn key_quits(key: Key) -> bool {
    key == Key::Char('q')
}

/// A list turned by one place: the first item goes to the end.
pub open spec fn turned<T>(items: Seq<T>) -> Seq<T> {
    items.drop_first().push(items[0])
}

/// The time to wait for input before the next tick is due: what is left of
/// the tick rate, and nothing once it has passed.
pub open spec fn time_left(tick_rate: u128, elapsed: u128) -> u128 {
    if elapsed <= tick_rate {
        (tick_rate - elapsed) as u128
    } else {
        0
    }
}

/// The time to wait for input before the next tick is due.
pub fn poll_timeout(tick_rate: u128, elapsed: u128) -> (timeout: u128)
    ensures
        timeout == time_left(tick_rate, elapsed),
{
    if elapsed <= tick_rate {
        tick_rate - elapsed
    } else {
        0
    }
}

/// A browsing session over a tree.
pub struct App<'a> {
    items: DualPaneNavigator<'a>,
    events: Vec<(&'a str, &'a str)>,
}

impl<'a> App<'a> {
    /// The session is consistent: so is its navigator, and the turning list
    /// is not empty.
    pub closed spec fn wf(&self) -> bool {
        &&& self.items.wf()
        &&& self.events.len() > 0
    }

    /// The navigator of the session.
    pub closed spec fn navigator(&self) -> DualPaneNavigator<'a> {
        self.items
    }

    /// The turning list.
    pub closed spec fn ticker(&self) -> Seq<(&'a str, &'a str)> {
        self.events@
    }

    /// Starts a session over `tree`, with a fresh navigator and a turning
    /// list of one item.
    pub fn new(tree: &'a StateTree) -> (app: App<'a>)
        requires
            tree.wf(),
        ensures
            app.wf(),
            app.navigator()@ == crate::model::NavigatorState::init(tree@),
            app.ticker() == seq![("No", "Value")],
    {
        let mut events: Vec<(&'a str, &'a str)> = Vec::new();
        events.push(("No", "Value"));
        proof {
            assert(events@ =~= seq![("No", "Value")]);
        }
        App { items: DualPaneNavigator::new(tree), events }
    }

    /// Read access to the navigator.
    pub fn items(&self) -> (items: &DualPaneNavigator<'a>)
        ensures
            *items == self.navigator(),
    {
        &self.items
    }

    /// Read access to the turning list.
    pub fn events(&self) -> (events: &Vec<(&'a str, &'a str)>)
        ensures
            events@ == self.ticker(),
    {
        &self.events
    }

    /// Turns the list by one place and leaves the navigator alone.
    pub fn on_tick(&mut self)
        requires
            old(self).wf(),
        ensures
            final(self).wf(),
            final(self).ticker() == turned(old(self).ticker()),
            final(self).navigator() == old(self).navigator(),
    {
        let event = self.events.remove(0);
        self.events.push(event);
    }

    /// Handles a key press: `q` ends the session, an arrow moves in the
    /// navigator, any other key does nothing.
    pub fn on_key(&mut self, key: Key) -> (flow: Flow)
        requires
            old(self).wf(),
        ensures
            final(self).wf(),
            final(self).ticker() == old(self).ticker(),
            flow == if key_quits(key) {
                Flow::Quit
            } else {
                Flow::Continue
            },
            final(self).navigator()@ == match key_command(key) {
                Some(command) => old(self).navigator()@.apply(command),
                None => old(self).navigator()@,
            },
    {
        match key {
            Key::Char(c) => {
                if c == 'q' {
                    return Flow::Quit;
                }
            },
            Key::Left => self.items.move_left(),
            Key::Right => self.items.move_right(),
            Key::Down => self.items.move_next(),
            Key::Up => self.items.move_previous(),
            Key::Other => {},
        }
        Flow::Continue
    }

    /// Handles the passing of time: once `elapsed` has reached the tick
    /// rate, the list turns and the clock starts anew, which the result
    /// tells.
    pub fn on_elapsed(&mut self, tick_rate: u128, elapsed: u128) -> (ticked: bool)
        requires
            old(self).wf(),
        ensures
            final(self).wf(),
            ticked == (elapsed >= tick_rate),
            final(self).navigator() == old(self).navigator(),
            final(self).ticker() == if ticked {
                turned(old(self).ticker())
            } else {
                old(self).ticker()
            },
    {
        if elapsed >= tick_rate {
            self.on_tick();
            true
        } else {
            false
        }
    }
}

} // verus!
