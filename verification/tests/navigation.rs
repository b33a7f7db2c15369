use cw_state::{Command, DualPaneNavigator, Focus, StateTree, StateValue};

fn item(text: &str) -> StateValue {
    StateValue::Item { value: text.to_string() }
}

fn mapping(pairs: &[(&str, &str)]) -> StateValue {
    let mut map = StateTree::new();
    for (key, value) in pairs {
        map.insert(key.to_string(), item(value));
    }
    StateValue::Mapping { map }
}

fn sample_tree() -> StateTree {
    let mut tree = StateTree::new();
    tree.insert("x".to_string(), mapping(&[("a", "1"), ("b", "2")]));
    tree.insert("y".to_string(), item("leaf"));
    tree
}

fn wide_tree() -> StateTree {
    let mut tree = StateTree::new();
    tree.insert("alpha".to_string(), mapping(&[("a", "1"), ("b", "2"), ("c", "3")]));
    tree.insert("beta".to_string(), item("two"));
    tree.insert("gamma".to_string(), mapping(&[("k", "v")]));
    tree.insert("delta".to_string(), item("four"));
    tree
}

fn texts(keys: &[String]) -> Vec<&str> {
    keys.iter().map(|key| key.as_str()).collect()
}

#[test]
fn construction_selects_first_key_and_fills_secondary() {
    let tree = sample_tree();
    let nav = DualPaneNavigator::new(&tree);
    assert_eq!(texts(nav.primary_keys()), vec!["x", "y"]);
    assert_eq!(nav.primary_selected(), Some(0));
    assert_eq!(texts(nav.secondary_keys()), vec!["a", "b"]);
    assert_eq!(nav.secondary_selected(), Some(0));
    assert_eq!(nav.focus(), Focus::Primary);
}

#[test]
fn construction_over_leading_item_leaves_secondary_empty() {
    let mut tree = StateTree::new();
    tree.insert("only".to_string(), item("value"));
    let nav = DualPaneNavigator::new(&tree);
    assert_eq!(nav.primary_selected(), Some(0));
    assert!(nav.secondary_keys().is_empty());
    assert_eq!(nav.secondary_selected(), None);
    assert_eq!(nav.resolved_value(), Some("value"));
}

#[test]
fn construction_over_empty_tree_selects_nothing() {
    let tree = StateTree::new();
    let nav = DualPaneNavigator::new(&tree);
    assert!(nav.primary_keys().is_empty());
    assert_eq!(nav.primary_selected(), None);
    assert!(nav.secondary_keys().is_empty());
    assert_eq!(nav.secondary_selected(), None);
    assert_eq!(nav.focus(), Focus::Primary);
    assert_eq!(nav.resolved_value(), None);
}

#[test]
fn moves_over_empty_tree_change_nothing() {
    let tree = StateTree::new();
    let mut nav = DualPaneNavigator::new(&tree);
    nav.move_next();
    assert_eq!(nav.primary_selected(), None);
    nav.move_previous();
    assert_eq!(nav.primary_selected(), None);
    nav.move_right();
    assert_eq!(nav.focus(), Focus::Primary);
    nav.move_left();
    assert_eq!(nav.focus(), Focus::Primary);
    assert_eq!(nav.secondary_selected(), None);
    assert_eq!(nav.resolved_value(), None);
}

#[test]
fn next_then_previous_in_secondary_pane_restores_cursor() {
    let tree = wide_tree();
    let mut nav = DualPaneNavigator::new(&tree);
    nav.move_right();
    nav.move_next();
    assert_eq!(nav.secondary_selected(), Some(1));
    nav.move_next();
    assert_eq!(nav.secondary_selected(), Some(2));
    nav.move_previous();
    assert_eq!(nav.secondary_selected(), Some(1));
    assert_eq!(nav.primary_selected(), Some(0));
    assert_eq!(nav.focus(), Focus::Secondary);
}

#[test]
fn next_then_previous_in_primary_pane_restores_index_and_resets_secondary() {
    let tree = wide_tree();
    let mut nav = DualPaneNavigator::new(&tree);
    nav.move_right();
    nav.move_next();
    nav.move_next();
    assert_eq!(nav.secondary_selected(), Some(2));
    nav.move_left();
    nav.move_next();
    assert_eq!(nav.primary_selected(), Some(1));
    nav.move_previous();
    assert_eq!(nav.primary_selected(), Some(0));
    assert_eq!(texts(nav.secondary_keys()), vec!["a", "b", "c"]);
    assert_eq!(nav.secondary_selected(), Some(0));
}

#[test]
fn next_wraps_from_last_to_first() {
    let tree = wide_tree();
    let mut nav = DualPaneNavigator::new(&tree);
    nav.move_next();
    nav.move_next();
    nav.move_next();
    assert_eq!(nav.primary_selected(), Some(3));
    nav.move_next();
    assert_eq!(nav.primary_selected(), Some(0));
}

#[test]
fn previous_wraps_from_first_to_last() {
    let tree = wide_tree();
    let mut nav = DualPaneNavigator::new(&tree);
    nav.move_previous();
    assert_eq!(nav.primary_selected(), Some(3));
    assert_eq!(nav.resolved_value(), Some("four"));
    nav.move_previous();
    assert_eq!(nav.primary_selected(), Some(2));
    assert_eq!(texts(nav.secondary_keys()), vec!["k"]);
    nav.move_right();
    nav.move_previous();
    assert_eq!(nav.secondary_selected(), Some(0));
}

#[test]
fn full_round_of_next_returns_to_start() {
    let tree = wide_tree();
    let mut nav = DualPaneNavigator::new(&tree);
    nav.move_next();
    let start = nav.primary_selected();
    for _ in 0..nav.primary_keys().len() {
        nav.move_next();
    }
    assert_eq!(nav.primary_selected(), start);

    nav.move_previous();
    nav.move_right();
    nav.move_next();
    let start = nav.secondary_selected();
    assert_eq!(start, Some(1));
    for _ in 0..nav.secondary_keys().len() {
        nav.move_next();
    }
    assert_eq!(nav.secondary_selected(), start);
    assert_eq!(nav.focus(), Focus::Secondary);
}

#[test]
fn move_right_is_ignored_when_secondary_is_empty() {
    let tree = sample_tree();
    let mut nav = DualPaneNavigator::new(&tree);
    nav.move_next();
    assert!(nav.secondary_keys().is_empty());
    nav.move_right();
    assert_eq!(nav.focus(), Focus::Primary);
    assert_eq!(nav.primary_selected(), Some(1));
    assert_eq!(nav.secondary_selected(), None);
}

#[test]
fn move_right_twice_stays_in_secondary() {
    let tree = sample_tree();
    let mut nav = DualPaneNavigator::new(&tree);
    nav.move_right();
    assert_eq!(nav.focus(), Focus::Secondary);
    nav.move_right();
    assert_eq!(nav.focus(), Focus::Secondary);
    assert_eq!(nav.secondary_selected(), Some(0));
}

#[test]
fn move_left_is_ignored_in_primary() {
    let tree = sample_tree();
    let mut nav = DualPaneNavigator::new(&tree);
    nav.move_left();
    assert_eq!(nav.focus(), Focus::Primary);
    assert_eq!(nav.primary_selected(), Some(0));
    assert_eq!(nav.secondary_selected(), Some(0));
    assert_eq!(texts(nav.secondary_keys()), vec!["a", "b"]);
}

#[test]
fn move_left_keeps_secondary_cursor() {
    let tree = sample_tree();
    let mut nav = DualPaneNavigator::new(&tree);
    nav.move_right();
    nav.move_next();
    nav.move_left();
    assert_eq!(nav.focus(), Focus::Primary);
    assert_eq!(nav.secondary_selected(), Some(1));
    assert_eq!(nav.resolved_value(), Some("2"));
}

#[test]
fn resolved_value_of_item_is_its_scalar() {
    let tree = sample_tree();
    let mut nav = DualPaneNavigator::new(&tree);
    nav.move_next();
    assert_eq!(nav.secondary_selected(), None);
    assert_eq!(nav.resolved_value(), Some("leaf"));
}

#[test]
fn resolved_value_of_map_is_first_entry_after_primary_change() {
    let mut tree = StateTree::new();
    tree.insert("leaf".to_string(), item("0"));
    tree.insert("pair".to_string(), mapping(&[("a", "1"), ("b", "2")]));
    let mut nav = DualPaneNavigator::new(&tree);
    assert_eq!(nav.resolved_value(), Some("0"));
    nav.move_next();
    assert_eq!(nav.secondary_selected(), Some(0));
    assert_eq!(texts(nav.secondary_keys()), vec!["a", "b"]);
    assert_eq!(nav.resolved_value(), Some("1"));
}

#[test]
fn resolved_value_of_empty_map_is_no_selection() {
    let mut tree = StateTree::new();
    tree.insert("hollow".to_string(), StateValue::Mapping { map: StateTree::new() });
    let mut nav = DualPaneNavigator::new(&tree);
    assert_eq!(nav.primary_selected(), Some(0));
    assert!(nav.secondary_keys().is_empty());
    assert_eq!(nav.secondary_selected(), None);
    assert_eq!(nav.resolved_value(), None);
    nav.move_right();
    assert_eq!(nav.focus(), Focus::Primary);
}

#[test]
fn resolved_value_of_nested_map_is_none() {
    let mut inner = StateTree::new();
    inner.insert("deep".to_string(), mapping(&[("z", "9")]));
    inner.insert("flat".to_string(), item("7"));
    let mut tree = StateTree::new();
    tree.insert("outer".to_string(), StateValue::Mapping { map: inner });
    let mut nav = DualPaneNavigator::new(&tree);
    assert_eq!(texts(nav.secondary_keys()), vec!["deep", "flat"]);
    assert_eq!(nav.resolved_value(), None);
    nav.move_right();
    nav.move_next();
    assert_eq!(nav.resolved_value(), Some("7"));
}

#[test]
fn end_to_end_scenario() {
    let tree = sample_tree();
    let mut nav = DualPaneNavigator::new(&tree);
    assert_eq!(nav.primary_selected(), Some(0));
    assert_eq!(nav.primary_keys()[0], "x");
    assert_eq!(texts(nav.secondary_keys()), vec!["a", "b"]);
    assert_eq!(nav.secondary_selected(), Some(0));
    assert_eq!(nav.resolved_value(), Some("1"));

    nav.move_right();
    assert_eq!(nav.focus(), Focus::Secondary);

    nav.move_next();
    assert_eq!(nav.secondary_selected(), Some(1));
    assert_eq!(nav.resolved_value(), Some("2"));

    nav.move_left();
    assert_eq!(nav.focus(), Focus::Primary);

    nav.move_next();
    assert_eq!(nav.primary_selected(), Some(1));
    assert_eq!(nav.primary_keys()[1], "y");
    assert!(nav.secondary_keys().is_empty());
    assert_eq!(nav.secondary_selected(), None);
    assert_eq!(nav.resolved_value(), Some("leaf"));

    nav.move_right();
    assert_eq!(nav.focus(), Focus::Primary);
}

#[test]
fn apply_runs_each_command() {
    let tree = sample_tree();
    let mut nav = DualPaneNavigator::new(&tree);
    nav.apply(Command::MoveRight);
    assert_eq!(nav.focus(), Focus::Secondary);
    nav.apply(Command::MoveNext);
    assert_eq!(nav.secondary_selected(), Some(1));
    nav.apply(Command::MovePrevious);
    assert_eq!(nav.secondary_selected(), Some(0));
    nav.apply(Command::MoveLeft);
    assert_eq!(nav.focus(), Focus::Primary);
    nav.apply(Command::MovePrevious);
    assert_eq!(nav.primary_selected(), Some(1));
}

#[test]
fn navigator_exposes_its_tree() {
    let tree = sample_tree();
    let nav = DualPaneNavigator::new(&tree);
    assert_eq!(nav.tree(), &tree);
}
