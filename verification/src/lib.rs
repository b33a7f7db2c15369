//! Navigation model for a two-pane browser over a contract's key-value state.
//!
//! The first pane lists the top-level keys of a [`StateTree`]; the second pane
//! lists the keys below the entry that is selected in the first one. The
//! [`DualPaneNavigator`] keeps both cursors and the focus consistent with the
//! tree while the user moves around.

pub mod chain;
pub mod laws;
pub mod model;
pub mod navigator;
pub mod session;
mod text;
pub mod tree;

pub use chain::{find_chain_by_prefix, InvalidAddress};
pub use model::{Command, Focus};
pub use navigator::DualPaneNavigator;
pub use session::{poll_timeout, App, Flow, Key};
pub use tree::{KeyNotFound, StateTree, StateValue};
