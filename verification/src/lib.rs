//! A reactive action-dispatch store.
//!
//! The crate centres on a store that holds one piece of application state,
//! applies state transitions in response to discrete actions through
//! registered handlers, and triggers secondary effects when a registered
//! condition crosses a boundary (a value becomes true or becomes false).
//! Around the store stand the value types of a terminal client: key and
//! mouse input, scrollable text panes, and the pure update rules that the
//! surrounding event loops drive.

pub mod app;
pub mod cell;
pub mod cond;
pub mod http;
pub mod input;
pub mod labels;
pub mod laws;
pub mod store;

pub use app::App;
pub use app::AppAction;
pub use app::AppHandler;
pub use cell::ReadonlyState;
pub use cell::State;
pub use cond::Cond;
pub use cond::Payload;
pub use input::Key;
pub use input::Mod;
pub use input::Mouse;
pub use input::UiEvent;
pub use store::Handler;
pub use store::Reaction;
pub use store::Store;
