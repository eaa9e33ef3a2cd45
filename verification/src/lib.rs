//! A verified core for a terminal web browser: it reduces a parsed HTML
//! document tree to a minimal display model for a character grid, and it
//! tracks a bounded two-dimensional cursor over that grid.
pub mod browser;
pub mod config;
pub mod display;
pub mod tui;
pub mod ui;

pub use browser::NodeDataKind;
pub use browser::NodeKindSet;
pub use browser::RawNode;
pub use browser::RawNodeData;
