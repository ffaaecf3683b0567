//! An editor for event scripts: the instructions of a script, their display
//! text and highlight colors, and the layout that turns a script into rows,
//! maps points to rows and tracks the selected row.

pub mod layout;
pub mod script;
pub mod util;
pub mod widget;
