//! COM interfaces: objects whose methods are reached through a table of
//! addresses.

pub mod dshow;
pub mod iunknown;
pub mod shell;
