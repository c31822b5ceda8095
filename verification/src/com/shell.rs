//! Shell interfaces.

pub mod co;
pub mod ifilesavedialog;
