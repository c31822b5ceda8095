//! Windows, dialogs and controls.

pub mod dialog_base;
pub mod dialog_main;
pub mod events;
pub mod globals;
pub mod native_controls;
pub mod traits;
