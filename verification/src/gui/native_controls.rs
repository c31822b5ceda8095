//! The controls that the system itself provides.

pub mod opts_id;
pub mod radio_button;
