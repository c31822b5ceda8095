//! DirectShow interfaces.

pub mod imediaseeking;
