//! The part of the system that manages windows.

pub mod hdwp;
