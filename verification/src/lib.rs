//! The deciding half of a binding to the native window system.
//!
//! Nothing here touches the system. Every function either builds the exact
//! request that is to be put to it, or reads what it answered; the caller
//! carries the request over and brings the answer back.

#![allow(non_camel_case_types, non_snake_case)]

pub mod co;
pub mod com;
pub mod gui;
pub mod handles;
pub mod msg;
pub mod structs;
pub mod sys;
pub mod user;
