//! Keeps one DNS "A" record pointed at the public address of the machine.
//!
//! The library holds every decision of one check-and-update cycle and performs
//! no input or output itself.  A caller sends the requests that the library
//! describes and hands back what came in; the library says what to print and
//! what to send next.

pub mod auth;
pub mod envelope;
pub mod failure;
pub mod ip;
pub mod model;
pub mod record;
pub mod request;
pub mod run;
pub mod settings;
pub mod update;
pub mod zone;
