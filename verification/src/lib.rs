//! Request logic of a small posting service: the rules a new user must meet,
//! the statements handed to the store, and the replies sent back.

pub mod date;
pub mod gateway;
pub mod handlers;
pub mod model;
pub mod readback;
pub mod requests;
pub mod tables;
pub mod validation;
