//! Request handling for a small greeting service backed by a counter store.
//!
//! Each request is a [`session::Session`]: a verified state machine that says
//! which store operation to perform next and, in the end, which reply to send.
//! The store itself and the HTTP transport are driven from outside the library.
pub mod reply;
pub mod session;
pub mod laws;
