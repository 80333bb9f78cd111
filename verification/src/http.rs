//! The HTTP side of the service.

pub mod credential;
