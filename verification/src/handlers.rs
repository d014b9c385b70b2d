//! The decision logic of the route handlers: everything the handlers decide
//! that does not touch the database or the network lives here, split by the
//! route group it belongs to.

pub mod admin;
pub mod metrics;
pub mod public;
pub mod student;
