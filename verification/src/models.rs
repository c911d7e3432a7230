//! The rows of the schema and the records handed to callers.

pub mod leagues;
pub mod teams;
pub mod users;
