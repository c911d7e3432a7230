//! What holds of the aggregate operations taken together.

pub mod leagues;
pub mod session;
pub mod teams;
