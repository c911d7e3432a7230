//! From what a caller sends to an operation on an aggregate.

pub mod leagues;
