//! The aggregate managers: what each operation asks of the store, and in
//! which order.

pub mod leagues;
pub mod teams;
