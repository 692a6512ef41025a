//! The operations of the program, one module each.

pub mod deposit;
pub mod initialize;
pub mod swap;
pub mod swap_optimized;
pub mod swap_simple;
pub mod withdraw;
