//! Numbers as the library sees them, by their place in the order, and what
//! the fourth coordinate of a vector says.

pub mod ordinal;
pub mod vector;
