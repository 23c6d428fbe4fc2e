//! Move hooks for an open-addressed hash table: the way a stored value is told
//! which bucket it occupies, each time the table places it.

pub mod laws;
pub mod move_hook;
pub mod pair_hook;
