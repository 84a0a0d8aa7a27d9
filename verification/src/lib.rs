//! A generational slot arena: a fixed-capacity allocator that hands out
//! `(index, generation)` handles, together with component storage that
//! validates every access against the allocator, so a handle kept past its
//! slot's reuse can never reach the new occupant's data.

pub mod ecs;
pub mod model;
pub mod laws;
