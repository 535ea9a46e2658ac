//! The two capturer variants layered on the duplication session: one that
//! takes over a caller-supplied destination buffer, one that allocates its
//! own and detects cursor-shape changes by double buffering.

pub mod custom;
pub mod simple;
