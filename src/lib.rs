//! A filesystem with two fixed nodes: a root directory and a data-sink file
//! named `null` inside it. Every operation is a pure function of its
//! arguments and of the two node definitions; the contracts below pin down
//! each reply, including which of the error kinds is chosen.

pub mod attr;
pub mod policy;
pub mod fs;
pub mod laws;
