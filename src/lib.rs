//! Snowflake-style 64-bit identifier generation: a per-machine generator with a
//! sliding 12-bit sequence ring, a round-robin pool of generators, and the
//! one-byte request / eight-byte response wire codec that serves them.

pub mod clock;
pub mod generator;
pub mod multi_generator;
pub mod server;
