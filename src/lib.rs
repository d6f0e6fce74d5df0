//! Preparation of prover witness data for committed rollup blocks: a
//! capacity-bounded pool of pending and prepared blocks, an incrementally
//! advanced account-state cache, and the witness accumulator that turns a
//! replayed block into a prover data bundle.
pub mod types;
pub mod pool;
pub mod state;
pub mod witness;
