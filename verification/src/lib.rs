pub mod bytes;
pub mod engine;
pub mod laws;
pub mod math;
pub mod power;
pub mod proposal;
pub mod votes;
