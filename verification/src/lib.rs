pub mod grid;
mod rng;
pub mod sim;
pub mod walker;
