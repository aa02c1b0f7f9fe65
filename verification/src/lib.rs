pub mod combat;
pub mod player;
pub(crate) mod rng;
pub(crate) mod text;
pub mod town;
