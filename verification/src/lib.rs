//! Core simulation logic for a tower-stacking earthquake game: building
//! placement, joint construction, plate-chain earthquakes, inhabitants and
//! the player's balance, all on an integer world model.

pub mod building;
pub mod earthquake;
pub mod geometry;
pub mod inhabitants;
pub mod joint;
pub mod layers;
pub mod player;
mod rng;
pub mod sim;
pub mod timer;

