//! Core simulation of a grid-based maze chase game: a player agent eats
//! pellets while four ghost agents pursue it with a greedy, never-reverse
//! target-chasing rule. The simulation is tick-driven and fully deterministic;
//! rendering and input devices are left to the surrounding application.

pub mod clock;
pub mod geom;
pub mod ghosts;
pub mod maze;
pub mod mode;
pub mod player;
pub mod sim;
