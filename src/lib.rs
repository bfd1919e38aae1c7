//! Rules engine of a polygon-batting arcade game: level progression, side
//! configuration, ball spawning, and the effects that a collision between a
//! ball and a side or a score area has on the game state.

pub mod sides;
pub mod level;
pub mod ball;
pub mod spawner;
pub mod session;
pub mod screens;
pub mod clock;
