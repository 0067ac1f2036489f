//! Simulation core of a two-paddle ball game.
//!
//! The playfield is a 256 x 144 court centered on the origin. A single
//! ball bounces between a human-driven paddle on the left and a
//! heuristic-driven paddle on the right; goals are scored past the
//! vertical court edges and a side winning eleven points resets the
//! match. All quantities are fixed-point integers: coordinates,
//! velocities and speeds count thousandths of a world unit, delta-time
//! counts thousandths of a second. Every state change of a tick is
//! specified exactly and verified.

pub mod ai;
pub mod ball;
pub mod collide;
pub mod fixed;
pub mod game;
pub mod paddle;
pub mod player;
