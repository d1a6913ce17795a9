//! A two-player air hockey table: the rules of the rink, the state of a match
//! as each player sees it, the packets the players exchange, the menu that
//! starts a match, and the lines of text drawn over it.
//!
//! Coordinates and speeds are binary32 numbers, held as their bit patterns
//! (see [`scalar::Scalar`]). The library orders, clamps and negates them; the
//! sums, products and roots of a frame are the caller's.

pub mod hud;
pub mod laws;
pub mod menu;
pub mod packet;
pub mod rink;
pub mod scalar;
pub mod session;
