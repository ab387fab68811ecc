//! Simulation core of a melee combat arena: enemy decision making, player
//! movement and dodging, attack buffering, combat resolution, stamina and
//! health bookkeeping, and animation clip selection.
//!
//! All quantities are integers:
//! - time is counted in milliseconds;
//! - positions are in millimetres;
//! - requested displacements are in micrometres (a speed in mm/s times a
//!   tick in ms);
//! - vertical velocity is in mm/s;
//! - stamina is counted in thousandths of a point, so a drain of 15 points
//!   per second is 15 thousandths per millisecond;
//! - health is counted in whole points;
//! - directions are unit vectors scaled by 1000.
pub mod clock;
pub mod geom;
pub mod anim;
pub mod health;
pub mod combat;
pub mod ai;
pub mod input;
pub mod player;
