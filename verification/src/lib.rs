//! The decision logic of a 2D top-down spaceship game: reactor power,
//! weapon power budgeting, firing, targeting, game-flow controls and the
//! display states of the HUD, each function with a verified contract.

pub mod controls;
pub mod display;
pub mod energy;
pub mod firing;
pub mod loadout;
pub mod picking;
pub mod targets;
pub mod weapon_panel;
pub mod weapon_power;
