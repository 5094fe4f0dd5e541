//! The rules of a small cave-and-paper adventure: what the player holds, what
//! lies in the world, when input is frozen, and how sprites animate.

pub mod animation;
mod chance;
pub mod clock;
pub mod dialogue;
pub mod dino;
pub mod effects;
pub mod fire;
pub mod inventory;
pub mod level;
pub mod movement;
pub mod paper;
pub mod player;
pub mod screens;
pub mod wife;
pub mod world;
