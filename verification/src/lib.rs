//! Decision logic of a handful of small games that run on a 3D engine: a
//! platformer, a role-playing game and a first-person shooter with bots.
//!
//! The engine owns the scene, the physics and the blending of animations,
//! and all of its arithmetic is in floating point. What is decided here is
//! whole: which keys set which flags, which way a character heads, how its
//! model is turned, which animation plays and which frame of it is shown,
//! when a bot follows and attacks, which rules of an animation machine are
//! set, and what a shot hits. Every function takes plain values and gives
//! plain values back.

pub mod animation;
pub mod bot;
pub mod character;
pub mod input;
pub mod machine;
pub mod platformer;
pub mod scene;
pub mod shooter;
