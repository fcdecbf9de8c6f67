//! The simulation core of a side-scrolling platformer: fixed-point
//! kinematics, edge-sampled collision against static level geometry, the
//! per-actor state machine, and the tick that drives them.
//!
//! - [`fixed`], [`geometry`], [`util`], [`close_to_zero`]: numbers, vectors
//!   and rectangles. The arithmetic is that of `agb_fixnum`.
//! - [`actor`]: the live entity and its hit tests.
//! - [`behaviors`]: the update rules attached to actors, and one tick of one
//!   actor.
//! - [`registry`], [`contact`], [`game`]: the actors under their keys, kept by
//!   `slotmap`; contact between the player and the enemies; one tick of the
//!   whole game, and what to draw after it.
//! - [`level`], [`resources`], [`input`], [`sfx`], [`backgrounds`]: what the
//!   game takes from its surroundings and hands to them.
//! - [`laws`]: what holds of the dynamics, whatever the actor and the level.
//!
//! Every number of the simulation is a 32-bit word. Functions whose
//! arithmetic could leave the word name the inputs on which it does not in
//! their `requires`; for the conditions of the game and of its actors there
//! are functions that test them.

pub mod actor;
pub mod backgrounds;
pub mod behaviors;
pub mod close_to_zero;
pub mod contact;
pub mod fixed;
pub mod game;
pub mod geometry;
pub mod input;
pub mod laws;
pub mod level;
pub mod registry;
pub mod resources;
pub mod sfx;
pub mod util;
