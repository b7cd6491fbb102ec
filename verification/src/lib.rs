//! A verified model of a stack-driven menu overlay for a game.
//!
//! The library models the pieces a hierarchical menu needs on top of an
//! entity-component scene graph: a stack of application states whose top is
//! the active state, scene construction and teardown keyed by per-scene
//! marker tags, interaction handling for the menu buttons, and the
//! controller that wires scene lifecycle hooks to state transitions.
//! Rendering, input devices and windowing are the host engine's business
//! and stay outside this crate.

pub mod events;
pub mod menus;
pub mod scene;
pub mod stack;
pub mod states;
