//! Animation and physics core of a side-scrolling runner: a fixed-timestep
//! game loop, a typed character state machine and a key-state snapshot.
//! Rendering, asset loading and browser plumbing live outside this library.
pub mod engine;
pub mod game;
pub mod sprite;
