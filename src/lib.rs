//! Decision logic of a portal renderer: the stencil-masked frame plan with a
//! model of the pipeline state it drives, the double-buffered game state,
//! movement intents, frame timing and mesh topology.
pub mod clock;
pub mod entity;
pub mod game;
pub mod input;
pub mod mesh;
pub mod render;
pub mod stencil;
