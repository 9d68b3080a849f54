//! Control core of a smart lamp: event dispatch, a persisted configuration
//! store with eased transitions, debounce and coalescing coordinators, and a
//! per-pixel stochastic animation engine.

pub mod button;
pub mod color;
pub mod common;
pub mod coordinator;
pub mod encoder;
pub mod lights;
pub mod manager;
pub mod mode;
pub mod rng;
pub mod store;
pub mod switch;
pub mod walker;
