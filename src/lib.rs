//! A terminal Git client organised as a model-update-view loop: one owned
//! application state, a transition function driven by messages, and pure
//! projections of the state that a front end draws.
pub mod model;
pub mod update;
pub mod screen;
pub mod input;
