//! A small device that exposes a number and a text as remotely callable
//! nodes, with access-gated getters, setters and change signals.

pub mod access;
pub mod value;
pub mod store;
pub mod node;
pub mod dispatch;
pub mod laws;
