//! Core of a render-farm worker agent: message schema, frame codec,
//! line-pattern matchers, the process supervisor and the control loop,
//! each as verified state transitions over plain values.

pub mod control;
pub mod executor;
pub mod ipc;
pub mod messages;
pub mod parser;
pub mod pattern;
pub mod text;
