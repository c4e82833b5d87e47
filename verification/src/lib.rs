//! Core of a community music-request service: link parsing and resolution,
//! event routing, a small login dialogue, and the accept/decline approval
//! workflow, all specified and verified. Transport and catalog I/O live in
//! the surrounding application; this crate computes every decision and every
//! outbound text from plain values.

pub mod dialogue;
pub mod pattern;
pub mod render;
pub mod resolver;
pub mod router;
pub mod spotify;
pub mod workflow;
