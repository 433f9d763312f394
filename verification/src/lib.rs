//! Verified core of an integration layer that overlays an immediate-mode GUI
//! toolkit on a game rendering framework.
//!
//! The integration itself is a thin adapter: it forwards input events
//! (mouse motion, wheel, buttons, keys, characters) from the host framework
//! to the GUI toolkit, and it sequences two draw submissions per frame —
//! first a flush of the host's own primitives, then the toolkit's render —
//! against one shared graphics context.
//!
//! This crate states and proves that protocol. [`adapter::EguiMqInteg`]
//! carries the buffered events, the events the toolkit has received, and the
//! log of draw submissions; its methods' contracts pin down that every event
//! is delivered exactly once, unchanged and in order, that a replay never
//! redelivers, and that each render flushes the host's primitives before the
//! toolkit's.

pub mod adapter;
pub mod events;
pub mod laws;
