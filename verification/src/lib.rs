//! A minimal windowing facade: a frame pacer that enforces a target frame
//! duration, an event funnel that turns backend input into a closed event
//! vocabulary and a strictly first-in-first-out queue, and the small amount of
//! drawing-surface state (the persistent draw colour) that the backend applies
//! to every draw call.
//!
//! The native windowing backend itself (window creation, rendering, raw event
//! polling, timers) is not part of this crate's logic: an unverified shell
//! performs those calls and hands this library plain values (tick counts and
//! translated events), so that every decision the module makes is verified.

pub mod event;
pub mod funnel;
pub mod pacer;
pub mod shape;
pub mod window;
