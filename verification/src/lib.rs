//! A bridge that lets untrusted script code drive a host-owned drawing
//! surface, one entry-point call per animation frame.
//!
//! The bridge owns at most one loaded script module at a time.  The host
//! compiles a module once, then calls its exported `main(time)` every frame;
//! the only capability the script can reach is a single registered host
//! operation that appends a rectangle command to the surface's pending list.
//!
//! This crate verifies the bridge protocol itself: the module-slot state
//! machine, the error taxonomy of `compile` and `run`, and exactly which
//! drawing commands a frame appends to the surface.  The embedded script
//! interpreter and the real rendering surface live outside the crate; a host
//! drives them and hands their outcomes to the bridge as plain events.

pub mod engine;
pub mod surface;
