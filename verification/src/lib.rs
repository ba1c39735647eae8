//! The verified core of a two-dimensional gravity sandbox.
//!
//! The sandbox keeps an ordered store of bodies and a camera. In every frame
//! it handles the keys (reset, the two display flags, pan and zoom), lets
//! every body be pulled by the bodies stored after it, moves the bodies, and
//! turns a completed press-drag-release gesture into a new body.
//!
//! The library is generic in the vector type of positions and velocities and
//! in the scalar type of masses, radii and zoom, and it does no arithmetic on
//! them. The numeric work (how one body pulls another, how a body moves in a
//! time step, how a drag becomes a velocity, how density and radius become a
//! mass, how far a pan goes, what scrolling makes of the zoom) is done by
//! kernels that the caller hands in as function values. The library fixes
//! which kernel is applied to what, in which order, and where its result
//! goes, and proves that nothing else changes.

pub mod body;
pub mod camera;
pub mod controls;
pub mod gesture;
pub mod sandbox;
pub mod simulation;
