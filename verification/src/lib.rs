//! Geometry bookkeeping for rows of animated, rotated rectangles that are
//! drawn with one triangle each.
//!
//! The crate owns everything about such a row that is decided by counting:
//!
//! - which place a rectangle takes in the row and which way it turns
//!   ([`layout`]);
//! - where the corners of its triangle are stored and which indices draw
//!   them ([`geometry`]);
//! - how a vertex is laid out and what bytes a buffer receives
//!   ([`vertex`], [`packing`]);
//! - how large the buffers of a painter are, when they grow and what a draw
//!   call reads from them ([`painter`]);
//! - which painter a widget's handle names ([`arena`]).
//!
//! Coordinates, angles and colours are never interpreted here: they pass
//! through as 32-bit patterns or as values of the caller's own types. The
//! caller supplies the numeric kernels as closures, and the crate fixes the
//! order in which they run and where their results are stored.

pub mod arena;
pub mod geometry;
pub mod layout;
pub mod packing;
pub mod painter;
pub mod vertex;
