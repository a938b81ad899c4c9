//! A scene graph for a real-time renderer, verified with Verus.
//!
//! A scene is a tree of groups, meshes and lights. Each node has a
//! transform relative to its parent; the walks through the tree give every
//! mesh and every light with its world transform. What the scene needs on
//! the graphics device is asked of a [`device::Device`] that takes note of
//! the requests, and a frame is laid down as a list of steps; the program
//! around the library carries both out.
//!
//! Numbers are single-precision and are held as their bit patterns. The
//! contracts speak of the numbers that the patterns stand for.

use vstd::prelude::*;

pub mod animation;
pub mod building;
pub mod camera;
pub mod device;
pub mod draw;
pub mod error;
pub mod frame;
pub mod gpu;
pub mod iterators;
pub mod laws;
pub mod light;
pub mod lighting;
pub mod math;
pub mod model;
pub mod scenegraph;
pub mod traversal;

verus! {

} // verus!
