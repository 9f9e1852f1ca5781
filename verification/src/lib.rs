//! Orchestration of a double-buffered GPU compute pipeline.
//!
//! A host engine owns the device, the window and the shaders. This library
//! decides what the host does with them every frame, and holds no device
//! object itself: it names textures and buffers by handle and hands the host
//! plain descriptions to carry out.
//!
//! - [`image`] holds the texture pair and replaces it when the window is
//!   resized.
//! - [`agents`] lays out the agents and decides when they are uploaded.
//! - [`params`] holds the size of the canvas.
//! - [`layout`] describes the bind group layouts and the pipelines that are
//!   compiled against them.
//! - [`bind`] derives the bind groups of a frame, or none while a resource is
//!   not ready.
//! - [`node`] follows the pipelines as they compile and plans the two compute
//!   passes of a frame.
//!
//! Within a frame the host calls them in that order: resizes and parameters
//! first, then the upload of the agents, then the bind groups, then the node.

use vstd::prelude::*;

pub mod agents;
pub mod bind;
pub mod image;
pub mod layout;
pub mod node;
pub mod params;

verus! {

/// Number of agents that one workgroup of the agent pass handles.
pub const WORKGROUP_SIZE: u32 = 32;

} // verus!
