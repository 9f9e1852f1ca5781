//! The part of the simulation parameters that the orchestration reads.
//!
//! The tunables of the simulation are numbers for the shaders alone. The
//! size of the canvas is different: the image pass is dispatched over it.

use crate::image::Texture;
use vstd::prelude::*;

verus! {

/// The simulation parameters that the frame node reads.
#[derive(Clone, Copy, Debug, PartialEq, Eq)]
pub struct SimulationParams {
    /// Width and height of the canvas, in pixels.
    pub size: (u32, u32),
}

impl Default for SimulationParams {
    /// A canvas without pixels: no size is known before the first texture.
    fn default() -> (params: SimulationParams)
        ensures
            params.size == (0u32, 0u32),
    {
        SimulationParams { size: (0, 0) }
    }
}

/// Takes the size of the canvas from the texture that is displayed. Without
/// a texture the size stays as it is.
pub fn set_size(data: &mut SimulationParams, image: Option<&Texture>)
    ensures
        final(data).size == match image {
            Some(image) => (image@.width, image@.height),
            None => old(data).size,
        },
{
    if let Some(image) = image {
        data.size = (image.width(), image.height());
    }
}

} // verus!
