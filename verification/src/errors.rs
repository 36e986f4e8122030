//! Error kinds of the animation player.
//!
//! Every error is terminal for the whole startup or playback run: there is no
//! retry, no fallback resource and no partial playback.

use vstd::prelude::*;

verus! {

/// The host environment did not offer a usable drawing surface.
#[derive(Clone, Copy, PartialEq, Eq, Structural, Debug)]
pub enum EnvironmentError {
    /// The host window is unavailable.
    NoWindow,
    /// The window has no document node.
    NoDocument,
    /// No element with the expected canvas id exists in the document.
    NoCanvasElement,
    /// The named element is not a canvas.
    NotACanvas,
    /// The canvas refused to hand out a drawing context.
    NoContext,
    /// The object returned for the drawing context is not a 2D context.
    NotA2dContext,
}

/// Fetching or decoding the frame metadata document failed.
#[derive(Clone, Copy, PartialEq, Eq, Structural, Debug)]
pub enum ResourceError {
    /// The network transport failed before a body was available.
    Transport,
    /// The response body could not be read as a JSON document.
    InvalidJson,
    /// The JSON document does not have the expected frame-table shape.
    Schema,
}

/// The host reported that the sprite image failed to load or decode.
#[derive(Clone, PartialEq, Debug)]
pub struct ImageLoadError {
    /// Host-reported description of the failure.
    pub detail: String,
}

/// A frame name computed at tick time is absent from the frame table.
#[derive(Clone, Copy, PartialEq, Eq, Structural, Debug)]
pub struct FrameLookupError {
    /// The playback cursor whose frame name had no table entry.
    pub idx: u32,
}

/// Reason startup was aborted; any of these is fatal for the process.
#[derive(Clone, PartialEq, Debug)]
pub enum StartupError {
    /// The drawing surface could not be resolved.
    Environment(EnvironmentError),
    /// The frame metadata could not be fetched or decoded.
    Resource(ResourceError),
    /// The sprite image failed to load.
    ImageLoad(ImageLoadError),
    /// A completion signal was driven in a way the protocol forbids,
    /// such as an event arriving in a state that cannot accept it.
    Protocol,
}

} // verus!
