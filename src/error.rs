//! The failures a run can meet.
use vstd::prelude::*;
use crate::media::ElementType;

verus! {

/// Why a step of building or running the graph failed.
#[derive(Debug)]
pub enum RunError {
    /// The engine has no factory for this element type.
    UnavailableElement(ElementType),
    /// An encoding profile could not be built from its targets.
    ProfileBuildFailed,
    /// A profile was applied to an encoder that already had one, or that was running.
    ProfileAlreadyApplied,
    /// The encoder/muxer did not grant an input port.
    PortRequestDenied,
    /// Two ports could not be linked, or nodes could not be added to the graph.
    LinkFailed,
    /// A new output offered no negotiated capabilities.
    UnnegotiatedCapabilities,
    /// A node refused a configuration value.
    PropertyRejected,
    /// The engine refused a run-state change.
    EngineStateRejected,
    /// The engine reported an error while running.
    EngineFatal { source: String, message: String },
    /// The input path names no file.
    NoFileName,
    /// The overlay image could not be loaded.
    OverlayUnreadable,
}

} // verus!
