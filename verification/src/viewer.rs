//! Lifecycle of the 3D model viewer: a bridge that mounts a canvas,
//! asks an external rendering engine to initialize a scene after a
//! short mount delay, and drops its loading indicator once the engine
//! signals completion.

use vstd::prelude::*;

verus! {

/// Where the viewer stands: freshly mounted (the init delay still
/// pending), waiting on the engine, or ready with the scene on screen.
#[derive(Clone, Copy, PartialEq, Eq, Debug, Structural)]
pub enum ViewerPhase {
    Mounted,
    Initializing,
    Ready,
}

impl ViewerPhase {
    /// A freshly mounted viewer, its init delay still pending.
    pub fn new() -> (p: ViewerPhase)
        ensures
            p is Mounted,
    {
        ViewerPhase::Mounted
    }

    /// The mount delay elapsed. Returns whether the engine should now
    /// be asked to initialize the scene: exactly once, on the first
    /// expiry; a stale delay changes nothing.
    pub fn mount_delay_elapsed(&mut self) -> (start: bool)
        ensures
            *old(self) is Mounted ==> *final(self) is Initializing && start,
            !(*old(self) is Mounted) ==> *final(self) == *old(self) && !start,
    {
        match self {
            ViewerPhase::Mounted => {
                *self = ViewerPhase::Initializing;
                true
            },
            _ => false,
        }
    }

    /// The engine signalled completion: the scene is ready, whenever
    /// the signal arrives.
    pub fn engine_completed(&mut self)
        ensures
            *final(self) is Ready,
    {
        *self = ViewerPhase::Ready;
    }

    /// Whether the loading indicator is shown: until the engine has
    /// signalled completion, and never after.
    pub fn is_loading(&self) -> (b: bool)
        ensures
            b == (*self !is Ready),
    {
        match self {
            ViewerPhase::Ready => false,
            _ => true,
        }
    }
}

/// The model a viewer shows: the requested path, or the default model
/// when none is given.
pub open spec fn spec_model_path(requested: Seq<char>) -> Seq<char> {
    if requested.len() == 0 {
        "/static/cathedral/cathedral.obj"@
    } else {
        requested
    }
}

/// Resolves the model path, as `spec_model_path` describes.
pub fn model_path(requested: &str) -> (p: String)
    ensures
        p@ == spec_model_path(requested@),
{
    if requested.is_empty() {
        "/static/cathedral/cathedral.obj".to_owned()
    } else {
        requested.to_owned()
    }
}

} // verus!
