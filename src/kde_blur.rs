//! What the compositor does with the requests of the KDE blur protocol.
use vstd::prelude::*;

verus! {

/// The protocol version that the blur manager global is announced with.
pub const PROTOCOL_VERSION: u32 = 1;

/// State of the blur manager global.
#[derive(Clone, Copy, Debug, PartialEq, Eq, Structural)]
pub struct OrgKdeKwinBlurManagerState {}

/// A request to the blur manager.
#[derive(Clone, Copy, Debug, PartialEq, Eq, Structural)]
pub enum ManagerRequest {
    /// Create a blur object for a surface.
    Create,
    /// Remove the blur of a surface.
    Unset,
    /// A request this compositor does not know.
    Unknown,
}

/// A request to a blur object of a surface.
#[derive(Clone, Copy, Debug, PartialEq, Eq, Structural)]
pub enum BlurRequest {
    /// Apply the blur to the surface.
    Commit,
    /// Restrict the blur to a region.
    SetRegion,
    /// Destroy the blur object.
    Release,
    /// A request this compositor does not know.
    Unknown,
}

/// What the compositor does in answer to a request.
#[derive(Clone, Copy, Debug, PartialEq, Eq, Structural)]
pub enum BlurAction {
    /// Create the blur object, bound to its surface.
    InitBlurObject,
    /// Turn blur on for the surface.
    EnableBlur,
    /// Turn blur off for the surface.
    DisableBlur,
    /// Nothing to do.
    Nothing,
    /// Nothing to do; the request is reported as unsupported.
    Unsupported,
}

impl OrgKdeKwinBlurManagerState {
    /// The state of a newly announced manager global.
    pub fn new() -> (r: Self)
        ensures
            r == (OrgKdeKwinBlurManagerState {}),
    {
        OrgKdeKwinBlurManagerState {}
    }

    /// The answer to a request to the manager: `Create` makes a blur object,
    /// `Unset` turns the surface's blur off.
    pub fn manager_action(req: ManagerRequest) -> (r: BlurAction)
        ensures
            req == ManagerRequest::Create ==> r == BlurAction::InitBlurObject,
            req == ManagerRequest::Unset ==> r == BlurAction::DisableBlur,
            req == ManagerRequest::Unknown ==> r == BlurAction::Unsupported,
    {
        match req {
            ManagerRequest::Create => BlurAction::InitBlurObject,
            ManagerRequest::Unset => BlurAction::DisableBlur,
            ManagerRequest::Unknown => BlurAction::Unsupported,
        }
    }

    /// The answer to a request to a blur object: `Commit` turns the surface's
    /// blur on; regions are not supported and are ignored, as is `Release`.
    pub fn blur_action(req: BlurRequest) -> (r: BlurAction)
        ensures
            req == BlurRequest::Commit ==> r == BlurAction::EnableBlur,
            req == BlurRequest::SetRegion ==> r == BlurAction::Nothing,
            req == BlurRequest::Release ==> r == BlurAction::Nothing,
            req == BlurRequest::Unknown ==> r == BlurAction::Unsupported,
    {
        match req {
            BlurRequest::Commit => BlurAction::EnableBlur,
            BlurRequest::SetRegion => BlurAction::Nothing,
            BlurRequest::Release => BlurAction::Nothing,
            BlurRequest::Unknown => BlurAction::Unsupported,
        }
    }
}

} // verus!
