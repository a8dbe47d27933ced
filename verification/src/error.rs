use vstd::prelude::*;

verus! {

/// The strictly ordered creation steps that can fail while a native window is
/// being brought up. A creation failure names the first failing step.
#[derive(Clone, Copy, Debug, PartialEq, Eq, Structural)]
pub enum CreationStage {
    ClassRegistration,
    HandleCreation,
    ContextAcquisition,
}

/// Every failure this library surfaces to its caller.
///
/// - `RegistrationFailed`: the operating system rejected the window-class
///   descriptor.
/// - `CreationFailed`: acquiring a native resource failed, tagged with the
///   first failing stage.
/// - `PlatformCallFailed`: a mutation or query of a live native resource
///   failed; no partial update is left visible.
/// - `InvalidArgument`: malformed input to a low-level entry point, such as a
///   null handle value.
#[derive(Clone, Copy, Debug, PartialEq, Eq, Structural)]
pub enum WindowError {
    RegistrationFailed,
    CreationFailed { stage: CreationStage },
    PlatformCallFailed,
    InvalidArgument,
}

} // verus!
