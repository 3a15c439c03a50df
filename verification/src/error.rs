use vstd::prelude::*;

verus! {

/// An environment fault: a condition the host reported (or failed to report)
/// that the capture layer cannot recover from. Callers should stop rather
/// than attempt capture after seeing one of these.
#[derive(Clone, Copy, Debug, PartialEq, Eq, Structural)]
pub enum EnvError {
    /// The OS version string could not be read at all.
    VersionUnreadable,
    /// The OS-designated main display was missing from the display
    /// enumeration taken at the same moment.
    MainDisplayMissing,
}

} // verus!
