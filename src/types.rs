//! Values shared by installers and the update protocol.

use vstd::prelude::*;

verus! {

/// Whether and against which installed version to look for an update.
#[derive(Debug, Clone)]
pub enum UpdateCheck {
    /// Do not check (the application is pinned).
    No,
    /// Check for a release newer than this installed version.
    Yes(String),
}

} // verus!
