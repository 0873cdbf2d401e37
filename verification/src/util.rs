//! Facts about how the library was built.
use vstd::prelude::*;

verus! {

/// How the overlay was compiled.
#[derive(PartialEq, Eq, Structural, Clone, Copy, Debug)]
pub enum BuildProfile {
    /// With debug assertions.
    Debug,
    /// Without debug assertions.
    Release,
}

/// Whether the overlay runs a build with debug assertions.
pub fn is_debug_mode(profile: BuildProfile) -> (r: bool)
    ensures
        r == (profile == BuildProfile::Debug),
{
    match profile {
        BuildProfile::Debug => true,
        BuildProfile::Release => false,
    }
}

} // verus!
