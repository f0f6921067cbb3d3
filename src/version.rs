use vstd::prelude::*;

verus! {

/// A driver API version `major.minor.patch`, as the loader reports it.
#[derive(Clone, Copy, Debug, PartialEq, Eq, Structural)]
pub struct DriverVersion {
    pub major: u32,
    pub minor: u32,
    pub patch: u32,
}

/// Versions compare lexicographically: major, then minor, then patch.
pub open spec fn version_at_least(v: DriverVersion, min: DriverVersion) -> bool {
    v.major > min.major || (v.major == min.major && (v.minor > min.minor || (v.minor
        == min.minor && v.patch >= min.patch)))
}

/// The first driver version from which macOS drivers need the portability shim.
pub open spec fn portability_threshold() -> DriverVersion {
    DriverVersion { major: 1, minor: 3, patch: 216 }
}

impl DriverVersion {
    pub fn new(major: u32, minor: u32, patch: u32) -> (r: DriverVersion)
        ensures
            r == (DriverVersion { major, minor, patch }),
    {
        DriverVersion { major, minor, patch }
    }

    /// Whether `self` is `min` or a later version.
    pub fn at_least(&self, min: &DriverVersion) -> (r: bool)
        ensures
            r == version_at_least(*self, *min),
    {
        if self.major != min.major {
            self.major > min.major
        } else if self.minor != min.minor {
            self.minor > min.minor
        } else {
            self.patch >= min.patch
        }
    }
}

/// The version `1.3.216`, from which macOS drivers need the portability shim.
pub fn portability_macos_version() -> (r: DriverVersion)
    ensures
        r == portability_threshold(),
{
    DriverVersion::new(1, 3, 216)
}

} // verus!
