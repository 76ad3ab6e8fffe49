use vstd::prelude::*;

verus! {

/// The operating-system family a native window handle belongs to.
///
/// The binding recognises Windows and macOS; every other family is
/// `Other` and is rejected by every effect function.
#[derive(Clone, Copy, Debug, PartialEq, Eq, Structural)]
pub enum OsFamily {
    Windows,
    MacOs,
    Other,
}

/// An operating-system version triple `(major, minor, build)`, used only
/// for comparison against the capability thresholds of the native
/// composition mechanisms.
#[derive(Clone, Copy, Debug, PartialEq, Eq, Structural)]
pub struct PlatformVersion {
    pub major: u32,
    pub minor: u32,
    pub build: u32,
}

impl PlatformVersion {
    /// `(major, minor)` ordered at or above the given pair; the build
    /// number does not take part in this comparison.
    pub open spec fn spec_at_least(self, major: u32, minor: u32) -> bool {
        self.major > major || (self.major == major && self.minor >= minor)
    }

    pub fn at_least(&self, major: u32, minor: u32) -> (r: bool)
        ensures
            r == self.spec_at_least(major, minor),
    {
        self.major > major || (self.major == major && self.minor >= minor)
    }
}

} // verus!
