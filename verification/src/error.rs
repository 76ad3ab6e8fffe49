use vstd::prelude::*;

verus! {

/// Why an effect call failed.
///
/// Every failure is returned as a value, never panicked on and never
/// silently swallowed; retrying is the caller's decision. A failed call
/// leaves the window's composition state untouched.
#[derive(Clone, Copy, Debug, PartialEq, Eq)]
pub enum Error {
    /// The window's operating-system family has no implementation of
    /// the requested effect at all.
    UnsupportedPlatform(&'static str),
    /// The family is right, but the running version lacks every
    /// mechanism that could realise the effect.
    UnsupportedPlatformVersion(&'static str),
    /// A macOS effect was requested off the designated main thread.
    NotMainThread(&'static str),
    /// The supplied handle could not be resolved to a native window.
    NoWindowHandle,
}

impl Error {
    /// A human-readable description of the failure.
    pub fn message(&self) -> (r: &'static str)
        ensures
            self matches Error::UnsupportedPlatform(s) ==> r == s,
            self matches Error::UnsupportedPlatformVersion(s) ==> r == s,
            self matches Error::NotMainThread(s) ==> r == s,
    {
        match self {
            Error::UnsupportedPlatform(s) => s,
            Error::UnsupportedPlatformVersion(s) => s,
            Error::NotMainThread(s) => s,
            Error::NoWindowHandle => "the supplied handle is not a native window",
        }
    }
}

} // verus!
