use vstd::prelude::*;

use crate::macos::{NSVisualEffectMaterial, NSVisualEffectState};
use crate::swca::{AccentPolicy, ACCENT_DISABLED};
use crate::version::{OsFamily, PlatformVersion};
use crate::windows::SystemBackdropType;

verus! {

/// The `NSVisualEffectView` placed behind a macOS window's content
/// view: the material actually set on it and its state.
#[derive(Clone, Copy, Debug, PartialEq, Eq, Structural)]
pub struct VibrancyEffect {
    pub material: NSVisualEffectMaterial,
    pub state: NSVisualEffectState,
}

/// The composition state the operating system holds for one window, as
/// the compositor would report it: one field per native attribute this
/// library can set.
#[derive(Clone, Copy, Debug, PartialEq, Eq, Structural)]
pub struct WindowState {
    /// Whether the legacy Windows 7 DWM blur-behind is enabled.
    pub blur_behind: bool,
    /// The accent policy last set through the composition-attribute
    /// call, or `None` if it was never set.
    pub accent: Option<AccentPolicy>,
    /// The system backdrop type attribute.
    pub backdrop: SystemBackdropType,
    /// Whether the legacy mica attribute of early Windows 11 builds is
    /// set.
    pub mica: bool,
    /// The immersive dark-mode attribute: `None` follows the system
    /// preference.
    pub dark: Option<bool>,
    /// The vibrancy view behind a macOS window's content, if one was
    /// added.
    pub vibrancy: Option<VibrancyEffect>,
}

impl WindowState {
    /// The state of a window that no effect call has ever touched.
    pub open spec fn spec_unaffected() -> WindowState {
        WindowState {
            blur_behind: false,
            accent: None,
            backdrop: SystemBackdropType::Auto,
            mica: false,
            dark: None,
            vibrancy: None,
        }
    }

    /// The composition state of a freshly created window.
    pub fn unaffected() -> (r: WindowState)
        ensures
            r == WindowState::spec_unaffected(),
    {
        WindowState {
            blur_behind: false,
            accent: None,
            backdrop: SystemBackdropType::Auto,
            mica: false,
            dark: None,
            vibrancy: None,
        }
    }
}

/// The accent policy as the compositor observes it: a policy whose
/// accent state is `ACCENT_DISABLED` renders exactly as no policy at
/// all, so both observe as `None`.
pub open spec fn spec_accent_observed(accent: Option<AccentPolicy>) -> Option<AccentPolicy> {
    match accent {
        Some(p) => if p.accent_state == ACCENT_DISABLED {
            None
        } else {
            Some(p)
        },
        None => None,
    }
}

/// The backdrop type as the compositor observes it: `Auto` on a plain
/// window and `Disable` both render no backdrop, so both observe as
/// `Auto`.
pub open spec fn spec_backdrop_observed(b: SystemBackdropType) -> SystemBackdropType {
    if b is Disable {
        SystemBackdropType::Auto
    } else {
        b
    }
}

/// Whether two composition states are observably equivalent: the
/// compositor renders the same window for both.
pub open spec fn spec_observably_equivalent(a: WindowState, b: WindowState) -> bool {
    &&& a.blur_behind == b.blur_behind
    &&& spec_accent_observed(a.accent) == spec_accent_observed(b.accent)
    &&& spec_backdrop_observed(a.backdrop) == spec_backdrop_observed(b.backdrop)
    &&& a.mica == b.mica
    &&& a.dark == b.dark
    &&& a.vibrancy == b.vibrancy
}

/// Whether the compositor observes no effect at all on this state: it
/// renders as a window that no effect call ever touched.
pub open spec fn spec_no_effect_observed(s: WindowState) -> bool {
    spec_observably_equivalent(s, WindowState::spec_unaffected())
}

/// A native top-level window as this library models it: the family its
/// handle belongs to, what the version and main-thread probes report
/// for the process, and the composition state the operating system
/// holds for the window.
///
/// The window itself is owned by the caller's windowing toolkit; this
/// model carries exactly what the effect calls read and write. Probed
/// values are carried rather than looked up so that any family and
/// version combination can be driven through the library.
#[derive(Clone, Copy, Debug, PartialEq, Eq, Structural)]
pub struct Window {
    /// The family of the native handle.
    pub os: OsFamily,
    /// What the version probe reports; `None` if it failed.
    pub version: Option<PlatformVersion>,
    /// Whether calls on this window run on the designated UI thread.
    pub main_thread: bool,
    /// The window's composition state.
    pub state: WindowState,
}

impl Window {
    /// A window of the given family and probed version whose
    /// composition state no effect call has touched, driven from the
    /// designated UI thread.
    pub fn new(os: OsFamily, version: Option<PlatformVersion>) -> (r: Window)
        ensures
            r == (Window {
                os,
                version,
                main_thread: true,
                state: WindowState::spec_unaffected(),
            }),
    {
        Window { os, version, main_thread: true, state: WindowState::unaffected() }
    }

    /// The same window driven from a thread other than the designated
    /// UI thread.
    pub fn off_main_thread(self) -> (r: Window)
        ensures
            r == (Window { main_thread: false, ..self }),
    {
        Window { main_thread: false, ..self }
    }
}

} // verus!
