use vstd::prelude::*;

use crate::error::Error;
use crate::resolve::{spec_resolve, CapabilityDecision, EffectKind, Mechanism};
use crate::swca::{set_window_composition_attribute, spec_accent_policy, AccentState, Color};
use crate::version::{OsFamily, PlatformVersion};
use crate::window::WindowState;

verus! {

/// The documented window attribute that sets the immersive dark-mode
/// hint.
pub const DWMWA_USE_IMMERSIVE_DARK_MODE: i32 = 20;

/// The undocumented window attribute that toggles mica on early
/// Windows 11 builds.
pub const DWMWA_MICA_EFFECT: i32 = 1029;

/// The documented window attribute that selects the system backdrop
/// type.
pub const DWMWA_SYSTEMBACKDROP_TYPE: i32 = 38;

/// The system backdrop drawn behind a window, as selected through the
/// backdrop-type window attribute.
#[derive(Clone, Copy, Debug, PartialEq, Eq, Structural)]
pub enum SystemBackdropType {
    /// Let the system pick; a plain window draws no backdrop.
    Auto,
    /// Draw no backdrop.
    Disable,
    Mica,
    Acrylic,
    TabbedMica,
}

/// The raw backdrop-type value of the DWM ABI.
pub open spec fn spec_backdrop_type_value(b: SystemBackdropType) -> i32 {
    match b {
        SystemBackdropType::Auto => 0,
        SystemBackdropType::Disable => 1,
        SystemBackdropType::Mica => 2,
        SystemBackdropType::Acrylic => 3,
        SystemBackdropType::TabbedMica => 4,
    }
}

/// The raw value to marshal for this backdrop type.
pub fn backdrop_type_value(b: SystemBackdropType) -> (r: i32)
    ensures
        r == spec_backdrop_type_value(b),
{
    match b {
        SystemBackdropType::Auto => 0,
        SystemBackdropType::Disable => 1,
        SystemBackdropType::Mica => 2,
        SystemBackdropType::Acrylic => 3,
        SystemBackdropType::TabbedMica => 4,
    }
}

/// Whether the probed version is Windows 7 (version 6.1).
pub(crate) fn is_win7(version: Option<PlatformVersion>) -> (r: bool)
    ensures
        r == (version matches Some(v) && v.major == 6 && v.minor == 1),
{
    match version {
        Some(v) => v.major == 6 && v.minor == 1,
        None => false,
    }
}

/// Whether the probed version is a Windows 10 build whose
/// composition-attribute call accepts the accent states.
pub(crate) fn is_win10_swca(version: Option<PlatformVersion>) -> (r: bool)
    ensures
        r == (version matches Some(v) && v.build >= crate::resolve::SWCA_MIN_BUILD && v.build
            < crate::resolve::MICA_MIN_BUILD),
{
    match version {
        Some(v) => v.build >= crate::resolve::SWCA_MIN_BUILD && v.build
            < crate::resolve::MICA_MIN_BUILD,
        None => false,
    }
}

/// Whether the probed version is any Windows 11 build.
pub(crate) fn is_win11(version: Option<PlatformVersion>) -> (r: bool)
    ensures
        r == (version matches Some(v) && v.build >= crate::resolve::MICA_MIN_BUILD),
{
    is_at_least_build(version, crate::resolve::MICA_MIN_BUILD)
}

/// Whether the probed version understands the backdrop-type attribute.
pub(crate) fn is_win11_dwmsbt(version: Option<PlatformVersion>) -> (r: bool)
    ensures
        r == (version matches Some(v) && v.build >= crate::resolve::BACKDROP_TYPE_MIN_BUILD),
{
    is_at_least_build(version, crate::resolve::BACKDROP_TYPE_MIN_BUILD)
}

/// Whether the probed version's build number reaches `build`.
pub(crate) fn is_at_least_build(version: Option<PlatformVersion>, build: u32) -> (r: bool)
    ensures
        r == (version matches Some(v) && v.build >= build),
{
    match version {
        Some(v) => v.build >= build,
        None => false,
    }
}

/// The composition state after blur is applied through mechanism `m`.
/// The tint is ignored on Windows 7, where the legacy call takes none.
pub open spec fn spec_apply_blur_state(
    s: WindowState,
    m: Mechanism,
    color: Option<Color>,
) -> WindowState {
    match m {
        Mechanism::DwmBlurBehind => WindowState { blur_behind: true, ..s },
        Mechanism::CompositionAttribute => WindowState {
            accent: Some(spec_accent_policy(AccentState::EnableBlurBehind, color)),
            ..s
        },
        _ => s,
    }
}

/// The composition state after blur is cleared through mechanism `m`.
pub open spec fn spec_clear_blur_state(s: WindowState, m: Mechanism) -> WindowState {
    match m {
        Mechanism::DwmBlurBehind => WindowState { blur_behind: false, ..s },
        Mechanism::CompositionAttribute => WindowState {
            accent: Some(spec_accent_policy(AccentState::Disabled, None)),
            ..s
        },
        _ => s,
    }
}

/// The composition state after acrylic is applied through mechanism
/// `m`.
pub open spec fn spec_apply_acrylic_state(
    s: WindowState,
    m: Mechanism,
    color: Option<Color>,
) -> WindowState {
    match m {
        Mechanism::BackdropType => WindowState { backdrop: SystemBackdropType::Acrylic, ..s },
        Mechanism::CompositionAttribute => WindowState {
            accent: Some(spec_accent_policy(AccentState::EnableAcrylicBlurBehind, color)),
            ..s
        },
        _ => s,
    }
}

/// The composition state after acrylic is cleared through mechanism
/// `m`.
pub open spec fn spec_clear_acrylic_state(s: WindowState, m: Mechanism) -> WindowState {
    match m {
        Mechanism::BackdropType => WindowState { backdrop: SystemBackdropType::Disable, ..s },
        Mechanism::CompositionAttribute => WindowState {
            accent: Some(spec_accent_policy(AccentState::Disabled, None)),
            ..s
        },
        _ => s,
    }
}

/// The composition state after mica is applied through mechanism `m`
/// with the dark-mode choice `dark` (`None` follows the system
/// preference).
pub open spec fn spec_apply_mica_state(
    s: WindowState,
    m: Mechanism,
    dark: Option<bool>,
) -> WindowState {
    match m {
        Mechanism::BackdropType => WindowState {
            backdrop: SystemBackdropType::Mica,
            dark,
            ..s
        },
        Mechanism::MicaAttribute => WindowState { mica: true, dark, ..s },
        _ => s,
    }
}

/// The composition state after mica is cleared through mechanism `m`:
/// the backdrop and the dark-mode hint both return to their untouched
/// values.
pub open spec fn spec_clear_mica_state(s: WindowState, m: Mechanism) -> WindowState {
    match m {
        Mechanism::BackdropType => WindowState {
            backdrop: SystemBackdropType::Disable,
            dark: None,
            ..s
        },
        Mechanism::MicaAttribute => WindowState { mica: false, dark: None, ..s },
        _ => s,
    }
}

/// The composition state after tabbed mica is applied through
/// mechanism `m`.
pub open spec fn spec_apply_tabbed_state(
    s: WindowState,
    m: Mechanism,
    dark: Option<bool>,
) -> WindowState {
    match m {
        Mechanism::BackdropType => WindowState {
            backdrop: SystemBackdropType::TabbedMica,
            dark,
            ..s
        },
        _ => s,
    }
}

/// The composition state after tabbed mica is cleared through
/// mechanism `m`.
pub open spec fn spec_clear_tabbed_state(s: WindowState, m: Mechanism) -> WindowState {
    match m {
        Mechanism::BackdropType => WindowState {
            backdrop: SystemBackdropType::Disable,
            dark: None,
            ..s
        },
        _ => s,
    }
}

/// Applies blur to a Windows window: through the legacy blur-behind
/// call on Windows 7 and through the composition-attribute call from
/// Windows 10 v1809 on; any older or undetectable version is reported
/// unsupported and the state left untouched.
pub fn apply_blur(
    state: &mut WindowState,
    version: Option<PlatformVersion>,
    color: Option<Color>,
) -> (r: Result<(), Error>)
    ensures
        match spec_resolve(OsFamily::Windows, version, EffectKind::Blur) {
            CapabilityDecision::Supported(m) => r is Ok && *final(state) == spec_apply_blur_state(
                *old(state),
                m,
                color,
            ),
            CapabilityDecision::Unsupported => (r matches Err(e) && e is UnsupportedPlatformVersion)
                && *final(state) == *old(state),
        },
{
    if is_win7(version) {
        state.blur_behind = true;
        Ok(())
    } else if is_win10_swca(version) || is_win11(version) {
        set_window_composition_attribute(state, AccentState::EnableBlurBehind, color);
        Ok(())
    } else {
        Err(
            Error::UnsupportedPlatformVersion(
                "\"apply_blur()\" is only available on Windows 7, Windows 10 v1809 or newer and Windows 11.",
            ),
        )
    }
}

/// Clears blur from a Windows window through the same mechanism that
/// applied it.
pub fn clear_blur(state: &mut WindowState, version: Option<PlatformVersion>) -> (r: Result<
    (),
    Error,
>)
    ensures
        match spec_resolve(OsFamily::Windows, version, EffectKind::Blur) {
            CapabilityDecision::Supported(m) => r is Ok && *final(state) == spec_clear_blur_state(
                *old(state),
                m,
            ),
            CapabilityDecision::Unsupported => (r matches Err(e) && e is UnsupportedPlatformVersion)
                && *final(state) == *old(state),
        },
{
    if is_win7(version) {
        state.blur_behind = false;
        Ok(())
    } else if is_win10_swca(version) || is_win11(version) {
        set_window_composition_attribute(state, AccentState::Disabled, None);
        Ok(())
    } else {
        Err(
            Error::UnsupportedPlatformVersion(
                "\"clear_blur()\" is only available on Windows 7, Windows 10 v1809 or newer and Windows 11.",
            ),
        )
    }
}

/// Applies acrylic to a Windows window: through the backdrop-type
/// attribute where the build understands it, else through the
/// composition-attribute call from Windows 10 v1809 on.
pub fn apply_acrylic(
    state: &mut WindowState,
    version: Option<PlatformVersion>,
    color: Option<Color>,
) -> (r: Result<(), Error>)
    ensures
        match spec_resolve(OsFamily::Windows, version, EffectKind::Acrylic) {
            CapabilityDecision::Supported(m) => r is Ok && *final(state)
                == spec_apply_acrylic_state(*old(state), m, color),
            CapabilityDecision::Unsupported => (r matches Err(e) && e is UnsupportedPlatformVersion)
                && *final(state) == *old(state),
        },
{
    if is_win11_dwmsbt(version) {
        state.backdrop = SystemBackdropType::Acrylic;
        Ok(())
    } else if is_win10_swca(version) || is_win11(version) {
        set_window_composition_attribute(state, AccentState::EnableAcrylicBlurBehind, color);
        Ok(())
    } else {
        Err(
            Error::UnsupportedPlatformVersion(
                "\"apply_acrylic()\" is only available on Windows 10 v1809 or newer and Windows 11.",
            ),
        )
    }
}

/// Clears acrylic from a Windows window through the same mechanism
/// that applied it.
pub fn clear_acrylic(state: &mut WindowState, version: Option<PlatformVersion>) -> (r: Result<
    (),
    Error,
>)
    ensures
        match spec_resolve(OsFamily::Windows, version, EffectKind::Acrylic) {
            CapabilityDecision::Supported(m) => r is Ok && *final(state)
                == spec_clear_acrylic_state(*old(state), m),
            CapabilityDecision::Unsupported => (r matches Err(e) && e is UnsupportedPlatformVersion)
                && *final(state) == *old(state),
        },
{
    if is_win11_dwmsbt(version) {
        state.backdrop = SystemBackdropType::Disable;
        Ok(())
    } else if is_win10_swca(version) || is_win11(version) {
        set_window_composition_attribute(state, AccentState::Disabled, None);
        Ok(())
    } else {
        Err(
            Error::UnsupportedPlatformVersion(
                "\"clear_acrylic()\" is only available on Windows 10 v1809 or newer and Windows 11.",
            ),
        )
    }
}

/// Applies mica to a Windows window: through the backdrop-type
/// attribute where the build understands it, else through the legacy
/// mica attribute of early Windows 11 builds. The dark-mode hint is
/// set alongside; `None` follows the system preference.
pub fn apply_mica(
    state: &mut WindowState,
    version: Option<PlatformVersion>,
    dark: Option<bool>,
) -> (r: Result<(), Error>)
    ensures
        match spec_resolve(OsFamily::Windows, version, EffectKind::Mica) {
            CapabilityDecision::Supported(m) => r is Ok && *final(state) == spec_apply_mica_state(
                *old(state),
                m,
                dark,
            ),
            CapabilityDecision::Unsupported => (r matches Err(e) && e is UnsupportedPlatformVersion)
                && *final(state) == *old(state),
        },
{
    if is_win11_dwmsbt(version) {
        state.dark = dark;
        state.backdrop = SystemBackdropType::Mica;
        Ok(())
    } else if is_win11(version) {
        state.dark = dark;
        state.mica = true;
        Ok(())
    } else {
        Err(
            Error::UnsupportedPlatformVersion(
                "\"apply_mica()\" is only available on Windows 11.",
            ),
        )
    }
}

/// Clears mica from a Windows window through the same mechanism that
/// applied it, returning the dark-mode hint to its untouched value.
pub fn clear_mica(state: &mut WindowState, version: Option<PlatformVersion>) -> (r: Result<
    (),
    Error,
>)
    ensures
        match spec_resolve(OsFamily::Windows, version, EffectKind::Mica) {
            CapabilityDecision::Supported(m) => r is Ok && *final(state) == spec_clear_mica_state(
                *old(state),
                m,
            ),
            CapabilityDecision::Unsupported => (r matches Err(e) && e is UnsupportedPlatformVersion)
                && *final(state) == *old(state),
        },
{
    if is_win11_dwmsbt(version) {
        state.dark = None;
        state.backdrop = SystemBackdropType::Disable;
        Ok(())
    } else if is_win11(version) {
        state.dark = None;
        state.mica = false;
        Ok(())
    } else {
        Err(
            Error::UnsupportedPlatformVersion(
                "\"clear_mica()\" is only available on Windows 11.",
            ),
        )
    }
}

/// Applies tabbed mica to a Windows window. Only the backdrop-type
/// attribute can draw it, so builds below its threshold are reported
/// unsupported.
pub fn apply_tabbed(
    state: &mut WindowState,
    version: Option<PlatformVersion>,
    dark: Option<bool>,
) -> (r: Result<(), Error>)
    ensures
        match spec_resolve(OsFamily::Windows, version, EffectKind::MicaTabbed) {
            CapabilityDecision::Supported(m) => r is Ok && *final(state) == spec_apply_tabbed_state(
                *old(state),
                m,
                dark,
            ),
            CapabilityDecision::Unsupported => (r matches Err(e) && e is UnsupportedPlatformVersion)
                && *final(state) == *old(state),
        },
{
    if is_win11_dwmsbt(version) {
        state.dark = dark;
        state.backdrop = SystemBackdropType::TabbedMica;
        Ok(())
    } else {
        Err(
            Error::UnsupportedPlatformVersion(
                "\"apply_tabbed()\" is only available on Windows 11 build 22523 or newer.",
            ),
        )
    }
}

/// Clears tabbed mica from a Windows window, returning the backdrop
/// and the dark-mode hint to their untouched values.
pub fn clear_tabbed(state: &mut WindowState, version: Option<PlatformVersion>) -> (r: Result<
    (),
    Error,
>)
    ensures
        match spec_resolve(OsFamily::Windows, version, EffectKind::MicaTabbed) {
            CapabilityDecision::Supported(m) => r is Ok && *final(state) == spec_clear_tabbed_state(
                *old(state),
                m,
            ),
            CapabilityDecision::Unsupported => (r matches Err(e) && e is UnsupportedPlatformVersion)
                && *final(state) == *old(state),
        },
{
    if is_win11_dwmsbt(version) {
        state.dark = None;
        state.backdrop = SystemBackdropType::Disable;
        Ok(())
    } else {
        Err(
            Error::UnsupportedPlatformVersion(
                "\"clear_tabbed()\" is only available on Windows 11 build 22523 or newer.",
            ),
        )
    }
}

} // verus!
