use vstd::prelude::*;

use crate::error::Error;
use crate::resolve::{spec_resolve, CapabilityDecision, EffectKind, Mechanism};
use crate::version::{OsFamily, PlatformVersion};
use crate::window::{VibrancyEffect, WindowState};

verus! {

/// The material of an `NSVisualEffectView`, the AppKit view that gives a
/// macOS window a vibrant backdrop.
///
/// Each material became available with a particular macOS release:
/// `AppearanceBased`, `Light`, `Dark`, `Titlebar` and `Selection` with
/// 10.10, `MediumLight`, `UltraDark`, `Menu`, `Popover` and `Sidebar`
/// with 10.11, and the remaining semantic materials with 10.14. On an
/// older system a request for a newer material silently falls back to
/// `AppearanceBased`; see [`effective_material`].
///
/// The raw value AppKit expects for each variant is given by
/// [`material_code`].
#[derive(Clone, Copy, Debug, PartialEq, Eq, Structural)]
pub enum NSVisualEffectMaterial {
    AppearanceBased,
    Light,
    Dark,
    MediumLight,
    UltraDark,
    Titlebar,
    Selection,
    Menu,
    Popover,
    Sidebar,
    HeaderView,
    Sheet,
    WindowBackground,
    HudWindow,
    FullScreenUI,
    Tooltip,
    ContentBackground,
    UnderWindowBackground,
    UnderPageBackground,
}

/// The state of an `NSVisualEffectView`: whether the backdrop is drawn
/// as active, as inactive, or follows the window's own active state.
#[derive(Clone, Copy, Debug, PartialEq, Eq, Structural)]
pub enum NSVisualEffectState {
    /// Make window vibrancy state follow the window's active state.
    FollowsWindowActiveState,
    /// Make window vibrancy state always active.
    Active,
    /// Make window vibrancy state always inactive.
    Inactive,
}

/// The raw `NSVisualEffectMaterial` value of the AppKit ABI.
pub open spec fn spec_material_code(m: NSVisualEffectMaterial) -> u64 {
    match m {
        NSVisualEffectMaterial::AppearanceBased => 0,
        NSVisualEffectMaterial::Light => 1,
        NSVisualEffectMaterial::Dark => 2,
        NSVisualEffectMaterial::MediumLight => 8,
        NSVisualEffectMaterial::UltraDark => 9,
        NSVisualEffectMaterial::Titlebar => 3,
        NSVisualEffectMaterial::Selection => 4,
        NSVisualEffectMaterial::Menu => 5,
        NSVisualEffectMaterial::Popover => 6,
        NSVisualEffectMaterial::Sidebar => 7,
        NSVisualEffectMaterial::HeaderView => 10,
        NSVisualEffectMaterial::Sheet => 11,
        NSVisualEffectMaterial::WindowBackground => 12,
        NSVisualEffectMaterial::HudWindow => 13,
        NSVisualEffectMaterial::FullScreenUI => 15,
        NSVisualEffectMaterial::Tooltip => 17,
        NSVisualEffectMaterial::ContentBackground => 18,
        NSVisualEffectMaterial::UnderWindowBackground => 21,
        NSVisualEffectMaterial::UnderPageBackground => 22,
    }
}

/// The raw value to hand to AppKit's `setMaterial:` for this material.
pub fn material_code(m: NSVisualEffectMaterial) -> (r: u64)
    ensures
        r == spec_material_code(m),
{
    match m {
        NSVisualEffectMaterial::AppearanceBased => 0,
        NSVisualEffectMaterial::Light => 1,
        NSVisualEffectMaterial::Dark => 2,
        NSVisualEffectMaterial::MediumLight => 8,
        NSVisualEffectMaterial::UltraDark => 9,
        NSVisualEffectMaterial::Titlebar => 3,
        NSVisualEffectMaterial::Selection => 4,
        NSVisualEffectMaterial::Menu => 5,
        NSVisualEffectMaterial::Popover => 6,
        NSVisualEffectMaterial::Sidebar => 7,
        NSVisualEffectMaterial::HeaderView => 10,
        NSVisualEffectMaterial::Sheet => 11,
        NSVisualEffectMaterial::WindowBackground => 12,
        NSVisualEffectMaterial::HudWindow => 13,
        NSVisualEffectMaterial::FullScreenUI => 15,
        NSVisualEffectMaterial::Tooltip => 17,
        NSVisualEffectMaterial::ContentBackground => 18,
        NSVisualEffectMaterial::UnderWindowBackground => 21,
        NSVisualEffectMaterial::UnderPageBackground => 22,
    }
}

/// The raw `NSVisualEffectState` value of the AppKit ABI.
pub open spec fn spec_state_code(s: NSVisualEffectState) -> u64 {
    match s {
        NSVisualEffectState::FollowsWindowActiveState => 0,
        NSVisualEffectState::Active => 1,
        NSVisualEffectState::Inactive => 2,
    }
}

/// The raw value to hand to AppKit's `setState:` for this state.
pub fn state_code(s: NSVisualEffectState) -> (r: u64)
    ensures
        r == spec_state_code(s),
{
    match s {
        NSVisualEffectState::FollowsWindowActiveState => 0,
        NSVisualEffectState::Active => 1,
        NSVisualEffectState::Inactive => 2,
    }
}

/// The least macOS `(major, minor)` release that offers this material.
pub open spec fn spec_material_min_minor(m: NSVisualEffectMaterial) -> u32 {
    if spec_material_code(m) > 9 {
        14
    } else if spec_material_code(m) > 4 {
        11
    } else {
        10
    }
}

/// Whether the running release offers this material at all.
pub open spec fn spec_material_available(m: NSVisualEffectMaterial, v: PlatformVersion) -> bool {
    v.spec_at_least(10, spec_material_min_minor(m))
}

/// The material actually set on the view: the requested one where the
/// release offers it, else the legacy default `AppearanceBased`.
pub open spec fn spec_effective_material(
    m: NSVisualEffectMaterial,
    v: PlatformVersion,
) -> NSVisualEffectMaterial {
    if spec_material_min_minor(m) > 10 && !spec_material_available(m, v) {
        NSVisualEffectMaterial::AppearanceBased
    } else {
        m
    }
}

/// Downgrades a material request to what the running release offers.
/// A material introduced by a later release than `v` is silently
/// replaced by the legacy default rather than reported as an error.
pub fn effective_material(
    m: NSVisualEffectMaterial,
    v: &PlatformVersion,
) -> (r: NSVisualEffectMaterial)
    ensures
        r == spec_effective_material(m, *v),
{
    let code = material_code(m);
    if code > 9 && !v.at_least(10, 14) {
        NSVisualEffectMaterial::AppearanceBased
    } else if code > 4 && !v.at_least(10, 11) {
        NSVisualEffectMaterial::AppearanceBased
    } else {
        m
    }
}

/// A vibrancy request for a material that the running release does
/// not yet offer resolves to the visual-effect-view mechanism with the
/// legacy default material silently substituted — not to an error —
/// provided the release supports vibrancy at all.
pub proof fn lemma_vibrancy_downgrade(m: NSVisualEffectMaterial, v: PlatformVersion)
    requires
        v.spec_at_least(10, 10),
        !spec_material_available(m, v),
    ensures
        spec_resolve(OsFamily::MacOs, Some(v), EffectKind::VibrancyMaterial(m))
            == CapabilityDecision::Supported(
            Mechanism::VisualEffectView(NSVisualEffectMaterial::AppearanceBased),
        ),
{
}

/// The composition state after a vibrancy view is added through
/// mechanism `m`. The view's material is the one the mechanism
/// carries — the resolver already downgraded it to what the release
/// offers — and a missing state request follows the window's active
/// state.
pub open spec fn spec_apply_vibrancy_state(
    s: WindowState,
    m: Mechanism,
    state: Option<NSVisualEffectState>,
) -> WindowState {
    match m {
        Mechanism::VisualEffectView(mat) => WindowState {
            vibrancy: Some(
                VibrancyEffect {
                    material: mat,
                    state: match state {
                        Some(x) => x,
                        None => NSVisualEffectState::FollowsWindowActiveState,
                    },
                },
            ),
            ..s
        },
        _ => s,
    }
}

/// Adds a vibrancy view behind a macOS window's content view.
///
/// The version gate comes first: below macOS 10.10, or with an
/// undetectable version, the call is reported unsupported. On a
/// supported release the call must run on the designated UI thread;
/// off it the error is reported and nothing is mutated. A material the
/// release does not offer silently falls back to the legacy default
/// rather than erroring.
pub fn apply_vibrancy(
    state: &mut WindowState,
    version: Option<PlatformVersion>,
    main_thread: bool,
    material: NSVisualEffectMaterial,
    effect_state: Option<NSVisualEffectState>,
) -> (r: Result<(), Error>)
    ensures
        match spec_resolve(OsFamily::MacOs, version, EffectKind::VibrancyMaterial(material)) {
            CapabilityDecision::Supported(m) => if main_thread {
                r is Ok && *final(state) == spec_apply_vibrancy_state(*old(state), m, effect_state)
            } else {
                (r matches Err(e) && e is NotMainThread) && *final(state) == *old(state)
            },
            CapabilityDecision::Unsupported => (r matches Err(e) && e is UnsupportedPlatformVersion)
                && *final(state) == *old(state),
        },
{
    let supported_version: Option<PlatformVersion> = match version {
        Some(v) => if v.at_least(10, 10) {
            Some(v)
        } else {
            None
        },
        None => None,
    };
    let v = match supported_version {
        Some(v) => v,
        None => {
            return Err(
                Error::UnsupportedPlatformVersion(
                    "\"apply_vibrancy()\" is only available on macOS 10.0 or newer.",
                ),
            );
        },
    };
    if !main_thread {
        return Err(
            Error::NotMainThread("\"apply_vibrancy()\" can only be used on the main thread."),
        );
    }
    let mat = effective_material(material, &v);
    let st = match effect_state {
        Some(x) => x,
        None => NSVisualEffectState::FollowsWindowActiveState,
    };
    state.vibrancy = Some(VibrancyEffect { material: mat, state: st });
    Ok(())
}

} // verus!
