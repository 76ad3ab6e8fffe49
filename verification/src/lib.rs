//! Apply native window-composition effects — blur, acrylic, mica and
//! vibrancy — to an existing top-level window.
//!
//! The window is owned by the caller's windowing toolkit; this library
//! only decides, from the operating-system family and the probed
//! version triple, which native mechanism can realise a requested
//! effect, marshals the fixed-layout values that mechanism expects,
//! and tracks the composition state the call leaves behind. A request
//! the system cannot realise is reported as a typed [`Error`], never
//! panicked on, and leaves the window visually unaffected.

use vstd::prelude::*;

pub mod error;
pub mod macos;
pub mod resolve;
pub mod swca;
pub mod version;
pub mod wide;
pub mod window;
pub mod windows;

pub use error::Error;
pub use macos::{NSVisualEffectMaterial, NSVisualEffectState};
pub use resolve::{resolve, CapabilityDecision, EffectKind, Mechanism};
pub use swca::{AccentPolicy, AccentState, Color};
pub use version::{OsFamily, PlatformVersion};
pub use wide::{ToWide, WideString};
pub use window::{VibrancyEffect, Window, WindowState};
pub use windows::SystemBackdropType;

use crate::macos::spec_apply_vibrancy_state;
use crate::resolve::spec_resolve as resolve_spec;
use crate::window::{spec_no_effect_observed, spec_observably_equivalent};

verus! {

/// Applies blur to the window. Works only on Windows 7, Windows 10
/// v1809 or newer and Windows 11; on every other family the call is
/// rejected before anything native would run.
///
/// The tint is ignored on Windows 7, whose legacy call takes none.
pub fn apply_blur(window: &mut Window, color: Option<Color>) -> (r: Result<(), Error>)
    ensures
        final(window).os == old(window).os,
        final(window).version == old(window).version,
        final(window).main_thread == old(window).main_thread,
        old(window).os != OsFamily::Windows ==> (r matches Err(e) && e is UnsupportedPlatform)
            && final(window).state == old(window).state,
        old(window).os == OsFamily::Windows ==> match resolve_spec(
            OsFamily::Windows,
            old(window).version,
            EffectKind::Blur,
        ) {
            CapabilityDecision::Supported(m) => r is Ok && final(window).state
                == windows::spec_apply_blur_state(old(window).state, m, color),
            CapabilityDecision::Unsupported => (r matches Err(e) && e is UnsupportedPlatformVersion)
                && final(window).state == old(window).state,
        },
{
    match window.os {
        OsFamily::Windows => {
            let version = window.version;
            windows::apply_blur(&mut window.state, version, color)
        },
        _ => Err(Error::UnsupportedPlatform("\"apply_blur()\" is only supported on Windows.")),
    }
}

/// Clears blur applied to the window, through the same mechanism that
/// applied it.
pub fn clear_blur(window: &mut Window) -> (r: Result<(), Error>)
    ensures
        final(window).os == old(window).os,
        final(window).version == old(window).version,
        final(window).main_thread == old(window).main_thread,
        old(window).os != OsFamily::Windows ==> (r matches Err(e) && e is UnsupportedPlatform)
            && final(window).state == old(window).state,
        old(window).os == OsFamily::Windows ==> match resolve_spec(
            OsFamily::Windows,
            old(window).version,
            EffectKind::Blur,
        ) {
            CapabilityDecision::Supported(m) => r is Ok && final(window).state
                == windows::spec_clear_blur_state(old(window).state, m),
            CapabilityDecision::Unsupported => (r matches Err(e) && e is UnsupportedPlatformVersion)
                && final(window).state == old(window).state,
        },
{
    match window.os {
        OsFamily::Windows => {
            let version = window.version;
            windows::clear_blur(&mut window.state, version)
        },
        _ => Err(Error::UnsupportedPlatform("\"clear_blur()\" is only supported on Windows.")),
    }
}

/// Applies acrylic to the window. Works only on Windows 10 v1809 or
/// newer; the newest builds draw it through the backdrop-type
/// attribute, older ones through the composition-attribute call.
pub fn apply_acrylic(window: &mut Window, color: Option<Color>) -> (r: Result<(), Error>)
    ensures
        final(window).os == old(window).os,
        final(window).version == old(window).version,
        final(window).main_thread == old(window).main_thread,
        old(window).os != OsFamily::Windows ==> (r matches Err(e) && e is UnsupportedPlatform)
            && final(window).state == old(window).state,
        old(window).os == OsFamily::Windows ==> match resolve_spec(
            OsFamily::Windows,
            old(window).version,
            EffectKind::Acrylic,
        ) {
            CapabilityDecision::Supported(m) => r is Ok && final(window).state
                == windows::spec_apply_acrylic_state(old(window).state, m, color),
            CapabilityDecision::Unsupported => (r matches Err(e) && e is UnsupportedPlatformVersion)
                && final(window).state == old(window).state,
        },
{
    match window.os {
        OsFamily::Windows => {
            let version = window.version;
            windows::apply_acrylic(&mut window.state, version, color)
        },
        _ => Err(Error::UnsupportedPlatform("\"apply_acrylic()\" is only supported on Windows.")),
    }
}

/// Clears acrylic applied to the window, through the same mechanism
/// that applied it.
pub fn clear_acrylic(window: &mut Window) -> (r: Result<(), Error>)
    ensures
        final(window).os == old(window).os,
        final(window).version == old(window).version,
        final(window).main_thread == old(window).main_thread,
        old(window).os != OsFamily::Windows ==> (r matches Err(e) && e is UnsupportedPlatform)
            && final(window).state == old(window).state,
        old(window).os == OsFamily::Windows ==> match resolve_spec(
            OsFamily::Windows,
            old(window).version,
            EffectKind::Acrylic,
        ) {
            CapabilityDecision::Supported(m) => r is Ok && final(window).state
                == windows::spec_clear_acrylic_state(old(window).state, m),
            CapabilityDecision::Unsupported => (r matches Err(e) && e is UnsupportedPlatformVersion)
                && final(window).state == old(window).state,
        },
{
    match window.os {
        OsFamily::Windows => {
            let version = window.version;
            windows::clear_acrylic(&mut window.state, version)
        },
        _ => Err(Error::UnsupportedPlatform("\"clear_acrylic()\" is only supported on Windows.")),
    }
}

/// Applies mica to the window. Works only on Windows 11. A dark-mode
/// choice of `None` follows the system preference.
pub fn apply_mica(window: &mut Window, dark: Option<bool>) -> (r: Result<(), Error>)
    ensures
        final(window).os == old(window).os,
        final(window).version == old(window).version,
        final(window).main_thread == old(window).main_thread,
        old(window).os != OsFamily::Windows ==> (r matches Err(e) && e is UnsupportedPlatform)
            && final(window).state == old(window).state,
        old(window).os == OsFamily::Windows ==> match resolve_spec(
            OsFamily::Windows,
            old(window).version,
            EffectKind::Mica,
        ) {
            CapabilityDecision::Supported(m) => r is Ok && final(window).state
                == windows::spec_apply_mica_state(old(window).state, m, dark),
            CapabilityDecision::Unsupported => (r matches Err(e) && e is UnsupportedPlatformVersion)
                && final(window).state == old(window).state,
        },
{
    match window.os {
        OsFamily::Windows => {
            let version = window.version;
            windows::apply_mica(&mut window.state, version, dark)
        },
        _ => Err(Error::UnsupportedPlatform("\"apply_mica()\" is only supported on Windows.")),
    }
}

/// Clears mica applied to the window, returning the backdrop and the
/// dark-mode hint to their untouched values.
pub fn clear_mica(window: &mut Window) -> (r: Result<(), Error>)
    ensures
        final(window).os == old(window).os,
        final(window).version == old(window).version,
        final(window).main_thread == old(window).main_thread,
        old(window).os != OsFamily::Windows ==> (r matches Err(e) && e is UnsupportedPlatform)
            && final(window).state == old(window).state,
        old(window).os == OsFamily::Windows ==> match resolve_spec(
            OsFamily::Windows,
            old(window).version,
            EffectKind::Mica,
        ) {
            CapabilityDecision::Supported(m) => r is Ok && final(window).state
                == windows::spec_clear_mica_state(old(window).state, m),
            CapabilityDecision::Unsupported => (r matches Err(e) && e is UnsupportedPlatformVersion)
                && final(window).state == old(window).state,
        },
{
    match window.os {
        OsFamily::Windows => {
            let version = window.version;
            windows::clear_mica(&mut window.state, version)
        },
        _ => Err(Error::UnsupportedPlatform("\"clear_mica()\" is only supported on Windows.")),
    }
}

/// Applies tabbed mica to the window. Works only on Windows 11 builds
/// that understand the backdrop-type attribute.
pub fn apply_tabbed(window: &mut Window, dark: Option<bool>) -> (r: Result<(), Error>)
    ensures
        final(window).os == old(window).os,
        final(window).version == old(window).version,
        final(window).main_thread == old(window).main_thread,
        old(window).os != OsFamily::Windows ==> (r matches Err(e) && e is UnsupportedPlatform)
            && final(window).state == old(window).state,
        old(window).os == OsFamily::Windows ==> match resolve_spec(
            OsFamily::Windows,
            old(window).version,
            EffectKind::MicaTabbed,
        ) {
            CapabilityDecision::Supported(m) => r is Ok && final(window).state
                == windows::spec_apply_tabbed_state(old(window).state, m, dark),
            CapabilityDecision::Unsupported => (r matches Err(e) && e is UnsupportedPlatformVersion)
                && final(window).state == old(window).state,
        },
{
    match window.os {
        OsFamily::Windows => {
            let version = window.version;
            windows::apply_tabbed(&mut window.state, version, dark)
        },
        _ => Err(Error::UnsupportedPlatform("\"apply_tabbed()\" is only supported on Windows.")),
    }
}

/// Clears tabbed mica applied to the window, returning the backdrop
/// and the dark-mode hint to their untouched values.
pub fn clear_tabbed(window: &mut Window) -> (r: Result<(), Error>)
    ensures
        final(window).os == old(window).os,
        final(window).version == old(window).version,
        final(window).main_thread == old(window).main_thread,
        old(window).os != OsFamily::Windows ==> (r matches Err(e) && e is UnsupportedPlatform)
            && final(window).state == old(window).state,
        old(window).os == OsFamily::Windows ==> match resolve_spec(
            OsFamily::Windows,
            old(window).version,
            EffectKind::MicaTabbed,
        ) {
            CapabilityDecision::Supported(m) => r is Ok && final(window).state
                == windows::spec_clear_tabbed_state(old(window).state, m),
            CapabilityDecision::Unsupported => (r matches Err(e) && e is UnsupportedPlatformVersion)
                && final(window).state == old(window).state,
        },
{
    match window.os {
        OsFamily::Windows => {
            let version = window.version;
            windows::clear_tabbed(&mut window.state, version)
        },
        _ => Err(Error::UnsupportedPlatform("\"clear_tabbed()\" is only supported on Windows.")),
    }
}

/// Applies a macOS vibrancy view to the window. Works only on macOS
/// 10.10 or newer, and only on the designated UI thread; a material
/// the release does not offer silently falls back to the legacy
/// default.
pub fn apply_vibrancy(
    window: &mut Window,
    effect: NSVisualEffectMaterial,
    state: Option<NSVisualEffectState>,
) -> (r: Result<(), Error>)
    ensures
        final(window).os == old(window).os,
        final(window).version == old(window).version,
        final(window).main_thread == old(window).main_thread,
        old(window).os != OsFamily::MacOs ==> (r matches Err(e) && e is UnsupportedPlatform)
            && final(window).state == old(window).state,
        old(window).os == OsFamily::MacOs ==> match resolve_spec(
            OsFamily::MacOs,
            old(window).version,
            EffectKind::VibrancyMaterial(effect),
        ) {
            CapabilityDecision::Supported(m) => if old(window).main_thread {
                r is Ok && final(window).state == spec_apply_vibrancy_state(
                    old(window).state,
                    m,
                    state,
                )
            } else {
                (r matches Err(e) && e is NotMainThread) && final(window).state == old(
                    window,
                ).state
            },
            CapabilityDecision::Unsupported => (r matches Err(e) && e is UnsupportedPlatformVersion)
                && final(window).state == old(window).state,
        },
{
    match window.os {
        OsFamily::MacOs => {
            let version = window.version;
            let main_thread = window.main_thread;
            macos::apply_vibrancy(&mut window.state, version, main_thread, effect, state)
        },
        _ => Err(Error::UnsupportedPlatform("\"apply_vibrancy()\" is only supported on macOS.")),
    }
}

/// Applying blur and then clearing it — through whichever mechanism
/// `m` the resolver picked for both calls — leaves a window that
/// showed no effect observably as if blur had never been applied.
pub proof fn lemma_blur_round_trip(s: WindowState, m: Mechanism, color: Option<Color>)
    requires
        spec_no_effect_observed(s),
    ensures
        spec_observably_equivalent(
            windows::spec_clear_blur_state(windows::spec_apply_blur_state(s, m, color), m),
            s,
        ),
{
}

/// Applying acrylic and then clearing it restores a window that showed
/// no effect to one observably untouched.
pub proof fn lemma_acrylic_round_trip(s: WindowState, m: Mechanism, color: Option<Color>)
    requires
        spec_no_effect_observed(s),
    ensures
        spec_observably_equivalent(
            windows::spec_clear_acrylic_state(windows::spec_apply_acrylic_state(s, m, color), m),
            s,
        ),
{
}

/// Applying mica and then clearing it restores a window that showed no
/// effect to one observably untouched, the dark-mode hint included.
pub proof fn lemma_mica_round_trip(s: WindowState, m: Mechanism, dark: Option<bool>)
    requires
        spec_no_effect_observed(s),
    ensures
        spec_observably_equivalent(
            windows::spec_clear_mica_state(windows::spec_apply_mica_state(s, m, dark), m),
            s,
        ),
{
}

/// Applying tabbed mica and then clearing it restores a window that
/// showed no effect to one observably untouched.
pub proof fn lemma_tabbed_round_trip(s: WindowState, m: Mechanism, dark: Option<bool>)
    requires
        spec_no_effect_observed(s),
    ensures
        spec_observably_equivalent(
            windows::spec_clear_tabbed_state(windows::spec_apply_tabbed_state(s, m, dark), m),
            s,
        ),
{
}

} // verus!
