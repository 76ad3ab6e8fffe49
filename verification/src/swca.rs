use vstd::prelude::*;

use crate::window::WindowState;

verus! {

/// A tuple of RGBA colors. Each value has minimum of 0 and maximum of 255.
pub type Color = (u8, u8, u8, u8);

/// The window-composition attribute that selects the accent policy in
/// the undocumented `SetWindowCompositionAttribute` user32 call.
pub const WCA_ACCENT_POLICY: u32 = 0x13;

/// Raw accent-state value: accent rendering disabled.
pub const ACCENT_DISABLED: u32 = 0;

/// Raw accent-state value: blur behind the window.
pub const ACCENT_ENABLE_BLURBEHIND: u32 = 3;

/// Raw accent-state value: acrylic blur behind the window.
pub const ACCENT_ENABLE_ACRYLICBLURBEHIND: u32 = 4;

/// The accent rendering requested of the compositor through the
/// window-composition-attribute call.
#[derive(Clone, Copy, Debug, PartialEq, Eq, Structural)]
pub enum AccentState {
    Disabled,
    EnableBlurBehind,
    EnableAcrylicBlurBehind,
}

/// The raw accent-state value of the undocumented ABI.
pub open spec fn spec_accent_state_value(a: AccentState) -> u32 {
    match a {
        AccentState::Disabled => ACCENT_DISABLED,
        AccentState::EnableBlurBehind => ACCENT_ENABLE_BLURBEHIND,
        AccentState::EnableAcrylicBlurBehind => ACCENT_ENABLE_ACRYLICBLURBEHIND,
    }
}

/// The raw value the accent policy struct carries for this state.
pub fn accent_state_value(a: AccentState) -> (r: u32)
    ensures
        r == spec_accent_state_value(a),
{
    match a {
        AccentState::Disabled => ACCENT_DISABLED,
        AccentState::EnableBlurBehind => ACCENT_ENABLE_BLURBEHIND,
        AccentState::EnableAcrylicBlurBehind => ACCENT_ENABLE_ACRYLICBLURBEHIND,
    }
}

/// The fixed-layout accent policy struct marshalled across the
/// `SetWindowCompositionAttribute` boundary, with every field already
/// in its raw ABI form.
#[derive(Clone, Copy, Debug, PartialEq, Eq, Structural)]
pub struct AccentPolicy {
    pub accent_state: u32,
    pub accent_flags: u32,
    pub gradient_color: u32,
    pub animation_id: u32,
}

/// The tint packed into the policy's gradient color: one byte per
/// channel, red in the lowest byte and alpha in the highest.
pub open spec fn spec_gradient_color(c: Color) -> u32 {
    (c.0 as u32 + c.1 as u32 * 0x100 + c.2 as u32 * 0x10000 + c.3 as u32 * 0x1000000) as u32
}

/// The tint the native call is actually handed. The call misrenders an
/// acrylic accent whose alpha is 0, so that alpha is coerced to 1;
/// every other value passes through unchanged.
pub open spec fn spec_coerced_color(a: AccentState, c: Color) -> Color {
    if a is EnableAcrylicBlurBehind && c.3 == 0 {
        (c.0, c.1, c.2, 1u8)
    } else {
        c
    }
}

/// The accent policy built for one request: the raw accent state, the
/// flags the call expects for it, and the packed (and, for acrylic,
/// coerced) tint. A missing tint packs as fully transparent black.
pub open spec fn spec_accent_policy(a: AccentState, color: Option<Color>) -> AccentPolicy {
    let c = spec_coerced_color(
        a,
        match color {
            Some(c) => c,
            None => (0u8, 0u8, 0u8, 0u8),
        },
    );
    AccentPolicy {
        accent_state: spec_accent_state_value(a),
        accent_flags: if a is EnableAcrylicBlurBehind {
            0
        } else {
            2
        },
        gradient_color: spec_gradient_color(c),
        animation_id: 0,
    }
}

/// Builds the accent policy that one request marshals across the native
/// boundary.
pub fn accent_policy(a: AccentState, color: Option<Color>) -> (r: AccentPolicy)
    ensures
        r == spec_accent_policy(a, color),
{
    let c: Color = match color {
        Some(c) => c,
        None => (0u8, 0u8, 0u8, 0u8),
    };
    let is_acrylic = matches!(a, AccentState::EnableAcrylicBlurBehind);
    let c: Color = if is_acrylic && c.3 == 0 {
        (c.0, c.1, c.2, 1u8)
    } else {
        c
    };
    let gradient: u32 = c.0 as u32 + c.1 as u32 * 0x100 + c.2 as u32 * 0x10000 + c.3 as u32
        * 0x1000000;
    AccentPolicy {
        accent_state: accent_state_value(a),
        accent_flags: if is_acrylic {
            0
        } else {
            2
        },
        gradient_color: gradient,
        animation_id: 0,
    }
}

/// A tint passes through into the packed gradient color unchanged,
/// except that an acrylic tint with alpha 0 is handed to the native
/// call with alpha 1 — the call misrenders a fully transparent
/// acrylic accent.
pub proof fn lemma_tint_passthrough(a: AccentState, c: Color)
    ensures
        !(a is EnableAcrylicBlurBehind && c.3 == 0) ==> spec_accent_policy(a, Some(c)).gradient_color
            == spec_gradient_color(c),
        a is EnableAcrylicBlurBehind && c.3 == 0 ==> spec_accent_policy(a, Some(c)).gradient_color
            == spec_gradient_color((c.0, c.1, c.2, 1u8)),
{
}

/// Each channel of a tint can be read back from the packed gradient
/// color: red from the lowest byte through alpha in the highest, so
/// packing loses nothing.
pub proof fn lemma_gradient_color_channels(c: Color)
    ensures
        spec_gradient_color(c) % 0x100 == c.0,
        spec_gradient_color(c) / 0x100 % 0x100 == c.1,
        spec_gradient_color(c) / 0x10000 % 0x100 == c.2,
        spec_gradient_color(c) / 0x1000000 == c.3,
{
}

/// Sets the window's accent policy as the undocumented user32 call
/// does: the composition state afterwards holds exactly the policy
/// built for the request, and nothing else changes.
pub fn set_window_composition_attribute(
    state: &mut WindowState,
    accent_state: AccentState,
    color: Option<Color>,
)
    ensures
        *final(state) == (WindowState {
            accent: Some(spec_accent_policy(accent_state, color)),
            ..*old(state)
        }),
{
    state.accent = Some(accent_policy(accent_state, color));
}

} // verus!
