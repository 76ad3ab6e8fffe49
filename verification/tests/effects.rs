use window_vibrancy::{
    apply_acrylic, apply_blur, apply_mica, apply_tabbed, clear_acrylic, clear_blur, clear_mica,
    clear_tabbed, AccentState, Error, OsFamily, PlatformVersion, SystemBackdropType, Window,
    WindowState,
};

fn windows_at(build: u32) -> Window {
    Window::new(
        OsFamily::Windows,
        Some(PlatformVersion {
            major: 10,
            minor: 0,
            build,
        }),
    )
}

/// The compositor shows no effect: every family's attribute is at a
/// value it renders as untouched.
fn assert_no_effect_observed(s: &WindowState) {
    assert!(!s.blur_behind);
    if let Some(p) = s.accent {
        assert_eq!(p.accent_state, window_vibrancy::swca::ACCENT_DISABLED);
    }
    assert!(matches!(
        s.backdrop,
        SystemBackdropType::Auto | SystemBackdropType::Disable
    ));
    assert!(!s.mica);
    assert_eq!(s.dark, None);
    assert!(s.vibrancy.is_none());
}

#[test]
fn unrecognized_family_rejects_every_call() {
    let mut w = Window::new(
        OsFamily::Other,
        Some(PlatformVersion {
            major: 10,
            minor: 0,
            build: 22621,
        }),
    );
    assert!(matches!(
        apply_blur(&mut w, Some((18, 18, 18, 125))),
        Err(Error::UnsupportedPlatform(_))
    ));
    assert!(matches!(
        clear_blur(&mut w),
        Err(Error::UnsupportedPlatform(_))
    ));
    assert!(matches!(
        apply_acrylic(&mut w, None),
        Err(Error::UnsupportedPlatform(_))
    ));
    assert!(matches!(
        clear_acrylic(&mut w),
        Err(Error::UnsupportedPlatform(_))
    ));
    assert!(matches!(
        apply_mica(&mut w, Some(true)),
        Err(Error::UnsupportedPlatform(_))
    ));
    assert!(matches!(
        clear_mica(&mut w),
        Err(Error::UnsupportedPlatform(_))
    ));
    assert!(matches!(
        apply_tabbed(&mut w, None),
        Err(Error::UnsupportedPlatform(_))
    ));
    assert!(matches!(
        clear_tabbed(&mut w),
        Err(Error::UnsupportedPlatform(_))
    ));
    assert_eq!(w.state, WindowState::unaffected());
}

#[test]
fn too_old_version_rejects_with_version_error() {
    let mut w = windows_at(10000);
    assert!(matches!(
        apply_blur(&mut w, None),
        Err(Error::UnsupportedPlatformVersion(_))
    ));
    assert!(matches!(
        apply_acrylic(&mut w, None),
        Err(Error::UnsupportedPlatformVersion(_))
    ));
    assert!(matches!(
        apply_mica(&mut w, None),
        Err(Error::UnsupportedPlatformVersion(_))
    ));
    assert!(matches!(
        apply_tabbed(&mut w, None),
        Err(Error::UnsupportedPlatformVersion(_))
    ));
    assert_eq!(w.state, WindowState::unaffected());

    let mut w = windows_at(22000);
    assert!(matches!(
        apply_tabbed(&mut w, None),
        Err(Error::UnsupportedPlatformVersion(_))
    ));
    assert_eq!(w.state, WindowState::unaffected());
}

#[test]
fn probe_failure_rejects_with_version_error() {
    let mut w = Window::new(OsFamily::Windows, None);
    assert!(matches!(
        apply_blur(&mut w, None),
        Err(Error::UnsupportedPlatformVersion(_))
    ));
    assert!(matches!(
        apply_mica(&mut w, None),
        Err(Error::UnsupportedPlatformVersion(_))
    ));
    assert_eq!(w.state, WindowState::unaffected());
}

#[test]
fn blur_win7_sets_and_clears_blur_behind() {
    let mut w = Window::new(
        OsFamily::Windows,
        Some(PlatformVersion {
            major: 6,
            minor: 1,
            build: 7601,
        }),
    );
    assert!(apply_blur(&mut w, Some((1, 2, 3, 4))).is_ok());
    assert!(w.state.blur_behind);
    // The tint is ignored on Windows 7: no accent policy is set.
    assert!(w.state.accent.is_none());
    assert!(clear_blur(&mut w).is_ok());
    assert_no_effect_observed(&w.state);
}

#[test]
fn blur_swca_sets_accent_policy() {
    let mut w = windows_at(18362);
    assert!(apply_blur(&mut w, Some((18, 18, 18, 125))).is_ok());
    let p = w.state.accent.expect("accent policy set");
    assert_eq!(p.accent_state, window_vibrancy::swca::ACCENT_ENABLE_BLURBEHIND);
    assert_eq!(p.accent_flags, 2);
    assert_eq!(
        p.gradient_color,
        18 + 18 * 0x100 + 18 * 0x10000 + 125 * 0x1000000
    );
    assert_eq!(p.animation_id, 0);
    assert!(clear_blur(&mut w).is_ok());
    assert_no_effect_observed(&w.state);
}

#[test]
fn acrylic_round_trip_on_both_mechanisms() {
    let mut w = windows_at(17763);
    assert!(apply_acrylic(&mut w, Some((31, 31, 31, 200))).is_ok());
    let p = w.state.accent.expect("accent policy set");
    assert_eq!(
        p.accent_state,
        window_vibrancy::swca::ACCENT_ENABLE_ACRYLICBLURBEHIND
    );
    assert_eq!(p.accent_flags, 0);
    assert!(clear_acrylic(&mut w).is_ok());
    assert_no_effect_observed(&w.state);

    let mut w = windows_at(22621);
    assert!(apply_acrylic(&mut w, None).is_ok());
    assert_eq!(w.state.backdrop, SystemBackdropType::Acrylic);
    assert!(w.state.accent.is_none());
    assert!(clear_acrylic(&mut w).is_ok());
    assert_eq!(w.state.backdrop, SystemBackdropType::Disable);
    assert_no_effect_observed(&w.state);
}

#[test]
fn mica_round_trip_on_both_mechanisms() {
    let mut w = windows_at(22000);
    assert!(apply_mica(&mut w, Some(true)).is_ok());
    assert!(w.state.mica);
    assert_eq!(w.state.dark, Some(true));
    assert!(clear_mica(&mut w).is_ok());
    assert_no_effect_observed(&w.state);

    let mut w = windows_at(22621);
    assert!(apply_mica(&mut w, Some(false)).is_ok());
    assert_eq!(w.state.backdrop, SystemBackdropType::Mica);
    assert_eq!(w.state.dark, Some(false));
    assert!(!w.state.mica);
    assert!(clear_mica(&mut w).is_ok());
    assert_no_effect_observed(&w.state);
}

#[test]
fn tabbed_round_trip() {
    let mut w = windows_at(22621);
    assert!(apply_tabbed(&mut w, Some(true)).is_ok());
    assert_eq!(w.state.backdrop, SystemBackdropType::TabbedMica);
    assert_eq!(w.state.dark, Some(true));
    assert!(clear_tabbed(&mut w).is_ok());
    assert_no_effect_observed(&w.state);
}

#[test]
fn clear_uses_disabled_accent_policy() {
    let mut w = windows_at(18362);
    assert!(apply_blur(&mut w, Some((9, 9, 9, 9))).is_ok());
    assert!(clear_blur(&mut w).is_ok());
    let p = w.state.accent.expect("a disabled policy is still set");
    assert_eq!(p.accent_state, window_vibrancy::swca::ACCENT_DISABLED);
    assert_eq!(p.accent_flags, 2);
    assert_eq!(p.gradient_color, 0);
}

#[test]
fn accent_state_values_match_the_abi() {
    assert_eq!(window_vibrancy::swca::accent_state_value(AccentState::Disabled), 0);
    assert_eq!(
        window_vibrancy::swca::accent_state_value(AccentState::EnableBlurBehind),
        3
    );
    assert_eq!(
        window_vibrancy::swca::accent_state_value(AccentState::EnableAcrylicBlurBehind),
        4
    );
}
