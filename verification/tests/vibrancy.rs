use window_vibrancy::{
    apply_vibrancy, Error, NSVisualEffectMaterial, NSVisualEffectState, OsFamily, PlatformVersion,
    Window, WindowState,
};

fn macos_at(major: u32, minor: u32) -> Window {
    Window::new(
        OsFamily::MacOs,
        Some(PlatformVersion {
            major,
            minor,
            build: 0,
        }),
    )
}

#[test]
fn vibrancy_applies_on_supported_release() {
    let mut w = macos_at(10, 14);
    assert!(apply_vibrancy(
        &mut w,
        NSVisualEffectMaterial::HudWindow,
        Some(NSVisualEffectState::Active)
    )
    .is_ok());
    let v = w.state.vibrancy.expect("a vibrancy view was added");
    assert_eq!(v.material, NSVisualEffectMaterial::HudWindow);
    assert_eq!(v.state, NSVisualEffectState::Active);
}

#[test]
fn vibrancy_state_defaults_to_following_the_window() {
    let mut w = macos_at(11, 0);
    assert!(apply_vibrancy(&mut w, NSVisualEffectMaterial::Sidebar, None).is_ok());
    let v = w.state.vibrancy.expect("a vibrancy view was added");
    assert_eq!(v.state, NSVisualEffectState::FollowsWindowActiveState);
}

#[test]
fn newer_material_downgrades_silently_on_older_release() {
    let mut w = macos_at(10, 11);
    assert!(apply_vibrancy(&mut w, NSVisualEffectMaterial::HeaderView, None).is_ok());
    let v = w.state.vibrancy.expect("a vibrancy view was added");
    assert_eq!(v.material, NSVisualEffectMaterial::AppearanceBased);

    let mut w = macos_at(10, 10);
    assert!(apply_vibrancy(&mut w, NSVisualEffectMaterial::Popover, None).is_ok());
    let v = w.state.vibrancy.expect("a vibrancy view was added");
    assert_eq!(v.material, NSVisualEffectMaterial::AppearanceBased);
}

#[test]
fn material_of_the_release_is_kept() {
    let mut w = macos_at(10, 11);
    assert!(apply_vibrancy(&mut w, NSVisualEffectMaterial::Sidebar, None).is_ok());
    let v = w.state.vibrancy.expect("a vibrancy view was added");
    assert_eq!(v.material, NSVisualEffectMaterial::Sidebar);
}

#[test]
fn too_old_release_is_rejected() {
    let mut w = macos_at(10, 9);
    assert!(matches!(
        apply_vibrancy(&mut w, NSVisualEffectMaterial::Titlebar, None),
        Err(Error::UnsupportedPlatformVersion(_))
    ));
    assert_eq!(w.state, WindowState::unaffected());
}

#[test]
fn probe_failure_is_rejected() {
    let mut w = Window::new(OsFamily::MacOs, None);
    assert!(matches!(
        apply_vibrancy(&mut w, NSVisualEffectMaterial::Titlebar, None),
        Err(Error::UnsupportedPlatformVersion(_))
    ));
    assert_eq!(w.state, WindowState::unaffected());
}

#[test]
fn off_main_thread_is_rejected_without_mutation() {
    let mut w = macos_at(10, 14).off_main_thread();
    assert!(matches!(
        apply_vibrancy(&mut w, NSVisualEffectMaterial::Sidebar, None),
        Err(Error::NotMainThread(_))
    ));
    assert_eq!(w.state, WindowState::unaffected());
}

#[test]
fn wrong_family_is_rejected_before_thread_check() {
    let mut w = Window::new(
        OsFamily::Windows,
        Some(PlatformVersion {
            major: 10,
            minor: 0,
            build: 22621,
        }),
    )
    .off_main_thread();
    assert!(matches!(
        apply_vibrancy(&mut w, NSVisualEffectMaterial::Sidebar, None),
        Err(Error::UnsupportedPlatform(_))
    ));
    assert_eq!(w.state, WindowState::unaffected());
}

#[test]
fn version_gate_precedes_thread_check() {
    let mut w = macos_at(10, 9).off_main_thread();
    assert!(matches!(
        apply_vibrancy(&mut w, NSVisualEffectMaterial::Titlebar, None),
        Err(Error::UnsupportedPlatformVersion(_))
    ));
}

#[test]
fn error_messages_are_reported() {
    let mut w = macos_at(10, 14).off_main_thread();
    let err = apply_vibrancy(&mut w, NSVisualEffectMaterial::Sidebar, None).unwrap_err();
    assert_eq!(
        err.message(),
        "\"apply_vibrancy()\" can only be used on the main thread."
    );
    assert!(!Error::NoWindowHandle.message().is_empty());
}
