use window_vibrancy::{
    resolve, CapabilityDecision, EffectKind, Mechanism, NSVisualEffectMaterial, OsFamily,
    PlatformVersion,
};

fn v(major: u32, minor: u32, build: u32) -> Option<PlatformVersion> {
    Some(PlatformVersion { major, minor, build })
}

#[test]
fn acrylic_threshold_ladder() {
    assert_eq!(
        resolve(OsFamily::Windows, v(10, 0, 10000), EffectKind::Acrylic),
        CapabilityDecision::Unsupported
    );
    assert_eq!(
        resolve(OsFamily::Windows, v(10, 0, 17763), EffectKind::Acrylic),
        CapabilityDecision::Supported(Mechanism::CompositionAttribute)
    );
    assert_eq!(
        resolve(OsFamily::Windows, v(10, 0, 22523), EffectKind::Acrylic),
        CapabilityDecision::Supported(Mechanism::BackdropType)
    );
}

#[test]
fn blur_threshold_ladder() {
    assert_eq!(
        resolve(OsFamily::Windows, v(6, 1, 7601), EffectKind::Blur),
        CapabilityDecision::Supported(Mechanism::DwmBlurBehind)
    );
    assert_eq!(
        resolve(OsFamily::Windows, v(6, 2, 9200), EffectKind::Blur),
        CapabilityDecision::Unsupported
    );
    assert_eq!(
        resolve(OsFamily::Windows, v(10, 0, 17762), EffectKind::Blur),
        CapabilityDecision::Unsupported
    );
    assert_eq!(
        resolve(OsFamily::Windows, v(10, 0, 17763), EffectKind::Blur),
        CapabilityDecision::Supported(Mechanism::CompositionAttribute)
    );
    assert_eq!(
        resolve(OsFamily::Windows, v(10, 0, 22621), EffectKind::Blur),
        CapabilityDecision::Supported(Mechanism::CompositionAttribute)
    );
}

#[test]
fn mica_threshold_ladder() {
    assert_eq!(
        resolve(OsFamily::Windows, v(10, 0, 21999), EffectKind::Mica),
        CapabilityDecision::Unsupported
    );
    assert_eq!(
        resolve(OsFamily::Windows, v(10, 0, 22000), EffectKind::Mica),
        CapabilityDecision::Supported(Mechanism::MicaAttribute)
    );
    assert_eq!(
        resolve(OsFamily::Windows, v(10, 0, 22523), EffectKind::Mica),
        CapabilityDecision::Supported(Mechanism::BackdropType)
    );
}

#[test]
fn tabbed_requires_backdrop_type_builds() {
    assert_eq!(
        resolve(OsFamily::Windows, v(10, 0, 22522), EffectKind::MicaTabbed),
        CapabilityDecision::Unsupported
    );
    assert_eq!(
        resolve(OsFamily::Windows, v(10, 0, 22523), EffectKind::MicaTabbed),
        CapabilityDecision::Supported(Mechanism::BackdropType)
    );
}

#[test]
fn vibrancy_version_gate() {
    assert_eq!(
        resolve(
            OsFamily::MacOs,
            v(10, 9, 0),
            EffectKind::VibrancyMaterial(NSVisualEffectMaterial::Titlebar)
        ),
        CapabilityDecision::Unsupported
    );
    assert_eq!(
        resolve(
            OsFamily::MacOs,
            v(10, 10, 0),
            EffectKind::VibrancyMaterial(NSVisualEffectMaterial::Titlebar)
        ),
        CapabilityDecision::Supported(Mechanism::VisualEffectView(
            NSVisualEffectMaterial::Titlebar
        ))
    );
    assert_eq!(
        resolve(
            OsFamily::MacOs,
            v(11, 0, 0),
            EffectKind::VibrancyMaterial(NSVisualEffectMaterial::HudWindow)
        ),
        CapabilityDecision::Supported(Mechanism::VisualEffectView(
            NSVisualEffectMaterial::HudWindow
        ))
    );
}

#[test]
fn vibrancy_downgrades_to_legacy_default() {
    assert_eq!(
        resolve(
            OsFamily::MacOs,
            v(10, 11, 0),
            EffectKind::VibrancyMaterial(NSVisualEffectMaterial::HeaderView)
        ),
        CapabilityDecision::Supported(Mechanism::VisualEffectView(
            NSVisualEffectMaterial::AppearanceBased
        ))
    );
    assert_eq!(
        resolve(
            OsFamily::MacOs,
            v(10, 10, 0),
            EffectKind::VibrancyMaterial(NSVisualEffectMaterial::Sidebar)
        ),
        CapabilityDecision::Supported(Mechanism::VisualEffectView(
            NSVisualEffectMaterial::AppearanceBased
        ))
    );
}

#[test]
fn probe_failure_resolves_unsupported() {
    for effect in [
        EffectKind::Blur,
        EffectKind::Acrylic,
        EffectKind::Mica,
        EffectKind::MicaTabbed,
        EffectKind::VibrancyMaterial(NSVisualEffectMaterial::AppearanceBased),
    ] {
        assert_eq!(
            resolve(OsFamily::Windows, None, effect),
            CapabilityDecision::Unsupported
        );
        assert_eq!(
            resolve(OsFamily::MacOs, None, effect),
            CapabilityDecision::Unsupported
        );
    }
}

#[test]
fn wrong_family_resolves_unsupported() {
    assert_eq!(
        resolve(OsFamily::MacOs, v(10, 0, 22621), EffectKind::Blur),
        CapabilityDecision::Unsupported
    );
    assert_eq!(
        resolve(
            OsFamily::Windows,
            v(10, 14, 0),
            EffectKind::VibrancyMaterial(NSVisualEffectMaterial::Sidebar)
        ),
        CapabilityDecision::Unsupported
    );
    assert_eq!(
        resolve(OsFamily::Other, v(10, 0, 22621), EffectKind::Mica),
        CapabilityDecision::Unsupported
    );
}
