use vstd::prelude::*;

use crate::macos::{spec_effective_material, NSVisualEffectMaterial};
use crate::version::{OsFamily, PlatformVersion};

verus! {

/// The least Windows build whose `SetWindowCompositionAttribute` call
/// accepts the blur and acrylic accent states (Windows 10 v1809).
pub const SWCA_MIN_BUILD: u32 = 17763;

/// The least Windows build that understands the legacy mica window
/// attribute (the first Windows 11 release).
pub const MICA_MIN_BUILD: u32 = 22000;

/// The least Windows build that understands the modern system backdrop
/// type attribute.
pub const BACKDROP_TYPE_MIN_BUILD: u32 = 22523;

/// A requested window-composition effect.
#[derive(Clone, Copy, Debug, PartialEq, Eq, Structural)]
pub enum EffectKind {
    Blur,
    Acrylic,
    Mica,
    MicaTabbed,
    VibrancyMaterial(NSVisualEffectMaterial),
}

/// The native call family used to realise an effect on a given system.
#[derive(Clone, Copy, Debug, PartialEq, Eq, Structural)]
pub enum Mechanism {
    /// The legacy Windows 7 `DwmEnableBlurBehindWindow` call.
    DwmBlurBehind,
    /// The undocumented `SetWindowCompositionAttribute` accent call.
    CompositionAttribute,
    /// The modern system backdrop type window attribute.
    BackdropType,
    /// The legacy mica window attribute of early Windows 11 builds.
    MicaAttribute,
    /// An AppKit `NSVisualEffectView` with the material that the running
    /// release actually offers.
    VisualEffectView(NSVisualEffectMaterial),
}

/// What the capability resolver decides for one request: the mechanism
/// to use, or that the system cannot realise the effect at all.
#[derive(Clone, Copy, Debug, PartialEq, Eq, Structural)]
pub enum CapabilityDecision {
    Supported(Mechanism),
    Unsupported,
}

/// The capability decision for a request, as a function of the family,
/// the probed version and the effect.
///
/// Where several mechanisms could realise the effect the newest one
/// wins. A probe failure (`version` of `None`) resolves to
/// `Unsupported` rather than guessing.
pub open spec fn spec_resolve(
    os: OsFamily,
    version: Option<PlatformVersion>,
    effect: EffectKind,
) -> CapabilityDecision {
    match version {
        None => CapabilityDecision::Unsupported,
        Some(v) => match effect {
            EffectKind::Blur => {
                if os != OsFamily::Windows {
                    CapabilityDecision::Unsupported
                } else if v.major == 6 && v.minor == 1 {
                    CapabilityDecision::Supported(Mechanism::DwmBlurBehind)
                } else if v.build >= SWCA_MIN_BUILD {
                    CapabilityDecision::Supported(Mechanism::CompositionAttribute)
                } else {
                    CapabilityDecision::Unsupported
                }
            },
            EffectKind::Acrylic => {
                if os != OsFamily::Windows {
                    CapabilityDecision::Unsupported
                } else if v.build >= BACKDROP_TYPE_MIN_BUILD {
                    CapabilityDecision::Supported(Mechanism::BackdropType)
                } else if v.build >= SWCA_MIN_BUILD {
                    CapabilityDecision::Supported(Mechanism::CompositionAttribute)
                } else {
                    CapabilityDecision::Unsupported
                }
            },
            EffectKind::Mica => {
                if os != OsFamily::Windows {
                    CapabilityDecision::Unsupported
                } else if v.build >= BACKDROP_TYPE_MIN_BUILD {
                    CapabilityDecision::Supported(Mechanism::BackdropType)
                } else if v.build >= MICA_MIN_BUILD {
                    CapabilityDecision::Supported(Mechanism::MicaAttribute)
                } else {
                    CapabilityDecision::Unsupported
                }
            },
            EffectKind::MicaTabbed => {
                if os != OsFamily::Windows {
                    CapabilityDecision::Unsupported
                } else if v.build >= BACKDROP_TYPE_MIN_BUILD {
                    CapabilityDecision::Supported(Mechanism::BackdropType)
                } else {
                    CapabilityDecision::Unsupported
                }
            },
            EffectKind::VibrancyMaterial(m) => {
                if os != OsFamily::MacOs {
                    CapabilityDecision::Unsupported
                } else if v.spec_at_least(10, 10) {
                    CapabilityDecision::Supported(
                        Mechanism::VisualEffectView(spec_effective_material(m, v)),
                    )
                } else {
                    CapabilityDecision::Unsupported
                }
            },
        },
    }
}

/// Decides which native mechanism, if any, realises `effect` on the
/// system described by `os` and `version`. Reads nothing but its
/// arguments and mutates nothing.
pub fn resolve(
    os: OsFamily,
    version: Option<PlatformVersion>,
    effect: EffectKind,
) -> (r: CapabilityDecision)
    ensures
        r == spec_resolve(os, version, effect),
{
    let v = match version {
        None => {
            return CapabilityDecision::Unsupported;
        },
        Some(v) => v,
    };
    match effect {
        EffectKind::Blur => {
            if os != OsFamily::Windows {
                CapabilityDecision::Unsupported
            } else if v.major == 6 && v.minor == 1 {
                CapabilityDecision::Supported(Mechanism::DwmBlurBehind)
            } else if v.build >= SWCA_MIN_BUILD {
                CapabilityDecision::Supported(Mechanism::CompositionAttribute)
            } else {
                CapabilityDecision::Unsupported
            }
        },
        EffectKind::Acrylic => {
            if os != OsFamily::Windows {
                CapabilityDecision::Unsupported
            } else if v.build >= BACKDROP_TYPE_MIN_BUILD {
                CapabilityDecision::Supported(Mechanism::BackdropType)
            } else if v.build >= SWCA_MIN_BUILD {
                CapabilityDecision::Supported(Mechanism::CompositionAttribute)
            } else {
                CapabilityDecision::Unsupported
            }
        },
        EffectKind::Mica => {
            if os != OsFamily::Windows {
                CapabilityDecision::Unsupported
            } else if v.build >= BACKDROP_TYPE_MIN_BUILD {
                CapabilityDecision::Supported(Mechanism::BackdropType)
            } else if v.build >= MICA_MIN_BUILD {
                CapabilityDecision::Supported(Mechanism::MicaAttribute)
            } else {
                CapabilityDecision::Unsupported
            }
        },
        EffectKind::MicaTabbed => {
            if os != OsFamily::Windows {
                CapabilityDecision::Unsupported
            } else if v.build >= BACKDROP_TYPE_MIN_BUILD {
                CapabilityDecision::Supported(Mechanism::BackdropType)
            } else {
                CapabilityDecision::Unsupported
            }
        },
        EffectKind::VibrancyMaterial(m) => {
            if os != OsFamily::MacOs {
                CapabilityDecision::Unsupported
            } else if v.at_least(10, 10) {
                CapabilityDecision::Supported(
                    Mechanism::VisualEffectView(crate::macos::effective_material(m, &v)),
                )
            } else {
                CapabilityDecision::Unsupported
            }
        },
    }
}

/// Whether `v` lies below every threshold at which some mechanism could
/// realise `effect`: no mechanism is then available for it on any
/// family.
pub open spec fn spec_below_every_threshold(v: PlatformVersion, effect: EffectKind) -> bool {
    match effect {
        EffectKind::Blur => !(v.major == 6 && v.minor == 1) && v.build < SWCA_MIN_BUILD,
        EffectKind::Acrylic => v.build < SWCA_MIN_BUILD,
        EffectKind::Mica => v.build < MICA_MIN_BUILD,
        EffectKind::MicaTabbed => v.build < BACKDROP_TYPE_MIN_BUILD,
        EffectKind::VibrancyMaterial(_) => !v.spec_at_least(10, 10),
    }
}

/// A version triple below each of an effect's thresholds resolves to
/// `Unsupported` for that effect, whatever the family.
pub proof fn lemma_below_threshold_unsupported(
    os: OsFamily,
    v: PlatformVersion,
    effect: EffectKind,
)
    requires
        spec_below_every_threshold(v, effect),
    ensures
        spec_resolve(os, Some(v), effect) is Unsupported,
{
}

/// An undetectable version — a probe failure — resolves to
/// `Unsupported` rather than guessing, for every family and effect.
pub proof fn lemma_unknown_version_unsupported(os: OsFamily, effect: EffectKind)
    ensures
        spec_resolve(os, None, effect) is Unsupported,
{
}

} // verus!
