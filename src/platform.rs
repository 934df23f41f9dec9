//! Which platform the layer runs on, and the table that says where platform
//! consent and a native service exist.
use vstd::prelude::*;
use crate::models::PermissionType;

verus! {

/// The platform, identified once at startup.
#[derive(Clone, Copy, Debug, PartialEq, Eq, Structural)]
pub enum Platform {
    MacOs,
    Windows,
    Linux,
    Android,
    Ios,
}

/// Whether `kind` needs the platform's consent on `p`: desktops grant
/// notifications outright and audio unless they have a native media
/// authorization API (macOS); mobile platforms ask for both.
pub open spec fn consent_required(p: Platform, kind: PermissionType) -> bool {
    match (p, kind) {
        (Platform::MacOs, PermissionType::Audio) => true,
        (Platform::Windows, _) | (Platform::Linux, _) | (Platform::MacOs, _) => false,
        (Platform::Android, _) | (Platform::Ios, _) => true,
    }
}

/// Whether `p` has a persistent foreground service with a notification.
pub open spec fn native_service(p: Platform) -> bool {
    p is Android || p is Ios
}

impl Platform {
    /// Looks `kind` up in the consent table of this platform.
    pub fn requires_consent(self, kind: PermissionType) -> (r: bool)
        ensures
            r == consent_required(self, kind),
    {
        match (self, kind) {
            (Platform::MacOs, PermissionType::Audio) => true,
            (Platform::Windows, _) | (Platform::Linux, _) | (Platform::MacOs, _) => false,
            (Platform::Android, _) | (Platform::Ios, _) => true,
        }
    }

    pub fn has_native_service(self) -> (r: bool)
        ensures
            r == native_service(self),
    {
        match self {
            Platform::Android | Platform::Ios => true,
            _ => false,
        }
    }
}

} // verus!
