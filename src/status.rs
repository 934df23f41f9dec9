//! The platform's own view of one permission, and how a raw native status
//! code reads.
use vstd::prelude::*;
use crate::error::{Error, ErrorKind};
use crate::models::PermissionType;
use crate::platform::{consent_required, Platform};

verus! {

/// Native authorization code for "the user has not been asked yet".
pub const NOT_DETERMINED_CODE: i32 = 0;

/// Native authorization code for "the user allowed access".
pub const AUTHORIZED_CODE: i32 = 3;

/// Message of the error returned when the native authorization facility
/// cannot be found.
pub open spec fn missing_facility_message() -> Seq<char> {
    "AVCaptureDevice class not found"@
}

/// Tri-state status of one permission. Only `Undetermined` moves, and only
/// to one of the two terminal states.
#[derive(Clone, Copy, Debug, PartialEq, Eq, Structural)]
pub enum PermissionStatus {
    Undetermined,
    Denied,
    Authorized,
}

/// How a native authorization code reads: "not determined" is undetermined,
/// "authorized" is authorized, and every other code (restricted, denied, or
/// one this layer does not know) keeps access closed for good.
pub open spec fn status_of_code(code: i32) -> PermissionStatus {
    if code == NOT_DETERMINED_CODE {
        PermissionStatus::Undetermined
    } else if code == AUTHORIZED_CODE {
        PermissionStatus::Authorized
    } else {
        PermissionStatus::Denied
    }
}

/// The statuses a status may move to; each status may also stay.
pub open spec fn may_move(from: PermissionStatus, to: PermissionStatus) -> bool {
    from == to || from is Undetermined
}

impl PermissionStatus {
    pub open spec fn spec_is_terminal(self) -> bool {
        !(self is Undetermined)
    }

    pub open spec fn spec_granted(self) -> bool {
        self is Authorized
    }

    pub fn from_code(code: i32) -> (r: PermissionStatus)
        ensures
            r == status_of_code(code),
    {
        if code == NOT_DETERMINED_CODE {
            PermissionStatus::Undetermined
        } else if code == AUTHORIZED_CODE {
            PermissionStatus::Authorized
        } else {
            PermissionStatus::Denied
        }
    }

    /// Reads a yes/no answer that a platform gave.
    pub fn from_granted(granted: bool) -> (r: PermissionStatus)
        ensures
            r.spec_is_terminal(),
            r.spec_granted() == granted,
    {
        if granted {
            PermissionStatus::Authorized
        } else {
            PermissionStatus::Denied
        }
    }

    pub fn is_terminal(self) -> (r: bool)
        ensures
            r == self.spec_is_terminal(),
    {
        !matches!(self, PermissionStatus::Undetermined)
    }

    pub fn granted(self) -> (r: bool)
        ensures
            r == self.spec_granted(),
    {
        matches!(self, PermissionStatus::Authorized)
    }
}

/// A terminal status never moves again.
pub proof fn lemma_terminal_is_final(from: PermissionStatus, to: PermissionStatus)
    requires
        from.spec_is_terminal(),
        may_move(from, to),
    ensures
        to == from,
{
}

/// Whether the microphone may be used on `p`. Where `p` asks no consent
/// for audio, it may, and `code` is not consulted. Elsewhere `code` is the
/// authorization code the native facility reported, or `None` where the
/// facility could not be found; access is open only on the "authorized"
/// code.
pub fn check_microphone_permission(p: Platform, code: Option<i32>) -> (r: Result<bool, Error>)
    ensures
        !consent_required(p, PermissionType::Audio) ==> r == Ok::<bool, Error>(true),
        consent_required(p, PermissionType::Audio) ==> (code is None <==> r is Err),
        consent_required(p, PermissionType::Audio) ==> (r matches Ok(g) ==> g == (code->0
            == AUTHORIZED_CODE)),
        r matches Err(e) ==> e.kind == ErrorKind::PlatformUnavailable && e.message@
            == missing_facility_message(),
{
    if !p.requires_consent(PermissionType::Audio) {
        return Ok(true);
    }
    match code {
        Some(c) => Ok(PermissionStatus::from_code(c).granted()),
        None => Err(missing_facility_error()),
    }
}

pub fn missing_facility_error() -> (e: Error)
    ensures
        e.kind == ErrorKind::PlatformUnavailable,
        e.message@ == missing_facility_message(),
{
    Error::platform_unavailable("AVCaptureDevice class not found".to_owned())
}

} // verus!
