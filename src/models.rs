//! Request and response shapes exchanged with callers.
use vstd::prelude::*;

verus! {

/// The capability a caller asks about.
#[derive(Clone, Copy, Debug, PartialEq, Eq, Structural)]
pub enum PermissionType {
    Audio,
    Notification,
}

impl Default for PermissionType {
    /// A request that names no capability is about the microphone.
    fn default() -> (r: PermissionType)
        ensures
            r == PermissionType::Audio,
    {
        PermissionType::Audio
    }
}

/// A check or request for one capability.
#[derive(Clone, Copy, Debug, PartialEq, Eq, Structural)]
pub struct PermissionRequest {
    pub permission_type: PermissionType,
}

impl PermissionRequest {
    pub fn new(permission_type: PermissionType) -> (r: PermissionRequest)
        ensures
            r.permission_type == permission_type,
    {
        PermissionRequest { permission_type }
    }
}

impl Default for PermissionRequest {
    fn default() -> (r: PermissionRequest)
        ensures
            r.permission_type == PermissionType::Audio,
    {
        PermissionRequest { permission_type: PermissionType::Audio }
    }
}

/// The platform's answer at the instant of the call.
#[derive(Clone, Copy, Debug, PartialEq, Eq, Structural)]
pub struct PermissionResponse {
    pub granted: bool,
}

impl Default for PermissionResponse {
    fn default() -> (r: PermissionResponse)
        ensures
            !r.granted,
    {
        PermissionResponse { granted: false }
    }
}

/// Desired content of the running service's notification; an absent field
/// leaves that part unchanged.
#[derive(Debug)]
pub struct NotificationUpdate {
    pub title: Option<String>,
    pub message: Option<String>,
}

/// Outcome of one service lifecycle operation: exactly the field of the
/// operation that was invoked is set.
#[derive(Clone, Copy, Debug, PartialEq, Eq, Structural)]
pub struct ServiceResponse {
    pub started: Option<bool>,
    pub stopped: Option<bool>,
    pub updated: Option<bool>,
}

impl ServiceResponse {
    pub open spec fn started_spec() -> ServiceResponse {
        ServiceResponse { started: Some(true), stopped: None, updated: None }
    }

    pub open spec fn stopped_spec() -> ServiceResponse {
        ServiceResponse { started: None, stopped: Some(true), updated: None }
    }

    pub open spec fn updated_spec() -> ServiceResponse {
        ServiceResponse { started: None, stopped: None, updated: Some(true) }
    }

    pub fn started() -> (r: ServiceResponse)
        ensures
            r == ServiceResponse::started_spec(),
    {
        ServiceResponse { started: Some(true), stopped: None, updated: None }
    }

    pub fn stopped() -> (r: ServiceResponse)
        ensures
            r == ServiceResponse::stopped_spec(),
    {
        ServiceResponse { started: None, stopped: Some(true), updated: None }
    }

    pub fn updated() -> (r: ServiceResponse)
        ensures
            r == ServiceResponse::updated_spec(),
    {
        ServiceResponse { started: None, stopped: None, updated: Some(true) }
    }
}

impl Default for ServiceResponse {
    fn default() -> (r: ServiceResponse)
        ensures
            r.started is None,
            r.stopped is None,
            r.updated is None,
    {
        ServiceResponse { started: None, stopped: None, updated: None }
    }
}

/// Whether the background service runs.
#[derive(Clone, Copy, Debug, PartialEq, Eq, Structural)]
pub struct ServiceStatusResponse {
    pub running: bool,
}

impl Default for ServiceStatusResponse {
    fn default() -> (r: ServiceStatusResponse)
        ensures
            !r.running,
    {
        ServiceStatusResponse { running: false }
    }
}

} // verus!
