//! The one object callers use: it holds the platform chosen at startup and
//! a record of the service transitions and notification content that the
//! platform confirmed. It answers permission checks, requests and status
//! queries from what the platform reports at the time of the call, and maps
//! every failure into the error taxonomy.
use vstd::prelude::*;
use crate::consent::ConsentBridge;
use crate::error::{Error, ErrorKind};
use crate::models::{
    NotificationUpdate, PermissionRequest, PermissionResponse, PermissionType, ServiceResponse,
    ServiceStatusResponse,
};
use crate::platform::{consent_required, native_service, Platform};
use crate::service::{merged, opt_view, ServiceState, ServiceView};

verus! {

/// The facade as a value.
pub struct FacadeView {
    pub platform: Platform,
    pub service: ServiceView,
}

/// The answer to a check or request for `kind` on `p`, where `native` is
/// what the platform's consent facility said: granted outright where the
/// platform asks no consent, else the platform's answer, and none where the
/// platform failed.
pub open spec fn answer(p: Platform, kind: PermissionType, native: Result<bool, Error>) -> Option<
    bool,
> {
    if !consent_required(p, kind) {
        Some(true)
    } else {
        match native {
            Ok(g) => Some(g),
            Err(_) => None,
        }
    }
}

/// `e` is the platform's error `native`, passed on unchanged.
pub open spec fn passes_error(e: Error, native: Result<bool, Error>) -> bool {
    native matches Err(n) && e.kind == n.kind && e.message@ == n.message@
}

/// Whether a service operation reaches the platform and the platform
/// confirmed it.
pub open spec fn confirmed(p: Platform, native: Result<(), String>) -> bool {
    native_service(p) && native is Ok
}

/// `r` is the outcome of a service operation on `p` whose platform outcome
/// was `native`: `ok` on a platform without a native service, or where the
/// platform confirmed it, else the platform's refusal.
pub open spec fn service_outcome(
    p: Platform,
    native: Result<(), String>,
    r: Result<ServiceResponse, Error>,
    ok: ServiceResponse,
) -> bool {
    if !native_service(p) || native is Ok {
        r == Ok::<ServiceResponse, Error>(ok)
    } else {
        r matches Err(e) && e.kind == ErrorKind::ServiceOperationFailed && e.message@
            == native->Err_0@
    }
}

pub open spec fn after_start(v: FacadeView, native: Result<(), String>) -> FacadeView {
    if confirmed(v.platform, native) {
        FacadeView { service: ServiceView { running: true, ..v.service }, ..v }
    } else {
        v
    }
}

pub open spec fn after_stop(v: FacadeView, native: Result<(), String>) -> FacadeView {
    if confirmed(v.platform, native) {
        FacadeView { service: ServiceView { running: false, ..v.service }, ..v }
    } else {
        v
    }
}

pub open spec fn after_update(
    v: FacadeView,
    native: Result<(), String>,
    title: Option<Seq<char>>,
    message: Option<Seq<char>>,
) -> FacadeView {
    if confirmed(v.platform, native) {
        FacadeView {
            service: ServiceView {
                running: v.service.running,
                title: merged(v.service.title, title),
                message: merged(v.service.message, message),
            },
            ..v
        }
    } else {
        v
    }
}

pub open spec fn opt_ref_view(o: Option<&String>) -> Option<Seq<char>> {
    match o {
        Some(s) => Some(s@),
        None => None,
    }
}

/// The answer to a status query on `p`, where `native` is what the
/// platform's service manager reported: never running on a platform without
/// a native service, else the manager's answer, and none where it failed.
pub open spec fn status_answer(p: Platform, native: Result<bool, String>) -> Option<bool> {
    if !native_service(p) {
        Some(false)
    } else {
        match native {
            Ok(running) => Some(running),
            Err(_) => None,
        }
    }
}

/// Access to the permission and service operations of the platform.
#[derive(Debug)]
pub struct AudioPermissions {
    platform: Platform,
    service: ServiceState,
}

impl View for AudioPermissions {
    type V = FacadeView;

    closed spec fn view(&self) -> FacadeView {
        FacadeView { platform: self.platform, service: self.service@ }
    }
}

impl AudioPermissions {
    /// The facade for `platform`, with its service stopped.
    pub fn new(platform: Platform) -> (r: AudioPermissions)
        ensures
            r@.platform == platform,
            r@.service == (ServiceView { running: false, title: None, message: None }),
    {
        AudioPermissions { platform, service: ServiceState::new() }
    }

    pub fn platform(&self) -> (r: Platform)
        ensures
            r == self@.platform,
    {
        self.platform
    }

    /// The title and message last applied to the service's notification.
    pub fn notification(&self) -> (r: (Option<&String>, Option<&String>))
        ensures
            opt_ref_view(r.0) == self@.service.title,
            opt_ref_view(r.1) == self@.service.message,
    {
        (self.service.title.as_ref(), self.service.message.as_ref())
    }

    /// Whether a check or request for `kind` has to ask the platform.
    pub fn requires_consent(&self, kind: PermissionType) -> (r: bool)
        ensures
            r == consent_required(self@.platform, kind),
    {
        self.platform.requires_consent(kind)
    }

    /// Whether the service operations reach a native service.
    pub fn has_native_service(&self) -> (r: bool)
        ensures
            r == native_service(self@.platform),
    {
        self.platform.has_native_service()
    }

    /// Begins a request for the permission that `payload` names.
    pub fn begin_request(&self, payload: &PermissionRequest) -> (r: ConsentBridge)
        ensures
            r.wf(),
            r.spec_phase() == crate::consent::initial_phase(self@.platform, payload.permission_type),
            r.spec_dialogs() == 0,
    {
        ConsentBridge::start(self.platform, payload.permission_type)
    }

    /// Answers a request for the permission that `payload` names. `native`
    /// is the platform's answer once its consent flow has resolved; it is
    /// not consulted where the platform asks no consent.
    pub fn request_permission(&self, payload: PermissionRequest, native: Result<bool, Error>) -> (r:
        Result<PermissionResponse, Error>)
        ensures
            r is Ok <==> answer(self@.platform, payload.permission_type, native) is Some,
            r matches Ok(resp) ==> Some(resp.granted) == answer(
                self@.platform,
                payload.permission_type,
                native,
            ),
            r matches Err(e) ==> passes_error(e, native),
    {
        self.respond(payload.permission_type, native)
    }

    /// Answers a check of the permission that `payload` names. `native` is
    /// the status the platform reports now; it is not consulted where the
    /// platform asks no consent.
    pub fn check_permission(&self, payload: PermissionRequest, native: Result<bool, Error>) -> (r:
        Result<PermissionResponse, Error>)
        ensures
            r is Ok <==> answer(self@.platform, payload.permission_type, native) is Some,
            r matches Ok(resp) ==> Some(resp.granted) == answer(
                self@.platform,
                payload.permission_type,
                native,
            ),
            r matches Err(e) ==> passes_error(e, native),
    {
        self.respond(payload.permission_type, native)
    }

    fn respond(&self, kind: PermissionType, native: Result<bool, Error>) -> (r: Result<
        PermissionResponse,
        Error,
    >)
        ensures
            r is Ok <==> answer(self@.platform, kind, native) is Some,
            r matches Ok(resp) ==> Some(resp.granted) == answer(self@.platform, kind, native),
            r matches Err(e) ==> passes_error(e, native),
    {
        if !self.platform.requires_consent(kind) {
            return Ok(PermissionResponse { granted: true });
        }
        match native {
            Ok(granted) => Ok(PermissionResponse { granted }),
            Err(e) => Err(e),
        }
    }

    /// Starts the foreground service. `native` is the platform's outcome; on
    /// a platform without a native service it is not consulted and the call
    /// succeeds without effect.
    pub fn start_foreground_service(&mut self, native: Result<(), String>) -> (r: Result<
        ServiceResponse,
        Error,
    >)
        ensures
            final(self)@ == after_start(old(self)@, native),
            service_outcome(old(self)@.platform, native, r, ServiceResponse::started_spec()),
    {
        if !self.platform.has_native_service() {
            return Ok(ServiceResponse::started());
        }
        match native {
            Ok(()) => {
                self.service.start();
                Ok(ServiceResponse::started())
            },
            Err(m) => Err(Error::service_failed(m)),
        }
    }

    /// Stops the foreground service, as `start_foreground_service` starts it.
    pub fn stop_foreground_service(&mut self, native: Result<(), String>) -> (r: Result<
        ServiceResponse,
        Error,
    >)
        ensures
            final(self)@ == after_stop(old(self)@, native),
            service_outcome(old(self)@.platform, native, r, ServiceResponse::stopped_spec()),
    {
        if !self.platform.has_native_service() {
            return Ok(ServiceResponse::stopped());
        }
        match native {
            Ok(()) => {
                self.service.stop();
                Ok(ServiceResponse::stopped())
            },
            Err(m) => Err(Error::service_failed(m)),
        }
    }

    /// Applies `payload` to the service's notification: each field it gives
    /// replaces the old one, an absent field leaves it as it was.
    pub fn update_notification(
        &mut self,
        payload: NotificationUpdate,
        native: Result<(), String>,
    ) -> (r: Result<ServiceResponse, Error>)
        ensures
            final(self)@ == after_update(
                old(self)@,
                native,
                opt_view(payload.title),
                opt_view(payload.message),
            ),
            service_outcome(old(self)@.platform, native, r, ServiceResponse::updated_spec()),
    {
        if !self.platform.has_native_service() {
            return Ok(ServiceResponse::updated());
        }
        match native {
            Ok(()) => {
                self.service.apply(payload);
                Ok(ServiceResponse::updated())
            },
            Err(m) => Err(Error::service_failed(m)),
        }
    }

    /// Whether the service runs, as the platform's service manager reports
    /// it now in `native`; never on a platform without a native service,
    /// where `native` is not consulted.
    pub fn is_service_running(&self, native: Result<bool, String>) -> (r: Result<
        ServiceStatusResponse,
        Error,
    >)
        ensures
            r is Ok <==> status_answer(self@.platform, native) is Some,
            r matches Ok(resp) ==> Some(resp.running) == status_answer(self@.platform, native),
            r matches Err(e) ==> e.kind == ErrorKind::ServiceOperationFailed && e.message@
                == native->Err_0@,
    {
        if !self.platform.has_native_service() {
            return Ok(ServiceStatusResponse { running: false });
        }
        match native {
            Ok(running) => Ok(ServiceStatusResponse { running }),
            Err(m) => Err(Error::service_failed(m)),
        }
    }
}

/// On a platform that asks no consent for audio, both a check and a request
/// for audio are granted, whatever the platform would report.
pub proof fn lemma_audio_granted_without_consent(
    p: Platform,
    check_native: Result<bool, Error>,
    request_native: Result<bool, Error>,
)
    requires
        !consent_required(p, PermissionType::Audio),
    ensures
        answer(p, PermissionType::Audio, check_native) == Some(true),
        answer(p, PermissionType::Audio, request_native) == Some(true),
{
}

/// On a platform that asks no consent for notifications, a request for
/// notifications is granted, whatever the platform would report.
pub proof fn lemma_notification_granted_without_consent(p: Platform, native: Result<bool, Error>)
    requires
        !consent_required(p, PermissionType::Notification),
    ensures
        answer(p, PermissionType::Notification, native) == Some(true),
{
}

/// A check changes nothing (it takes the facade by shared reference), so two
/// checks with no request between them, on which the platform reports the
/// same, give the same answer; where the platform asks no consent they agree
/// whatever it reports.
pub proof fn lemma_check_repeatable(
    p: Platform,
    kind: PermissionType,
    first: Result<bool, Error>,
    second: Result<bool, Error>,
)
    requires
        consent_required(p, kind) ==> first == second,
    ensures
        answer(p, kind, first) == answer(p, kind, second),
{
}

/// Without a native service, starting the service changes nothing and a
/// status query after it still reports it as not running.
pub proof fn lemma_no_native_service_never_runs(
    v: FacadeView,
    native: Result<(), String>,
    status: Result<bool, String>,
)
    requires
        !native_service(v.platform),
    ensures
        after_start(v, native) == v,
        status_answer(after_start(v, native).platform, status) == Some(false),
{
}

/// With a native service whose manager reports the state it confirmed, a
/// confirmed start makes the status query report it running, and a
/// confirmed stop after it makes it report it stopped.
pub proof fn lemma_service_lifecycle(v: FacadeView)
    requires
        native_service(v.platform),
    ensures
        ({
            let started = after_start(v, Ok(()));
            let stopped = after_stop(started, Ok(()));
            &&& status_answer(started.platform, Ok(started.service.running)) == Some(true)
            &&& status_answer(stopped.platform, Ok(stopped.service.running)) == Some(false)
        }),
{
}

/// With a native service, a confirmed update that gives a title and a
/// message records exactly those two, and leaves the service running or
/// stopped as it was.
pub proof fn lemma_update_records_content(v: FacadeView, title: Seq<char>, message: Seq<char>)
    requires
        native_service(v.platform),
    ensures
        after_update(v, Ok(()), Some(title), Some(message)).service.title == Some(title),
        after_update(v, Ok(()), Some(title), Some(message)).service.message == Some(message),
        after_update(v, Ok(()), Some(title), Some(message)).service.running == v.service.running,
{
}

} // verus!
