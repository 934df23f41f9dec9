use audio_permissions::{
    check_microphone_permission, AudioPermissions, ConsentAction, ConsentBridge, ConsentEvent,
    ConsentPhase, ErrorKind, PermissionRequest, PermissionResponse, PermissionStatus,
    PermissionType, Platform,
};

fn audio() -> PermissionRequest {
    PermissionRequest::new(PermissionType::Audio)
}

fn notification() -> PermissionRequest {
    PermissionRequest::new(PermissionType::Notification)
}

#[test]
fn default_request_is_audio() {
    assert_eq!(PermissionType::default(), PermissionType::Audio);
    assert_eq!(PermissionRequest::default().permission_type, PermissionType::Audio);
    assert!(!PermissionResponse::default().granted);
}

#[test]
fn audio_is_granted_where_no_consent_exists() {
    for p in [Platform::Windows, Platform::Linux] {
        let a = AudioPermissions::new(p);
        assert!(!a.requires_consent(PermissionType::Audio));
        for native in [Ok(false), Ok(true)] {
            assert!(a.check_permission(audio(), native.clone()).unwrap().granted);
            assert!(a.request_permission(audio(), native).unwrap().granted);
        }
        let failed = check_microphone_permission(p, None);
        assert!(failed.unwrap());
        let failed = check_microphone_permission(Platform::MacOs, None);
        assert!(a.check_permission(audio(), failed).unwrap().granted);
    }
}

#[test]
fn notification_is_granted_on_desktop() {
    for p in [Platform::MacOs, Platform::Windows, Platform::Linux] {
        let a = AudioPermissions::new(p);
        assert!(!a.requires_consent(PermissionType::Notification));
        let r = a.request_permission(notification(), Ok(false)).unwrap();
        assert!(r.granted);
    }
}

#[test]
fn mobile_asks_for_both_kinds() {
    for p in [Platform::Android, Platform::Ios] {
        let a = AudioPermissions::new(p);
        assert!(a.requires_consent(PermissionType::Audio));
        assert!(a.requires_consent(PermissionType::Notification));
        assert!(!a.request_permission(notification(), Ok(false)).unwrap().granted);
        assert!(a.request_permission(notification(), Ok(true)).unwrap().granted);
    }
}

#[test]
fn repeated_checks_agree() {
    let a = AudioPermissions::new(Platform::MacOs);
    let code = Some(2);
    let first = a.check_permission(audio(), check_microphone_permission(Platform::MacOs, code)).unwrap();
    let second = a.check_permission(audio(), check_microphone_permission(Platform::MacOs, code)).unwrap();
    assert_eq!(first, second);
    assert!(!first.granted);
}

#[test]
fn check_on_always_authorized_stub() {
    let a = AudioPermissions::new(Platform::MacOs);
    let r = a.check_permission(audio(), Ok(true));
    assert_eq!(r.unwrap(), PermissionResponse { granted: true });
}

#[test]
fn check_on_always_denied_stub() {
    let a = AudioPermissions::new(Platform::MacOs);
    let r = a.check_permission(audio(), Ok(false));
    assert_eq!(r.unwrap(), PermissionResponse { granted: false });
}

#[test]
fn desktop_without_consent_grants_microphone() {
    for p in [Platform::Windows, Platform::Linux] {
        assert_eq!(check_microphone_permission(p, None).unwrap(), true);
        assert_eq!(check_microphone_permission(p, Some(2)).unwrap(), true);
    }
}

#[test]
fn native_status_codes() {
    assert_eq!(check_microphone_permission(Platform::MacOs, Some(0)).unwrap(), false);
    assert_eq!(check_microphone_permission(Platform::MacOs, Some(1)).unwrap(), false);
    assert_eq!(check_microphone_permission(Platform::MacOs, Some(2)).unwrap(), false);
    assert_eq!(check_microphone_permission(Platform::MacOs, Some(3)).unwrap(), true);
    assert_eq!(check_microphone_permission(Platform::MacOs, Some(7)).unwrap(), false);
    assert_eq!(PermissionStatus::from_code(0), PermissionStatus::Undetermined);
    assert_eq!(PermissionStatus::from_code(1), PermissionStatus::Denied);
    assert_eq!(PermissionStatus::from_code(3), PermissionStatus::Authorized);
}

#[test]
fn missing_facility_is_platform_unavailable() {
    let e = check_microphone_permission(Platform::MacOs, None).unwrap_err();
    assert_eq!(e.kind, ErrorKind::PlatformUnavailable);
    let a = AudioPermissions::new(Platform::MacOs);
    let e = a.check_permission(audio(), check_microphone_permission(Platform::MacOs, None)).unwrap_err();
    assert_eq!(e.kind, ErrorKind::PlatformUnavailable);
    assert_eq!(e.message, "AVCaptureDevice class not found");
}

/// Drives a request the way the platform side does, against a stub whose
/// status and dialog answer are given, and counts the dialogs it presents.
fn drive(bridge: &mut ConsentBridge, status: &mut PermissionStatus, answer: Option<bool>) -> (ConsentAction, u32) {
    let mut shown = 0u32;
    let mut action = bridge.action();
    loop {
        let ev = match action {
            ConsentAction::QueryStatus => ConsentEvent::Status(*status),
            ConsentAction::PresentDialog | ConsentAction::AwaitAnswer => {
                if action == ConsentAction::PresentDialog {
                    shown += 1;
                }
                match answer {
                    Some(g) => {
                        *status = PermissionStatus::from_granted(g);
                        ConsentEvent::Answered(g)
                    }
                    None => ConsentEvent::SignalDropped,
                }
            }
            ConsentAction::Finish(_) | ConsentAction::Fail => return (action, shown),
        };
        action = bridge.advance(ev);
    }
}

#[test]
fn denied_request_stays_denied_without_second_dialog() {
    let a = AudioPermissions::new(Platform::MacOs);
    let mut status = PermissionStatus::Undetermined;

    let mut first = a.begin_request(&audio());
    let (action, shown) = drive(&mut first, &mut status, Some(false));
    assert_eq!(action, ConsentAction::Finish(false));
    assert_eq!(shown, 1);
    assert_eq!(first.dialogs_presented(), 1);
    let native = first.outcome().unwrap();
    assert!(!a.request_permission(audio(), native).unwrap().granted);

    let mut second = a.begin_request(&audio());
    let (action, shown) = drive(&mut second, &mut status, Some(true));
    assert_eq!(action, ConsentAction::Finish(false));
    assert_eq!(shown, 0);
    assert_eq!(second.dialogs_presented(), 0);
    assert!(!a.request_permission(audio(), second.outcome().unwrap()).unwrap().granted);
}

#[test]
fn undetermined_request_waits_for_answer() {
    let mut status = PermissionStatus::Undetermined;
    let mut b = ConsentBridge::start(Platform::MacOs, PermissionType::Audio);
    assert_eq!(b.action(), ConsentAction::QueryStatus);
    let (action, shown) = drive(&mut b, &mut status, Some(true));
    assert_eq!(action, ConsentAction::Finish(true));
    assert_eq!(shown, 1);
    assert_eq!(b.phase(), ConsentPhase::Resolved(true));
    assert!(b.outcome().unwrap().unwrap());
}

#[test]
fn dropped_signal_falls_back_to_status() {
    let mut b = ConsentBridge::start(Platform::MacOs, PermissionType::Audio);
    assert_eq!(b.advance(ConsentEvent::Status(PermissionStatus::Undetermined)), ConsentAction::PresentDialog);
    assert!(b.outcome().is_none());
    assert_eq!(b.advance(ConsentEvent::SignalDropped), ConsentAction::QueryStatus);
    assert_eq!(b.advance(ConsentEvent::Status(PermissionStatus::Authorized)), ConsentAction::Finish(true));
    assert_eq!(b.dialogs_presented(), 1);

    let mut c = ConsentBridge::start(Platform::MacOs, PermissionType::Audio);
    c.advance(ConsentEvent::Status(PermissionStatus::Undetermined));
    c.advance(ConsentEvent::SignalDropped);
    assert_eq!(c.advance(ConsentEvent::Status(PermissionStatus::Undetermined)), ConsentAction::Finish(false));
}

#[test]
fn stray_events_do_not_reopen_the_dialog() {
    let mut b = ConsentBridge::start(Platform::Android, PermissionType::Audio);
    assert_eq!(b.advance(ConsentEvent::Status(PermissionStatus::Undetermined)), ConsentAction::PresentDialog);
    assert_eq!(b.advance(ConsentEvent::Status(PermissionStatus::Undetermined)), ConsentAction::AwaitAnswer);
    assert_eq!(b.advance(ConsentEvent::Answered(true)), ConsentAction::Finish(true));
    assert_eq!(b.advance(ConsentEvent::Answered(false)), ConsentAction::Finish(true));
    assert_eq!(b.dialogs_presented(), 1);
}

#[test]
fn request_without_consent_is_answered_at_once() {
    let b = ConsentBridge::start(Platform::Linux, PermissionType::Audio);
    assert_eq!(b.action(), ConsentAction::Finish(true));
    assert!(b.outcome().unwrap().unwrap());
    assert_eq!(b.dialogs_presented(), 0);
}

#[test]
fn missing_facility_fails_the_request() {
    let mut b = ConsentBridge::start(Platform::MacOs, PermissionType::Audio);
    assert_eq!(b.advance(ConsentEvent::FacilityMissing), ConsentAction::Fail);
    let e = b.outcome().unwrap().unwrap_err();
    assert_eq!(e.kind, ErrorKind::PlatformUnavailable);
    assert_eq!(e.message, "AVCaptureDevice class not found");
    let a = AudioPermissions::new(Platform::MacOs);
    let e = a.request_permission(audio(), b.outcome().unwrap()).unwrap_err();
    assert_eq!(e.kind, ErrorKind::PlatformUnavailable);
}

#[test]
fn many_requests_present_one_dialog() {
    let a = AudioPermissions::new(Platform::MacOs);
    let mut status = PermissionStatus::Undetermined;
    let mut total = 0u32;
    for (i, choice) in [false, true, true, false, true].into_iter().enumerate() {
        let mut b = a.begin_request(&audio());
        let (action, shown) = drive(&mut b, &mut status, Some(choice));
        total += shown;
        assert_eq!(action, ConsentAction::Finish(false), "request {}", i);
    }
    assert_eq!(total, 1);
    assert_eq!(status, PermissionStatus::Denied);
}
