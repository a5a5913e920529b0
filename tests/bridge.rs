use keybridge::bridge::{channel, Bridge, BridgeAction, BridgePhase, CaptureInitError, DeliveryError};
use keybridge::classify::Classifier;
use keybridge::payload::Payload;

fn listening(classifier: Classifier) -> Bridge {
    let mut b = Bridge::new(classifier);
    assert!(matches!(b.start(), BridgeAction::SpawnCapture));
    assert!(matches!(b.hook_result(Ok(())), BridgeAction::Nothing));
    assert_eq!(b.phase(), BridgePhase::Listening);
    b
}

fn emitted(action: BridgeAction) -> Payload {
    match action {
        BridgeAction::Emit(p) => p,
        _ => panic!("expected an emitted payload"),
    }
}

#[test]
fn raw_shortcut_passes_through_on_keypress_channel() {
    let mut b = listening(Classifier::dropping());
    let p = emitted(b.on_input("global-shortcut", "Ctrl+Shift+A"));
    assert_eq!(p.mode(), "global-shortcut");
    assert_eq!(p.message(), "Ctrl+Shift+A");
    assert_eq!(channel(), "keypress");
}

#[test]
fn identical_inputs_classify_identically() {
    let c = Classifier::forwarding("other");
    for (mode, message) in [("global-shortcut", "Ctrl+Shift+A"), ("", "F13")] {
        let a = c.classify(mode, message).unwrap();
        let b = c.classify(mode, message).unwrap();
        assert_eq!(a.mode, b.mode);
        assert_eq!(a.message, b.message);
    }
    let d = Classifier::dropping();
    assert!(d.classify("", "F13").is_none());
    assert!(d.classify("", "F13").is_none());
}

#[test]
fn payloads_leave_in_observation_order() {
    let mut b = listening(Classifier::dropping());
    let inputs = [("press", "A"), ("", "dropped"), ("press", "B"), ("release", "A")];
    let mut out: Vec<(String, String)> = Vec::new();
    for (mode, message) in inputs {
        if let BridgeAction::Emit(p) = b.on_input(mode, message) {
            out.push((p.mode.clone(), p.message.clone()));
            assert!(matches!(b.on_delivery(Ok(())), BridgeAction::Nothing));
        }
    }
    let expected: Vec<(String, String)> = vec![
        ("press".to_string(), "A".to_string()),
        ("press".to_string(), "B".to_string()),
        ("release".to_string(), "A".to_string()),
    ];
    assert_eq!(out, expected);
}

#[test]
fn delivery_failures_never_halt_capture() {
    let mut b = listening(Classifier::dropping());
    for _ in 0..5 {
        let p = emitted(b.on_input("press", "X"));
        assert_eq!(p.message, "X");
        match b.on_delivery(Err(DeliveryError::ForegroundGone)) {
            BridgeAction::LogDeliveryFailure(e) => assert_eq!(e, DeliveryError::ForegroundGone),
            _ => panic!("expected the failure to be logged"),
        }
        assert!(b.is_listening());
    }
    let p = emitted(b.on_input("press", "Y"));
    assert_eq!(p.mode, "press");
    assert_eq!(p.message, "Y");
}

#[test]
fn torn_down_foreground_then_reattached() {
    let mut b = listening(Classifier::dropping());
    emitted(b.on_input("global-shortcut", "Ctrl+C"));
    assert!(matches!(
        b.on_delivery(Err(DeliveryError::ForegroundGone)),
        BridgeAction::LogDeliveryFailure(DeliveryError::ForegroundGone)
    ));
    assert_eq!(b.phase(), BridgePhase::Listening);
    let p = emitted(b.on_input("global-shortcut", "Ctrl+V"));
    assert_eq!(p.message, "Ctrl+V");
    assert!(matches!(b.on_delivery(Ok(())), BridgeAction::Nothing));
    assert_eq!(b.phase(), BridgePhase::Listening);
}

#[test]
fn marshaling_failure_is_logged() {
    let mut b = listening(Classifier::dropping());
    assert!(matches!(
        b.on_delivery(Err(DeliveryError::Marshaling)),
        BridgeAction::LogDeliveryFailure(DeliveryError::Marshaling)
    ));
    assert!(b.is_listening());
}

#[test]
fn capture_context_spawned_once() {
    let mut b = Bridge::new(Classifier::dropping());
    assert_eq!(b.phase(), BridgePhase::Idle);
    assert!(matches!(b.start(), BridgeAction::SpawnCapture));
    assert!(matches!(b.start(), BridgeAction::Nothing));
    assert!(matches!(b.hook_result(Ok(())), BridgeAction::Nothing));
    assert!(matches!(b.start(), BridgeAction::Nothing));
    assert!(b.is_listening());
}

#[test]
fn capture_init_failure_disables_bridge_and_reports_once() {
    let mut b = Bridge::new(Classifier::dropping());
    b.start();
    assert!(matches!(
        b.hook_result(Err(CaptureInitError::PermissionDenied)),
        BridgeAction::ReportCaptureFailure(CaptureInitError::PermissionDenied)
    ));
    assert_eq!(b.phase(), BridgePhase::Disabled);
    assert!(matches!(b.hook_result(Err(CaptureInitError::PlatformFailure)), BridgeAction::Nothing));
    assert!(matches!(b.start(), BridgeAction::Nothing));
    assert!(matches!(b.on_input("press", "A"), BridgeAction::Nothing));
    b.cancel();
    assert_eq!(b.phase(), BridgePhase::Disabled);
}

#[test]
fn input_before_hook_is_ignored() {
    let mut b = Bridge::new(Classifier::dropping());
    assert!(matches!(b.on_input("press", "A"), BridgeAction::Nothing));
    b.start();
    assert!(matches!(b.on_input("press", "A"), BridgeAction::Nothing));
}

#[test]
fn cancel_stops_listening() {
    let mut b = listening(Classifier::dropping());
    assert!(matches!(b.cancel(), BridgeAction::Nothing));
    assert_eq!(b.phase(), BridgePhase::Stopped);
    assert!(matches!(b.on_input("press", "A"), BridgeAction::Nothing));
    assert!(matches!(b.start(), BridgeAction::Nothing));
}

#[test]
fn unrecognized_input_dropped_or_forwarded_by_policy() {
    let mut dropping = listening(Classifier::dropping());
    assert!(matches!(dropping.on_input("", "F13"), BridgeAction::Nothing));
    let mut forwarding = listening(Classifier::forwarding("unclassified"));
    let p = emitted(forwarding.on_input("", "F13"));
    assert_eq!(p.mode, "unclassified");
    assert_eq!(p.message, "F13");
    let q = emitted(forwarding.on_input("global-shortcut", "F13"));
    assert_eq!(q.mode, "global-shortcut");
}

#[test]
fn payload_new_and_clone_copy_fields() {
    let p = Payload::new("m", "msg");
    let q = p.clone();
    assert_eq!(q.mode, "m");
    assert_eq!(q.message, "msg");
    let c = Classifier::forwarding("tag").clone();
    assert_eq!(c.fallback.as_deref(), Some("tag"));
}
