use arch_stats::bridge::{step, BridgeAction, BridgeEvent, BridgeState};

#[test]
fn notification_is_handled_once_and_failures_do_not_stop_listening() {
    let (s, a) = step(BridgeState::Idle, BridgeEvent::Start);
    assert_eq!((s, a), (BridgeState::Listening, BridgeAction::Register));
    let (s, a) = step(s, BridgeEvent::Notification("row 1".to_string()));
    assert_eq!(a, BridgeAction::Handle("row 1".to_string()));
    let (s, a) = step(s, BridgeEvent::HandlerFailed);
    assert_eq!((s, a.clone()), (BridgeState::Listening, BridgeAction::LogAndPoll));
    let (s, a) = step(s, BridgeEvent::Notification("row 2".to_string()));
    assert_eq!(a, BridgeAction::Handle("row 2".to_string()));
    let (s, a) = step(s, BridgeEvent::PollTimeout);
    assert_eq!((s, a), (BridgeState::Listening, BridgeAction::Poll));
    let (s, a) = step(s, BridgeEvent::PollFailed);
    assert_eq!((s, a), (BridgeState::Listening, BridgeAction::LogAndPoll));
    let (s, a) = step(s, BridgeEvent::Shutdown);
    assert_eq!((s, a), (BridgeState::Idle, BridgeAction::Release));
}

#[test]
fn idle_listener_ignores_notifications() {
    let (s, a) = step(BridgeState::Idle, BridgeEvent::Notification("x".to_string()));
    assert_eq!((s, a), (BridgeState::Idle, BridgeAction::Stay));
    let (s, a) = step(BridgeState::Idle, BridgeEvent::Shutdown);
    assert_eq!((s, a), (BridgeState::Idle, BridgeAction::Stay));
}
