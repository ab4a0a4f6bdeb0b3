use freemouse::connection::{route_captured, route_inbound, CaptureRoute, InboundRoute};
use freemouse::network::{
    is_discovery_magic, is_file_event, is_input_event, keepalive_expired, peer_read_action,
    receive_read_action, share_read_action, EventKind, ReadAction, DEFAULT_PORT,
    DISCOVERY_MAGIC, KEEPALIVE_INTERVAL_SECS, KEEPALIVE_TIMEOUT_SECS,
};

#[test]
fn input_events_are_classified() {
    for k in [
        EventKind::MouseMoved,
        EventKind::MouseMoveRelative,
        EventKind::MouseButtonDown,
        EventKind::MouseButtonUp,
        EventKind::MouseScroll,
        EventKind::KeyDown,
        EventKind::KeyUp,
        EventKind::CursorWarp,
        EventKind::RemoteEnter,
        EventKind::RemoteLeave,
        EventKind::KeyStateSnapshot,
    ] {
        assert!(is_input_event(k));
        assert!(!is_file_event(k));
    }
    for k in [EventKind::ClipboardText, EventKind::KeepAlive, EventKind::Hello, EventKind::AuthOk] {
        assert!(!is_input_event(k));
    }
    assert!(is_file_event(EventKind::FileChunk));
    assert!(is_file_event(EventKind::FileReject));
}

#[test]
fn read_actions_per_loop() {
    assert_eq!(share_read_action(EventKind::ClipboardText), ReadAction::SetClipboard);
    assert_eq!(share_read_action(EventKind::KeyDown), ReadAction::Ignore);
    assert_eq!(receive_read_action(EventKind::KeyDown), ReadAction::Forward);
    assert_eq!(receive_read_action(EventKind::FileOffer), ReadAction::HandleFile);
    assert_eq!(receive_read_action(EventKind::Hello), ReadAction::Ignore);
    assert_eq!(receive_read_action(EventKind::KeepAlive), ReadAction::Ignore);
    assert_eq!(peer_read_action(EventKind::Hello), ReadAction::Forward);
    assert_eq!(peer_read_action(EventKind::ClipboardText), ReadAction::SetClipboard);
    assert_eq!(peer_read_action(EventKind::KeepAlive), ReadAction::Ignore);
    assert_eq!(peer_read_action(EventKind::FileComplete), ReadAction::HandleFile);
}

#[test]
fn bridge_routes() {
    assert_eq!(route_captured(EventKind::ClipboardText, false, None), CaptureRoute::AllPeers);
    assert_eq!(route_captured(EventKind::KeyDown, true, Some(5)), CaptureRoute::ActivePeer(5));
    assert_eq!(route_captured(EventKind::KeyDown, true, None), CaptureRoute::Drop);
    assert_eq!(route_captured(EventKind::KeyDown, false, Some(5)), CaptureRoute::Drop);
    assert_eq!(route_inbound(EventKind::Hello), InboundRoute::Ui);
    assert_eq!(route_inbound(EventKind::LayoutUpdate), InboundRoute::Ui);
    assert_eq!(route_inbound(EventKind::ClipboardText), InboundRoute::Clipboard);
    assert_eq!(route_inbound(EventKind::FileAccept), InboundRoute::FileTransfer);
    assert_eq!(route_inbound(EventKind::MouseMoved), InboundRoute::Simulation);
    assert_eq!(route_inbound(EventKind::KeepAlive), InboundRoute::Drop);
}

#[test]
fn keepalive_timing() {
    assert_eq!(KEEPALIVE_INTERVAL_SECS, 2);
    assert_eq!(KEEPALIVE_TIMEOUT_SECS, 6);
    assert!(!keepalive_expired(6_000_000_000));
    assert!(keepalive_expired(6_000_000_001));
    assert!(!keepalive_expired(0));
}

#[test]
fn discovery_magic() {
    assert_eq!(&DISCOVERY_MAGIC, b"FMDS");
    assert!(is_discovery_magic(b"FMDS"));
    assert!(!is_discovery_magic(b"FMDX"));
    assert_eq!(DEFAULT_PORT, 4444);
}
