use lingodesk::capture::error::CaptureError;
use lingodesk::capture::keys::KeyName;
use lingodesk::capture::session::{
    CaptureAction, CaptureEvent, CapturePhase, CaptureSession, CLIPBOARD_POLL_MS, HOTKEY_POLL_MS,
    COPY_TIMEOUT_MS, OLE_E_BLANK, SELECT_ALL_PAUSE_MS,
};

fn step(s: CaptureSession, e: CaptureEvent, now: u64) -> (CaptureSession, CaptureAction) {
    assert!(s.accepts(&e));
    s.step(e, now)
}

/// Runs a selection capture up to the point where Ctrl+C has been sent and accepted.
fn copy_sent(original: Option<&str>, has_snapshot: bool) -> CaptureSession {
    let (s, a) = CaptureSession::selected_text();
    assert!(matches!(a, CaptureAction::InitializeCom));
    let (s, a) = step(s, CaptureEvent::ComInitialized(true), 0);
    assert!(matches!(a, CaptureAction::CheckHotkey { key: KeyName::Q, pause_ms: 0 }));
    let (s, a) = step(s, CaptureEvent::HotkeyState { alt_down: false, key_down: false }, 1);
    assert!(matches!(a, CaptureAction::SnapshotClipboard));
    let snapshot = if has_snapshot { Ok(()) } else { Err(OLE_E_BLANK) };
    let (s, a) = step(s, CaptureEvent::Snapshot(snapshot), 2);
    assert!(matches!(a, CaptureAction::ReadClipboardText));
    let read = match original {
        Some(t) => Ok(t.to_string()),
        None => Err(CaptureError::NoTextSelected),
    };
    let (s, a) = step(s, CaptureEvent::TextRead(read), 3);
    assert!(matches!(a, CaptureAction::ReadSequenceNumber { pause_ms: 0 }));
    let (s, a) = step(s, CaptureEvent::SequenceNumber(41), 4);
    match &a {
        CaptureAction::SendKeys { inputs, pause_ms } => {
            assert_eq!(inputs.len(), 4);
            assert_eq!(*pause_ms, 0);
        }
        other => panic!("unexpected {:?}", other),
    }
    let (s, a) = step(s, CaptureEvent::KeysSent(4), 10);
    assert!(matches!(a, CaptureAction::ReadSequenceNumber { pause_ms: 0 }));
    s
}

#[test]
fn selection_is_captured_and_clipboard_restored() {
    let s = copy_sent(Some("previous"), true);
    let (s, a) = step(s, CaptureEvent::SequenceNumber(41), 20);
    assert!(matches!(a, CaptureAction::ReadSequenceNumber { pause_ms: CLIPBOARD_POLL_MS }));
    let (s, a) = step(s, CaptureEvent::SequenceNumber(42), 30);
    assert!(matches!(a, CaptureAction::ReadClipboardText));
    let (s, a) = step(s, CaptureEvent::TextRead(Ok("selected words".to_string())), 31);
    assert!(matches!(a, CaptureAction::RestoreSnapshot));
    let (s, a) = step(s, CaptureEvent::SnapshotRestored(true), 32);
    match a {
        CaptureAction::Finish(Ok(t)) => assert_eq!(t, "selected words"),
        other => panic!("unexpected {:?}", other),
    }
    assert_eq!(s.phase(), CapturePhase::Done);
    assert!(!s.accepts(&CaptureEvent::SnapshotRestored(true)));
}

#[test]
fn blank_copy_counts_as_no_selection() {
    let s = copy_sent(None, false);
    let (s, _) = step(s, CaptureEvent::SequenceNumber(42), 30);
    let (s, a) = step(s, CaptureEvent::TextRead(Ok(" \n ".to_string())), 31);
    assert!(matches!(a, CaptureAction::RestoreSnapshot));
    let (_, a) = step(s, CaptureEvent::SnapshotRestored(true), 32);
    assert!(matches!(a, CaptureAction::Finish(Err(CaptureError::NoTextSelected))));
}

#[test]
fn unchanged_clipboard_times_out_and_restores() {
    let s = copy_sent(Some("previous"), true);
    let (s, a) = step(s, CaptureEvent::SequenceNumber(41), 159);
    assert!(matches!(a, CaptureAction::ReadSequenceNumber { .. }));
    let (s, a) = step(s, CaptureEvent::SequenceNumber(41), 160);
    assert!(matches!(a, CaptureAction::RestoreSnapshot));
    let (_, a) = step(s, CaptureEvent::SnapshotRestored(true), 761);
    assert!(matches!(a, CaptureAction::Finish(Err(CaptureError::NoTextSelected))));
}

#[test]
fn copy_wait_ends_within_150_ms() {
    assert_eq!(COPY_TIMEOUT_MS, 150);
    let s = copy_sent(Some("previous"), true);
    let (_, a) = step(s, CaptureEvent::SequenceNumber(41), 200);
    assert!(matches!(a, CaptureAction::RestoreSnapshot));
}

#[test]
fn change_seen_at_the_last_poll_counts() {
    let s = copy_sent(Some("previous"), true);
    let (_, a) = step(s, CaptureEvent::SequenceNumber(42), 160);
    assert!(matches!(a, CaptureAction::ReadClipboardText));
}

#[test]
fn capture_never_sends_enter() {
    for select_all in [false, true] {
        let (s, _) = if select_all { CaptureSession::focused_input() } else { CaptureSession::selected_text() };
        let (s, _) = step(s, CaptureEvent::ComInitialized(true), 0);
        let (s, _) = step(s, CaptureEvent::HotkeyState { alt_down: false, key_down: false }, 1);
        let (s, _) = step(s, CaptureEvent::Snapshot(Ok(())), 2);
        let (s, _) = step(s, CaptureEvent::TextRead(Ok("old".to_string())), 3);
        let (_, a) = step(s, CaptureEvent::SequenceNumber(1), 4);
        match a {
            CaptureAction::SendKeys { inputs, .. } => {
                assert!(inputs.iter().all(|i| i.key != KeyName::Enter));
                assert!(inputs
                    .iter()
                    .all(|i| matches!(i.key, KeyName::Control | KeyName::A | KeyName::C)));
            }
            other => panic!("unexpected {:?}", other),
        }
    }
}

#[test]
fn failed_restore_writes_original_text_back() {
    let s = copy_sent(Some("previous"), true);
    let (s, _) = step(s, CaptureEvent::SequenceNumber(42), 30);
    let (s, _) = step(s, CaptureEvent::TextRead(Ok("selected".to_string())), 31);
    let (s, a) = step(s, CaptureEvent::SnapshotRestored(false), 32);
    match &a {
        CaptureAction::WriteText(t) => assert_eq!(t, "previous"),
        other => panic!("unexpected {:?}", other),
    }
    let (_, a) = step(s, CaptureEvent::FallbackDone(Ok(())), 33);
    match a {
        CaptureAction::Finish(Ok(t)) => assert_eq!(t, "selected"),
        other => panic!("unexpected {:?}", other),
    }
}

#[test]
fn failed_fallback_reports_restore_failure() {
    let s = copy_sent(Some("previous"), true);
    let (s, _) = step(s, CaptureEvent::SequenceNumber(42), 30);
    let (s, _) = step(s, CaptureEvent::TextRead(Ok("selected".to_string())), 31);
    let (s, _) = step(s, CaptureEvent::SnapshotRestored(false), 32);
    let (_, a) = step(s, CaptureEvent::FallbackDone(Err(CaptureError::ClipboardRestoreFailed)), 33);
    assert!(matches!(a, CaptureAction::Finish(Err(CaptureError::ClipboardRestoreFailed))));
}

#[test]
fn empty_original_clipboard_is_cleared_on_fallback() {
    let s = copy_sent(None, false);
    let (s, _) = step(s, CaptureEvent::SequenceNumber(42), 30);
    let (s, _) = step(s, CaptureEvent::TextRead(Ok("selected".to_string())), 31);
    let (s, a) = step(s, CaptureEvent::SnapshotRestored(false), 32);
    assert!(matches!(a, CaptureAction::ClearClipboard));
    let (_, a) = step(s, CaptureEvent::FallbackDone(Ok(())), 33);
    assert!(matches!(a, CaptureAction::Finish(Ok(_))));
}

#[test]
fn non_text_original_that_cannot_be_restored_fails() {
    let s = copy_sent(None, true);
    let (s, _) = step(s, CaptureEvent::SequenceNumber(42), 30);
    let (s, _) = step(s, CaptureEvent::TextRead(Ok("selected".to_string())), 31);
    let (_, a) = step(s, CaptureEvent::SnapshotRestored(false), 32);
    assert!(matches!(a, CaptureAction::Finish(Err(CaptureError::ClipboardRestoreFailed))));
}

#[test]
fn blocked_input_still_restores_clipboard() {
    let (s, _) = CaptureSession::focused_input();
    let (s, a) = step(s, CaptureEvent::ComInitialized(true), 0);
    assert!(matches!(a, CaptureAction::CheckHotkey { key: KeyName::Enter, pause_ms: 0 }));
    let (s, a) = step(s, CaptureEvent::HotkeyState { alt_down: true, key_down: false }, 1);
    assert!(matches!(a, CaptureAction::CheckHotkey { key: KeyName::Enter, pause_ms: HOTKEY_POLL_MS }));
    let (s, _) = step(s, CaptureEvent::HotkeyState { alt_down: false, key_down: false }, 6);
    let (s, _) = step(s, CaptureEvent::Snapshot(Ok(())), 7);
    let (s, _) = step(s, CaptureEvent::TextRead(Ok("old".to_string())), 8);
    let (s, a) = step(s, CaptureEvent::SequenceNumber(1), 9);
    match &a {
        CaptureAction::SendKeys { inputs, pause_ms } => {
            assert_eq!(inputs.len(), 8);
            assert_eq!(*pause_ms, SELECT_ALL_PAUSE_MS);
        }
        other => panic!("unexpected {:?}", other),
    }
    let (s, a) = step(s, CaptureEvent::KeysSent(5), 40);
    assert!(matches!(a, CaptureAction::RestoreSnapshot));
    let (_, a) = step(s, CaptureEvent::SnapshotRestored(true), 41);
    assert!(matches!(a, CaptureAction::Finish(Err(CaptureError::InputBlocked))));
}

#[test]
fn hotkey_wait_gives_up_at_deadline() {
    let (s, _) = CaptureSession::selected_text();
    let (s, _) = step(s, CaptureEvent::ComInitialized(true), 1000);
    let (s, a) = step(s, CaptureEvent::HotkeyState { alt_down: true, key_down: true }, 1499);
    assert!(matches!(a, CaptureAction::CheckHotkey { .. }));
    let (_, a) = step(s, CaptureEvent::HotkeyState { alt_down: true, key_down: true }, 1500);
    assert!(matches!(a, CaptureAction::SnapshotClipboard));
}

#[test]
fn com_failure_ends_capture_untouched() {
    let (s, _) = CaptureSession::selected_text();
    let (s, a) = step(s, CaptureEvent::ComInitialized(false), 0);
    assert!(matches!(a, CaptureAction::Finish(Err(CaptureError::ClipboardUnavailable))));
    assert_eq!(s.phase(), CapturePhase::Done);
}

#[test]
fn snapshot_failure_other_than_empty_ends_capture() {
    let (s, _) = CaptureSession::selected_text();
    let (s, _) = step(s, CaptureEvent::ComInitialized(true), 0);
    let (s, _) = step(s, CaptureEvent::HotkeyState { alt_down: false, key_down: false }, 1);
    let (_, a) = step(s, CaptureEvent::Snapshot(Err(-2147467259)), 2);
    assert!(matches!(a, CaptureAction::Finish(Err(CaptureError::ClipboardUnavailable))));
}

#[test]
fn mismatched_report_is_refused() {
    let (s, _) = CaptureSession::selected_text();
    assert!(!s.accepts(&CaptureEvent::KeysSent(4)));
    assert!(s.accepts(&CaptureEvent::ComInitialized(true)));
}
