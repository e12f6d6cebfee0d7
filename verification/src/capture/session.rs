//! The clipboard capture protocol, as a state machine.
//!
//! A capture waits for the shortcut keys to be released, keeps the current
//! clipboard, sends Ctrl+C (after Ctrl+A when the whole focused input is to be
//! captured), reads the Unicode text that the copy produced and puts the
//! original clipboard back before it reports anything. The session decides;
//! the caller performs each action it asks for and reports what came of it.

use vstd::prelude::*;

use super::error::CaptureError;
use super::keys::{
    control_chord, copy_shortcut_inputs, copy_shortcut_sequence, hotkey_release_key, shortcut_key, KeyInput,
    KeyName,
};
use super::clipboard::read_unicode_text;
use crate::text::is_blank_text;

verus! {

/// How long to wait for the shortcut keys to be released.
pub const HOTKEY_RELEASE_TIMEOUT_MS: u64 = 500;
/// Pause between two looks at the shortcut keys.
pub const HOTKEY_POLL_MS: u64 = 5;
/// Pause after Ctrl+A has been queued, before the keys are sent.
pub const SELECT_ALL_PAUSE_MS: u64 = 25;
/// How long the copy may take to change the clipboard: the clipboard is read
/// at most 150 ms after Ctrl+C.
pub const COPY_TIMEOUT_MS: u64 = 150;
/// Pause between two looks at the clipboard sequence number.
pub const CLIPBOARD_POLL_MS: u64 = 10;
/// The result code with which the system reports an empty clipboard.
pub const OLE_E_BLANK: i32 = -2147221497;

#[derive(Debug, Clone, Copy, PartialEq, Eq, Structural)]
pub enum CapturePhase {
    Initializing,
    WaitingForRelease { deadline_ms: u64 },
    TakingSnapshot,
    ReadingOriginal,
    ReadingSequence,
    SendingKeys,
    WaitingForCopy { deadline_ms: u64 },
    ReadingCapture,
    Restoring,
    RestoringFallback,
    Done,
}

/// What came of the last action.
#[derive(Debug)]
pub enum CaptureEvent {
    /// Whether the COM apartment could be initialized.
    ComInitialized(bool),
    /// Whether Alt and the shortcut's other key are still held down.
    HotkeyState { alt_down: bool, key_down: bool },
    /// The clipboard snapshot was taken (`Ok`) or failed with a result code.
    Snapshot(Result<(), i32>),
    /// The Unicode text of the clipboard, or why it could not be read.
    TextRead(Result<String, CaptureError>),
    /// The clipboard sequence number.
    SequenceNumber(u32),
    /// How many of the keyboard events the system accepted.
    KeysSent(u32),
    /// Whether the snapshot could be put back on the clipboard and flushed.
    SnapshotRestored(bool),
    /// The outcome of writing the original text back, or of clearing the clipboard.
    FallbackDone(Result<(), CaptureError>),
}

/// What the caller is to do next.
#[derive(Debug)]
pub enum CaptureAction {
    InitializeCom,
    /// Wait `pause_ms`, then report whether Alt and `key` are down.
    CheckHotkey { key: KeyName, pause_ms: u64 },
    /// Keep the current clipboard content.
    SnapshotClipboard,
    ReadClipboardText,
    /// Wait `pause_ms`, then report the clipboard sequence number.
    ReadSequenceNumber { pause_ms: u64 },
    /// Wait `pause_ms`, then send the keyboard events.
    SendKeys { inputs: Vec<KeyInput>, pause_ms: u64 },
    /// Put the kept clipboard content back and flush it.
    RestoreSnapshot,
    /// Replace the clipboard with this Unicode text.
    WriteText(String),
    ClearClipboard,
    /// The capture is over; the clipboard has been dealt with.
    Finish(Result<String, CaptureError>),
}

/// The mathematical form of a `CaptureAction`.
pub enum CaptureStep {
    InitializeCom,
    CheckHotkey { key: KeyName, pause_ms: u64 },
    SnapshotClipboard,
    ReadClipboardText,
    ReadSequenceNumber { pause_ms: u64 },
    SendKeys { inputs: Seq<KeyInput>, pause_ms: u64 },
    RestoreSnapshot,
    WriteText(Seq<char>),
    ClearClipboard,
    Finish(Result<Seq<char>, CaptureError>),
}

/// The mathematical form of a `CaptureSession`.
pub struct CaptureView {
    pub select_all: bool,
    pub phase: CapturePhase,
    pub has_original: bool,
    pub original_text: Option<Seq<char>>,
    pub initial_sequence: u32,
    pub captured: Result<Seq<char>, CaptureError>,
}

pub open spec fn text_result_view(r: Result<String, CaptureError>) -> Result<Seq<char>, CaptureError> {
    match r {
        Ok(s) => Ok(s@),
        Err(e) => Err(e),
    }
}

impl View for CaptureAction {
    type V = CaptureStep;

    open spec fn view(&self) -> CaptureStep {
        match self {
            CaptureAction::InitializeCom => CaptureStep::InitializeCom,
            CaptureAction::CheckHotkey { key, pause_ms } => CaptureStep::CheckHotkey {
                key: *key,
                pause_ms: *pause_ms,
            },
            CaptureAction::SnapshotClipboard => CaptureStep::SnapshotClipboard,
            CaptureAction::ReadClipboardText => CaptureStep::ReadClipboardText,
            CaptureAction::ReadSequenceNumber { pause_ms } => CaptureStep::ReadSequenceNumber {
                pause_ms: *pause_ms,
            },
            CaptureAction::SendKeys { inputs, pause_ms } => CaptureStep::SendKeys {
                inputs: inputs@,
                pause_ms: *pause_ms,
            },
            CaptureAction::RestoreSnapshot => CaptureStep::RestoreSnapshot,
            CaptureAction::WriteText(s) => CaptureStep::WriteText(s@),
            CaptureAction::ClearClipboard => CaptureStep::ClearClipboard,
            CaptureAction::Finish(r) => CaptureStep::Finish(text_result_view(*r)),
        }
    }
}

pub open spec fn deadline_after(now_ms: u64, timeout_ms: u64) -> u64 {
    if now_ms + timeout_ms > u64::MAX {
        u64::MAX
    } else {
        (now_ms + timeout_ms) as u64
    }
}

/// The captured text after the copy: blank text counts as no selection.
pub open spec fn checked_capture(raw: Result<String, CaptureError>) -> Result<Seq<char>, CaptureError> {
    match raw {
        Ok(t) => if is_blank_text(t@) {
            Err(CaptureError::NoTextSelected)
        } else {
            Ok(t@)
        },
        Err(e) => Err(e),
    }
}

/// Whether `e` is the report that the session in phase `p` waits for.
pub open spec fn capture_accepts(p: CapturePhase, e: CaptureEvent) -> bool {
    match p {
        CapturePhase::Initializing => e is ComInitialized,
        CapturePhase::WaitingForRelease { .. } => e is HotkeyState,
        CapturePhase::TakingSnapshot => e is Snapshot,
        CapturePhase::ReadingOriginal => e is TextRead,
        CapturePhase::ReadingSequence => e is SequenceNumber,
        CapturePhase::SendingKeys => e is KeysSent,
        CapturePhase::WaitingForCopy { .. } => e is SequenceNumber,
        CapturePhase::ReadingCapture => e is TextRead,
        CapturePhase::Restoring => e is SnapshotRestored,
        CapturePhase::RestoringFallback => e is FallbackDone,
        CapturePhase::Done => false,
    }
}

pub open spec fn with_phase(v: CaptureView, p: CapturePhase) -> CaptureView {
    CaptureView { phase: p, ..v }
}

pub open spec fn finished(v: CaptureView, r: Result<Seq<char>, CaptureError>) -> (CaptureView, CaptureStep) {
    (with_phase(v, CapturePhase::Done), CaptureStep::Finish(r))
}

/// Asks for the original clipboard to be put back, with `captured` as the
/// outcome to report once that is done.
pub open spec fn restore_with(v: CaptureView, captured: Result<Seq<char>, CaptureError>) -> (CaptureView, CaptureStep) {
    (CaptureView { phase: CapturePhase::Restoring, captured, ..v }, CaptureStep::RestoreSnapshot)
}

/// One step of the capture protocol: the session's next state and action when
/// `e` is reported at time `now_ms`.
pub open spec fn capture_next(v: CaptureView, e: CaptureEvent, now_ms: u64) -> (CaptureView, CaptureStep) {
    match (v.phase, e) {
        (CapturePhase::Initializing, CaptureEvent::ComInitialized(ok)) => if ok {
            (
                with_phase(v, CapturePhase::WaitingForRelease {
                    deadline_ms: deadline_after(now_ms, HOTKEY_RELEASE_TIMEOUT_MS),
                }),
                CaptureStep::CheckHotkey { key: shortcut_key(v.select_all), pause_ms: 0 },
            )
        } else {
            finished(v, Err(CaptureError::ClipboardUnavailable))
        },
        (CapturePhase::WaitingForRelease { deadline_ms }, CaptureEvent::HotkeyState { alt_down, key_down }) =>
            if (alt_down || key_down) && now_ms < deadline_ms {
                (v, CaptureStep::CheckHotkey { key: shortcut_key(v.select_all), pause_ms: HOTKEY_POLL_MS })
            } else {
                (with_phase(v, CapturePhase::TakingSnapshot), CaptureStep::SnapshotClipboard)
            },
        (CapturePhase::TakingSnapshot, CaptureEvent::Snapshot(r)) => match r {
            Ok(_) => (
                CaptureView { phase: CapturePhase::ReadingOriginal, has_original: true, ..v },
                CaptureStep::ReadClipboardText,
            ),
            Err(code) => if code == OLE_E_BLANK {
                (
                    CaptureView { phase: CapturePhase::ReadingOriginal, has_original: false, ..v },
                    CaptureStep::ReadClipboardText,
                )
            } else {
                finished(v, Err(CaptureError::ClipboardUnavailable))
            },
        },
        (CapturePhase::ReadingOriginal, CaptureEvent::TextRead(r)) => (
            CaptureView {
                phase: CapturePhase::ReadingSequence,
                original_text: match r {
                    Ok(t) => Some(t@),
                    Err(_) => None,
                },
                ..v
            },
            CaptureStep::ReadSequenceNumber { pause_ms: 0 },
        ),
        (CapturePhase::ReadingSequence, CaptureEvent::SequenceNumber(n)) => (
            CaptureView { phase: CapturePhase::SendingKeys, initial_sequence: n, ..v },
            CaptureStep::SendKeys {
                inputs: copy_shortcut_sequence(v.select_all),
                pause_ms: if v.select_all { SELECT_ALL_PAUSE_MS } else { 0 },
            },
        ),
        (CapturePhase::SendingKeys, CaptureEvent::KeysSent(n)) =>
            if n == copy_shortcut_sequence(v.select_all).len() {
                (
                    with_phase(v, CapturePhase::WaitingForCopy {
                        deadline_ms: deadline_after(now_ms, COPY_TIMEOUT_MS),
                    }),
                    CaptureStep::ReadSequenceNumber { pause_ms: 0 },
                )
            } else {
                restore_with(v, Err(CaptureError::InputBlocked))
            },
        (CapturePhase::WaitingForCopy { deadline_ms }, CaptureEvent::SequenceNumber(n)) =>
            if n != v.initial_sequence {
                (with_phase(v, CapturePhase::ReadingCapture), CaptureStep::ReadClipboardText)
            } else if now_ms >= deadline_ms {
                restore_with(v, Err(CaptureError::NoTextSelected))
            } else {
                (v, CaptureStep::ReadSequenceNumber { pause_ms: CLIPBOARD_POLL_MS })
            },
        (CapturePhase::ReadingCapture, CaptureEvent::TextRead(r)) => restore_with(v, checked_capture(r)),
        (CapturePhase::Restoring, CaptureEvent::SnapshotRestored(ok)) => if ok {
            finished(v, v.captured)
        } else {
            match v.original_text {
                Some(t) => (with_phase(v, CapturePhase::RestoringFallback), CaptureStep::WriteText(t)),
                None => if v.has_original {
                    finished(v, Err(CaptureError::ClipboardRestoreFailed))
                } else {
                    (with_phase(v, CapturePhase::RestoringFallback), CaptureStep::ClearClipboard)
                },
            }
        },
        (CapturePhase::RestoringFallback, CaptureEvent::FallbackDone(r)) => match r {
            Ok(_) => finished(v, v.captured),
            Err(err) => finished(v, Err(err)),
        },
        _ => finished(v, Err(CaptureError::ClipboardUnavailable)),
    }
}

/// The phases in which the copy shortcut has been sent and the original
/// clipboard not yet put back.
pub open spec fn copy_sent(p: CapturePhase) -> bool {
    ||| p is WaitingForCopy
    ||| p is ReadingCapture
    ||| p is Restoring
    ||| p is RestoringFallback
}

/// A capture finishes exactly when it reaches the `Done` phase, and a finished
/// capture accepts no further report.
pub proof fn lemma_finish_means_done(v: CaptureView, e: CaptureEvent, now_ms: u64)
    requires
        capture_accepts(v.phase, e),
    ensures
        (capture_next(v, e, now_ms).1 is Finish) <==> (capture_next(v, e, now_ms).0.phase is Done),
        forall|e2: CaptureEvent| !capture_accepts(CapturePhase::Done, e2),
{
}

/// Once Ctrl+C has been sent, every path puts the original clipboard back
/// before the capture finishes: the session stays in the restoring part of the
/// protocol until it finishes, it enters it by asking for the snapshot to be
/// restored, and it finishes only from the restoring phases. Text is reported
/// only after the snapshot, or the fallback, was put back successfully.
pub proof fn lemma_clipboard_restored_after_copy(v: CaptureView, e: CaptureEvent, now_ms: u64)
    requires
        v.phase is SendingKeys || copy_sent(v.phase),
        capture_accepts(v.phase, e),
    ensures
        ({
            let (w, a) = capture_next(v, e, now_ms);
            &&& w.phase is Done || copy_sent(w.phase)
            &&& (w.phase is Restoring && !(v.phase is Restoring)) ==> a is RestoreSnapshot
            &&& a is Finish ==> (v.phase is Restoring || v.phase is RestoringFallback)
            &&& (a matches CaptureStep::Finish(Ok(_))) ==> (
                (v.phase is Restoring && e == CaptureEvent::SnapshotRestored(true))
                || (v.phase is RestoringFallback && e matches CaptureEvent::FallbackDone(Ok(_))))
        }),
{
}

/// Before Ctrl+C is sent the capture has not touched the clipboard, and a
/// failure then finishes at once without a restore.
pub proof fn lemma_early_failure_leaves_clipboard(v: CaptureView, e: CaptureEvent, now_ms: u64)
    requires
        !(v.phase is SendingKeys) && !copy_sent(v.phase) && !(v.phase is Done),
        capture_accepts(v.phase, e),
    ensures
        ({
            let (w, a) = capture_next(v, e, now_ms);
            &&& !copy_sent(w.phase)
            &&& a is Finish ==> a == CaptureStep::Finish(Err(CaptureError::ClipboardUnavailable))
        }),
{
}

/// The actions a session asks for when it is given the reports `evs`, each with
/// the time it was made at.
pub open spec fn capture_run(v: CaptureView, evs: Seq<(CaptureEvent, u64)>) -> Seq<CaptureStep>
    decreases evs.len(),
{
    if evs.len() == 0 {
        Seq::empty()
    } else {
        let (w, a) = capture_next(v, evs[0].0, evs[0].1);
        seq![a] + capture_run(w, evs.drop_first())
    }
}

/// Whether every report of `evs` is the one the session waits for when it comes.
pub open spec fn capture_run_accepted(v: CaptureView, evs: Seq<(CaptureEvent, u64)>) -> bool
    decreases evs.len(),
{
    evs.len() == 0 || (capture_accepts(v.phase, evs[0].0) && capture_run_accepted(
        capture_next(v, evs[0].0, evs[0].1).0,
        evs.drop_first(),
    ))
}

/// The phases from which the session still has to ask for the restore.
pub open spec fn restore_pending(p: CapturePhase) -> bool {
    p is SendingKeys || p is WaitingForCopy || p is ReadingCapture
}

proof fn lemma_run_restores_before_finish(v: CaptureView, evs: Seq<(CaptureEvent, u64)>)
    requires
        restore_pending(v.phase),
        capture_run_accepted(v, evs),
    ensures
        forall|j: int|
            0 <= j < capture_run(v, evs).len() && (#[trigger] capture_run(v, evs)[j]) is Finish
                ==> exists|k: int| 0 <= k < j && (#[trigger] capture_run(v, evs)[k]) is RestoreSnapshot,
    decreases evs.len(),
{
    if evs.len() > 0 {
        let (w, a) = capture_next(v, evs[0].0, evs[0].1);
        let rest = capture_run(w, evs.drop_first());
        let run = capture_run(v, evs);
        assert(run == seq![a] + rest);
        if a is RestoreSnapshot {
            assert forall|j: int| 0 <= j < run.len() && (#[trigger] run[j]) is Finish
                implies exists|k: int| 0 <= k < j && (#[trigger] run[k]) is RestoreSnapshot by {
                assert(j != 0);
                assert(run[0] is RestoreSnapshot);
            }
        } else {
            assert(restore_pending(w.phase));
            lemma_run_restores_before_finish(w, evs.drop_first());
            assert forall|j: int| 0 <= j < run.len() && (#[trigger] run[j]) is Finish
                implies exists|k: int| 0 <= k < j && (#[trigger] run[k]) is RestoreSnapshot by {
                assert(j != 0);
                assert(run[j] == rest[j - 1]);
                let k2 = choose|k2: int| 0 <= k2 < j - 1 && (#[trigger] rest[k2]) is RestoreSnapshot;
                assert(run[k2 + 1] == rest[k2]);
            }
        }
    }
}

/// Whatever the clipboard and the keyboard report, a capture that has sent
/// Ctrl+C asks for the original clipboard to be put back before it finishes:
/// in the actions of any run of the protocol, between the keys and the end
/// stands a restore.
pub proof fn lemma_run_restores_after_copy(v: CaptureView, evs: Seq<(CaptureEvent, u64)>, i: int, j: int)
    requires
        capture_run_accepted(v, evs),
        0 <= i < j < capture_run(v, evs).len(),
        capture_run(v, evs)[i] is SendKeys,
        capture_run(v, evs)[j] is Finish,
    ensures
        exists|k: int| i < k < j && (#[trigger] capture_run(v, evs)[k]) is RestoreSnapshot,
    decreases evs.len(),
{
    let (w, a) = capture_next(v, evs[0].0, evs[0].1);
    let rest = capture_run(w, evs.drop_first());
    let run = capture_run(v, evs);
    assert(run == seq![a] + rest);
    assert(run[j] == rest[j - 1]);
    if i == 0 {
        assert(a is SendKeys);
        assert(w.phase is SendingKeys);
        lemma_run_restores_before_finish(w, evs.drop_first());
        assert(rest[j - 1] is Finish);
        let k2 = choose|k2: int| 0 <= k2 < j - 1 && (#[trigger] rest[k2]) is RestoreSnapshot;
        assert(run[k2 + 1] == rest[k2]);
    } else {
        assert(run[i] == rest[i - 1]);
        lemma_run_restores_after_copy(w, evs.drop_first(), i - 1, j - 1);
        let k2 = choose|k2: int| i - 1 < k2 < j - 1 && (#[trigger] rest[k2]) is RestoreSnapshot;
        assert(run[k2 + 1] == rest[k2]);
    }
}

/// The restoring phases and the end, from which the restore is never asked for again.
pub open spec fn restore_asked(p: CapturePhase) -> bool {
    p is Restoring || p is RestoringFallback || p is Done
}

proof fn lemma_no_restore_after_restore(v: CaptureView, evs: Seq<(CaptureEvent, u64)>)
    requires
        restore_asked(v.phase),
        capture_run_accepted(v, evs),
    ensures
        forall|k: int| 0 <= k < capture_run(v, evs).len() ==> !((#[trigger] capture_run(v, evs)[k]) is RestoreSnapshot),
    decreases evs.len(),
{
    if evs.len() > 0 {
        let (w, a) = capture_next(v, evs[0].0, evs[0].1);
        let rest = capture_run(w, evs.drop_first());
        let run = capture_run(v, evs);
        assert(run == seq![a] + rest);
        lemma_no_restore_after_restore(w, evs.drop_first());
        assert forall|k: int| 0 <= k < run.len() implies !((#[trigger] run[k]) is RestoreSnapshot) by {
            if k > 0 {
                assert(run[k] == rest[k - 1]);
            }
        }
    }
}

/// The original clipboard is asked back at most once in any run of the
/// protocol, so between the copy keys and the end of a capture there is exactly
/// one restore.
pub proof fn lemma_run_restores_once(v: CaptureView, evs: Seq<(CaptureEvent, u64)>, i: int, j: int)
    requires
        capture_run_accepted(v, evs),
        0 <= i < j < capture_run(v, evs).len(),
    ensures
        !(capture_run(v, evs)[i] is RestoreSnapshot && capture_run(v, evs)[j] is RestoreSnapshot),
    decreases evs.len(),
{
    let (w, a) = capture_next(v, evs[0].0, evs[0].1);
    let rest = capture_run(w, evs.drop_first());
    let run = capture_run(v, evs);
    assert(run == seq![a] + rest);
    assert(run[j] == rest[j - 1]);
    if i == 0 {
        if a is RestoreSnapshot {
            assert(w.phase is Restoring);
            lemma_no_restore_after_restore(w, evs.drop_first());
        }
    } else {
        assert(run[i] == rest[i - 1]);
        lemma_run_restores_once(w, evs.drop_first(), i - 1, j - 1);
    }
}

/// The only keys a capture ever sends are Control, A and C: Ctrl+C, after
/// Ctrl+A for the focused input. In particular no Enter is ever sent, so a
/// capture never sends the message being written.
pub proof fn lemma_capture_sends_only_copy_keys(v: CaptureView, evs: Seq<(CaptureEvent, u64)>, i: int)
    requires
        0 <= i < capture_run(v, evs).len(),
    ensures
        capture_run(v, evs)[i] matches CaptureStep::SendKeys { inputs, .. } ==> (
            inputs == copy_shortcut_sequence(v.select_all)
            && forall|k: int| 0 <= k < inputs.len() ==> ({
                let key = (#[trigger] inputs[k]).key;
                key == KeyName::Control || key == KeyName::A || key == KeyName::C
            })),
    decreases evs.len(),
{
    let (w, a) = capture_next(v, evs[0].0, evs[0].1);
    let rest = capture_run(w, evs.drop_first());
    assert(capture_run(v, evs) == seq![a] + rest);
    if i > 0 {
        assert(capture_run(v, evs)[i] == rest[i - 1]);
        assert(w.select_all == v.select_all);
        lemma_capture_sends_only_copy_keys(w, evs.drop_first(), i - 1);
    } else {
        let s = copy_shortcut_sequence(v.select_all);
        assert forall|k: int| 0 <= k < s.len() implies ({
            let key = (#[trigger] s[k]).key;
            key == KeyName::Control || key == KeyName::A || key == KeyName::C
        }) by {
            if v.select_all {
                assert(s == control_chord(KeyName::A) + control_chord(KeyName::C));
                if k >= 4 {
                    assert(s[k] == control_chord(KeyName::C)[k - 4]);
                }
            }
        }
    }
}

/// The capture waits for the shortcut to be released: while Alt or the
/// shortcut's own key (Q for reading, Enter for replying) is still down and the
/// deadline has not passed, the session stays where it is and looks at the keys
/// again after a short pause; the clipboard is snapshotted, and Ctrl+C later
/// sent, only once both keys are up or the deadline has passed.
pub proof fn lemma_waits_for_shortcut_release(v: CaptureView, alt_down: bool, key_down: bool, now_ms: u64)
    requires
        v.phase is WaitingForRelease,
    ensures
        ({
            let (w, a) = capture_next(v, CaptureEvent::HotkeyState { alt_down, key_down }, now_ms);
            let deadline = v.phase->WaitingForRelease_deadline_ms;
            let key = if v.select_all { KeyName::Enter } else { KeyName::Q };
            &&& (alt_down || key_down) && now_ms < deadline ==> (
                w == v && a == CaptureStep::CheckHotkey { key, pause_ms: HOTKEY_POLL_MS })
            &&& (!alt_down && !key_down) || now_ms >= deadline ==> (
                w.phase == CapturePhase::TakingSnapshot && a == CaptureStep::SnapshotClipboard)
        }),
{
}

/// The clipboard snapshot is asked for only from the wait for the shortcut's
/// release, and only once both keys were seen up or the deadline had passed.
pub proof fn lemma_snapshot_only_after_release(v: CaptureView, e: CaptureEvent, now_ms: u64)
    requires
        capture_accepts(v.phase, e),
        capture_next(v, e, now_ms).1 is SnapshotClipboard,
    ensures
        v.phase is WaitingForRelease,
        e matches CaptureEvent::HotkeyState { alt_down, key_down } && (
            (!alt_down && !key_down) || now_ms >= v.phase->WaitingForRelease_deadline_ms),
{
}

/// The copy counts as sent exactly when the system accepted every keyboard
/// event the session asked to send: 4 for Ctrl+C, 8 for Ctrl+A then Ctrl+C.
/// Then the session waits for the clipboard to change; any other count means
/// the input was blocked, and the clipboard is put back.
pub proof fn lemma_copy_sent_when_all_keys_accepted(v: CaptureView, sequence: u32, n: u32, t1: u64, t2: u64)
    requires
        v.phase is ReadingSequence,
    ensures
        ({
            let (w, a) = capture_next(v, CaptureEvent::SequenceNumber(sequence), t1);
            let (u, b) = capture_next(w, CaptureEvent::KeysSent(n), t2);
            &&& w.phase is SendingKeys
            &&& a matches CaptureStep::SendKeys { inputs, .. } && ({
                &&& inputs.len() == if v.select_all { 8nat } else { 4nat }
                &&& n == inputs.len() ==> (
                    u.phase is WaitingForCopy && b == CaptureStep::ReadSequenceNumber { pause_ms: 0 })
                &&& n != inputs.len() ==> (
                    u.phase is Restoring && u.captured == Err::<Seq<char>, CaptureError>(CaptureError::InputBlocked)
                    && b == CaptureStep::RestoreSnapshot)
            })
        }),
{
}

/// The timing of the protocol: the wait for the shortcut's release starts when
/// COM is ready and lasts 500 ms, the wait for the copy starts when the keys
/// were accepted and lasts 150 ms, and while the clipboard has not changed it
/// is looked at again every 10 ms until that deadline; a change ends the wait at
/// once and the copied text is read, and no change by the deadline counts as no
/// selection.
pub proof fn lemma_capture_timing(v: CaptureView, t: u64, n: u32)
    ensures
        v.phase is Initializing && t + 500 <= u64::MAX ==> ({
            let (w, a) = capture_next(v, CaptureEvent::ComInitialized(true), t);
            &&& w.phase == CapturePhase::WaitingForRelease { deadline_ms: (t + 500) as u64 }
            &&& a == CaptureStep::CheckHotkey {
                key: if v.select_all { KeyName::Enter } else { KeyName::Q },
                pause_ms: 0,
            }
        }),
        v.phase is SendingKeys && t + 150 <= u64::MAX && n == (if v.select_all { 8u32 } else { 4u32 }) ==> (
            capture_next(v, CaptureEvent::KeysSent(n), t).0.phase == CapturePhase::WaitingForCopy {
                deadline_ms: (t + 150) as u64,
            }),
        v.phase is WaitingForCopy ==> ({
            let (w, a) = capture_next(v, CaptureEvent::SequenceNumber(n), t);
            &&& n != v.initial_sequence ==> (
                w.phase == CapturePhase::ReadingCapture && a == CaptureStep::ReadClipboardText)
            &&& n == v.initial_sequence && t < v.phase->WaitingForCopy_deadline_ms ==> (
                w == v && a == CaptureStep::ReadSequenceNumber { pause_ms: 10 })
            &&& n == v.initial_sequence && t >= v.phase->WaitingForCopy_deadline_ms ==> (
                w.phase == CapturePhase::Restoring
                && w.captured == Err::<Seq<char>, CaptureError>(CaptureError::NoTextSelected)
                && a == CaptureStep::RestoreSnapshot)
        }),
        v.phase is Initializing ==> capture_next(v, CaptureEvent::ComInitialized(false), t).1
            == CaptureStep::Finish(Err(CaptureError::ClipboardUnavailable)),
{
}

/// Keeping the clipboard: a snapshot, or an empty clipboard, lets the capture
/// go on and read the current text as the text to fall back on; any other
/// failure ends the capture before anything was sent.
pub proof fn lemma_snapshot_outcomes(v: CaptureView, code: i32, t: u64, r: Result<String, CaptureError>)
    ensures
        v.phase is TakingSnapshot ==> ({
            let (w, a) = capture_next(v, CaptureEvent::Snapshot(Ok(())), t);
            w.phase is ReadingOriginal && w.has_original && a == CaptureStep::ReadClipboardText
        }),
        v.phase is TakingSnapshot && code == -2147221497i32 ==> ({
            let (w, a) = capture_next(v, CaptureEvent::Snapshot(Err(code)), t);
            w.phase is ReadingOriginal && !w.has_original && a == CaptureStep::ReadClipboardText
        }),
        v.phase is TakingSnapshot && code != -2147221497i32 ==> capture_next(
            v,
            CaptureEvent::Snapshot(Err(code)),
            t,
        ).1 == CaptureStep::Finish(Err(CaptureError::ClipboardUnavailable)),
        v.phase is ReadingOriginal ==> ({
            let (w, a) = capture_next(v, CaptureEvent::TextRead(r), t);
            &&& w.phase is ReadingSequence
            &&& a == CaptureStep::ReadSequenceNumber { pause_ms: 0 }
            &&& (r matches Ok(s) ==> w.original_text == Some(s@))
            &&& (r is Err ==> w.original_text is None)
        }),
{
}

/// What the copy yields: the text read after the copy, unless it is blank
/// (no selection) or could not be read (that error).
pub proof fn lemma_copied_text(v: CaptureView, r: Result<String, CaptureError>, t: u64)
    requires
        v.phase is ReadingCapture,
    ensures
        ({
            let (w, a) = capture_next(v, CaptureEvent::TextRead(r), t);
            &&& w.phase is Restoring
            &&& a == CaptureStep::RestoreSnapshot
            &&& (r matches Ok(s) ==> w.captured == (if is_blank_text(s@) {
                Err::<Seq<char>, CaptureError>(CaptureError::NoTextSelected)
            } else {
                Ok::<Seq<char>, CaptureError>(s@)
            }))
            &&& (r matches Err(e) ==> w.captured == Err::<Seq<char>, CaptureError>(e))
        }),
{
}

/// Putting the clipboard back: when the snapshot is restored the capture
/// reports what it captured; otherwise the clipboard's former text is written
/// back, or an empty clipboard emptied again, and then what was captured is
/// reported, unless that fallback failed, or the former content had no text to
/// write back, in which case the capture reports the restore failure.
pub proof fn lemma_restore_outcomes(v: CaptureView, t: u64, fallback: Result<(), CaptureError>)
    ensures
        v.phase is Restoring ==> capture_next(v, CaptureEvent::SnapshotRestored(true), t).1
            == CaptureStep::Finish(v.captured),
        v.phase is Restoring ==> ({
            let (w, a) = capture_next(v, CaptureEvent::SnapshotRestored(false), t);
            &&& v.original_text matches Some(text) ==> (
                w.phase is RestoringFallback && a == CaptureStep::WriteText(text))
            &&& v.original_text is None && !v.has_original ==> (
                w.phase is RestoringFallback && a == CaptureStep::ClearClipboard)
            &&& v.original_text is None && v.has_original ==> (
                a == CaptureStep::Finish(Err(CaptureError::ClipboardRestoreFailed)))
        }),
        v.phase is RestoringFallback ==> capture_next(v, CaptureEvent::FallbackDone(fallback), t).1
            == CaptureStep::Finish(match fallback {
                Ok(_) => v.captured,
                Err(e) => Err(e),
            }),
{
}

/// What the session has captured so far is never blank text.
pub open spec fn captured_not_blank(v: CaptureView) -> bool {
    v.captured matches Ok(t) ==> !is_blank_text(t)
}

/// A capture never reports blank text: captures start without text, every step
/// keeps the captured text non-blank, and what a finished capture reports is
/// the text it captured.
pub proof fn lemma_capture_never_blank(v: CaptureView, e: CaptureEvent, now_ms: u64)
    requires
        captured_not_blank(v),
    ensures
        captured_not_blank(capture_start(v.select_all)),
        captured_not_blank(capture_next(v, e, now_ms).0),
        capture_next(v, e, now_ms).1 matches CaptureStep::Finish(Ok(t)) ==> !is_blank_text(t),
{
}

/// A clipboard capture in progress.
pub struct CaptureSession {
    select_all: bool,
    phase: CapturePhase,
    has_original: bool,
    original_text: Option<String>,
    initial_sequence: u32,
    captured: Result<String, CaptureError>,
}

impl View for CaptureSession {
    type V = CaptureView;

    closed spec fn view(&self) -> CaptureView {
        CaptureView {
            select_all: self.select_all,
            phase: self.phase,
            has_original: self.has_original,
            original_text: match self.original_text {
                Some(t) => Some(t@),
                None => None,
            },
            initial_sequence: self.initial_sequence,
            captured: text_result_view(self.captured),
        }
    }
}

/// The state of a capture that has not started yet.
pub open spec fn capture_start(select_all: bool) -> CaptureView {
    CaptureView {
        select_all,
        phase: CapturePhase::Initializing,
        has_original: false,
        original_text: None,
        initial_sequence: 0,
        captured: Err(CaptureError::NoTextSelected),
    }
}

impl CaptureSession {
    fn start(select_all: bool) -> (r: (CaptureSession, CaptureAction))
        ensures
            r.0@ == capture_start(select_all),
            r.1@ == CaptureStep::InitializeCom,
    {
        let s = CaptureSession {
            select_all,
            phase: CapturePhase::Initializing,
            has_original: false,
            original_text: None,
            initial_sequence: 0,
            captured: Err(CaptureError::NoTextSelected),
        };
        (s, CaptureAction::InitializeCom)
    }

    /// Starts capturing the current selection (the translate shortcut).
    pub fn selected_text() -> (r: (CaptureSession, CaptureAction))
        ensures
            r.0@ == capture_start(false),
            r.1@ == CaptureStep::InitializeCom,
    {
        CaptureSession::start(false)
    }

    /// Starts capturing all text of the focused input (the reply shortcut); the
    /// selection is left in place so that a reply can replace it.
    pub fn focused_input() -> (r: (CaptureSession, CaptureAction))
        ensures
            r.0@ == capture_start(true),
            r.1@ == CaptureStep::InitializeCom,
    {
        CaptureSession::start(true)
    }

    pub fn phase(&self) -> (r: CapturePhase)
        ensures
            r == self@.phase,
    {
        self.phase
    }

    /// Whether `event` is the report the session waits for.
    pub fn accepts(&self, event: &CaptureEvent) -> (r: bool)
        ensures
            r == capture_accepts(self@.phase, *event),
    {
        match (self.phase, event) {
            (CapturePhase::Initializing, CaptureEvent::ComInitialized(_)) => true,
            (CapturePhase::WaitingForRelease { .. }, CaptureEvent::HotkeyState { .. }) => true,
            (CapturePhase::TakingSnapshot, CaptureEvent::Snapshot(_)) => true,
            (CapturePhase::ReadingOriginal, CaptureEvent::TextRead(_)) => true,
            (CapturePhase::ReadingSequence, CaptureEvent::SequenceNumber(_)) => true,
            (CapturePhase::SendingKeys, CaptureEvent::KeysSent(_)) => true,
            (CapturePhase::WaitingForCopy { .. }, CaptureEvent::SequenceNumber(_)) => true,
            (CapturePhase::ReadingCapture, CaptureEvent::TextRead(_)) => true,
            (CapturePhase::Restoring, CaptureEvent::SnapshotRestored(_)) => true,
            (CapturePhase::RestoringFallback, CaptureEvent::FallbackDone(_)) => true,
            _ => false,
        }
    }

    fn captured_copy(&self) -> (r: Result<String, CaptureError>)
        ensures
            text_result_view(r) == self@.captured,
    {
        match &self.captured {
            Ok(t) => Ok(t.clone()),
            Err(e) => Err(*e),
        }
    }

    fn finish(self, r: Result<String, CaptureError>) -> (out: (CaptureSession, CaptureAction))
        ensures
            out.0@ == with_phase(self@, CapturePhase::Done),
            out.1@ == CaptureStep::Finish(text_result_view(r)),
    {
        let s = CaptureSession { phase: CapturePhase::Done, ..self };
        (s, CaptureAction::Finish(r))
    }

    fn restore(self, captured: Result<String, CaptureError>) -> (out: (CaptureSession, CaptureAction))
        ensures
            out.0@ == restore_with(self@, text_result_view(captured)).0,
            out.1@ == CaptureStep::RestoreSnapshot,
    {
        let s = CaptureSession { phase: CapturePhase::Restoring, captured, ..self };
        (s, CaptureAction::RestoreSnapshot)
    }

    /// Advances the capture by the report `event`, made at time `now_ms`.
    pub fn step(self, event: CaptureEvent, now_ms: u64) -> (r: (CaptureSession, CaptureAction))
        requires
            capture_accepts(self@.phase, event),
        ensures
            r.0@ == capture_next(self@, event, now_ms).0,
            r.1@ == capture_next(self@, event, now_ms).1,
    {
        let select_all = self.select_all;
        match (self.phase, event) {
            (CapturePhase::Initializing, CaptureEvent::ComInitialized(ok)) => {
                if ok {
                    let deadline_ms = now_ms.saturating_add(HOTKEY_RELEASE_TIMEOUT_MS);
                    let s = CaptureSession { phase: CapturePhase::WaitingForRelease { deadline_ms }, ..self };
                    (s, CaptureAction::CheckHotkey { key: hotkey_release_key(select_all), pause_ms: 0 })
                } else {
                    self.finish(Err(CaptureError::ClipboardUnavailable))
                }
            },
            (CapturePhase::WaitingForRelease { deadline_ms }, CaptureEvent::HotkeyState { alt_down, key_down }) => {
                if (alt_down || key_down) && now_ms < deadline_ms {
                    (self, CaptureAction::CheckHotkey { key: hotkey_release_key(select_all), pause_ms: HOTKEY_POLL_MS })
                } else {
                    let s = CaptureSession { phase: CapturePhase::TakingSnapshot, ..self };
                    (s, CaptureAction::SnapshotClipboard)
                }
            },
            (CapturePhase::TakingSnapshot, CaptureEvent::Snapshot(r)) => {
                match r {
                    Ok(_) => {
                        let s = CaptureSession { phase: CapturePhase::ReadingOriginal, has_original: true, ..self };
                        (s, CaptureAction::ReadClipboardText)
                    },
                    Err(code) => {
                        if code == OLE_E_BLANK {
                            let s = CaptureSession { phase: CapturePhase::ReadingOriginal, has_original: false, ..self };
                            (s, CaptureAction::ReadClipboardText)
                        } else {
                            self.finish(Err(CaptureError::ClipboardUnavailable))
                        }
                    },
                }
            },
            (CapturePhase::ReadingOriginal, CaptureEvent::TextRead(r)) => {
                let original_text = match r {
                    Ok(t) => Some(t),
                    Err(_) => None,
                };
                let s = CaptureSession { phase: CapturePhase::ReadingSequence, original_text, ..self };
                (s, CaptureAction::ReadSequenceNumber { pause_ms: 0 })
            },
            (CapturePhase::ReadingSequence, CaptureEvent::SequenceNumber(n)) => {
                let s = CaptureSession { phase: CapturePhase::SendingKeys, initial_sequence: n, ..self };
                let pause_ms = if select_all { SELECT_ALL_PAUSE_MS } else { 0 };
                (s, CaptureAction::SendKeys { inputs: copy_shortcut_inputs(select_all), pause_ms })
            },
            (CapturePhase::SendingKeys, CaptureEvent::KeysSent(n)) => {
                let expected: u32 = if select_all { 8 } else { 4 };
                assert(copy_shortcut_sequence(select_all).len() == expected);
                if n == expected {
                    let deadline_ms = now_ms.saturating_add(COPY_TIMEOUT_MS);
                    let s = CaptureSession { phase: CapturePhase::WaitingForCopy { deadline_ms }, ..self };
                    (s, CaptureAction::ReadSequenceNumber { pause_ms: 0 })
                } else {
                    self.restore(Err(CaptureError::InputBlocked))
                }
            },
            (CapturePhase::WaitingForCopy { deadline_ms }, CaptureEvent::SequenceNumber(n)) => {
                if n != self.initial_sequence {
                    let s = CaptureSession { phase: CapturePhase::ReadingCapture, ..self };
                    (s, CaptureAction::ReadClipboardText)
                } else if now_ms >= deadline_ms {
                    self.restore(Err(CaptureError::NoTextSelected))
                } else {
                    (self, CaptureAction::ReadSequenceNumber { pause_ms: CLIPBOARD_POLL_MS })
                }
            },
            (CapturePhase::ReadingCapture, CaptureEvent::TextRead(r)) => {
                let checked = read_unicode_text(r);
                self.restore(checked)
            },
            (CapturePhase::Restoring, CaptureEvent::SnapshotRestored(ok)) => {
                if ok {
                    let captured = self.captured_copy();
                    self.finish(captured)
                } else {
                    match &self.original_text {
                        Some(t) => {
                            let text = t.clone();
                            let s = CaptureSession { phase: CapturePhase::RestoringFallback, ..self };
                            (s, CaptureAction::WriteText(text))
                        },
                        None => {
                            if self.has_original {
                                self.finish(Err(CaptureError::ClipboardRestoreFailed))
                            } else {
                                let s = CaptureSession { phase: CapturePhase::RestoringFallback, ..self };
                                (s, CaptureAction::ClearClipboard)
                            }
                        },
                    }
                }
            },
            (CapturePhase::RestoringFallback, CaptureEvent::FallbackDone(r)) => {
                match r {
                    Ok(_) => {
                        let captured = self.captured_copy();
                        self.finish(captured)
                    },
                    Err(err) => self.finish(Err(err)),
                }
            },
            _ => self.finish(Err(CaptureError::ClipboardUnavailable)),
        }
    }
}

} // verus!
