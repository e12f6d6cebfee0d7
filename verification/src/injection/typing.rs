//! The rules for typing a translated reply into the window that had the focus
//! when the reply shortcut was pressed.

use vstd::prelude::*;

verus! {

/// How long to let a window take the focus before typing into it.
pub const FOCUS_SETTLE_MS: u64 = 80;

/// Whether some character of `s` lies outside the basic multilingual plane.
pub open spec fn has_astral_char(s: Seq<char>) -> bool {
    exists|i: int| 0 <= i < s.len() && (s[i] as u32) > 0xffff
}

/// A reply can be typed when there is a target window, the text is not empty,
/// and every character is a single UTF-16 unit.
pub open spec fn typable(target: isize, s: Seq<char>) -> bool {
    target != 0 && s.len() > 0 && !has_astral_char(s)
}

pub fn can_type_text(target: isize, text: &str) -> (r: bool)
    ensures
        r == typable(target, text@),
{
    if target == 0 || text.is_empty() {
        return false;
    }
    for c in it: text.chars()
        invariant
            it.seq() == text@,
            forall|j: int| 0 <= j < it.index() ==> (#[trigger] text@[j] as u32) <= 0xffff,
    {
        if c as u32 > 0xffff {
            return false;
        }
    }
    true
}

/// The number of key events that typing `s` takes: a press and a release per
/// character, saturating at the machine's word size and then truncated to 32 bits
/// as the input API counts them.
pub open spec fn expected_key_events(s: Seq<char>) -> u32 {
    let doubled = if 2 * s.len() > usize::MAX { usize::MAX as int } else { 2 * s.len() as int };
    (doubled as usize) as u32
}

/// Whether the input system accepted every key event of `text`.
pub fn typed_completely(sent: u32, text: &str) -> (r: bool)
    ensures
        r == (sent == expected_key_events(text@)),
{
    sent == key_events_for(text)
}

/// How many key events typing `text` takes.
pub fn key_events_for(text: &str) -> (r: u32)
    ensures
        r == expected_key_events(text@),
{
    let n = text.unicode_len();
    let doubled: usize = if n > usize::MAX / 2 { usize::MAX } else { n * 2 };
    doubled as u32
}

/// Typing a text takes a press and a release for each of its characters.
pub proof fn lemma_two_key_events_per_char(s: Seq<char>)
    requires
        2 * s.len() <= u32::MAX,
    ensures
        expected_key_events(s) == 2 * s.len(),
{
}

/// A reply can be typed exactly when there is a target window, the text is
/// not empty, and each character is one UTF-16 unit.
pub proof fn lemma_typable_texts(target: isize, s: Seq<char>)
    ensures
        typable(target, s) <==> (target != 0 && s.len() > 0 && forall|i: int|
            0 <= i < s.len() ==> (#[trigger] s[i] as u32) <= 0xffff),
{
}

/// Where typing a reply stands.
#[derive(Debug, Clone, Copy, PartialEq, Eq, Structural)]
pub enum InjectionPhase {
    /// Looking whether the target window is in front.
    FirstCheck,
    /// The target was not in front and has been asked to come forward.
    RequestingFocus,
    /// Looking, once more, whether the target is in front before typing.
    FinalCheck,
    Typing,
    Done,
}

/// What came of the last action.
#[derive(Debug, Clone, Copy, PartialEq, Eq, Structural)]
pub enum InjectionEvent {
    /// Whether the target window is the foreground window.
    TargetInFront(bool),
    /// Whether the system agreed to bring the target to the front.
    FocusGiven(bool),
    /// How many key events the input system accepted for the text.
    KeysTyped(u32),
}

/// What the caller is to do next.
#[derive(Debug, Clone, Copy, PartialEq, Eq, Structural)]
pub enum InjectionAction {
    /// Wait `pause_ms`, then report whether the target is in front.
    CheckFront { pause_ms: u64 },
    /// Ask the system to bring the target to the front.
    RequestFocus,
    /// Type the text into the foreground window.
    TypeText,
    /// Typing is over; whether the whole text was typed.
    Finish(bool),
}

/// A reply being typed into the window that had the focus.
#[derive(Debug, Clone, Copy, PartialEq, Eq, Structural)]
pub struct Injection {
    pub phase: InjectionPhase,
    /// The key events that typing the whole text takes.
    pub expected: u32,
}

pub open spec fn injection_accepts(p: InjectionPhase, e: InjectionEvent) -> bool {
    match p {
        InjectionPhase::FirstCheck => e is TargetInFront,
        InjectionPhase::RequestingFocus => e is FocusGiven,
        InjectionPhase::FinalCheck => e is TargetInFront,
        InjectionPhase::Typing => e is KeysTyped,
        InjectionPhase::Done => false,
    }
}

pub open spec fn injection_with(s: Injection, p: InjectionPhase) -> Injection {
    Injection { phase: p, ..s }
}

/// One step of typing: the target is brought to the front if needed, checked
/// once more, and only then typed into; any failure ends without typing.
pub open spec fn injection_next(s: Injection, e: InjectionEvent) -> (Injection, InjectionAction) {
    match (s.phase, e) {
        (InjectionPhase::FirstCheck, InjectionEvent::TargetInFront(front)) => if front {
            (injection_with(s, InjectionPhase::FinalCheck), InjectionAction::CheckFront { pause_ms: 0 })
        } else {
            (injection_with(s, InjectionPhase::RequestingFocus), InjectionAction::RequestFocus)
        },
        (InjectionPhase::RequestingFocus, InjectionEvent::FocusGiven(given)) => if given {
            (
                injection_with(s, InjectionPhase::FinalCheck),
                InjectionAction::CheckFront { pause_ms: FOCUS_SETTLE_MS },
            )
        } else {
            (injection_with(s, InjectionPhase::Done), InjectionAction::Finish(false))
        },
        (InjectionPhase::FinalCheck, InjectionEvent::TargetInFront(front)) => if front {
            (injection_with(s, InjectionPhase::Typing), InjectionAction::TypeText)
        } else {
            (injection_with(s, InjectionPhase::Done), InjectionAction::Finish(false))
        },
        (InjectionPhase::Typing, InjectionEvent::KeysTyped(sent)) => (
            injection_with(s, InjectionPhase::Done),
            InjectionAction::Finish(sent == s.expected),
        ),
        _ => (injection_with(s, InjectionPhase::Done), InjectionAction::Finish(false)),
    }
}

impl Injection {
    /// Starts typing `text` into `target`: text that cannot be typed ends at once.
    pub fn start(target: isize, text: &str) -> (r: (Injection, InjectionAction))
        ensures
            typable(target, text@) ==> r.0 == (Injection {
                phase: InjectionPhase::FirstCheck,
                expected: expected_key_events(text@),
            }) && r.1 == (InjectionAction::CheckFront { pause_ms: 0 }),
            !typable(target, text@) ==> r.0.phase == InjectionPhase::Done && r.1
                == InjectionAction::Finish(false),
    {
        let expected = key_events_for(text);
        if can_type_text(target, text) {
            (Injection { phase: InjectionPhase::FirstCheck, expected }, InjectionAction::CheckFront { pause_ms: 0 })
        } else {
            (Injection { phase: InjectionPhase::Done, expected }, InjectionAction::Finish(false))
        }
    }

    /// Whether `event` is the report typing waits for.
    pub fn accepts(&self, event: InjectionEvent) -> (r: bool)
        ensures
            r == injection_accepts(self.phase, event),
    {
        match (self.phase, event) {
            (InjectionPhase::FirstCheck, InjectionEvent::TargetInFront(_)) => true,
            (InjectionPhase::RequestingFocus, InjectionEvent::FocusGiven(_)) => true,
            (InjectionPhase::FinalCheck, InjectionEvent::TargetInFront(_)) => true,
            (InjectionPhase::Typing, InjectionEvent::KeysTyped(_)) => true,
            _ => false,
        }
    }

    /// Advances typing by the report `event`.
    pub fn step(self, event: InjectionEvent) -> (r: (Injection, InjectionAction))
        requires
            injection_accepts(self.phase, event),
        ensures
            r == injection_next(self, event),
    {
        match (self.phase, event) {
            (InjectionPhase::FirstCheck, InjectionEvent::TargetInFront(front)) => {
                if front {
                    (Injection { phase: InjectionPhase::FinalCheck, ..self }, InjectionAction::CheckFront { pause_ms: 0 })
                } else {
                    (Injection { phase: InjectionPhase::RequestingFocus, ..self }, InjectionAction::RequestFocus)
                }
            },
            (InjectionPhase::RequestingFocus, InjectionEvent::FocusGiven(given)) => {
                if given {
                    (
                        Injection { phase: InjectionPhase::FinalCheck, ..self },
                        InjectionAction::CheckFront { pause_ms: FOCUS_SETTLE_MS },
                    )
                } else {
                    (Injection { phase: InjectionPhase::Done, ..self }, InjectionAction::Finish(false))
                }
            },
            (InjectionPhase::FinalCheck, InjectionEvent::TargetInFront(front)) => {
                if front {
                    (Injection { phase: InjectionPhase::Typing, ..self }, InjectionAction::TypeText)
                } else {
                    (Injection { phase: InjectionPhase::Done, ..self }, InjectionAction::Finish(false))
                }
            },
            (InjectionPhase::Typing, InjectionEvent::KeysTyped(sent)) => {
                let complete = sent == self.expected;
                (Injection { phase: InjectionPhase::Done, ..self }, InjectionAction::Finish(complete))
            },
            _ => (Injection { phase: InjectionPhase::Done, ..self }, InjectionAction::Finish(false)),
        }
    }
}

/// The reply is typed only while the target window is in front: typing is
/// asked for only right after a check that saw the target in front, and that
/// check comes after any request for the focus. A reply counts as typed only
/// when every key event of it was accepted.
pub proof fn lemma_types_only_into_target(s: Injection, e: InjectionEvent)
    requires
        injection_accepts(s.phase, e),
    ensures
        injection_next(s, e).1 == InjectionAction::TypeText ==> (
            s.phase == InjectionPhase::FinalCheck && e == InjectionEvent::TargetInFront(true)),
        injection_next(s, e).1 == InjectionAction::Finish(true) ==> (
            s.phase == InjectionPhase::Typing && e == InjectionEvent::KeysTyped(s.expected)),
        s.phase == InjectionPhase::RequestingFocus ==> !(injection_next(s, e).1 is TypeText),
        (injection_next(s, e).1 is Finish) <==> (injection_next(s, e).0.phase == InjectionPhase::Done),
{
}

} // verus!
