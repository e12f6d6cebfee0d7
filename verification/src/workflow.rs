//! What one press of a shortcut does: capture text, announce and request its
//! translation, type a reply into the target application when replying, and
//! report the result to the floating window. The workflow decides; the caller
//! performs each step and reports what came of it.

use vstd::prelude::*;

use crate::capture::result::CaptureResult;
use crate::translation::error::{translation_error_code, translation_error_message, TranslationError};
use crate::translation::google::{google_provider_name, provider_name};
use crate::translation::result::{
    error_view, success_view, ResultView, StartedView, TranslationResult, TranslationStarted,
};

verus! {

/// Reading translates a selection; replying translates the focused input and
/// types the translation back into it.
#[derive(Debug, Clone, Copy, PartialEq, Eq, Structural)]
pub enum Mode {
    Read,
    Reply,
}

pub open spec fn mode_name(m: Mode) -> Seq<char> {
    match m {
        Mode::Read => "read"@,
        Mode::Reply => "reply"@,
    }
}

impl Mode {
    pub fn name(self) -> (r: &'static str)
        ensures
            r@ == mode_name(self),
    {
        match self {
            Mode::Read => "read",
            Mode::Reply => "reply",
        }
    }
}

/// The global shortcuts: Alt+Q reads, Alt+Enter replies.
#[derive(Debug, Clone, Copy, PartialEq, Eq, Structural)]
pub enum Shortcut {
    AltQ,
    AltEnter,
}

/// The mode a shortcut starts; shortcuts act when they are released.
pub fn mode_for_shortcut(shortcut: Shortcut, released: bool) -> (r: Option<Mode>)
    ensures
        !released ==> r is None,
        released && shortcut == Shortcut::AltQ ==> r == Some(Mode::Read),
        released && shortcut == Shortcut::AltEnter ==> r == Some(Mode::Reply),
{
    if !released {
        None
    } else {
        match shortcut {
            Shortcut::AltQ => Some(Mode::Read),
            Shortcut::AltEnter => Some(Mode::Reply),
        }
    }
}

/// Where a workflow stands, with what it has learnt so far.
#[derive(Debug)]
pub enum WorkflowPhase {
    Capturing,
    Announcing { original: String },
    LoadingProvider { original: String },
    Translating { original: String, provider: &'static str },
    Injecting { original: String, provider: &'static str, translated: String },
    Done,
}

/// What came of the last step.
#[derive(Debug)]
pub enum WorkflowEvent {
    /// The capture result, and whether the floating window exists (it has then
    /// been placed near the pointer and shown).
    Captured { result: CaptureResult, window_available: bool },
    Announced,
    /// The provider is ready, with its name, or could not be set up.
    ProviderLoaded(Result<&'static str, TranslationError>),
    Translated(Result<String, TranslationError>),
    /// Whether the translation was typed into the target application.
    Injected(bool),
}

/// What the caller is to do next.
#[derive(Debug)]
pub enum WorkflowAction {
    /// Capture the selection (read) or the focused input (reply).
    Capture(Mode),
    /// Show the capture result; the workflow is over.
    ShowCapture(CaptureResult),
    /// Tell the window that a translation has started.
    Announce(TranslationStarted),
    LoadProvider,
    /// Translate `text` in `mode`.
    Translate { text: String, mode: Mode },
    /// Type `text` into the application that had the focus.
    Inject(String),
    /// Show the translation result; the workflow is over.
    ShowTranslation(TranslationResult),
    /// Nothing to show; the workflow is over.
    Finish,
}

pub enum PhaseView {
    Capturing,
    Announcing { original: Seq<char> },
    LoadingProvider { original: Seq<char> },
    Translating { original: Seq<char>, provider: Seq<char> },
    Injecting { original: Seq<char>, provider: Seq<char>, translated: Seq<char> },
    Done,
}

pub struct WorkflowView {
    pub mode: Mode,
    pub phase: PhaseView,
}

pub enum WorkflowStep {
    Capture(Mode),
    ShowCapture(CaptureResult),
    Announce(StartedView),
    LoadProvider,
    Translate { text: Seq<char>, mode: Mode },
    Inject(Seq<char>),
    ShowTranslation(ResultView),
    Finish,
}

impl View for WorkflowAction {
    type V = WorkflowStep;

    open spec fn view(&self) -> WorkflowStep {
        match self {
            WorkflowAction::Capture(m) => WorkflowStep::Capture(*m),
            WorkflowAction::ShowCapture(r) => WorkflowStep::ShowCapture(*r),
            WorkflowAction::Announce(s) => WorkflowStep::Announce(s@),
            WorkflowAction::LoadProvider => WorkflowStep::LoadProvider,
            WorkflowAction::Translate { text, mode } => WorkflowStep::Translate { text: text@, mode: *mode },
            WorkflowAction::Inject(t) => WorkflowStep::Inject(t@),
            WorkflowAction::ShowTranslation(r) => WorkflowStep::ShowTranslation(r@),
            WorkflowAction::Finish => WorkflowStep::Finish,
        }
    }
}

pub open spec fn workflow_accepts(p: PhaseView, e: WorkflowEvent) -> bool {
    match p {
        PhaseView::Capturing => e is Captured,
        PhaseView::Announcing { .. } => e is Announced,
        PhaseView::LoadingProvider { .. } => e is ProviderLoaded,
        PhaseView::Translating { .. } => e is Translated,
        PhaseView::Injecting { .. } => e is Injected,
        PhaseView::Done => false,
    }
}

pub open spec fn done(m: Mode, step: WorkflowStep) -> (WorkflowView, WorkflowStep) {
    (WorkflowView { mode: m, phase: PhaseView::Done }, step)
}

/// One step of the workflow.
pub open spec fn workflow_next(v: WorkflowView, e: WorkflowEvent) -> (WorkflowView, WorkflowStep) {
    let m = v.mode;
    match (v.phase, e) {
        (PhaseView::Capturing, WorkflowEvent::Captured { result, window_available }) =>
            if !window_available {
                done(m, WorkflowStep::Finish)
            } else {
                match result.text {
                    None => done(m, WorkflowStep::ShowCapture(result)),
                    Some(t) => (
                        WorkflowView { mode: m, phase: PhaseView::Announcing { original: t@ } },
                        WorkflowStep::Announce(StartedView {
                            original_text: t@,
                            provider: google_provider_name(),
                            mode: mode_name(m),
                        }),
                    ),
                }
            },
        (PhaseView::Announcing { original }, WorkflowEvent::Announced) => (
            WorkflowView { mode: m, phase: PhaseView::LoadingProvider { original } },
            WorkflowStep::LoadProvider,
        ),
        (PhaseView::LoadingProvider { original }, WorkflowEvent::ProviderLoaded(r)) => match r {
            Ok(name) => (
                WorkflowView { mode: m, phase: PhaseView::Translating { original, provider: name@ } },
                WorkflowStep::Translate { text: original, mode: m },
            ),
            Err(err) => done(
                m,
                WorkflowStep::ShowTranslation(error_view(original, google_provider_name(), mode_name(m), err)),
            ),
        },
        (PhaseView::Translating { original, provider }, WorkflowEvent::Translated(r)) => match r {
            Ok(t) => match m {
                Mode::Read => done(
                    m,
                    WorkflowStep::ShowTranslation(success_view(original, t@, provider, mode_name(m), false)),
                ),
                Mode::Reply => (
                    WorkflowView {
                        mode: m,
                        phase: PhaseView::Injecting { original, provider, translated: t@ },
                    },
                    WorkflowStep::Inject(t@),
                ),
            },
            Err(err) => done(
                m,
                WorkflowStep::ShowTranslation(error_view(original, provider, mode_name(m), err)),
            ),
        },
        (PhaseView::Injecting { original, provider, translated }, WorkflowEvent::Injected(ok)) => done(
            m,
            WorkflowStep::ShowTranslation(success_view(original, translated, provider, mode_name(m), ok)),
        ),
        _ => done(m, WorkflowStep::Finish),
    }
}

/// The captured text a workflow is translating, once it has one.
pub open spec fn phase_original(p: PhaseView) -> Option<Seq<char>> {
    match p {
        PhaseView::Announcing { original } => Some(original),
        PhaseView::LoadingProvider { original } => Some(original),
        PhaseView::Translating { original, .. } => Some(original),
        PhaseView::Injecting { original, .. } => Some(original),
        _ => None,
    }
}

/// A capture that yielded no text is shown as it is and starts no translation;
/// a capture with text starts a translation of exactly that text.
pub proof fn lemma_translation_needs_captured_text(v: WorkflowView, result: CaptureResult)
    requires
        v.phase is Capturing,
    ensures
        ({
            let (w, a) = workflow_next(v, WorkflowEvent::Captured { result, window_available: true });
            &&& result.text is None ==> (a == WorkflowStep::ShowCapture(result) && w.phase is Done)
            &&& result.text matches Some(t) ==> (
                (a matches WorkflowStep::Announce(s) && s.original_text == t@ && s.mode == mode_name(v.mode))
                && phase_original(w.phase) == Some(t@))
        }),
{
}

/// The workflow keeps translating the text it captured, and every translation
/// result it shows reports that text, the workflow's mode, and is well formed.
pub proof fn lemma_result_reports_captured_text(v: WorkflowView, e: WorkflowEvent)
    requires
        workflow_accepts(v.phase, e),
        !(v.phase is Capturing),
    ensures
        ({
            let (w, a) = workflow_next(v, e);
            &&& !(w.phase is Done) ==> phase_original(w.phase) == phase_original(v.phase)
            &&& a matches WorkflowStep::ShowTranslation(r) ==> (
                Some(r.original_text) == phase_original(v.phase)
                && r.mode == mode_name(v.mode)
                && r.is_well_formed())
            &&& a matches WorkflowStep::Translate { text, mode } ==> (
                Some(text) == phase_original(v.phase) && mode == v.mode)
        }),
{
}

/// Only a reply is ever typed into the target application, only once it has
/// been translated, and a shown result says it was typed exactly when typing
/// it succeeded.
pub proof fn lemma_injection_only_for_replies(v: WorkflowView, e: WorkflowEvent)
    requires
        workflow_accepts(v.phase, e),
    ensures
        ({
            let (w, a) = workflow_next(v, e);
            &&& a matches WorkflowStep::Inject(t) ==> (
                v.mode == Mode::Reply && v.phase is Translating
                && (e matches WorkflowEvent::Translated(Ok(s)) && s@ == t))
            &&& a matches WorkflowStep::ShowTranslation(r) ==> (
                r.injected <==> (v.phase is Injecting && e == WorkflowEvent::Injected(true)))
        }),
{
}

/// A failed translation is always shown, in both modes: the window receives a
/// failed result carrying the captured text, the provider, the mode, and the
/// error's code and message, and nothing is typed.
pub proof fn lemma_translation_failure_is_shown(v: WorkflowView, e: TranslationError)
    requires
        v.phase is Translating,
    ensures
        ({
            let (w, a) = workflow_next(v, WorkflowEvent::Translated(Err(e)));
            &&& w.phase is Done
            &&& a matches WorkflowStep::ShowTranslation(r) && {
                &&& !r.success
                &&& r.original_text == v.phase->Translating_original
                &&& r.translated_text is None
                &&& r.provider == v.phase->Translating_provider
                &&& r.error_code == Some(translation_error_code(e))
                &&& r.message == Some(translation_error_message(e))
                &&& r.mode == (if v.mode == Mode::Read { "read"@ } else { "reply"@ })
                &&& !r.injected
            }
        }),
{
}

/// A provider that cannot be set up is reported, in both modes: the window
/// receives a failed result for the captured text, naming the Google provider,
/// with the error's code and message.
pub proof fn lemma_provider_failure_is_shown(v: WorkflowView, e: TranslationError)
    requires
        v.phase is LoadingProvider,
    ensures
        ({
            let (w, a) = workflow_next(v, WorkflowEvent::ProviderLoaded(Err(e)));
            &&& w.phase is Done
            &&& a matches WorkflowStep::ShowTranslation(r) && {
                &&& !r.success
                &&& r.original_text == v.phase->LoadingProvider_original
                &&& r.translated_text is None
                &&& r.provider == "Google Translate"@
                &&& r.error_code == Some(translation_error_code(e))
                &&& r.message == Some(translation_error_message(e))
                &&& r.mode == (if v.mode == Mode::Read { "read"@ } else { "reply"@ })
                &&& !r.injected
            }
        }),
{
}

/// A workflow ends without showing anything only when there is no window to
/// show it in: every other ending shows the capture or a translation result.
pub proof fn lemma_ends_silently_only_without_window(v: WorkflowView, e: WorkflowEvent)
    requires
        workflow_accepts(v.phase, e),
        workflow_next(v, e).1 is Finish,
    ensures
        v.phase is Capturing,
        e matches WorkflowEvent::Captured { window_available, .. } && !window_available,
{
}

/// A successful translation is shown: when reading, at once, as a successful
/// result with the translation, never typed; when replying, after the
/// translation has been typed into the target, with whether typing succeeded.
pub proof fn lemma_translation_success_is_shown(v: WorkflowView, t: String, typed: bool)
    requires
        v.phase is Translating,
    ensures
        ({
            let original = v.phase->Translating_original;
            let provider = v.phase->Translating_provider;
            let (w, a) = workflow_next(v, WorkflowEvent::Translated(Ok(t)));
            &&& v.mode == Mode::Read ==> (w.phase is Done && (a matches WorkflowStep::ShowTranslation(r) && {
                &&& r.success
                &&& r.original_text == original
                &&& r.translated_text == Some(t@)
                &&& r.provider == provider
                &&& r.error_code is None
                &&& r.message is None
                &&& r.mode == "read"@
                &&& !r.injected
            }))
            &&& v.mode == Mode::Reply ==> (a == WorkflowStep::Inject(t@) && {
                let (u, b) = workflow_next(w, WorkflowEvent::Injected(typed));
                &&& u.phase is Done
                &&& b matches WorkflowStep::ShowTranslation(r) && {
                    &&& r.success
                    &&& r.original_text == original
                    &&& r.translated_text == Some(t@)
                    &&& r.provider == provider
                    &&& r.error_code is None
                    &&& r.message is None
                    &&& r.mode == "reply"@
                    &&& r.injected == typed
                }
            })
        }),
{
}

/// With a window and captured text, the workflow announces a Google translation
/// of that text, then sets up the provider and asks for exactly that text to be
/// translated in the workflow's mode.
pub proof fn lemma_captured_text_is_translated(v: WorkflowView, result: CaptureResult, name: &'static str)
    requires
        v.phase is Capturing,
        result.text is Some,
    ensures
        ({
            let text = result.text->0@;
            let (w1, a1) = workflow_next(v, WorkflowEvent::Captured { result, window_available: true });
            let (w2, a2) = workflow_next(w1, WorkflowEvent::Announced);
            let (w3, a3) = workflow_next(w2, WorkflowEvent::ProviderLoaded(Ok(name)));
            &&& a1 == WorkflowStep::Announce(StartedView {
                original_text: text,
                provider: "Google Translate"@,
                mode: if v.mode == Mode::Read { "read"@ } else { "reply"@ },
            })
            &&& a2 == WorkflowStep::LoadProvider
            &&& a3 == WorkflowStep::Translate { text, mode: v.mode }
            &&& w3.phase == PhaseView::Translating { original: text, provider: name@ }
        }),
{
}

/// A shortcut press being handled.
pub struct Workflow {
    mode: Mode,
    phase: WorkflowPhase,
}

impl View for Workflow {
    type V = WorkflowView;

    closed spec fn view(&self) -> WorkflowView {
        WorkflowView {
            mode: self.mode,
            phase: match self.phase {
                WorkflowPhase::Capturing => PhaseView::Capturing,
                WorkflowPhase::Announcing { original } => PhaseView::Announcing { original: original@ },
                WorkflowPhase::LoadingProvider { original } => PhaseView::LoadingProvider {
                    original: original@,
                },
                WorkflowPhase::Translating { original, provider } => PhaseView::Translating {
                    original: original@,
                    provider: provider@,
                },
                WorkflowPhase::Injecting { original, provider, translated } => PhaseView::Injecting {
                    original: original@,
                    provider: provider@,
                    translated: translated@,
                },
                WorkflowPhase::Done => PhaseView::Done,
            },
        }
    }
}

impl Workflow {
    /// Starts handling a shortcut: the first step is the capture.
    pub fn start(mode: Mode) -> (r: (Workflow, WorkflowAction))
        ensures
            r.0@ == (WorkflowView { mode, phase: PhaseView::Capturing }),
            r.1@ == WorkflowStep::Capture(mode),
    {
        (Workflow { mode, phase: WorkflowPhase::Capturing }, WorkflowAction::Capture(mode))
    }

    pub fn is_done(&self) -> (r: bool)
        ensures
            r == (self@.phase is Done),
    {
        match self.phase {
            WorkflowPhase::Done => true,
            _ => false,
        }
    }

    /// Whether `event` is the report the workflow waits for.
    pub fn accepts(&self, event: &WorkflowEvent) -> (r: bool)
        ensures
            r == workflow_accepts(self@.phase, *event),
    {
        match (&self.phase, event) {
            (WorkflowPhase::Capturing, WorkflowEvent::Captured { .. }) => true,
            (WorkflowPhase::Announcing { .. }, WorkflowEvent::Announced) => true,
            (WorkflowPhase::LoadingProvider { .. }, WorkflowEvent::ProviderLoaded(_)) => true,
            (WorkflowPhase::Translating { .. }, WorkflowEvent::Translated(_)) => true,
            (WorkflowPhase::Injecting { .. }, WorkflowEvent::Injected(_)) => true,
            _ => false,
        }
    }

    fn done(mode: Mode, action: WorkflowAction) -> (r: (Workflow, WorkflowAction))
        ensures
            r.0@ == (WorkflowView { mode, phase: PhaseView::Done }),
            r.1 == action,
    {
        (Workflow { mode, phase: WorkflowPhase::Done }, action)
    }

    /// Advances the workflow by the report `event`.
    pub fn step(self, event: WorkflowEvent) -> (r: (Workflow, WorkflowAction))
        requires
            workflow_accepts(self@.phase, event),
        ensures
            r.0@ == workflow_next(self@, event).0,
            r.1@ == workflow_next(self@, event).1,
    {
        let mode = self.mode;
        match (self.phase, event) {
            (WorkflowPhase::Capturing, WorkflowEvent::Captured { result, window_available }) => {
                if !window_available {
                    Workflow::done(mode, WorkflowAction::Finish)
                } else {
                    match &result.text {
                        None => Workflow::done(mode, WorkflowAction::ShowCapture(result)),
                        Some(t) => {
                            let original = t.clone();
                            let started = TranslationStarted {
                                original_text: t.clone(),
                                provider: provider_name(),
                                mode: mode.name(),
                            };
                            (
                                Workflow { mode, phase: WorkflowPhase::Announcing { original } },
                                WorkflowAction::Announce(started),
                            )
                        },
                    }
                }
            },
            (WorkflowPhase::Announcing { original }, WorkflowEvent::Announced) => {
                (Workflow { mode, phase: WorkflowPhase::LoadingProvider { original } }, WorkflowAction::LoadProvider)
            },
            (WorkflowPhase::LoadingProvider { original }, WorkflowEvent::ProviderLoaded(r)) => {
                match r {
                    Ok(name) => {
                        let text = original.clone();
                        (
                            Workflow { mode, phase: WorkflowPhase::Translating { original, provider: name } },
                            WorkflowAction::Translate { text, mode },
                        )
                    },
                    Err(err) => {
                        let result = TranslationResult::error(original, provider_name(), mode.name(), err);
                        Workflow::done(mode, WorkflowAction::ShowTranslation(result))
                    },
                }
            },
            (WorkflowPhase::Translating { original, provider }, WorkflowEvent::Translated(r)) => {
                match r {
                    Ok(translated) => {
                        match mode {
                            Mode::Read => {
                                let result = TranslationResult::success(
                                    original,
                                    translated,
                                    provider,
                                    mode.name(),
                                    false,
                                );
                                Workflow::done(mode, WorkflowAction::ShowTranslation(result))
                            },
                            Mode::Reply => {
                                let text = translated.clone();
                                (
                                    Workflow {
                                        mode,
                                        phase: WorkflowPhase::Injecting { original, provider, translated },
                                    },
                                    WorkflowAction::Inject(text),
                                )
                            },
                        }
                    },
                    Err(err) => {
                        let result = TranslationResult::error(original, provider, mode.name(), err);
                        Workflow::done(mode, WorkflowAction::ShowTranslation(result))
                    },
                }
            },
            (WorkflowPhase::Injecting { original, provider, translated }, WorkflowEvent::Injected(ok)) => {
                let result = TranslationResult::success(original, translated, provider, mode.name(), ok);
                Workflow::done(mode, WorkflowAction::ShowTranslation(result))
            },
            _ => Workflow::done(mode, WorkflowAction::Finish),
        }
    }
}

} // verus!
