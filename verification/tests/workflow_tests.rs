use lingodesk::capture::result::CaptureResult;
use lingodesk::translation::error::TranslationError;
use lingodesk::workflow::{
    mode_for_shortcut, Mode, Shortcut, Workflow, WorkflowAction, WorkflowEvent,
};

fn step(w: Workflow, e: WorkflowEvent) -> (Workflow, WorkflowAction) {
    assert!(w.accepts(&e));
    w.step(e)
}

fn announced(mode: Mode, text: &str) -> Workflow {
    let (w, a) = Workflow::start(mode);
    assert!(matches!(a, WorkflowAction::Capture(m) if m == mode));
    let (w, a) = step(
        w,
        WorkflowEvent::Captured {
            result: CaptureResult::success(text.to_string()),
            window_available: true,
        },
    );
    match &a {
        WorkflowAction::Announce(s) => {
            assert_eq!(s.original_text, text);
            assert_eq!(s.provider, "Google Translate");
            assert_eq!(s.mode, mode.name());
        }
        other => panic!("unexpected {:?}", other),
    }
    let (w, a) = step(w, WorkflowEvent::Announced);
    assert!(matches!(a, WorkflowAction::LoadProvider));
    w
}

#[test]
fn shortcuts_start_modes_on_release() {
    assert_eq!(mode_for_shortcut(Shortcut::AltQ, true), Some(Mode::Read));
    assert_eq!(mode_for_shortcut(Shortcut::AltEnter, true), Some(Mode::Reply));
    assert_eq!(mode_for_shortcut(Shortcut::AltQ, false), None);
    assert_eq!(mode_for_shortcut(Shortcut::AltEnter, false), None);
    assert_eq!(Mode::Read.name(), "read");
    assert_eq!(Mode::Reply.name(), "reply");
}

#[test]
fn read_translation_is_shown() {
    let w = announced(Mode::Read, "hello");
    let (w, a) = step(w, WorkflowEvent::ProviderLoaded(Ok("Google Translate")));
    match &a {
        WorkflowAction::Translate { text, mode } => {
            assert_eq!(text, "hello");
            assert_eq!(*mode, Mode::Read);
        }
        other => panic!("unexpected {:?}", other),
    }
    let (w, a) = step(w, WorkflowEvent::Translated(Ok("你好".to_string())));
    match a {
        WorkflowAction::ShowTranslation(r) => {
            assert!(r.success);
            assert_eq!(r.original_text, "hello");
            assert_eq!(r.translated_text.as_deref(), Some("你好"));
            assert_eq!(r.mode, "read");
            assert!(!r.injected);
        }
        other => panic!("unexpected {:?}", other),
    }
    assert!(w.is_done());
}

#[test]
fn reply_is_typed_and_reported() {
    let w = announced(Mode::Reply, "你好");
    let (w, _) = step(w, WorkflowEvent::ProviderLoaded(Ok("Google Translate")));
    let (w, a) = step(w, WorkflowEvent::Translated(Ok("Hello".to_string())));
    match &a {
        WorkflowAction::Inject(t) => assert_eq!(t, "Hello"),
        other => panic!("unexpected {:?}", other),
    }
    let (_, a) = step(w, WorkflowEvent::Injected(true));
    match a {
        WorkflowAction::ShowTranslation(r) => {
            assert!(r.success);
            assert!(r.injected);
            assert_eq!(r.mode, "reply");
            assert_eq!(r.translated_text.as_deref(), Some("Hello"));
        }
        other => panic!("unexpected {:?}", other),
    }
}

#[test]
fn blocked_reply_is_still_shown() {
    let w = announced(Mode::Reply, "你好");
    let (w, _) = step(w, WorkflowEvent::ProviderLoaded(Ok("Google Translate")));
    let (w, _) = step(w, WorkflowEvent::Translated(Ok("Hello".to_string())));
    let (_, a) = step(w, WorkflowEvent::Injected(false));
    assert!(matches!(a, WorkflowAction::ShowTranslation(r) if r.success && !r.injected));
}

#[test]
fn missing_provider_reports_error() {
    let w = announced(Mode::Read, "hello");
    let (_, a) = step(w, WorkflowEvent::ProviderLoaded(Err(TranslationError::MissingApiKey)));
    match a {
        WorkflowAction::ShowTranslation(r) => {
            assert!(!r.success);
            assert_eq!(r.provider, "Google Translate");
            assert_eq!(r.error_code, Some("missing_api_key"));
            assert_eq!(r.original_text, "hello");
        }
        other => panic!("unexpected {:?}", other),
    }
}

#[test]
fn failed_translation_reports_error_without_injection() {
    let w = announced(Mode::Reply, "你好");
    let (w, _) = step(w, WorkflowEvent::ProviderLoaded(Ok("Google Translate")));
    let (w, a) = step(w, WorkflowEvent::Translated(Err(TranslationError::Network)));
    match a {
        WorkflowAction::ShowTranslation(r) => {
            assert!(!r.success);
            assert!(!r.injected);
            assert_eq!(r.error_code, Some("network_error"));
            assert_eq!(r.mode, "reply");
        }
        other => panic!("unexpected {:?}", other),
    }
    assert!(w.is_done());
}

#[test]
fn capture_without_text_is_shown_as_is() {
    let (w, _) = Workflow::start(Mode::Read);
    let (w, a) = step(
        w,
        WorkflowEvent::Captured {
            result: CaptureResult::error("no_text_selected", "No text selected"),
            window_available: true,
        },
    );
    match a {
        WorkflowAction::ShowCapture(r) => assert_eq!(r.error_code, Some("no_text_selected")),
        other => panic!("unexpected {:?}", other),
    }
    assert!(w.is_done());
}

#[test]
fn missing_window_ends_quietly() {
    let (w, _) = Workflow::start(Mode::Read);
    let (w, a) = step(
        w,
        WorkflowEvent::Captured {
            result: CaptureResult::success("hello".to_string()),
            window_available: false,
        },
    );
    assert!(matches!(a, WorkflowAction::Finish));
    assert!(w.is_done());
    assert!(!w.accepts(&WorkflowEvent::Announced));
}
