use lingodesk::capture::clipboard::{
    clipboard_open_attempt, clipboard_unit_count, clipboard_words_for, decode_clipboard_words,
    read_unicode_text, OpenAttempt,
};
use lingodesk::capture::error::CaptureError;
use lingodesk::capture::keys::{copy_shortcut_inputs, hotkey_release_key, KeyAction, KeyInput, KeyName};
use lingodesk::capture::result::CaptureResult;
use lingodesk::capture::unsupported::{capture_focused_input, capture_selected_text};
use lingodesk::text::{char_is_whitespace, encode_utf16_units, is_blank};

#[test]
fn capture_result_success_carries_text() {
    let r = CaptureResult::success("hello".to_string());
    assert!(r.success);
    assert_eq!(r.text.as_deref(), Some("hello"));
    assert_eq!(r.source, "clipboard");
    assert_eq!(r.error_code, None);
    assert_eq!(r.message, None);
}

#[test]
fn capture_result_error_carries_code_and_message() {
    let r = CaptureResult::error("no_text_selected", "No text selected");
    assert!(!r.success);
    assert_eq!(r.text, None);
    assert_eq!(r.source, "clipboard");
    assert_eq!(r.error_code, Some("no_text_selected"));
    assert_eq!(r.message.as_deref(), Some("No text selected"));
}

#[test]
fn capture_result_from_outcome_reports_each_error() {
    let cases = [
        (CaptureError::NoTextSelected, "no_text_selected", "No text selected"),
        (CaptureError::ClipboardUnavailable, "clipboard_unavailable", "Unable to capture text"),
        (CaptureError::ClipboardRestoreFailed, "clipboard_restore_failed", "Unable to restore clipboard"),
        (CaptureError::InputBlocked, "input_blocked", "Windows blocked keyboard input"),
    ];
    for (e, code, message) in cases {
        assert_eq!(e.code(), code);
        assert_eq!(e.user_message(), message);
        let r = CaptureResult::from_outcome(Err(e));
        assert_eq!(r.error_code, Some(code));
        assert_eq!(r.message.as_deref(), Some(message));
        assert!(!r.success);
    }
    let ok = CaptureResult::from_outcome(Ok("text".to_string()));
    assert!(ok.success);
    assert_eq!(ok.text.as_deref(), Some("text"));
}

#[test]
fn unsupported_platform_capture_fails() {
    for r in [capture_selected_text(), capture_focused_input()] {
        assert!(!r.success);
        assert_eq!(r.error_code, Some("unsupported_platform"));
        assert_eq!(
            r.message.as_deref(),
            Some("This proof of concept currently supports Windows only")
        );
        assert_eq!(r.text, None);
    }
}

#[test]
fn blank_text_is_detected() {
    assert!(is_blank(""));
    assert!(is_blank("  \t\r\n"));
    assert!(is_blank("\u{3000}\u{a0}"));
    assert!(!is_blank("  a "));
    assert!(!is_blank("你好"));
}

#[test]
fn white_space_is_the_unicode_set() {
    for c in ['\t', '\n', '\u{b}', '\u{c}', '\r', ' ', '\u{85}', '\u{a0}', '\u{1680}', '\u{2000}',
        '\u{200a}', '\u{2028}', '\u{2029}', '\u{202f}', '\u{205f}', '\u{3000}'] {
        assert!(char_is_whitespace(c));
        assert_eq!(char_is_whitespace(c), c.is_whitespace());
    }
    for c in ['a', '\u{200b}', '\u{180e}', '\u{feff}', '\0', '你'] {
        assert!(!char_is_whitespace(c));
        assert_eq!(char_is_whitespace(c), c.is_whitespace());
    }
}

#[test]
fn read_unicode_text_rejects_blank_text() {
    assert_eq!(read_unicode_text(Ok("   \n".to_string())), Err(CaptureError::NoTextSelected));
    assert_eq!(read_unicode_text(Ok(" hi ".to_string())), Ok(" hi ".to_string()));
    assert_eq!(
        read_unicode_text(Err(CaptureError::ClipboardUnavailable)),
        Err(CaptureError::ClipboardUnavailable)
    );
}

#[test]
fn clipboard_size_below_one_unit_holds_no_text() {
    assert_eq!(clipboard_unit_count(0), Err(CaptureError::NoTextSelected));
    assert_eq!(clipboard_unit_count(1), Err(CaptureError::NoTextSelected));
    assert_eq!(clipboard_unit_count(2), Ok(1));
    assert_eq!(clipboard_unit_count(11), Ok(5));
}

#[test]
fn clipboard_words_are_utf16_with_terminator() {
    assert_eq!(clipboard_words_for("A\u{1D11E}é"), vec![0x41, 0xD834, 0xDD1E, 0xE9, 0]);
    assert_eq!(clipboard_words_for(""), vec![0]);
}

#[test]
fn utf16_encoding_matches_std() {
    for text in ["", "abc", "héllo", "你好", "\u{1D11E}\u{10FFFF}\u{FFFF}\u{E000}\u{D7FF}"] {
        assert_eq!(encode_utf16_units(text), text.encode_utf16().collect::<Vec<u16>>());
    }
}

#[test]
fn clipboard_buffer_ends_at_first_nul() {
    assert_eq!(decode_clipboard_words(&[0x41, 0x42, 0, 0x43]), Ok("AB".to_string()));
    assert_eq!(decode_clipboard_words(&[0x41, 0x42]), Ok("AB".to_string()));
    assert_eq!(decode_clipboard_words(&[0]), Ok(String::new()));
    assert_eq!(decode_clipboard_words(&[0xD834, 0xDD1E, 0]), Ok("\u{1D11E}".to_string()));
}

#[test]
fn clipboard_buffer_with_unpaired_surrogate_is_unusable() {
    assert_eq!(decode_clipboard_words(&[0xD800, 0]), Err(CaptureError::ClipboardUnavailable));
    assert_eq!(decode_clipboard_words(&[0xDC00, 0x41]), Err(CaptureError::ClipboardUnavailable));
}

#[test]
fn clipboard_text_round_trips() {
    for text in ["", "plain", "你好, world \u{1D11E}!", "  spaced\nlines\t"] {
        let words = clipboard_words_for(text);
        assert!(clipboard_unit_count(words.len() * 2).is_ok());
        assert_eq!(decode_clipboard_words(&words), Ok(text.to_string()));
    }
}

#[test]
fn text_with_nul_is_cut_at_the_nul() {
    let words = clipboard_words_for("ab\0cd");
    assert_eq!(decode_clipboard_words(&words), Ok("ab".to_string()));
}

#[test]
fn clipboard_open_retries_until_deadline() {
    assert_eq!(clipboard_open_attempt(true, 500, 250), OpenAttempt::Opened);
    assert_eq!(clipboard_open_attempt(false, 100, 250), OpenAttempt::Retry);
    assert_eq!(clipboard_open_attempt(false, 250, 250), OpenAttempt::GiveUp);
}

fn key(key: KeyName, action: KeyAction) -> KeyInput {
    KeyInput { key, action }
}

#[test]
fn copy_shortcut_is_ctrl_c() {
    let inputs = copy_shortcut_inputs(false);
    assert_eq!(
        inputs,
        vec![
            key(KeyName::Control, KeyAction::Press),
            key(KeyName::C, KeyAction::Press),
            key(KeyName::C, KeyAction::Release),
            key(KeyName::Control, KeyAction::Release),
        ]
    );
}

#[test]
fn focused_input_copy_selects_all_first() {
    let inputs = copy_shortcut_inputs(true);
    assert_eq!(inputs.len(), 8);
    assert_eq!(inputs[1], key(KeyName::A, KeyAction::Press));
    assert_eq!(inputs[2], key(KeyName::A, KeyAction::Release));
    assert_eq!(inputs[5], key(KeyName::C, KeyAction::Press));
    assert_eq!(inputs[7], key(KeyName::Control, KeyAction::Release));
}

#[test]
fn hotkey_release_waits_for_shortcut_key() {
    assert_eq!(hotkey_release_key(false), KeyName::Q);
    assert_eq!(hotkey_release_key(true), KeyName::Enter);
}
