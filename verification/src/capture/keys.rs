//! The keyboard input the capture sends to the foreground application.

use vstd::prelude::*;

verus! {

/// The keys the capture presses or watches.
#[derive(Debug, Clone, Copy, PartialEq, Eq, Structural)]
pub enum KeyName {
    Alt,
    Control,
    A,
    C,
    Q,
    Enter,
}

#[derive(Debug, Clone, Copy, PartialEq, Eq, Structural)]
pub enum KeyAction {
    Press,
    Release,
}

/// One synthetic keyboard event.
#[derive(Debug, Clone, Copy, PartialEq, Eq, Structural)]
pub struct KeyInput {
    pub key: KeyName,
    pub action: KeyAction,
}

pub open spec fn key_input(key: KeyName, action: KeyAction) -> KeyInput {
    KeyInput { key, action }
}

/// Press and release `key` while Control is held.
pub open spec fn control_chord(key: KeyName) -> Seq<KeyInput> {
    seq![
        key_input(KeyName::Control, KeyAction::Press),
        key_input(key, KeyAction::Press),
        key_input(key, KeyAction::Release),
        key_input(KeyName::Control, KeyAction::Release),
    ]
}

/// Ctrl+C, preceded by Ctrl+A when the whole focused input is to be selected first.
pub open spec fn copy_shortcut_sequence(select_all: bool) -> Seq<KeyInput> {
    if select_all {
        control_chord(KeyName::A) + control_chord(KeyName::C)
    } else {
        control_chord(KeyName::C)
    }
}

/// The key, besides Alt, of the shortcut that started a capture: Enter for the
/// reply shortcut, Q for the translate shortcut.
pub open spec fn shortcut_key(reply_shortcut: bool) -> KeyName {
    if reply_shortcut {
        KeyName::Enter
    } else {
        KeyName::Q
    }
}

pub fn hotkey_release_key(reply_shortcut: bool) -> (r: KeyName)
    ensures
        r == shortcut_key(reply_shortcut),
{
    if reply_shortcut {
        KeyName::Enter
    } else {
        KeyName::Q
    }
}

fn push_control_chord(inputs: &mut Vec<KeyInput>, key: KeyName)
    ensures
        final(inputs)@ == old(inputs)@ + control_chord(key),
{
    inputs.push(KeyInput { key: KeyName::Control, action: KeyAction::Press });
    inputs.push(KeyInput { key, action: KeyAction::Press });
    inputs.push(KeyInput { key, action: KeyAction::Release });
    inputs.push(KeyInput { key: KeyName::Control, action: KeyAction::Release });
    assert(inputs@ =~= old(inputs)@ + control_chord(key));
}

/// The keyboard events that copy the selection (after selecting all, if asked).
pub fn copy_shortcut_inputs(select_all: bool) -> (r: Vec<KeyInput>)
    ensures
        r@ == copy_shortcut_sequence(select_all),
{
    let mut inputs: Vec<KeyInput> = Vec::new();
    if select_all {
        push_control_chord(&mut inputs, KeyName::A);
    }
    push_control_chord(&mut inputs, KeyName::C);
    assert(inputs@ =~= copy_shortcut_sequence(select_all));
    inputs
}

} // verus!
