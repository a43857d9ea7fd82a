//! Keyboard keys and the mapping from browser key codes.
use crate::text::{chars_equal, chars_of};
use vstd::prelude::*;

verus! {

/// A keyboard key.
#[derive(Copy, Clone, Debug, PartialEq, Eq, Hash, Structural)]
pub enum Key {
    Enter,
    Escape,
    Backspace,
    Space,
    Control,
    Shift,
    Alt,
    ArrowLeft,
    ArrowUp,
    ArrowRight,
    ArrowDown,
    Key0,
    Key1,
    Key2,
    Key3,
    Key4,
    Key5,
    Key6,
    Key7,
    Key8,
    Key9,
    F1,
    F2,
    F3,
    F4,
    F5,
    F6,
    F7,
    F8,
    F9,
    F10,
    F11,
    F12,
    KeyA,
    KeyB,
    KeyC,
    KeyD,
    KeyE,
    KeyF,
    KeyG,
    KeyH,
    KeyI,
    KeyJ,
    KeyK,
    KeyL,
    KeyM,
    KeyN,
    KeyO,
    KeyP,
    KeyQ,
    KeyR,
    KeyS,
    KeyT,
    KeyU,
    KeyV,
    KeyW,
    KeyX,
    KeyY,
    KeyZ,
    Num0,
    Num1,
    Num2,
    Num3,
    Num4,
    Num5,
    Num6,
    Num7,
    Num8,
    Num9,
    Unknown,
}

/// The key that a browser key code (`KeyboardEvent.code`) stands for; `Unknown` for any
/// code without a key of its own.
pub open spec fn key_of_code(code: Seq<char>) -> Key {
    if code == "Enter"@ || code == "NumpadEnter"@ {
        Key::Enter
    } else if code == "Escape"@ {
        Key::Escape
    } else if code == "Backspace"@ {
        Key::Backspace
    } else if code == "Space"@ {
        Key::Space
    } else if code == "ControlLeft"@ || code == "ControlRight"@ {
        Key::Control
    } else if code == "ShiftLeft"@ || code == "ShiftRight"@ {
        Key::Shift
    } else if code == "AltLeft"@ || code == "AltRight"@ {
        Key::Alt
    } else if code == "ArrowLeft"@ {
        Key::ArrowLeft
    } else if code == "ArrowUp"@ {
        Key::ArrowUp
    } else if code == "ArrowRight"@ {
        Key::ArrowRight
    } else if code == "ArrowDown"@ {
        Key::ArrowDown
    } else if code == "Digit0"@ {
        Key::Key0
    } else if code == "Digit1"@ {
        Key::Key1
    } else if code == "Digit2"@ {
        Key::Key2
    } else if code == "Digit3"@ {
        Key::Key3
    } else if code == "Digit4"@ {
        Key::Key4
    } else if code == "Digit5"@ {
        Key::Key5
    } else if code == "Digit6"@ {
        Key::Key6
    } else if code == "Digit7"@ {
        Key::Key7
    } else if code == "Digit8"@ {
        Key::Key8
    } else if code == "Digit9"@ {
        Key::Key9
    } else if code == "F1"@ {
        Key::F1
    } else if code == "F2"@ {
        Key::F2
    } else if code == "F3"@ {
        Key::F3
    } else if code == "F4"@ {
        Key::F4
    } else if code == "F5"@ {
        Key::F5
    } else if code == "F6"@ {
        Key::F6
    } else if code == "F7"@ {
        Key::F7
    } else if code == "F8"@ {
        Key::F8
    } else if code == "F9"@ {
        Key::F9
    } else if code == "F10"@ {
        Key::F10
    } else if code == "F11"@ {
        Key::F11
    } else if code == "F12"@ {
        Key::F12
    } else if code == "KeyA"@ {
        Key::KeyA
    } else if code == "KeyB"@ {
        Key::KeyB
    } else if code == "KeyC"@ {
        Key::KeyC
    } else if code == "KeyD"@ {
        Key::KeyD
    } else if code == "KeyE"@ {
        Key::KeyE
    } else if code == "KeyF"@ {
        Key::KeyF
    } else if code == "KeyG"@ {
        Key::KeyG
    } else if code == "KeyH"@ {
        Key::KeyH
    } else if code == "KeyI"@ {
        Key::KeyI
    } else if code == "KeyJ"@ {
        Key::KeyJ
    } else if code == "KeyK"@ {
        Key::KeyK
    } else if code == "KeyL"@ {
        Key::KeyL
    } else if code == "KeyM"@ {
        Key::KeyM
    } else if code == "KeyN"@ {
        Key::KeyN
    } else if code == "KeyO"@ {
        Key::KeyO
    } else if code == "KeyP"@ {
        Key::KeyP
    } else if code == "KeyQ"@ {
        Key::KeyQ
    } else if code == "KeyR"@ {
        Key::KeyR
    } else if code == "KeyS"@ {
        Key::KeyS
    } else if code == "KeyT"@ {
        Key::KeyT
    } else if code == "KeyU"@ {
        Key::KeyU
    } else if code == "KeyV"@ {
        Key::KeyV
    } else if code == "KeyW"@ {
        Key::KeyW
    } else if code == "KeyX"@ {
        Key::KeyX
    } else if code == "KeyY"@ {
        Key::KeyY
    } else if code == "KeyZ"@ {
        Key::KeyZ
    } else if code == "Numpad0"@ {
        Key::Num0
    } else if code == "Numpad1"@ {
        Key::Num1
    } else if code == "Numpad2"@ {
        Key::Num2
    } else if code == "Numpad3"@ {
        Key::Num3
    } else if code == "Numpad4"@ {
        Key::Num4
    } else if code == "Numpad5"@ {
        Key::Num5
    } else if code == "Numpad6"@ {
        Key::Num6
    } else if code == "Numpad7"@ {
        Key::Num7
    } else if code == "Numpad8"@ {
        Key::Num8
    } else if code == "Numpad9"@ {
        Key::Num9
    } else {
        Key::Unknown
    }
}

/// The browser key code (`KeyboardEvent.code`) of each key, as the web window's code table
/// names it; for a key that two codes stand for, the first of them.
pub open spec fn code_of_key(key: Key) -> Seq<char> {
    match key {
        Key::Enter => "Enter"@,
        Key::Escape => "Escape"@,
        Key::Backspace => "Backspace"@,
        Key::Space => "Space"@,
        Key::Control => "ControlLeft"@,
        Key::Shift => "ShiftLeft"@,
        Key::Alt => "AltLeft"@,
        Key::ArrowLeft => "ArrowLeft"@,
        Key::ArrowUp => "ArrowUp"@,
        Key::ArrowRight => "ArrowRight"@,
        Key::ArrowDown => "ArrowDown"@,
        Key::Key0 => "Digit0"@,
        Key::Key1 => "Digit1"@,
        Key::Key2 => "Digit2"@,
        Key::Key3 => "Digit3"@,
        Key::Key4 => "Digit4"@,
        Key::Key5 => "Digit5"@,
        Key::Key6 => "Digit6"@,
        Key::Key7 => "Digit7"@,
        Key::Key8 => "Digit8"@,
        Key::Key9 => "Digit9"@,
        Key::F1 => "F1"@,
        Key::F2 => "F2"@,
        Key::F3 => "F3"@,
        Key::F4 => "F4"@,
        Key::F5 => "F5"@,
        Key::F6 => "F6"@,
        Key::F7 => "F7"@,
        Key::F8 => "F8"@,
        Key::F9 => "F9"@,
        Key::F10 => "F10"@,
        Key::F11 => "F11"@,
        Key::F12 => "F12"@,
        Key::KeyA => "KeyA"@,
        Key::KeyB => "KeyB"@,
        Key::KeyC => "KeyC"@,
        Key::KeyD => "KeyD"@,
        Key::KeyE => "KeyE"@,
        Key::KeyF => "KeyF"@,
        Key::KeyG => "KeyG"@,
        Key::KeyH => "KeyH"@,
        Key::KeyI => "KeyI"@,
        Key::KeyJ => "KeyJ"@,
        Key::KeyK => "KeyK"@,
        Key::KeyL => "KeyL"@,
        Key::KeyM => "KeyM"@,
        Key::KeyN => "KeyN"@,
        Key::KeyO => "KeyO"@,
        Key::KeyP => "KeyP"@,
        Key::KeyQ => "KeyQ"@,
        Key::KeyR => "KeyR"@,
        Key::KeyS => "KeyS"@,
        Key::KeyT => "KeyT"@,
        Key::KeyU => "KeyU"@,
        Key::KeyV => "KeyV"@,
        Key::KeyW => "KeyW"@,
        Key::KeyX => "KeyX"@,
        Key::KeyY => "KeyY"@,
        Key::KeyZ => "KeyZ"@,
        Key::Num0 => "Numpad0"@,
        Key::Num1 => "Numpad1"@,
        Key::Num2 => "Numpad2"@,
        Key::Num3 => "Numpad3"@,
        Key::Num4 => "Numpad4"@,
        Key::Num5 => "Numpad5"@,
        Key::Num6 => "Numpad6"@,
        Key::Num7 => "Numpad7"@,
        Key::Num8 => "Numpad8"@,
        Key::Num9 => "Numpad9"@,
        Key::Unknown => Seq::empty(),
    }
}

/// Each key's own browser code, as the web window's table names it, maps back to that key
/// and to no other (so the codes of different keys differ); the second code of a key on both sides of the keyboard (or
/// of the numpad's enter) maps to the same key; and an empty code is no key.
pub proof fn lemma_codes_map_to_their_keys(key: Key)
    ensures
        key != Key::Unknown ==> key_of_code(code_of_key(key)) == key,
        key_of_code("NumpadEnter"@) == Key::Enter,
        key_of_code("ControlRight"@) == Key::Control,
        key_of_code("ShiftRight"@) == Key::Shift,
        key_of_code("AltRight"@) == Key::Alt,
        key_of_code(Seq::empty()) == Key::Unknown,
{
    // The lengths of the codes, and the characters at which codes of equal length first
    // differ, tell every code apart from the codes tested before it.
    reveal_strlit("Enter");
    reveal_strlit("NumpadEnter");
    reveal_strlit("Escape");
    reveal_strlit("Backspace");
    reveal_strlit("Space");
    reveal_strlit("ControlLeft");
    reveal_strlit("ControlRight");
    reveal_strlit("ShiftLeft");
    reveal_strlit("ShiftRight");
    reveal_strlit("AltLeft");
    reveal_strlit("AltRight");
    reveal_strlit("ArrowLeft");
    reveal_strlit("ArrowUp");
    reveal_strlit("ArrowRight");
    reveal_strlit("ArrowDown");
    reveal_strlit("Digit0");
    reveal_strlit("Digit1");
    reveal_strlit("Digit2");
    reveal_strlit("Digit3");
    reveal_strlit("Digit4");
    reveal_strlit("Digit5");
    reveal_strlit("Digit6");
    reveal_strlit("Digit7");
    reveal_strlit("Digit8");
    reveal_strlit("Digit9");
    reveal_strlit("F1");
    reveal_strlit("F2");
    reveal_strlit("F3");
    reveal_strlit("F4");
    reveal_strlit("F5");
    reveal_strlit("F6");
    reveal_strlit("F7");
    reveal_strlit("F8");
    reveal_strlit("F9");
    reveal_strlit("F10");
    reveal_strlit("F11");
    reveal_strlit("F12");
    reveal_strlit("KeyA");
    reveal_strlit("KeyB");
    reveal_strlit("KeyC");
    reveal_strlit("KeyD");
    reveal_strlit("KeyE");
    reveal_strlit("KeyF");
    reveal_strlit("KeyG");
    reveal_strlit("KeyH");
    reveal_strlit("KeyI");
    reveal_strlit("KeyJ");
    reveal_strlit("KeyK");
    reveal_strlit("KeyL");
    reveal_strlit("KeyM");
    reveal_strlit("KeyN");
    reveal_strlit("KeyO");
    reveal_strlit("KeyP");
    reveal_strlit("KeyQ");
    reveal_strlit("KeyR");
    reveal_strlit("KeyS");
    reveal_strlit("KeyT");
    reveal_strlit("KeyU");
    reveal_strlit("KeyV");
    reveal_strlit("KeyW");
    reveal_strlit("KeyX");
    reveal_strlit("KeyY");
    reveal_strlit("KeyZ");
    reveal_strlit("Numpad0");
    reveal_strlit("Numpad1");
    reveal_strlit("Numpad2");
    reveal_strlit("Numpad3");
    reveal_strlit("Numpad4");
    reveal_strlit("Numpad5");
    reveal_strlit("Numpad6");
    reveal_strlit("Numpad7");
    reveal_strlit("Numpad8");
    reveal_strlit("Numpad9");
    assert("Enter"@.len() == 5 && "Enter"@[0] == 'E');
    assert("NumpadEnter"@.len() == 11 && "NumpadEnter"@[0] == 'N');
    assert("Escape"@.len() == 6 && "Escape"@[0] == 'E');
    assert("Backspace"@.len() == 9 && "Backspace"@[0] == 'B');
    assert("Space"@.len() == 5 && "Space"@[0] == 'S');
    assert("ControlLeft"@.len() == 11 && "ControlLeft"@[0] == 'C');
    assert("ControlRight"@.len() == 12);
    assert("ShiftLeft"@.len() == 9 && "ShiftLeft"@[0] == 'S');
    assert("ShiftRight"@.len() == 10 && "ShiftRight"@[0] == 'S');
    assert("AltLeft"@.len() == 7 && "AltLeft"@[0] == 'A' && "AltLeft"@[1] == 'l');
    assert("AltRight"@.len() == 8);
    assert("ArrowLeft"@.len() == 9 && "ArrowLeft"@[0] == 'A' && "ArrowLeft"@[5] == 'L');
    assert("ArrowUp"@.len() == 7 && "ArrowUp"@[0] == 'A' && "ArrowUp"@[1] == 'r');
    assert("ArrowRight"@.len() == 10 && "ArrowRight"@[0] == 'A');
    assert("ArrowDown"@.len() == 9 && "ArrowDown"@[0] == 'A' && "ArrowDown"@[5] == 'D');
    assert("Digit0"@.len() == 6 && "Digit0"@[0] == 'D' && "Digit0"@[5] == '0');
    assert("Digit1"@.len() == 6 && "Digit1"@[0] == 'D' && "Digit1"@[5] == '1');
    assert("Digit2"@.len() == 6 && "Digit2"@[0] == 'D' && "Digit2"@[5] == '2');
    assert("Digit3"@.len() == 6 && "Digit3"@[0] == 'D' && "Digit3"@[5] == '3');
    assert("Digit4"@.len() == 6 && "Digit4"@[0] == 'D' && "Digit4"@[5] == '4');
    assert("Digit5"@.len() == 6 && "Digit5"@[0] == 'D' && "Digit5"@[5] == '5');
    assert("Digit6"@.len() == 6 && "Digit6"@[0] == 'D' && "Digit6"@[5] == '6');
    assert("Digit7"@.len() == 6 && "Digit7"@[0] == 'D' && "Digit7"@[5] == '7');
    assert("Digit8"@.len() == 6 && "Digit8"@[0] == 'D' && "Digit8"@[5] == '8');
    assert("Digit9"@.len() == 6 && "Digit9"@[0] == 'D' && "Digit9"@[5] == '9');
    assert("F1"@.len() == 2 && "F1"@[1] == '1');
    assert("F2"@.len() == 2 && "F2"@[1] == '2');
    assert("F3"@.len() == 2 && "F3"@[1] == '3');
    assert("F4"@.len() == 2 && "F4"@[1] == '4');
    assert("F5"@.len() == 2 && "F5"@[1] == '5');
    assert("F6"@.len() == 2 && "F6"@[1] == '6');
    assert("F7"@.len() == 2 && "F7"@[1] == '7');
    assert("F8"@.len() == 2 && "F8"@[1] == '8');
    assert("F9"@.len() == 2 && "F9"@[1] == '9');
    assert("F10"@.len() == 3 && "F10"@[2] == '0');
    assert("F11"@.len() == 3 && "F11"@[2] == '1');
    assert("F12"@.len() == 3 && "F12"@[2] == '2');
    assert("KeyA"@.len() == 4 && "KeyA"@[3] == 'A');
    assert("KeyB"@.len() == 4 && "KeyB"@[3] == 'B');
    assert("KeyC"@.len() == 4 && "KeyC"@[3] == 'C');
    assert("KeyD"@.len() == 4 && "KeyD"@[3] == 'D');
    assert("KeyE"@.len() == 4 && "KeyE"@[3] == 'E');
    assert("KeyF"@.len() == 4 && "KeyF"@[3] == 'F');
    assert("KeyG"@.len() == 4 && "KeyG"@[3] == 'G');
    assert("KeyH"@.len() == 4 && "KeyH"@[3] == 'H');
    assert("KeyI"@.len() == 4 && "KeyI"@[3] == 'I');
    assert("KeyJ"@.len() == 4 && "KeyJ"@[3] == 'J');
    assert("KeyK"@.len() == 4 && "KeyK"@[3] == 'K');
    assert("KeyL"@.len() == 4 && "KeyL"@[3] == 'L');
    assert("KeyM"@.len() == 4 && "KeyM"@[3] == 'M');
    assert("KeyN"@.len() == 4 && "KeyN"@[3] == 'N');
    assert("KeyO"@.len() == 4 && "KeyO"@[3] == 'O');
    assert("KeyP"@.len() == 4 && "KeyP"@[3] == 'P');
    assert("KeyQ"@.len() == 4 && "KeyQ"@[3] == 'Q');
    assert("KeyR"@.len() == 4 && "KeyR"@[3] == 'R');
    assert("KeyS"@.len() == 4 && "KeyS"@[3] == 'S');
    assert("KeyT"@.len() == 4 && "KeyT"@[3] == 'T');
    assert("KeyU"@.len() == 4 && "KeyU"@[3] == 'U');
    assert("KeyV"@.len() == 4 && "KeyV"@[3] == 'V');
    assert("KeyW"@.len() == 4 && "KeyW"@[3] == 'W');
    assert("KeyX"@.len() == 4 && "KeyX"@[3] == 'X');
    assert("KeyY"@.len() == 4 && "KeyY"@[3] == 'Y');
    assert("KeyZ"@.len() == 4 && "KeyZ"@[3] == 'Z');
    assert("Numpad0"@.len() == 7 && "Numpad0"@[0] == 'N' && "Numpad0"@[6] == '0');
    assert("Numpad1"@.len() == 7 && "Numpad1"@[0] == 'N' && "Numpad1"@[6] == '1');
    assert("Numpad2"@.len() == 7 && "Numpad2"@[0] == 'N' && "Numpad2"@[6] == '2');
    assert("Numpad3"@.len() == 7 && "Numpad3"@[0] == 'N' && "Numpad3"@[6] == '3');
    assert("Numpad4"@.len() == 7 && "Numpad4"@[0] == 'N' && "Numpad4"@[6] == '4');
    assert("Numpad5"@.len() == 7 && "Numpad5"@[0] == 'N' && "Numpad5"@[6] == '5');
    assert("Numpad6"@.len() == 7 && "Numpad6"@[0] == 'N' && "Numpad6"@[6] == '6');
    assert("Numpad7"@.len() == 7 && "Numpad7"@[0] == 'N' && "Numpad7"@[6] == '7');
    assert("Numpad8"@.len() == 7 && "Numpad8"@[0] == 'N' && "Numpad8"@[6] == '8');
    assert("Numpad9"@.len() == 7 && "Numpad9"@[0] == 'N' && "Numpad9"@[6] == '9');
}

/// A code that is no key's code, nor the second code of a key, stands for no key.
pub proof fn lemma_other_codes_are_unknown(code: Seq<char>)
    requires
        forall|key: Key| key != Key::Unknown ==> code != #[trigger] code_of_key(key),
        code != "NumpadEnter"@,
        code != "ControlRight"@,
        code != "ShiftRight"@,
        code != "AltRight"@,
    ensures
        key_of_code(code) == Key::Unknown,
{
    assert(code != code_of_key(Key::Enter));
    assert(code != code_of_key(Key::Escape));
    assert(code != code_of_key(Key::Backspace));
    assert(code != code_of_key(Key::Space));
    assert(code != code_of_key(Key::Control));
    assert(code != code_of_key(Key::Shift));
    assert(code != code_of_key(Key::Alt));
    assert(code != code_of_key(Key::ArrowLeft));
    assert(code != code_of_key(Key::ArrowUp));
    assert(code != code_of_key(Key::ArrowRight));
    assert(code != code_of_key(Key::ArrowDown));
    assert(code != code_of_key(Key::Key0));
    assert(code != code_of_key(Key::Key1));
    assert(code != code_of_key(Key::Key2));
    assert(code != code_of_key(Key::Key3));
    assert(code != code_of_key(Key::Key4));
    assert(code != code_of_key(Key::Key5));
    assert(code != code_of_key(Key::Key6));
    assert(code != code_of_key(Key::Key7));
    assert(code != code_of_key(Key::Key8));
    assert(code != code_of_key(Key::Key9));
    assert(code != code_of_key(Key::F1));
    assert(code != code_of_key(Key::F2));
    assert(code != code_of_key(Key::F3));
    assert(code != code_of_key(Key::F4));
    assert(code != code_of_key(Key::F5));
    assert(code != code_of_key(Key::F6));
    assert(code != code_of_key(Key::F7));
    assert(code != code_of_key(Key::F8));
    assert(code != code_of_key(Key::F9));
    assert(code != code_of_key(Key::F10));
    assert(code != code_of_key(Key::F11));
    assert(code != code_of_key(Key::F12));
    assert(code != code_of_key(Key::KeyA));
    assert(code != code_of_key(Key::KeyB));
    assert(code != code_of_key(Key::KeyC));
    assert(code != code_of_key(Key::KeyD));
    assert(code != code_of_key(Key::KeyE));
    assert(code != code_of_key(Key::KeyF));
    assert(code != code_of_key(Key::KeyG));
    assert(code != code_of_key(Key::KeyH));
    assert(code != code_of_key(Key::KeyI));
    assert(code != code_of_key(Key::KeyJ));
    assert(code != code_of_key(Key::KeyK));
    assert(code != code_of_key(Key::KeyL));
    assert(code != code_of_key(Key::KeyM));
    assert(code != code_of_key(Key::KeyN));
    assert(code != code_of_key(Key::KeyO));
    assert(code != code_of_key(Key::KeyP));
    assert(code != code_of_key(Key::KeyQ));
    assert(code != code_of_key(Key::KeyR));
    assert(code != code_of_key(Key::KeyS));
    assert(code != code_of_key(Key::KeyT));
    assert(code != code_of_key(Key::KeyU));
    assert(code != code_of_key(Key::KeyV));
    assert(code != code_of_key(Key::KeyW));
    assert(code != code_of_key(Key::KeyX));
    assert(code != code_of_key(Key::KeyY));
    assert(code != code_of_key(Key::KeyZ));
    assert(code != code_of_key(Key::Num0));
    assert(code != code_of_key(Key::Num1));
    assert(code != code_of_key(Key::Num2));
    assert(code != code_of_key(Key::Num3));
    assert(code != code_of_key(Key::Num4));
    assert(code != code_of_key(Key::Num5));
    assert(code != code_of_key(Key::Num6));
    assert(code != code_of_key(Key::Num7));
    assert(code != code_of_key(Key::Num8));
    assert(code != code_of_key(Key::Num9));
}

/// The key that a browser key code stands for; `Unknown` for any code without a key of its own.
pub fn map_key(key: String) -> (mapped: Key)
    ensures
        mapped == key_of_code(key@),
{
    let code = chars_of(key.as_str());
    if chars_equal(&code, &chars_of("Enter")) || chars_equal(&code, &chars_of("NumpadEnter")) {
        return Key::Enter;
    }
    if chars_equal(&code, &chars_of("Escape")) {
        return Key::Escape;
    }
    if chars_equal(&code, &chars_of("Backspace")) {
        return Key::Backspace;
    }
    if chars_equal(&code, &chars_of("Space")) {
        return Key::Space;
    }
    if chars_equal(&code, &chars_of("ControlLeft")) || chars_equal(&code, &chars_of("ControlRight")) {
        return Key::Control;
    }
    if chars_equal(&code, &chars_of("ShiftLeft")) || chars_equal(&code, &chars_of("ShiftRight")) {
        return Key::Shift;
    }
    if chars_equal(&code, &chars_of("AltLeft")) || chars_equal(&code, &chars_of("AltRight")) {
        return Key::Alt;
    }
    if chars_equal(&code, &chars_of("ArrowLeft")) {
        return Key::ArrowLeft;
    }
    if chars_equal(&code, &chars_of("ArrowUp")) {
        return Key::ArrowUp;
    }
    if chars_equal(&code, &chars_of("ArrowRight")) {
        return Key::ArrowRight;
    }
    if chars_equal(&code, &chars_of("ArrowDown")) {
        return Key::ArrowDown;
    }
    if chars_equal(&code, &chars_of("Digit0")) {
        return Key::Key0;
    }
    if chars_equal(&code, &chars_of("Digit1")) {
        return Key::Key1;
    }
    if chars_equal(&code, &chars_of("Digit2")) {
        return Key::Key2;
    }
    if chars_equal(&code, &chars_of("Digit3")) {
        return Key::Key3;
    }
    if chars_equal(&code, &chars_of("Digit4")) {
        return Key::Key4;
    }
    if chars_equal(&code, &chars_of("Digit5")) {
        return Key::Key5;
    }
    if chars_equal(&code, &chars_of("Digit6")) {
        return Key::Key6;
    }
    if chars_equal(&code, &chars_of("Digit7")) {
        return Key::Key7;
    }
    if chars_equal(&code, &chars_of("Digit8")) {
        return Key::Key8;
    }
    if chars_equal(&code, &chars_of("Digit9")) {
        return Key::Key9;
    }
    if chars_equal(&code, &chars_of("F1")) {
        return Key::F1;
    }
    if chars_equal(&code, &chars_of("F2")) {
        return Key::F2;
    }
    if chars_equal(&code, &chars_of("F3")) {
        return Key::F3;
    }
    if chars_equal(&code, &chars_of("F4")) {
        return Key::F4;
    }
    if chars_equal(&code, &chars_of("F5")) {
        return Key::F5;
    }
    if chars_equal(&code, &chars_of("F6")) {
        return Key::F6;
    }
    if chars_equal(&code, &chars_of("F7")) {
        return Key::F7;
    }
    if chars_equal(&code, &chars_of("F8")) {
        return Key::F8;
    }
    if chars_equal(&code, &chars_of("F9")) {
        return Key::F9;
    }
    if chars_equal(&code, &chars_of("F10")) {
        return Key::F10;
    }
    if chars_equal(&code, &chars_of("F11")) {
        return Key::F11;
    }
    if chars_equal(&code, &chars_of("F12")) {
        return Key::F12;
    }
    if chars_equal(&code, &chars_of("KeyA")) {
        return Key::KeyA;
    }
    if chars_equal(&code, &chars_of("KeyB")) {
        return Key::KeyB;
    }
    if chars_equal(&code, &chars_of("KeyC")) {
        return Key::KeyC;
    }
    if chars_equal(&code, &chars_of("KeyD")) {
        return Key::KeyD;
    }
    if chars_equal(&code, &chars_of("KeyE")) {
        return Key::KeyE;
    }
    if chars_equal(&code, &chars_of("KeyF")) {
        return Key::KeyF;
    }
    if chars_equal(&code, &chars_of("KeyG")) {
        return Key::KeyG;
    }
    if chars_equal(&code, &chars_of("KeyH")) {
        return Key::KeyH;
    }
    if chars_equal(&code, &chars_of("KeyI")) {
        return Key::KeyI;
    }
    if chars_equal(&code, &chars_of("KeyJ")) {
        return Key::KeyJ;
    }
    if chars_equal(&code, &chars_of("KeyK")) {
        return Key::KeyK;
    }
    if chars_equal(&code, &chars_of("KeyL")) {
        return Key::KeyL;
    }
    if chars_equal(&code, &chars_of("KeyM")) {
        return Key::KeyM;
    }
    if chars_equal(&code, &chars_of("KeyN")) {
        return Key::KeyN;
    }
    if chars_equal(&code, &chars_of("KeyO")) {
        return Key::KeyO;
    }
    if chars_equal(&code, &chars_of("KeyP")) {
        return Key::KeyP;
    }
    if chars_equal(&code, &chars_of("KeyQ")) {
        return Key::KeyQ;
    }
    if chars_equal(&code, &chars_of("KeyR")) {
        return Key::KeyR;
    }
    if chars_equal(&code, &chars_of("KeyS")) {
        return Key::KeyS;
    }
    if chars_equal(&code, &chars_of("KeyT")) {
        return Key::KeyT;
    }
    if chars_equal(&code, &chars_of("KeyU")) {
        return Key::KeyU;
    }
    if chars_equal(&code, &chars_of("KeyV")) {
        return Key::KeyV;
    }
    if chars_equal(&code, &chars_of("KeyW")) {
        return Key::KeyW;
    }
    if chars_equal(&code, &chars_of("KeyX")) {
        return Key::KeyX;
    }
    if chars_equal(&code, &chars_of("KeyY")) {
        return Key::KeyY;
    }
    if chars_equal(&code, &chars_of("KeyZ")) {
        return Key::KeyZ;
    }
    if chars_equal(&code, &chars_of("Numpad0")) {
        return Key::Num0;
    }
    if chars_equal(&code, &chars_of("Numpad1")) {
        return Key::Num1;
    }
    if chars_equal(&code, &chars_of("Numpad2")) {
        return Key::Num2;
    }
    if chars_equal(&code, &chars_of("Numpad3")) {
        return Key::Num3;
    }
    if chars_equal(&code, &chars_of("Numpad4")) {
        return Key::Num4;
    }
    if chars_equal(&code, &chars_of("Numpad5")) {
        return Key::Num5;
    }
    if chars_equal(&code, &chars_of("Numpad6")) {
        return Key::Num6;
    }
    if chars_equal(&code, &chars_of("Numpad7")) {
        return Key::Num7;
    }
    if chars_equal(&code, &chars_of("Numpad8")) {
        return Key::Num8;
    }
    if chars_equal(&code, &chars_of("Numpad9")) {
        return Key::Num9;
    }
    Key::Unknown
}

} // verus!
