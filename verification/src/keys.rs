//! The table from the symbolic key names used by web content to the keys
//! the host understands.

use crate::text::{chars_of, same_text};
use vstd::prelude::*;

verus! {

/// A key of the host. Letters are held in upper case, whatever the case of
/// the name they came from.
#[derive(Clone, Copy, Debug, PartialEq, Eq, Structural)]
pub enum HostKey {
    /// No key: the name is not in the table.
    Unknown,
    /// One of `'A'` to `'Z'`.
    Letter(char),
    /// One of `'0'` to `'9'`.
    Digit(char),
    Up,
    Down,
    Left,
    Right,
    Enter,
    Escape,
    Backspace,
    Tab,
    Space,
    Shift,
    Control,
    Alt,
}

pub open spec fn is_lower_letter(c: char) -> bool {
    'a' as u32 <= c as u32 <= 'z' as u32
}

pub open spec fn is_upper_letter(c: char) -> bool {
    'A' as u32 <= c as u32 <= 'Z' as u32
}

pub open spec fn is_digit(c: char) -> bool {
    '0' as u32 <= c as u32 <= '9' as u32
}

/// The upper-case form of a lower-case ASCII letter.
pub open spec fn upper_of(c: char) -> char {
    ((c as u32) - 32) as char
}

/// The key that a name of one letter or digit stands for, in either case
/// of the letter; `HostKey::Unknown` for every other character.
pub open spec fn key_of_char(c: char) -> HostKey {
    if is_lower_letter(c) {
        HostKey::Letter(upper_of(c))
    } else if is_upper_letter(c) {
        HostKey::Letter(c)
    } else if is_digit(c) {
        HostKey::Digit(c)
    } else {
        HostKey::Unknown
    }
}

/// The key that a symbolic name stands for.
pub open spec fn key_of(name: Seq<char>) -> HostKey {
    if name.len() == 1 && key_of_char(name[0]) != HostKey::Unknown {
        key_of_char(name[0])
    } else if name == "ArrowUp"@ {
        HostKey::Up
    } else if name == "ArrowDown"@ {
        HostKey::Down
    } else if name == "ArrowLeft"@ {
        HostKey::Left
    } else if name == "ArrowRight"@ {
        HostKey::Right
    } else if name == "Enter"@ {
        HostKey::Enter
    } else if name == "Escape"@ {
        HostKey::Escape
    } else if name == "Backspace"@ {
        HostKey::Backspace
    } else if name == "Tab"@ {
        HostKey::Tab
    } else if name == "Space"@ || name == " "@ {
        HostKey::Space
    } else if name == "Shift"@ {
        HostKey::Shift
    } else if name == "Control"@ {
        HostKey::Control
    } else if name == "Alt"@ {
        HostKey::Alt
    } else {
        HostKey::Unknown
    }
}

impl HostKey {
    /// A key is well formed when a letter is an upper-case letter and a
    /// digit is a digit.
    pub open spec fn wf(self) -> bool {
        match self {
            HostKey::Letter(c) => is_upper_letter(c),
            HostKey::Digit(c) => is_digit(c),
            _ => true,
        }
    }

    /// The key of a name that is a single character.
    pub fn from_char(c: char) -> (key: HostKey)
        ensures
            key == key_of_char(c),
            key.wf(),
    {
        let code: u32 = c as u32;
        if 'a' as u32 <= code && code <= 'z' as u32 {
            let upper: char = ((c as u8) - 32) as char;
            HostKey::Letter(upper)
        } else if 'A' as u32 <= code && code <= 'Z' as u32 {
            HostKey::Letter(c)
        } else if '0' as u32 <= code && code <= '9' as u32 {
            HostKey::Digit(c)
        } else {
            HostKey::Unknown
        }
    }

    /// Looks a symbolic name up in the table. A name that is not in it
    /// gives `HostKey::Unknown`; no name is an error.
    pub fn from_name(name: &str) -> (key: HostKey)
        ensures
            key == key_of(name@),
            key.wf(),
    {
        let chars = chars_of(name);
        if chars.len() == 1 {
            let key = Self::from_char(chars[0]);
            match key {
                HostKey::Unknown => {},
                _ => {
                    return key;
                },
            }
        }
        if same_text(name, "ArrowUp") {
            HostKey::Up
        } else if same_text(name, "ArrowDown") {
            HostKey::Down
        } else if same_text(name, "ArrowLeft") {
            HostKey::Left
        } else if same_text(name, "ArrowRight") {
            HostKey::Right
        } else if same_text(name, "Enter") {
            HostKey::Enter
        } else if same_text(name, "Escape") {
            HostKey::Escape
        } else if same_text(name, "Backspace") {
            HostKey::Backspace
        } else if same_text(name, "Tab") {
            HostKey::Tab
        } else if same_text(name, "Space") || same_text(name, " ") {
            HostKey::Space
        } else if same_text(name, "Shift") {
            HostKey::Shift
        } else if same_text(name, "Control") {
            HostKey::Control
        } else if same_text(name, "Alt") {
            HostKey::Alt
        } else {
            HostKey::Unknown
        }
    }
}

} // verus!
