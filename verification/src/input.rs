//! Turning the structured envelopes that web content posts for
//! pointer and keyboard activity into events for the host.
//!
//! An envelope is a JSON object with a `type` member naming one of the
//! reserved kinds below and further members that depend on the kind. A
//! message that is no such envelope is an ordinary message for the host.
//! Pointer coordinates are not read here: they do not influence any
//! decision and are attached by the caller that delivers the event.

use crate::buttons::{ButtonMask, MouseButton};
use crate::keys::{key_of, HostKey};
use crate::text::{same_text, text_of_option};
use vstd::prelude::*;

verus! {

/// The reserved kinds of envelope.
#[derive(Clone, Copy, Debug, PartialEq, Eq, Structural)]
pub enum EventKind {
    MouseMove,
    MouseDown,
    MouseUp,
    KeyDown,
    KeyUp,
}

/// The kind that a `type` member names, if it names one.
pub open spec fn kind_of(name: Seq<char>) -> Option<EventKind> {
    if name == "mouse_move"@ {
        Some(EventKind::MouseMove)
    } else if name == "mouse_down"@ {
        Some(EventKind::MouseDown)
    } else if name == "mouse_up"@ {
        Some(EventKind::MouseUp)
    } else if name == "key_down"@ {
        Some(EventKind::KeyDown)
    } else if name == "key_up"@ {
        Some(EventKind::KeyUp)
    } else {
        None
    }
}

impl EventKind {
    pub fn from_name(name: &str) -> (kind: Option<EventKind>)
        ensures
            kind == kind_of(name@),
    {
        if same_text(name, "mouse_move") {
            Some(EventKind::MouseMove)
        } else if same_text(name, "mouse_down") {
            Some(EventKind::MouseDown)
        } else if same_text(name, "mouse_up") {
            Some(EventKind::MouseUp)
        } else if same_text(name, "key_down") {
            Some(EventKind::KeyDown)
        } else if same_text(name, "key_up") {
            Some(EventKind::KeyUp)
        } else {
            None
        }
    }

    /// Whether events of this kind report something as pressed.
    pub open spec fn presses(self) -> bool {
        self == EventKind::MouseDown || self == EventKind::KeyDown
    }
}

/// An event for the host. Pointer events are stamped with the register of
/// held buttons as it stands once the event has been applied. Pointer
/// events go to the viewport's input queue, key events to the host's input
/// parser.
#[derive(Clone, Copy, Debug, PartialEq, Eq, Structural)]
pub enum InputEvent {
    PointerMove { mask: ButtonMask },
    PointerButton { button: MouseButton, pressed: bool, mask: ButtonMask },
    Key { key: HostKey, pressed: bool, code: i64 },
}

/// The button of an envelope: an absent `button` member counts as 0.
pub open spec fn button_of(code: Option<i64>) -> MouseButton {
    MouseButton::of_code(
        match code {
            Some(c) => c,
            None => 0,
        },
    )
}

/// The register of held buttons after an envelope of the given kind.
pub open spec fn mask_after(kind: EventKind, button: Option<i64>, mask: ButtonMask) -> ButtonMask {
    match kind {
        EventKind::MouseDown => mask.pressed(button_of(button)),
        EventKind::MouseUp => mask.released(button_of(button)),
        _ => mask,
    }
}

/// The host event that an envelope stands for. `button`, `key` and
/// `key_code` are the envelope's members of those names where present:
/// an absent number counts as 0 and an absent key name as the empty name.
pub open spec fn translated(
    kind: EventKind,
    button: Option<i64>,
    key: Option<Seq<char>>,
    key_code: Option<i64>,
    mask: ButtonMask,
) -> InputEvent {
    match kind {
        EventKind::MouseMove => InputEvent::PointerMove { mask },
        EventKind::MouseDown | EventKind::MouseUp => InputEvent::PointerButton {
            button: button_of(button),
            pressed: kind.presses(),
            mask: mask_after(kind, button, mask),
        },
        EventKind::KeyDown | EventKind::KeyUp => InputEvent::Key {
            key: key_of(
                match key {
                    Some(name) => name,
                    None => Seq::empty(),
                },
            ),
            pressed: kind.presses(),
            code: match key_code {
                Some(c) => c,
                None => 0,
            },
        },
    }
}

/// Turns one envelope into its host event and updates the register of
/// held buttons.
pub fn translate(
    kind: EventKind,
    button: Option<i64>,
    key: Option<&str>,
    key_code: Option<i64>,
    mask: &mut ButtonMask,
) -> (event: InputEvent)
    ensures
        event == translated(kind, button, text_of_option(key), key_code, *old(mask)),
        *final(mask) == mask_after(kind, button, *old(mask)),
{
    proof {
        reveal_strlit("");
        assert(""@ =~= Seq::<char>::empty());
    }
    match kind {
        EventKind::MouseMove => InputEvent::PointerMove { mask: *mask },
        EventKind::MouseDown => {
            let pressed_button = MouseButton::from_code(button.unwrap_or(0));
            mask.press(pressed_button);
            InputEvent::PointerButton { button: pressed_button, pressed: true, mask: *mask }
        },
        EventKind::MouseUp => {
            let released_button = MouseButton::from_code(button.unwrap_or(0));
            mask.release(released_button);
            InputEvent::PointerButton { button: released_button, pressed: false, mask: *mask }
        },
        EventKind::KeyDown => InputEvent::Key {
            key: HostKey::from_name(key.unwrap_or("")),
            pressed: true,
            code: key_code.unwrap_or(0),
        },
        EventKind::KeyUp => InputEvent::Key {
            key: HostKey::from_name(key.unwrap_or("")),
            pressed: false,
            code: key_code.unwrap_or(0),
        },
    }
}

} // verus!
