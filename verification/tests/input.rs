use godot_wry::buttons::{ButtonChange, ButtonMask, MouseButton};
use godot_wry::input::{translate, EventKind, InputEvent};
use godot_wry::keys::HostKey;
use godot_wry::message::{handle_message, receive_message, MessageAction};

fn injected(action: MessageAction) -> InputEvent {
    match action {
        MessageAction::Inject(event) => event,
        MessageAction::Forward(text) => panic!("forwarded: {}", text),
    }
}

fn forwarded(action: MessageAction) -> String {
    match action {
        MessageAction::Forward(text) => text,
        MessageAction::Inject(event) => panic!("injected: {:?}", event),
    }
}

#[test]
fn mouse_down_then_up_emits_two_events_and_restores_mask() {
    let mut mask = ButtonMask::new();
    let down = handle_message(r#"{"type":"mouse_down","x":10,"y":20,"button":0}"#, &mut mask);
    assert_eq!(
        injected(down),
        InputEvent::PointerButton {
            button: MouseButton::Left,
            pressed: true,
            mask: ButtonMask { bits: 1 }
        }
    );
    assert_eq!(mask.bits, 1);
    let up = handle_message(r#"{"type":"mouse_up","x":10,"y":20,"button":0}"#, &mut mask);
    assert_eq!(
        injected(up),
        InputEvent::PointerButton {
            button: MouseButton::Left,
            pressed: false,
            mask: ButtonMask { bits: 0 }
        }
    );
    assert_eq!(mask.bits, 0);
}

#[test]
fn plain_text_is_forwarded_verbatim() {
    let mut mask = ButtonMask { bits: 5 };
    assert_eq!(forwarded(handle_message("hello", &mut mask)), "hello");
    assert_eq!(mask.bits, 5);
    assert_eq!(forwarded(handle_message("", &mut mask)), "");
    assert_eq!(forwarded(handle_message("{\"type\":", &mut mask)), "{\"type\":");
}

#[test]
fn structured_message_without_reserved_type_is_forwarded() {
    let mut mask = ButtonMask::new();
    let chat = r#"{"type":"chat","button":0}"#;
    assert_eq!(forwarded(handle_message(chat, &mut mask)), chat);
    let untyped = r#"{"button":1,"x":3}"#;
    assert_eq!(forwarded(handle_message(untyped, &mut mask)), untyped);
    let numeric = r#"{"type":7}"#;
    assert_eq!(forwarded(handle_message(numeric, &mut mask)), numeric);
    let list = r#"["mouse_down"]"#;
    assert_eq!(forwarded(handle_message(list, &mut mask)), list);
    let quoted = r#""mouse_down""#;
    assert_eq!(forwarded(handle_message(quoted, &mut mask)), quoted);
    let cased = r#"{"type":"Mouse_Down"}"#;
    assert_eq!(forwarded(handle_message(cased, &mut mask)), cased);
    assert_eq!(mask.bits, 0);
}

#[test]
fn mouse_move_is_stamped_with_the_held_buttons() {
    let mut mask = ButtonMask::new();
    handle_message(r#"{"type":"mouse_down","button":2}"#, &mut mask);
    let moved = handle_message(
        r#"{"type":"mouse_move","x":1.5,"y":2.5,"movementX":-1,"movementY":3,"button":0}"#,
        &mut mask,
    );
    assert_eq!(injected(moved), InputEvent::PointerMove { mask: ButtonMask { bits: 2 } });
    assert_eq!(mask.bits, 2);
}

#[test]
fn different_buttons_accumulate_in_the_mask() {
    let mut mask = ButtonMask::new();
    handle_message(r#"{"type":"mouse_down","button":0}"#, &mut mask);
    assert_eq!(mask.bits, 1);
    handle_message(r#"{"type":"mouse_down","button":1}"#, &mut mask);
    assert_eq!(mask.bits, 1 | 4);
    let third = handle_message(r#"{"type":"mouse_down","button":2}"#, &mut mask);
    assert_eq!(
        injected(third),
        InputEvent::PointerButton {
            button: MouseButton::Right,
            pressed: true,
            mask: ButtonMask { bits: 7 }
        }
    );
    handle_message(r#"{"type":"mouse_up","button":1}"#, &mut mask);
    assert_eq!(mask.bits, 1 | 2);
    handle_message(r#"{"type":"mouse_up","button":0}"#, &mut mask);
    assert_eq!(mask.bits, 2);
    handle_message(r#"{"type":"mouse_up","button":2}"#, &mut mask);
    assert_eq!(mask.bits, 0);
}

#[test]
fn wheel_pair_leaves_the_mask_unchanged() {
    let mut mask = ButtonMask { bits: 3 };
    let down = handle_message(r#"{"type":"mouse_down","x":0,"y":0,"button":3}"#, &mut mask);
    assert_eq!(
        injected(down),
        InputEvent::PointerButton {
            button: MouseButton::WheelUp,
            pressed: true,
            mask: ButtonMask { bits: 3 }
        }
    );
    assert_eq!(mask.bits, 3);
    let up = handle_message(r#"{"type":"mouse_up","x":0,"y":0,"button":3}"#, &mut mask);
    assert_eq!(
        injected(up),
        InputEvent::PointerButton {
            button: MouseButton::WheelUp,
            pressed: false,
            mask: ButtonMask { bits: 3 }
        }
    );
    assert_eq!(mask.bits, 3);
    handle_message(r#"{"type":"mouse_down","button":4}"#, &mut mask);
    handle_message(r#"{"type":"mouse_up","button":4}"#, &mut mask);
    assert_eq!(mask.bits, 3);
}

#[test]
fn absent_or_unrecognised_button_is_the_left_button() {
    let mut mask = ButtonMask::new();
    let absent = handle_message(r#"{"type":"mouse_down"}"#, &mut mask);
    assert_eq!(
        injected(absent),
        InputEvent::PointerButton {
            button: MouseButton::Left,
            pressed: true,
            mask: ButtonMask { bits: 1 }
        }
    );
    let mut other = ButtonMask::new();
    let odd = handle_message(r#"{"type":"mouse_down","button":9}"#, &mut other);
    assert_eq!(
        injected(odd),
        InputEvent::PointerButton {
            button: MouseButton::Left,
            pressed: true,
            mask: ButtonMask { bits: 1 }
        }
    );
    let mut third = ButtonMask::new();
    let fractional = handle_message(r#"{"type":"mouse_down","button":2.5}"#, &mut third);
    assert_eq!(
        injected(fractional),
        InputEvent::PointerButton {
            button: MouseButton::Left,
            pressed: true,
            mask: ButtonMask { bits: 1 }
        }
    );
    assert_eq!(MouseButton::from_code(-1), MouseButton::Left);
    assert_eq!(MouseButton::from_code(4294967297), MouseButton::Left);
}

#[test]
fn button_codes_and_bits() {
    assert_eq!(MouseButton::from_code(0), MouseButton::Left);
    assert_eq!(MouseButton::from_code(1), MouseButton::Middle);
    assert_eq!(MouseButton::from_code(2), MouseButton::Right);
    assert_eq!(MouseButton::from_code(3), MouseButton::WheelUp);
    assert_eq!(MouseButton::from_code(4), MouseButton::WheelDown);
    assert_eq!(MouseButton::Left.bit(), 1);
    assert_eq!(MouseButton::Right.bit(), 2);
    assert_eq!(MouseButton::Middle.bit(), 4);
    assert_eq!(MouseButton::WheelUp.bit(), 0);
    assert_eq!(MouseButton::WheelDown.bit(), 0);
}

#[test]
fn release_of_a_button_that_was_held_before_the_press_clears_it() {
    let mut mask = ButtonMask { bits: 1 };
    mask.press(MouseButton::Left);
    assert_eq!(mask.bits, 1);
    mask.release(MouseButton::Left);
    assert_eq!(mask.bits, 0);
    assert!(!mask.is_held(MouseButton::Left));
}

#[test]
fn apply_follows_the_change() {
    let mut mask = ButtonMask::new();
    mask.apply(ButtonChange { button: MouseButton::Middle, pressed: true });
    assert!(mask.is_held(MouseButton::Middle));
    assert!(!mask.is_held(MouseButton::Left));
    mask.apply(ButtonChange { button: MouseButton::WheelDown, pressed: true });
    assert!(!mask.is_held(MouseButton::WheelDown));
    assert_eq!(mask.bits, 4);
    mask.apply(ButtonChange { button: MouseButton::Middle, pressed: false });
    assert_eq!(mask, ButtonMask::new());
}

#[test]
fn key_down_and_up_carry_the_key_of_the_name() {
    let mut mask = ButtonMask { bits: 2 };
    let down = handle_message(r#"{"type":"key_down","key":"a","code":"KeyA","keyCode":65}"#, &mut mask);
    assert_eq!(injected(down), InputEvent::Key { key: HostKey::Letter('A'), pressed: true, code: 65 });
    let up = handle_message(r#"{"type":"key_up","key":"Enter","code":"Enter","keyCode":13}"#, &mut mask);
    assert_eq!(injected(up), InputEvent::Key { key: HostKey::Enter, pressed: false, code: 13 });
    assert_eq!(mask.bits, 2);
}

#[test]
fn key_event_with_absent_fields_uses_defaults() {
    let mut mask = ButtonMask::new();
    let bare = handle_message(r#"{"type":"key_down"}"#, &mut mask);
    assert_eq!(injected(bare), InputEvent::Key { key: HostKey::Unknown, pressed: true, code: 0 });
    let odd = handle_message(r#"{"type":"key_up","key":12,"keyCode":"x"}"#, &mut mask);
    assert_eq!(injected(odd), InputEvent::Key { key: HostKey::Unknown, pressed: false, code: 0 });
}

#[test]
fn key_table() {
    assert_eq!(HostKey::from_name("a"), HostKey::Letter('A'));
    assert_eq!(HostKey::from_name("A"), HostKey::Letter('A'));
    assert_eq!(HostKey::from_name("z"), HostKey::Letter('Z'));
    assert_eq!(HostKey::from_name("Z"), HostKey::Letter('Z'));
    assert_eq!(HostKey::from_name("m"), HostKey::Letter('M'));
    assert_eq!(HostKey::from_name("0"), HostKey::Digit('0'));
    assert_eq!(HostKey::from_name("9"), HostKey::Digit('9'));
    assert_eq!(HostKey::from_name("ArrowUp"), HostKey::Up);
    assert_eq!(HostKey::from_name("ArrowDown"), HostKey::Down);
    assert_eq!(HostKey::from_name("ArrowLeft"), HostKey::Left);
    assert_eq!(HostKey::from_name("ArrowRight"), HostKey::Right);
    assert_eq!(HostKey::from_name("Enter"), HostKey::Enter);
    assert_eq!(HostKey::from_name("Escape"), HostKey::Escape);
    assert_eq!(HostKey::from_name("Backspace"), HostKey::Backspace);
    assert_eq!(HostKey::from_name("Tab"), HostKey::Tab);
    assert_eq!(HostKey::from_name("Space"), HostKey::Space);
    assert_eq!(HostKey::from_name(" "), HostKey::Space);
    assert_eq!(HostKey::from_name("Shift"), HostKey::Shift);
    assert_eq!(HostKey::from_name("Control"), HostKey::Control);
    assert_eq!(HostKey::from_name("Alt"), HostKey::Alt);
}

#[test]
fn unknown_key_names_give_no_key() {
    assert_eq!(HostKey::from_name(""), HostKey::Unknown);
    assert_eq!(HostKey::from_name("F1"), HostKey::Unknown);
    assert_eq!(HostKey::from_name("enter"), HostKey::Unknown);
    assert_eq!(HostKey::from_name("ab"), HostKey::Unknown);
    assert_eq!(HostKey::from_name("\u{e9}"), HostKey::Unknown);
    assert_eq!(HostKey::from_name("@"), HostKey::Unknown);
    assert_eq!(HostKey::from_name("["), HostKey::Unknown);
    assert_eq!(HostKey::from_name("`"), HostKey::Unknown);
    assert_eq!(HostKey::from_name("{"), HostKey::Unknown);
    assert_eq!(HostKey::from_name("/"), HostKey::Unknown);
    assert_eq!(HostKey::from_name(":"), HostKey::Unknown);
    assert_eq!(HostKey::from_char('a'), HostKey::Letter('A'));
    assert_eq!(HostKey::from_char('5'), HostKey::Digit('5'));
    assert_eq!(HostKey::from_char(' '), HostKey::Unknown);
}

#[test]
fn event_kinds_by_name() {
    assert_eq!(EventKind::from_name("mouse_move"), Some(EventKind::MouseMove));
    assert_eq!(EventKind::from_name("mouse_down"), Some(EventKind::MouseDown));
    assert_eq!(EventKind::from_name("mouse_up"), Some(EventKind::MouseUp));
    assert_eq!(EventKind::from_name("key_down"), Some(EventKind::KeyDown));
    assert_eq!(EventKind::from_name("key_up"), Some(EventKind::KeyUp));
    assert_eq!(EventKind::from_name("wheel"), None);
    assert_eq!(EventKind::from_name(""), None);
    assert_eq!(EventKind::from_name("mouse_down "), None);
}

#[test]
fn translate_on_given_fields() {
    let mut mask = ButtonMask { bits: 4 };
    let event = translate(EventKind::MouseDown, Some(2), None, None, &mut mask);
    assert_eq!(
        event,
        InputEvent::PointerButton {
            button: MouseButton::Right,
            pressed: true,
            mask: ButtonMask { bits: 6 }
        }
    );
    assert_eq!(mask.bits, 6);
    let key = translate(EventKind::KeyUp, Some(1), Some("Tab"), Some(9), &mut mask);
    assert_eq!(key, InputEvent::Key { key: HostKey::Tab, pressed: false, code: 9 });
    assert_eq!(mask.bits, 6);
    let moved = translate(EventKind::MouseMove, Some(1), Some("a"), None, &mut mask);
    assert_eq!(moved, InputEvent::PointerMove { mask: ButtonMask { bits: 6 } });
}

#[test]
fn without_a_viewport_every_message_is_forwarded() {
    let mut mask = ButtonMask { bits: 2 };
    let down = r#"{"type":"mouse_down","x":1,"y":2,"button":0}"#;
    assert_eq!(forwarded(receive_message(down, false, &mut mask)), down);
    assert_eq!(mask.bits, 2);
    let key = r#"{"type":"key_down","key":"a","keyCode":65}"#;
    assert_eq!(forwarded(receive_message(key, false, &mut mask)), key);
    assert_eq!(forwarded(receive_message("hello", false, &mut mask)), "hello");
    assert_eq!(mask.bits, 2);
}

#[test]
fn with_a_viewport_envelopes_are_consumed() {
    let mut mask = ButtonMask::new();
    let down = r#"{"type":"mouse_down","x":1,"y":2,"button":1}"#;
    assert_eq!(
        injected(receive_message(down, true, &mut mask)),
        InputEvent::PointerButton {
            button: MouseButton::Middle,
            pressed: true,
            mask: ButtonMask { bits: 4 }
        }
    );
    assert_eq!(mask.bits, 4);
    assert_eq!(forwarded(receive_message("hello", true, &mut mask)), "hello");
    assert_eq!(mask.bits, 4);
}
