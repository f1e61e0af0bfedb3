//! Handling of plain messages posted by web content: a message is either
//! an input envelope, which is consumed and turned into a host event, or
//! an ordinary message, which is handed to the host untouched.

use crate::buttons::{
    lemma_press_release_restores, lemma_wheel_leaves_mask, ButtonChange, ButtonMask, MouseButton,
};
use crate::input::{button_of, kind_of, mask_after, translate, translated, EventKind, InputEvent};
use crate::text::text_of_owned;
use vstd::prelude::*;

verus! {

/// The member `name` of the JSON object that `body` spells, as the string
/// it holds, if it is a string, and the integer it holds, if it is an
/// integer that fits in 64 signed bits. `None` when `body` is not JSON, is
/// not an object, or has no such member.
pub uninterp spec fn json_member(body: Seq<char>, name: Seq<char>) -> Option<
    (Option<Seq<char>>, Option<i64>),
>;

/// The string held by member `name` of the JSON object that `body` spells.
pub open spec fn json_text_field(body: Seq<char>, name: Seq<char>) -> Option<Seq<char>> {
    match json_member(body, name) {
        Some(member) => member.0,
        None => None,
    }
}

/// The integer held by member `name` of the JSON object that `body`
/// spells.
pub open spec fn json_int_field(body: Seq<char>, name: Seq<char>) -> Option<i64> {
    match json_member(body, name) {
        Some(member) => member.1,
        None => None,
    }
}

/// A member as plain values.
pub open spec fn member_view(member: Option<(Option<String>, Option<i64>)>) -> Option<
    (Option<Seq<char>>, Option<i64>),
> {
    match member {
        Some(found) => Some((text_of_owned(found.0), found.1)),
        None => None,
    }
}

/// Parses `body` with `serde_json::from_str` into a `serde_json::Value`,
/// looks `name` up with `Value::get` and reads the member with
/// `Value::as_str` and `Value::as_i64`. A body that does not parse and a
/// value without such a member give `None`. The result depends on the two
/// texts alone; the contract names it and claims nothing else.
#[verifier::external_body]
fn read_member(body: &str, name: &str) -> (member: Option<(Option<String>, Option<i64>)>)
    ensures
        member_view(member) == json_member(body@, name@),
{
    let value: serde_json::Value = serde_json::from_str(body).ok()?;
    let member = value.get(name)?;
    Some((member.as_str().map(String::from), member.as_i64()))
}

/// The string in a member of a message.
fn read_text_field(body: &str, name: &str) -> (field: Option<String>)
    ensures
        text_of_owned(field) == json_text_field(body@, name@),
{
    match read_member(body, name) {
        Some(member) => member.0,
        None => None,
    }
}

/// The integer in a member of a message.
fn read_int_field(body: &str, name: &str) -> (field: Option<i64>)
    ensures
        field == json_int_field(body@, name@),
{
    match read_member(body, name) {
        Some(member) => member.1,
        None => None,
    }
}

/// What to do with a message.
#[derive(Debug)]
pub enum MessageAction {
    /// The message was an input envelope: deliver this event to the host's
    /// input pipeline and do not report the message.
    Inject(InputEvent),
    /// The message is an ordinary one: report this text, which is the
    /// message itself, to the host.
    Forward(String),
}

/// The kind of envelope that a message is, if it is one: its `type` member
/// must be a string that names a reserved kind.
pub open spec fn message_kind(body: Seq<char>) -> Option<EventKind> {
    match json_text_field(body, "type"@) {
        Some(name) => kind_of(name),
        None => None,
    }
}

/// The host event for a message that is an envelope.
pub open spec fn message_event(body: Seq<char>, mask: ButtonMask) -> Option<InputEvent> {
    match message_kind(body) {
        Some(kind) => Some(
            translated(
                kind,
                json_int_field(body, "button"@),
                json_text_field(body, "key"@),
                json_int_field(body, "keyCode"@),
                mask,
            ),
        ),
        None => None,
    }
}

/// The button that a message names in its `button` member.
pub open spec fn message_button(body: Seq<char>) -> MouseButton {
    button_of(json_int_field(body, "button"@))
}

/// The register of held buttons after a message.
pub open spec fn message_mask(body: Seq<char>, mask: ButtonMask) -> ButtonMask {
    match message_kind(body) {
        Some(kind) => mask_after(kind, json_int_field(body, "button"@), mask),
        None => mask,
    }
}

/// Classifies one plain message and, if it is an input envelope, turns it
/// into its host event.
///
/// A body that does not parse, or parses to something without a reserved
/// `type`, is never an error: it is an ordinary message and comes back
/// unchanged for the host.
pub fn handle_message(body: &str, mask: &mut ButtonMask) -> (action: MessageAction)
    ensures
        match message_event(body@, *old(mask)) {
            Some(event) => action == MessageAction::Inject(event),
            None => action matches MessageAction::Forward(text) && text@ == body@,
        },
        *final(mask) == message_mask(body@, *old(mask)),
{
    let kind_name = read_text_field(body, "type");
    let kind = match &kind_name {
        Some(name) => EventKind::from_name(name.as_str()),
        None => None,
    };
    match kind {
        None => MessageAction::Forward(body.to_owned()),
        Some(kind) => {
            let button = match kind {
                EventKind::MouseDown | EventKind::MouseUp => read_int_field(body, "button"),
                _ => None,
            };
            let key = match kind {
                EventKind::KeyDown | EventKind::KeyUp => read_text_field(body, "key"),
                _ => None,
            };
            let key_code = match kind {
                EventKind::KeyDown | EventKind::KeyUp => read_int_field(body, "keyCode"),
                _ => None,
            };
            let key_name: Option<&str> = match &key {
                Some(name) => Some(name.as_str()),
                None => None,
            };
            MessageAction::Inject(translate(kind, button, key_name, key_code, mask))
        },
    }
}

/// Classifies one plain message for a host that may not be able to take
/// input. While the host node has no viewport, no message is consumed:
/// every message is an ordinary one and the register of held buttons
/// stays as it is. With a viewport this is `handle_message`.
pub fn receive_message(body: &str, has_viewport: bool, mask: &mut ButtonMask) -> (action:
    MessageAction)
    ensures
        has_viewport ==> match message_event(body@, *old(mask)) {
            Some(event) => action == MessageAction::Inject(event),
            None => action matches MessageAction::Forward(text) && text@ == body@,
        },
        has_viewport ==> *final(mask) == message_mask(body@, *old(mask)),
        !has_viewport ==> (action matches MessageAction::Forward(text) && text@ == body@),
        !has_viewport ==> *final(mask) == *old(mask),
{
    if has_viewport {
        handle_message(body, mask)
    } else {
        MessageAction::Forward(body.to_owned())
    }
}

/// A press message for a button that was not held, followed by a release
/// message for the same button, leaves the register of held buttons as it
/// was before the press.
pub proof fn lemma_down_up_restores_mask(down: Seq<char>, up: Seq<char>, mask: ButtonMask)
    ensures
        ({
            &&& message_kind(down) == Some(EventKind::MouseDown)
            &&& message_kind(up) == Some(EventKind::MouseUp)
            &&& message_button(down) == message_button(up)
            &&& !mask.holds(message_button(down))
        }) ==> message_mask(up, message_mask(down, mask)) == mask,
{
    if !mask.holds(message_button(down)) {
        lemma_press_release_restores(mask, message_button(down));
    }
}

/// The press and release messages of one wheel step leave the register of
/// held buttons as it was, whatever it held, and so does each of the two
/// alone.
pub proof fn lemma_wheel_messages_leave_mask(down: Seq<char>, up: Seq<char>, mask: ButtonMask)
    ensures
        ({
            &&& message_kind(down) == Some(EventKind::MouseDown)
            &&& message_kind(up) == Some(EventKind::MouseUp)
            &&& message_button(down) == message_button(up)
            &&& message_button(down).is_wheel()
        }) ==> message_mask(down, mask) == mask && message_mask(up, message_mask(down, mask))
            == mask,
{
    let button = message_button(down);
    if button.is_wheel() {
        lemma_wheel_leaves_mask(mask, ButtonChange { button, pressed: true });
        lemma_wheel_leaves_mask(mask, ButtonChange { button, pressed: false });
    }
}

/// A message that is not an input envelope never touches the register of
/// held buttons and yields no host event.
pub proof fn lemma_ordinary_message_is_inert(body: Seq<char>, mask: ButtonMask)
    ensures
        message_kind(body) is None ==> message_event(body, mask) is None && message_mask(body, mask)
            == mask,
{
}

} // verus!
