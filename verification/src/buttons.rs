//! Pointer buttons and the register of buttons currently held.
//!
//! The register is a bitmask with one bit for each of the left, right and
//! middle buttons. Wheel steps are reported as a press immediately followed
//! by a release and own no bit, so they can never remain in the register.

use vstd::prelude::*;

verus! {

/// A pointer button as reported by the web content.
#[derive(Clone, Copy, Debug, PartialEq, Eq, Structural)]
pub enum MouseButton {
    Left,
    Middle,
    Right,
    WheelUp,
    WheelDown,
}

impl MouseButton {
    /// The button named by a numeric code: 0 left, 1 middle, 2 right,
    /// 3 wheel up, 4 wheel down. Every other code means the left button.
    pub open spec fn of_code(code: i64) -> MouseButton {
        if code == 1 {
            MouseButton::Middle
        } else if code == 2 {
            MouseButton::Right
        } else if code == 3 {
            MouseButton::WheelUp
        } else if code == 4 {
            MouseButton::WheelDown
        } else {
            MouseButton::Left
        }
    }

    pub fn from_code(code: i64) -> (button: MouseButton)
        ensures
            button == Self::of_code(code),
    {
        if code == 1 {
            MouseButton::Middle
        } else if code == 2 {
            MouseButton::Right
        } else if code == 3 {
            MouseButton::WheelUp
        } else if code == 4 {
            MouseButton::WheelDown
        } else {
            MouseButton::Left
        }
    }

    pub open spec fn is_wheel(self) -> bool {
        self == MouseButton::WheelUp || self == MouseButton::WheelDown
    }

    /// The bit this button owns in the register; zero for the wheel.
    pub open spec fn mask_bit(self) -> u32 {
        match self {
            MouseButton::Left => 1,
            MouseButton::Right => 2,
            MouseButton::Middle => 4,
            MouseButton::WheelUp => 0,
            MouseButton::WheelDown => 0,
        }
    }

    pub fn bit(self) -> (bit: u32)
        ensures
            bit == self.mask_bit(),
    {
        match self {
            MouseButton::Left => 1,
            MouseButton::Right => 2,
            MouseButton::Middle => 4,
            MouseButton::WheelUp => 0,
            MouseButton::WheelDown => 0,
        }
    }
}

/// The register of held buttons.
#[derive(Clone, Copy, Debug, PartialEq, Eq, Structural)]
pub struct ButtonMask {
    pub bits: u32,
}

/// One press or release of a button.
#[derive(Clone, Copy, Debug, PartialEq, Eq, Structural)]
pub struct ButtonChange {
    pub button: MouseButton,
    pub pressed: bool,
}

impl ButtonMask {
    pub open spec fn empty() -> ButtonMask {
        ButtonMask { bits: 0 }
    }

    /// Whether the register records `button` as held. Never true of a wheel.
    pub open spec fn holds(self, button: MouseButton) -> bool {
        self.bits & button.mask_bit() != 0
    }

    pub open spec fn pressed(self, button: MouseButton) -> ButtonMask {
        ButtonMask { bits: self.bits | button.mask_bit() }
    }

    pub open spec fn released(self, button: MouseButton) -> ButtonMask {
        ButtonMask { bits: self.bits & !button.mask_bit() }
    }

    /// The register after one press or release.
    pub open spec fn after(self, change: ButtonChange) -> ButtonMask {
        if change.pressed {
            self.pressed(change.button)
        } else {
            self.released(change.button)
        }
    }

    /// The register after a run of presses and releases, oldest first.
    pub open spec fn replay(self, changes: Seq<ButtonChange>) -> ButtonMask
        decreases changes.len(),
    {
        if changes.len() == 0 {
            self
        } else {
            self.replay(changes.drop_last()).after(changes.last())
        }
    }

    pub fn new() -> (mask: ButtonMask)
        ensures
            mask == Self::empty(),
    {
        ButtonMask { bits: 0 }
    }

    pub fn is_held(&self, button: MouseButton) -> (held: bool)
        ensures
            held == self.holds(button),
    {
        self.bits & button.bit() != 0
    }

    pub fn press(&mut self, button: MouseButton)
        ensures
            *final(self) == old(self).pressed(button),
    {
        self.bits = self.bits | button.bit();
    }

    pub fn release(&mut self, button: MouseButton)
        ensures
            *final(self) == old(self).released(button),
    {
        self.bits = self.bits & !button.bit();
    }

    pub fn apply(&mut self, change: ButtonChange)
        ensures
            *final(self) == old(self).after(change),
    {
        if change.pressed {
            self.press(change.button);
        } else {
            self.release(change.button);
        }
    }
}

/// Whether `button` is held after a run of presses and releases, oldest
/// first, given whether it was held before: the most recent change that
/// names the button decides, and without one nothing has changed.
pub open spec fn held_after(initially: bool, changes: Seq<ButtonChange>, button: MouseButton) -> bool
    decreases changes.len(),
{
    if changes.len() == 0 {
        initially
    } else if changes.last().button == button {
        changes.last().pressed
    } else {
        held_after(initially, changes.drop_last(), button)
    }
}

/// The bit of `button` if `held`, else nothing.
pub open spec fn bit_if(held: bool, button: MouseButton) -> u32 {
    if held {
        button.mask_bit()
    } else {
        0
    }
}

/// Pressing a button that was not held and then releasing it leaves the
/// register exactly as it was before the press.
pub proof fn lemma_press_release_restores(mask: ButtonMask, button: MouseButton)
    requires
        !mask.holds(button),
    ensures
        mask.pressed(button).released(button) == mask,
{
    let m = mask.bits;
    let b = button.mask_bit();
    assert(m & b == 0 ==> (m | b) & !b == m) by (bit_vector);
}

/// A press followed by a release of the same button always ends with the
/// button not held, and changes no other button.
pub proof fn lemma_press_release_clears(mask: ButtonMask, button: MouseButton)
    ensures
        mask.pressed(button).released(button) == mask.released(button),
        !mask.pressed(button).released(button).holds(button),
{
    let m = mask.bits;
    let b = button.mask_bit();
    assert((m | b) & !b == m & !b) by (bit_vector);
    assert((m & !b) & b == 0) by (bit_vector);
}

/// A wheel step, pressed or released, never alters the register.
pub proof fn lemma_wheel_leaves_mask(mask: ButtonMask, change: ButtonChange)
    requires
        change.button.is_wheel(),
    ensures
        mask.after(change) == mask,
        !mask.holds(change.button),
{
    let m = mask.bits;
    assert(m | 0 == m) by (bit_vector);
    assert(m & !0u32 == m) by (bit_vector);
    assert(m & 0 == 0) by (bit_vector);
}

/// The press and release that report one wheel step leave the register as
/// it was before the pair.
pub proof fn lemma_wheel_pair_leaves_mask(mask: ButtonMask, button: MouseButton)
    requires
        button.is_wheel(),
    ensures
        mask.pressed(button).released(button) == mask,
{
    lemma_wheel_leaves_mask(mask, ButtonChange { button, pressed: true });
    lemma_wheel_leaves_mask(mask, ButtonChange { button, pressed: false });
}

/// One change sets or clears the bit of its own button and leaves every
/// other button as it was.
pub proof fn lemma_change_touches_one_button(
    mask: ButtonMask,
    change: ButtonChange,
    button: MouseButton,
)
    requires
        !button.is_wheel(),
    ensures
        mask.after(change).holds(button) == if change.button == button {
            change.pressed
        } else {
            mask.holds(button)
        },
{
    let m = mask.bits;
    let c = change.button.mask_bit();
    let b = button.mask_bit();
    assert((b == 1 || b == 2 || b == 4) && (c == 0 || c == 1 || c == 2 || c == 4) ==> {
        &&& (c == b ==> (m | c) & b != 0)
        &&& (c == b ==> (m & !c) & b == 0)
        &&& (c != b ==> (m | c) & b == m & b)
        &&& (c != b ==> (m & !c) & b == m & b)
    }) by (bit_vector);
}

/// Presses of different buttons accumulate: after both, the register is
/// the bitwise OR of what it held and the two buttons' bits, in either
/// order.
pub proof fn lemma_presses_accumulate(mask: ButtonMask, first: MouseButton, second: MouseButton)
    ensures
        mask.pressed(first).pressed(second).bits == mask.bits | first.mask_bit()
            | second.mask_bit(),
        mask.pressed(first).pressed(second) == mask.pressed(second).pressed(first),
{
    let m = mask.bits;
    let a = first.mask_bit();
    let b = second.mask_bit();
    assert((m | a) | b == (m | b) | a) by (bit_vector);
}

/// After any run of presses and releases, each button is held exactly when
/// the most recent change naming it was a press (or, with no such change,
/// when it was held at the start).
pub proof fn lemma_replay_tracks_last_change(
    start: ButtonMask,
    changes: Seq<ButtonChange>,
    button: MouseButton,
)
    requires
        !button.is_wheel(),
    ensures
        start.replay(changes).holds(button) == held_after(start.holds(button), changes, button),
    decreases changes.len(),
{
    if changes.len() > 0 {
        lemma_replay_tracks_last_change(start, changes.drop_last(), button);
        lemma_change_touches_one_button(start.replay(changes.drop_last()), changes.last(), button);
    }
}

/// Starting from an empty register, the register is at every moment the
/// bitwise OR of the bits of the buttons currently held.
pub proof fn lemma_replay_is_or_of_held(changes: Seq<ButtonChange>)
    ensures
        ButtonMask::empty().replay(changes).bits == bit_if(
            held_after(false, changes, MouseButton::Left),
            MouseButton::Left,
        ) | bit_if(held_after(false, changes, MouseButton::Right), MouseButton::Right) | bit_if(
            held_after(false, changes, MouseButton::Middle),
            MouseButton::Middle,
        ),
{
    let end = ButtonMask::empty().replay(changes);
    lemma_replay_stays_in_range(changes);
    lemma_replay_tracks_last_change(ButtonMask::empty(), changes, MouseButton::Left);
    lemma_replay_tracks_last_change(ButtonMask::empty(), changes, MouseButton::Right);
    lemma_replay_tracks_last_change(ButtonMask::empty(), changes, MouseButton::Middle);
    let m = end.bits;
    assert(0u32 & 1 == 0 && 0u32 & 2 == 0 && 0u32 & 4 == 0) by (bit_vector);
    assert(m & !7u32 == 0 ==> m == (if m & 1 != 0 { 1u32 } else { 0 }) | (if m & 2 != 0 { 2u32 } else { 0 })
        | (if m & 4 != 0 { 4u32 } else { 0 })) by (bit_vector);
}

proof fn lemma_replay_stays_in_range(changes: Seq<ButtonChange>)
    ensures
        ButtonMask::empty().replay(changes).bits & !7u32 == 0,
    decreases changes.len(),
{
    if changes.len() == 0 {
        assert(0u32 & !7u32 == 0) by (bit_vector);
    } else {
        lemma_replay_stays_in_range(changes.drop_last());
        let m = ButtonMask::empty().replay(changes.drop_last()).bits;
        let c = changes.last().button.mask_bit();
        assert(m & !7u32 == 0 && (c == 0 || c == 1 || c == 2 || c == 4) ==> (m | c) & !7u32 == 0 && (m
            & !c) & !7u32 == 0) by (bit_vector);
    }
}

} // verus!
