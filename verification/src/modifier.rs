//! Shift tracking: how many Shift keys are held.
//!
//! The state is a count rather than a flag, so that the two Shift keys may
//! overlap: with both held, both must be released before the count is back at
//! zero. The count never goes below zero: a release that meets no held key is
//! dropped, as happens when listening begins while a key is down. A press whose
//! release never arrives leaves the count raised for good; nothing here tries to
//! guess that this happened.

use vstd::prelude::*;

verus! {

/// The code of the left Shift key.
pub const KEY_LEFTSHIFT: u16 = 42;

/// The code of the right Shift key.
pub const KEY_RIGHTSHIFT: u16 = 54;

/// The highest count that a [`ModifierState`] holds; presses beyond it are not
/// counted.
pub const DEPTH_MAX: u16 = 0xffff;

/// Whether `key` is the code of one of the two Shift keys.
pub open spec fn is_shift_code(key: u16) -> bool {
    key == KEY_LEFTSHIFT || key == KEY_RIGHTSHIFT
}

/// The count after key `code` went down at count `depth`: one more for a Shift
/// key, up to [`DEPTH_MAX`]; unchanged for any other key.
pub open spec fn pressed(depth: nat, code: u16) -> nat {
    if is_shift_code(code) && depth < DEPTH_MAX {
        depth + 1
    } else {
        depth
    }
}

/// The count after key `code` went up at count `depth`: one less for a Shift
/// key, but never below zero; unchanged for any other key.
pub open spec fn released(depth: nat, code: u16) -> nat {
    if is_shift_code(code) && depth > 0 {
        (depth - 1) as nat
    } else {
        depth
    }
}

/// Tells whether `key` is the code of a Shift key, left or right.
pub fn is_shift(key: u16) -> (shift: bool)
    ensures
        shift == is_shift_code(key),
{
    KEY_RIGHTSHIFT == key || KEY_LEFTSHIFT == key
}

/// The number of Shift keys that are held. Its view is that number.
#[derive(Debug, Clone, Copy, PartialEq, Eq, Structural)]
pub struct ModifierState {
    shift_depth: u16,
}

impl View for ModifierState {
    type V = nat;

    closed spec fn view(&self) -> nat {
        self.shift_depth as nat
    }
}

impl ModifierState {
    /// The state in which no Shift key is held.
    pub fn new() -> (state: Self)
        ensures
            state@ == 0,
    {
        ModifierState { shift_depth: 0 }
    }

    /// The number of Shift keys held.
    pub fn shift_depth(&self) -> (depth: u16)
        ensures
            depth == self@,
    {
        self.shift_depth
    }

    /// Whether any Shift key is held.
    pub fn shifted(&self) -> (held: bool)
        ensures
            held == (self@ != 0),
    {
        self.shift_depth != 0
    }

    /// Records that key `code` went down.
    pub fn press(&mut self, code: u16)
        ensures
            final(self)@ == pressed(old(self)@, code),
    {
        if is_shift(code) && self.shift_depth < DEPTH_MAX {
            self.shift_depth = self.shift_depth + 1;
        }
    }

    /// Records that key `code` went up.
    pub fn release(&mut self, code: u16)
        ensures
            final(self)@ == released(old(self)@, code),
    {
        if is_shift(code) && self.shift_depth > 0 {
            self.shift_depth = self.shift_depth - 1;
        }
    }

    /// No state counts more than [`DEPTH_MAX`] keys.
    pub proof fn lemma_bounded(self)
        ensures
            self@ <= DEPTH_MAX,
    {
    }
}

/// A press and the release of the same key cancel, as long as the press was
/// counted.
pub proof fn lemma_press_release_cancel(depth: nat, code: u16)
    requires
        depth < DEPTH_MAX,
    ensures
        released(pressed(depth, code), code) == depth,
{
}

/// Both Shift keys overlapping: with left and right pressed in turn, releasing
/// one of them leaves Shift held, and releasing the other restores the count
/// from before.
pub proof fn lemma_overlapping_shifts(depth: nat)
    requires
        depth + 2 <= DEPTH_MAX,
    ensures
        ({
            let both: nat = pressed(pressed(depth, KEY_LEFTSHIFT), KEY_RIGHTSHIFT);
            let one: nat = released(both, KEY_RIGHTSHIFT);
            &&& both == depth + 2
            &&& one != 0
            &&& released(one, KEY_LEFTSHIFT) == depth
        }),
{
}

} // verus!
