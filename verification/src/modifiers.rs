use vstd::prelude::*;

verus! {

/// A snapshot of the transient modifier keys and the latched Caps Lock
/// state, captured fresh for every key event so decisions reflect the
/// instantaneous hardware state rather than a stale cache.
#[derive(Clone, Copy, PartialEq, Eq, Structural, Debug)]
pub struct ModifierSnapshot {
    pub ctrl: bool,
    pub alt: bool,
    pub left_shift: bool,
    pub right_shift: bool,
    pub win_left: bool,
    pub win_right: bool,
    pub caps_lock_on: bool,
}

impl ModifierSnapshot {
    /// A strong modifier is Ctrl, Alt, or either Windows key; holding any
    /// of them suppresses remapping so application shortcuts pass through.
    pub open spec fn strong_modifier_down(self) -> bool {
        self.ctrl || self.alt || self.win_left || self.win_right
    }

    pub fn is_any_strong_modifier_down(&self) -> (r: bool)
        ensures
            r == self.strong_modifier_down(),
    {
        self.ctrl || self.alt || self.win_left || self.win_right
    }

    /// Either Shift key counts as "shift held" for case selection.
    pub open spec fn shift_down(self) -> bool {
        self.left_shift || self.right_shift
    }

    pub fn is_shift_down(&self) -> (r: bool)
        ensures
            r == self.shift_down(),
    {
        self.left_shift || self.right_shift
    }

    pub fn is_caps_lock_engaged(&self) -> (r: bool)
        ensures
            r == self.caps_lock_on,
    {
        self.caps_lock_on
    }

    /// A snapshot with nothing held and Caps Lock off.
    pub fn none_held() -> (r: ModifierSnapshot)
        ensures
            r == (ModifierSnapshot {
                ctrl: false,
                alt: false,
                left_shift: false,
                right_shift: false,
                win_left: false,
                win_right: false,
                caps_lock_on: false,
            }),
    {
        ModifierSnapshot {
            ctrl: false,
            alt: false,
            left_shift: false,
            right_shift: false,
            win_left: false,
            win_right: false,
            caps_lock_on: false,
        }
    }
}

} // verus!
