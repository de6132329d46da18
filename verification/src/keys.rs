//! Input channels: each logical button turns the raw press and release
//! edges it receives into one answer per tick, "act now" or not.
use vstd::prelude::*;

verus! {

/// Ticks a key must be held before it starts to repeat.
pub const HOLD_THRESHOLD: usize = 14;

/// The buttons that the game listens to: the four arrows and the two
/// rotation keys. `Other` stands for every button that it ignores.
#[derive(Debug, Clone, Copy, PartialEq, Eq, Structural)]
pub enum Button {
    Left,
    Right,
    Up,
    Down,
    RotateLeft,
    RotateRight,
    Other,
}

/// A channel that fires once for each press, however long the key is held.
#[derive(PartialEq, Eq, Debug, Clone, Copy, Structural)]
pub struct SingleKey {
    pub triggered: bool,
    pub needs_service: bool,
}

impl SingleKey {
    /// The channel after a press (`press`) or a release edge. A press while
    /// the key is already down changes nothing.
    pub open spec fn after_trigger(self, press: bool) -> SingleKey {
        if press {
            if self.triggered {
                self
            } else {
                SingleKey { triggered: true, needs_service: true }
            }
        } else {
            SingleKey { triggered: false, ..self }
        }
    }

    /// Whether the channel fires at the next service.
    pub open spec fn fires(self) -> bool {
        self.triggered && self.needs_service
    }

    /// The channel after a service: a press that is held has been answered.
    pub open spec fn after_service(self) -> SingleKey {
        if self.triggered {
            SingleKey { needs_service: false, ..self }
        } else {
            self
        }
    }

    /// A channel whose key is up.
    pub fn new() -> (key: Self)
        ensures
            key == (SingleKey { triggered: false, needs_service: false }),
    {
        SingleKey { triggered: false, needs_service: false }
    }

    /// Records a press (`press`) or a release edge.
    pub fn trigger(&mut self, press: bool)
        ensures
            *final(self) == old(self).after_trigger(press),
    {
        if press {
            if !self.triggered {
                self.triggered = true;
                self.needs_service = true;
            }
        } else {
            self.triggered = false;
        }
    }

    /// Answers for one tick: `true` exactly once after each press, and only
    /// while the key is still down.
    pub fn service(&mut self) -> (fire: bool)
        ensures
            fire == old(self).fires(),
            *final(self) == old(self).after_service(),
    {
        if self.triggered {
            let pending = self.needs_service;
            self.needs_service = false;
            pending
        } else {
            false
        }
    }
}

/// A channel that fires on the press, and again on every tick once the key
/// has been held for `HOLD_THRESHOLD` ticks.
#[derive(PartialEq, Eq, Debug, Clone, Copy)]
pub struct MultiKey {
    pub state: SingleKey,
    pub hold_frames: usize,
}

/// A repeating channel as the contracts see it, with an unbounded count of
/// the ticks for which the key has been held.
pub struct MultiKeyModel {
    pub state: SingleKey,
    pub hold_frames: nat,
}

impl MultiKeyModel {
    /// A channel whose key is up and was not held.
    pub open spec fn idle() -> MultiKeyModel {
        MultiKeyModel {
            state: SingleKey { triggered: false, needs_service: false },
            hold_frames: 0,
        }
    }

    /// The channel after a press (`press`) or a release edge. A release
    /// sets the count of held ticks back to zero.
    pub open spec fn after_trigger(self, press: bool) -> MultiKeyModel {
        MultiKeyModel {
            state: self.state.after_trigger(press),
            hold_frames: if press {
                self.hold_frames
            } else {
                0
            },
        }
    }

    /// Whether the channel fires at the next service: the key is down, and
    /// either its press is unanswered or the coming tick is at least the
    /// `HOLD_THRESHOLD`-th for which it is held.
    pub open spec fn fires(self) -> bool {
        self.state.triggered && (self.state.needs_service || self.hold_frames + 1
            >= HOLD_THRESHOLD)
    }

    /// The channel after a service: while the key is down, one more tick is
    /// counted and the press has been answered.
    pub open spec fn after_service(self) -> MultiKeyModel {
        if self.state.triggered {
            MultiKeyModel {
                state: self.state.after_service(),
                hold_frames: self.hold_frames + 1,
            }
        } else {
            self
        }
    }
}

impl View for MultiKey {
    type V = MultiKeyModel;

    open spec fn view(&self) -> MultiKeyModel {
        MultiKeyModel { state: self.state, hold_frames: self.hold_frames as nat }
    }
}

impl MultiKey {
    /// A channel whose key is up.
    pub fn new() -> (key: Self)
        ensures
            key@ == MultiKeyModel::idle(),
    {
        MultiKey { state: SingleKey::new(), hold_frames: 0 }
    }

    /// Records a press (`press`) or a release edge.
    pub fn trigger(&mut self, press: bool)
        ensures
            final(self)@ == old(self)@.after_trigger(press),
    {
        self.state.trigger(press);
        if !press {
            self.hold_frames = 0;
        }
    }

    /// Answers for one tick. The count of held ticks must have room for one
    /// more.
    pub fn service(&mut self) -> (fire: bool)
        requires
            old(self).hold_frames < usize::MAX,
        ensures
            fire == old(self)@.fires(),
            final(self)@ == old(self)@.after_service(),
    {
        if self.state.triggered {
            self.hold_frames += 1;
            self.state.service() || self.hold_frames >= HOLD_THRESHOLD
        } else {
            false
        }
    }
}

/// A channel that reports, tick by tick, whether its key is down.
#[derive(PartialEq, Eq, Debug, Clone, Copy, Structural)]
pub struct ContinuousKey {
    pub pressed: bool,
}

impl ContinuousKey {
    /// A channel whose key is up.
    pub fn new() -> (key: Self)
        ensures
            key == (ContinuousKey { pressed: false }),
    {
        ContinuousKey { pressed: false }
    }

    /// Records a press (`press`) or a release edge.
    pub fn trigger(&mut self, press: bool)
        ensures
            *final(self) == (ContinuousKey { pressed: press }),
    {
        self.pressed = press;
    }

    /// Answers for one tick: whether the key is down.
    pub fn service(&mut self) -> (held: bool)
        ensures
            held == old(self).pressed,
            *final(self) == *old(self),
    {
        self.pressed
    }
}

/// The six channels of the game.
#[derive(PartialEq, Eq, Debug, Clone, Copy)]
pub struct KeyState {
    pub left: MultiKey,
    pub right: MultiKey,
    /// Drop all the way but do not lock.
    pub sonic_drop: MultiKey,
    /// Lock if fallen; otherwise drop a row.
    pub fast_drop: ContinuousKey,
    pub r_left: SingleKey,
    pub r_right: SingleKey,
}

/// The six channels as the contracts see them.
pub struct KeysModel {
    pub left: MultiKeyModel,
    pub right: MultiKeyModel,
    pub sonic_drop: MultiKeyModel,
    pub fast_drop: ContinuousKey,
    pub r_left: SingleKey,
    pub r_right: SingleKey,
}

impl KeysModel {
    /// Six channels whose keys are up.
    pub open spec fn idle() -> KeysModel {
        KeysModel {
            left: MultiKeyModel::idle(),
            right: MultiKeyModel::idle(),
            sonic_drop: MultiKeyModel::idle(),
            fast_drop: ContinuousKey { pressed: false },
            r_left: SingleKey { triggered: false, needs_service: false },
            r_right: SingleKey { triggered: false, needs_service: false },
        }
    }

    /// The channels after a press (`press`) or a release edge of `button`.
    /// Left and right go to the shift channels, up to the sonic drop, down to
    /// the fast drop, the rotation keys to theirs, and `Other` to none.
    pub open spec fn after_trigger(self, button: Button, press: bool) -> KeysModel {
        match button {
            Button::Left => KeysModel { left: self.left.after_trigger(press), ..self },
            Button::Right => KeysModel { right: self.right.after_trigger(press), ..self },
            Button::Up => KeysModel {
                sonic_drop: self.sonic_drop.after_trigger(press),
                ..self
            },
            Button::Down => KeysModel { fast_drop: ContinuousKey { pressed: press }, ..self },
            Button::RotateLeft => KeysModel { r_left: self.r_left.after_trigger(press), ..self },
            Button::RotateRight => KeysModel {
                r_right: self.r_right.after_trigger(press),
                ..self
            },
            Button::Other => self,
        }
    }
}

impl View for KeyState {
    type V = KeysModel;

    open spec fn view(&self) -> KeysModel {
        KeysModel {
            left: self.left@,
            right: self.right@,
            sonic_drop: self.sonic_drop@,
            fast_drop: self.fast_drop,
            r_left: self.r_left,
            r_right: self.r_right,
        }
    }
}

impl KeyState {
    /// Six channels whose keys are up.
    pub fn new() -> (keys: KeyState)
        ensures
            keys@ == KeysModel::idle(),
    {
        KeyState {
            left: MultiKey::new(),
            right: MultiKey::new(),
            fast_drop: ContinuousKey::new(),
            sonic_drop: MultiKey::new(),
            r_left: SingleKey::new(),
            r_right: SingleKey::new(),
        }
    }
}

} // verus!
