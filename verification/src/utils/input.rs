//! The state of the keys the game listens to.
use vstd::prelude::*;

verus! {

/// One flag per logical key.
#[derive(Clone, Copy, PartialEq, Eq, Debug, Structural)]
pub struct Keys {
    pub forward: bool,
    pub backward: bool,
    pub left: bool,
    pub right: bool,
    pub up: bool,
    pub down: bool,
    /// Also the modifier of the quit combination.
    pub brake: bool,
    pub accelerate: bool,
    pub reset: bool,
    pub quit: bool,
}

/// What the keyboard reports for one tick.
#[derive(Clone, Copy, PartialEq, Eq, Debug, Structural)]
pub struct Input {
    /// Keys that are held down.
    pub pressed: Keys,
    /// Keys that went down since the previous tick.
    pub just_pressed: Keys,
}

/// No key.
pub open spec fn no_keys() -> Keys {
    Keys {
        forward: false,
        backward: false,
        left: false,
        right: false,
        up: false,
        down: false,
        brake: false,
        accelerate: false,
        reset: false,
        quit: false,
    }
}

impl Keys {
    /// No key.
    pub fn none() -> (r: Keys)
        ensures
            r == no_keys(),
    {
        Keys {
            forward: false,
            backward: false,
            left: false,
            right: false,
            up: false,
            down: false,
            brake: false,
            accelerate: false,
            reset: false,
            quit: false,
        }
    }
}

impl Input {
    /// A keyboard that nobody touches.
    pub fn idle() -> (r: Input)
        ensures
            r.pressed == no_keys(),
            r.just_pressed == no_keys(),
    {
        Input { pressed: Keys::none(), just_pressed: Keys::none() }
    }
}

} // verus!
