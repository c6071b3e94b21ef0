//! The movement keys and what they ask of the vehicle.

use vstd::prelude::*;

verus! {

/// The movement keys that are down during one frame.
#[derive(Clone, Copy, Debug, PartialEq, Eq, Structural)]
pub struct Keys {
    pub forward: bool,
    pub backward: bool,
    pub turn_left: bool,
    pub turn_right: bool,
}

impl Keys {
    /// The sense of travel: `1` forward, `-1` backward, `0` when neither key
    /// or both keys are down (opposite keys cancel).
    pub open spec fn drive(self) -> int {
        if self.forward == self.backward {
            0
        } else if self.forward {
            1
        } else {
            -1
        }
    }

    /// The turn asked for by the turn keys alone: `1` to the left, `-1` to
    /// the right, `0` when neither key or both keys are down.
    pub open spec fn turn(self) -> int {
        if self.turn_left == self.turn_right {
            0
        } else if self.turn_left {
            1
        } else {
            -1
        }
    }

    /// The sense in which the heading changes: the turn while driving
    /// forward, its opposite while backing up, `0` while standing.
    pub open spec fn steer(self) -> int {
        if self.drive() == 1 {
            self.turn()
        } else if self.drive() == -1 {
            -self.turn()
        } else {
            0
        }
    }

    /// No key is down.
    pub open spec fn is_idle(self) -> bool {
        !self.forward && !self.backward && !self.turn_left && !self.turn_right
    }

    /// The key set with no key down.
    pub fn none() -> (keys: Keys)
        ensures
            keys.is_idle(),
    {
        Keys { forward: false, backward: false, turn_left: false, turn_right: false }
    }

    /// Computes [`Keys::drive`]: each travel key adds its own sense.
    pub fn drive_sign(&self) -> (sign: i8)
        ensures
            sign == self.drive(),
    {
        let mut sign: i8 = 0;
        if self.forward {
            sign = sign + 1;
        }
        if self.backward {
            sign = sign - 1;
        }
        sign
    }

    /// Computes [`Keys::steer`]: each travel key that is down applies the
    /// turn keys in its own sense, and the contributions add up.
    pub fn steer_sign(&self) -> (sign: i8)
        ensures
            sign == self.steer(),
    {
        let mut sign: i8 = 0;
        if self.forward {
            if self.turn_left {
                sign = sign + 1;
            }
            if self.turn_right {
                sign = sign - 1;
            }
        }
        if self.backward {
            if self.turn_left {
                sign = sign - 1;
            }
            if self.turn_right {
                sign = sign + 1;
            }
        }
        sign
    }
}

/// Steering is the product of the sense of travel and the turn asked for.
pub proof fn lemma_steer_is_product(keys: Keys)
    ensures
        keys.steer() == keys.drive() * keys.turn(),
        -1 <= keys.drive() <= 1,
        -1 <= keys.steer() <= 1,
{
    let d = keys.drive();
    let t = keys.turn();
    assert((d == 1 ==> d * t == t) && (d == -1 ==> d * t == -t) && (d == 0 ==> d * t == 0))
        by (nonlinear_arith);
}

/// The turn keys do nothing unless the vehicle travels.
pub proof fn lemma_no_steering_while_standing(keys: Keys)
    requires
        keys.drive() == 0,
    ensures
        keys.steer() == 0,
{
}

/// Backing up reverses the steering: swapping the two travel keys negates
/// the change of heading.
pub proof fn lemma_reversing_swaps_steering(keys: Keys)
    ensures
        (Keys { forward: keys.backward, backward: keys.forward, ..keys }).steer() == -keys.steer(),
{
}

} // verus!
