//! The per-tick input snapshot: which keys are held and the level of each
//! fire button.

use vstd::prelude::*;

verus! {

/// A logical key of the keyboard.
#[derive(Clone, Copy, Debug, PartialEq, Eq, Structural)]
pub enum Key {
    A,
    B,
    C,
    D,
    E,
    F,
    G,
    H,
    I,
    J,
    K,
    L,
    M,
    N,
    O,
    P,
    Q,
    R,
    S,
    T,
    U,
    V,
    W,
    X,
    Y,
    Z,
}

/// The level read on a fire button. Buttons are pulled up, so a pressed
/// button reads `Low`.
#[derive(Clone, Copy, Debug, PartialEq, Eq, Structural)]
pub enum Level {
    Low,
    High,
}

impl Level {
    pub open spec fn is_pressed_spec(self) -> bool {
        self == Level::Low
    }

    /// Whether this level means the button is held down.
    pub fn is_pressed(self) -> (r: bool)
        ensures
            r == self.is_pressed_spec(),
    {
        match self {
            Level::Low => true,
            Level::High => false,
        }
    }
}

/// Number of fire buttons.
pub const BUTTON_COUNT: usize = 2;

/// The levels of the two fire buttons.
#[derive(Clone, Copy, Debug, PartialEq, Eq, Structural)]
pub struct ButtonLevels {
    pub button1_level: Level,
    pub button2_level: Level,
}

impl ButtonLevels {
    pub fn new(button1_level: Level, button2_level: Level) -> (r: ButtonLevels)
        ensures
            r.button1_level == button1_level,
            r.button2_level == button2_level,
    {
        ButtonLevels { button1_level, button2_level }
    }

    pub open spec fn level_spec(self, idx: int) -> Level {
        if idx == 0 {
            self.button1_level
        } else {
            self.button2_level
        }
    }

    /// The level of button `idx`, counted from 0.
    pub fn level(&self, idx: usize) -> (r: Level)
        requires
            idx < BUTTON_COUNT,
        ensures
            r == self.level_spec(idx as int),
    {
        if idx == 0 {
            self.button1_level
        } else {
            self.button2_level
        }
    }
}

/// What was read from the input devices at the start of a tick.
pub struct Inputs {
    pub keycodes: Vec<Key>,
    pub button_levels: ButtonLevels,
}

impl Inputs {
    pub fn new(keycodes: Vec<Key>, button_levels: ButtonLevels) -> (r: Inputs)
        ensures
            r.keycodes@ == keycodes@,
            r.button_levels == button_levels,
    {
        Inputs { keycodes, button_levels }
    }
}

/// Whether `key` occurs in `keys`.
pub fn contains_key(keys: &Vec<Key>, key: Key) -> (r: bool)
    ensures
        r == keys@.contains(key),
{
    let mut i: usize = 0;
    while i < keys.len()
        invariant
            i <= keys.len(),
            forall|j: int| 0 <= j < i ==> keys@[j] != key,
        decreases keys.len() - i,
    {
        if keys[i] == key {
            return true;
        }
        i = i + 1;
    }
    false
}

/// Whether any key in `held` occurs in `bound`.
pub open spec fn any_bound(held: Seq<Key>, bound: Seq<Key>) -> bool {
    exists|i: int| 0 <= i < held.len() && bound.contains(#[trigger] held[i])
}

/// Whether any key in `held` occurs in `bound`.
pub fn any_key_bound(held: &Vec<Key>, bound: &Vec<Key>) -> (r: bool)
    ensures
        r == any_bound(held@, bound@),
{
    let mut i: usize = 0;
    while i < held.len()
        invariant
            i <= held.len(),
            forall|j: int| 0 <= j < i ==> !bound@.contains(#[trigger] held@[j]),
        decreases held.len() - i,
    {
        if contains_key(bound, held[i]) {
            return true;
        }
        i = i + 1;
    }
    false
}

} // verus!
