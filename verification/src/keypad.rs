//! The 16-key hexadecimal keypad.
//!
//! The keypad only records which keys are up or down; the "wait for a
//! key" protocol lives in the interpreter's state machine, which decides
//! what a key transition means for the waiting register.

use vstd::prelude::*;

verus! {

/// Whether a key currently sits up or is held down.
#[derive(Clone, Copy, Debug, PartialEq, Eq, Structural)]
pub enum Position {
    UP,
    DOWN,
}

/// The sixteen keys, one per hexadecimal digit.
#[derive(Clone, Copy, Debug, PartialEq, Eq, Structural)]
pub enum Key {
    ZERO,
    ONE,
    TWO,
    THREE,
    FOUR,
    FIVE,
    SIX,
    SEVEN,
    EIGHT,
    NINE,
    A,
    B,
    C,
    D,
    E,
    F,
}

/// The keypad index a key stands for.
pub open spec fn key_index(k: Key) -> u8 {
    match k {
        Key::ZERO => 0,
        Key::ONE => 1,
        Key::TWO => 2,
        Key::THREE => 3,
        Key::FOUR => 4,
        Key::FIVE => 5,
        Key::SIX => 6,
        Key::SEVEN => 7,
        Key::EIGHT => 8,
        Key::NINE => 9,
        Key::A => 10,
        Key::B => 11,
        Key::C => 12,
        Key::D => 13,
        Key::E => 14,
        Key::F => 15,
    }
}

impl Key {
    /// The keypad index this key stands for, a value in `0`..=`15`.
    pub fn index(&self) -> (r: u8)
        ensures
            r == key_index(*self),
            r < 16,
    {
        match self {
            Key::ZERO => 0,
            Key::ONE => 1,
            Key::TWO => 2,
            Key::THREE => 3,
            Key::FOUR => 4,
            Key::FIVE => 5,
            Key::SIX => 6,
            Key::SEVEN => 7,
            Key::EIGHT => 8,
            Key::NINE => 9,
            Key::A => 10,
            Key::B => 11,
            Key::C => 12,
            Key::D => 13,
            Key::E => 14,
            Key::F => 15,
        }
    }
}

/// The sixteen key states. Its view is the sequence of all sixteen
/// positions, indexed by key.
pub struct Keypad {
    keys: Vec<Position>,
}

impl View for Keypad {
    type V = Seq<Position>;

    closed spec fn view(&self) -> Seq<Position> {
        self.keys@
    }
}

impl Keypad {
    /// There is one position per key, always sixteen.
    pub open spec fn wf(&self) -> bool {
        self@.len() == 16
    }

    /// A fresh keypad with every key up.
    pub fn new() -> (k: Keypad)
        ensures
            k.wf(),
            k@.len() == 16,
            forall|i: int| 0 <= i < 16 ==> k@[i] == Position::UP,
    {
        let mut keys: Vec<Position> = Vec::new();
        let mut i: usize = 0;
        while i < 16
            invariant
                i <= 16,
                keys@.len() == i,
                forall|j: int| 0 <= j < i ==> keys@[j] == Position::UP,
            decreases 16 - i,
        {
            keys.push(Position::UP);
            i = i + 1;
        }
        Keypad { keys }
    }

    /// Records key `key` as up or down.
    pub fn set_key(&mut self, key: u8, position: Position)
        requires
            old(self).wf(),
            key < 16,
        ensures
            final(self).wf(),
            final(self)@ == old(self)@.update(key as int, position),
    {
        self.keys[key as usize] = position;
    }

    /// The recorded position of key `key`.
    pub fn get_key(&self, key: u8) -> (r: Position)
        requires
            self.wf(),
            key < 16,
        ensures
            r == self@[key as int],
    {
        self.keys[key as usize]
    }
}

} // verus!
