//! The sixteen keys, `0` to `F`.
use vstd::prelude::*;

verus! {

/// Which of the sixteen keys are held down.
pub struct Keypad {
    down: [bool; 16],
}

impl View for Keypad {
    type V = Seq<bool>;

    /// One entry per key, `true` while the key is held down.
    closed spec fn view(&self) -> Seq<bool> {
        self.down@
    }
}

impl Keypad {
    /// A keypad always has sixteen keys.
    pub broadcast proof fn lemma_len(&self)
        ensures
            #[trigger] self@.len() == 16,
    {
    }

    /// A keypad with no key held down.
    pub fn new() -> (keypad: Keypad)
        ensures
            keypad@ == Seq::new(16, |k: int| false),
    {
        Keypad { down: [false; 16] }
    }

    /// Records that `key` went down.
    pub fn press(&mut self, key: u8)
        requires
            key < 16,
        ensures
            final(self)@ == old(self)@.update(key as int, true),
    {
        self.down[key as usize] = true;
    }

    /// Records that `key` came up.
    pub fn release(&mut self, key: u8)
        requires
            key < 16,
        ensures
            final(self)@ == old(self)@.update(key as int, false),
    {
        self.down[key as usize] = false;
    }

    /// Whether `key` is held down.
    pub fn is_down(&self, key: u8) -> (down: bool)
        requires
            key < 16,
        ensures
            down == self@[key as int],
    {
        self.down[key as usize]
    }
}

} // verus!
