use vstd::prelude::*;

verus! {

/// The keys the game reads.
#[derive(Clone, Copy, Debug, PartialEq, Eq, Structural, Hash)]
pub enum Key {
    KeyW,
    KeyS,
    ArrowUp,
    ArrowDown,
    Space,
}

/// The state of the keyboard during one frame.
pub struct Input {
    /// Keys held down this frame.
    pub held: Vec<Key>,
    /// Keys that went down this frame.
    pub just_pressed: Vec<Key>,
}

fn holds_key(keys: &Vec<Key>, k: Key) -> (r: bool)
    ensures
        r == keys@.contains(k),
{
    let mut i: usize = 0;
    while i < keys.len()
        invariant
            i <= keys.len(),
            forall|j: int| 0 <= j < i ==> keys@[j] != k,
        decreases keys.len() - i,
    {
        if keys[i] == k {
            return true;
        }
        i += 1;
    }
    false
}

impl Input {
    /// `k` is among the held keys.
    pub open spec fn is_held(&self, k: Key) -> bool {
        self.held@.contains(k)
    }

    /// `k` is among the keys that went down this frame.
    pub open spec fn is_just_pressed(&self, k: Key) -> bool {
        self.just_pressed@.contains(k)
    }

    /// Whether `k` is held down this frame.
    pub fn pressed(&self, k: Key) -> (r: bool)
        ensures
            r == self.is_held(k),
    {
        holds_key(&self.held, k)
    }

    /// Whether `k` went down this frame.
    pub fn just_pressed(&self, k: Key) -> (r: bool)
        ensures
            r == self.is_just_pressed(k),
    {
        holds_key(&self.just_pressed, k)
    }
}

} // verus!
