use vstd::prelude::*;

verus! {

/// A key of the keyboard, as far as the game binds keys.
#[derive(Clone, Copy, Debug, PartialEq, Eq, Structural)]
pub enum Key {
    A,
    D,
    E,
    F,
    M,
    Q,
    R,
    S,
    W,
    Space,
    ShiftLeft,
    ControlLeft,
    Tab,
    Escape,
}

/// Whether `k` is among the keys held down this frame.
pub open spec fn held(keys: Seq<Key>, k: Key) -> bool {
    keys.contains(k)
}

/// Whether `k` is among the keys held down this frame.
pub fn is_held(keys: &[Key], k: Key) -> (r: bool)
    ensures
        r == held(keys@, k),
{
    let mut i: usize = 0;
    while i < keys.len()
        invariant
            0 <= i <= keys@.len(),
            forall|j: int| 0 <= j < i ==> keys@[j] != k,
        decreases keys@.len() - i,
    {
        if keys[i] == k {
            assert(keys@[i as int] == k);
            return true;
        }
        i = i + 1;
    }
    proof {
        if keys@.contains(k) {
            let j = choose|j: int| 0 <= j < keys@.len() && keys@[j] == k;
            assert(keys@[j] != k);
        }
    }
    false
}

} // verus!
