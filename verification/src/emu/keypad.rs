//! The sixteen-key hexadecimal keypad and its key-wait flag.

use vstd::prelude::*;

verus! {

/// Number of keys on the keypad.
pub const KEY_COUNT: usize = 16;

/// What a keypad holds: which keys are down, whether the machine is
/// suspended until a key is seen, and the register that will receive it.
pub struct KeypadView {
    pub keys: Seq<bool>,
    pub block: bool,
    pub block_reg: nat,
}

/// The internal emulator keypad state.
#[derive(Debug)]
pub struct Keypad {
    pub state: [bool; KEY_COUNT],
    pub block: bool,
    pub block_reg: usize,
}

impl View for Keypad {
    type V = KeypadView;

    open spec fn view(&self) -> KeypadView {
        KeypadView { keys: self.state@, block: self.block, block_reg: self.block_reg as nat }
    }
}

/// A keypad with every key released.
pub open spec fn all_released() -> Seq<bool> {
    Seq::new(KEY_COUNT as nat, |k: int| false)
}

/// No key of `keys` is down.
pub open spec fn none_pressed(keys: Seq<bool>) -> bool {
    forall|j: int| 0 <= j < keys.len() ==> !keys[j]
}

/// Key `k` is down and no key with a smaller index is.
pub open spec fn is_lowest_pressed(keys: Seq<bool>, k: int) -> bool {
    &&& 0 <= k < keys.len()
    &&& keys[k]
    &&& forall|j: int| 0 <= j < k ==> !keys[j]
}

/// The smallest index of a key that is down, if any key is.
pub open spec fn lowest_pressed(keys: Seq<bool>) -> Option<int> {
    if exists|k: int| is_lowest_pressed(keys, k) {
        Some(choose|k: int| is_lowest_pressed(keys, k))
    } else {
        None
    }
}

/// At most one key is the lowest one down, and `lowest_pressed` names it.
pub proof fn lemma_lowest_pressed_is(keys: Seq<bool>, k: int)
    requires
        is_lowest_pressed(keys, k),
    ensures
        lowest_pressed(keys) == Some(k),
{
    let c = choose|c: int| is_lowest_pressed(keys, c);
    assert(is_lowest_pressed(keys, c));
    if c < k {
        assert(!keys[c]);
    } else if k < c {
        assert(!keys[k]);
    }
}

/// With every key released there is no lowest key down.
pub proof fn lemma_none_pressed(keys: Seq<bool>)
    requires
        none_pressed(keys),
    ensures
        lowest_pressed(keys) == None::<int>,
{
    if exists|k: int| is_lowest_pressed(keys, k) {
        let c = choose|c: int| is_lowest_pressed(keys, c);
        assert(keys[c]);
    }
}

impl Keypad {
    /// The target register of a key wait names one of the sixteen registers.
    pub open spec fn wf(&self) -> bool {
        self.block_reg < 16
    }

    /// A keypad with every key released and no wait pending.
    pub fn new() -> (kp: Keypad)
        ensures
            kp@.keys == all_released(),
            !kp@.block,
            kp@.block_reg == 0,
            kp.wf(),
    {
        Keypad { state: [false; KEY_COUNT], block: false, block_reg: 0 }
    }

    /// Release every key. A pending key wait stays pending.
    pub fn reset(&mut self)
        ensures
            final(self)@.keys == all_released(),
            final(self)@.block == old(self)@.block,
            final(self)@.block_reg == old(self)@.block_reg,
    {
        self.state = [false; KEY_COUNT];
    }

    /// Mark key `idx` as down (`true`) or released (`false`).
    pub fn set(&mut self, idx: usize, state: bool)
        requires
            idx < KEY_COUNT,
        ensures
            final(self)@.keys == old(self)@.keys.update(idx as int, state),
            final(self)@.block == old(self)@.block,
            final(self)@.block_reg == old(self)@.block_reg,
    {
        self.state[idx] = state;
    }

    /// All sixteen key states, indexed by key.
    pub fn state(&self) -> (keys: &[bool; KEY_COUNT])
        ensures
            keys@ == self@.keys,
    {
        &self.state
    }

    /// Whether key `idx` is down.
    pub fn state_of(&self, idx: usize) -> (down: bool)
        requires
            idx < KEY_COUNT,
        ensures
            down == self@.keys[idx as int],
    {
        self.state[idx]
    }

    /// The lowest key that is down, or `None` when all are released.
    pub fn first_pressed(&self) -> (found: Option<usize>)
        ensures
            match found {
                Some(k) => is_lowest_pressed(self@.keys, k as int)
                    && lowest_pressed(self@.keys) == Some(k as int),
                None => none_pressed(self@.keys) && lowest_pressed(self@.keys) == None::<int>,
            },
    {
        let mut k: usize = 0;
        while k < KEY_COUNT
            invariant
                k <= KEY_COUNT,
                forall|j: int| 0 <= j < k ==> !self.state@[j],
            decreases KEY_COUNT - k,
        {
            if self.state[k] {
                proof {
                    lemma_lowest_pressed_is(self@.keys, k as int);
                }
                return Some(k);
            }
            k += 1;
        }
        proof {
            lemma_none_pressed(self@.keys);
        }
        None
    }
}

} // verus!
