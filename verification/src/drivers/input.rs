//! The keyboard layout: which host key stands for which keypad key.
//!
//! A host key is named by its key code, which for the keys used here is
//! the code of the character printed on it:
//!
//! ```text
//! 1 2 3 4        1 2 3 C
//! q w e r   for  4 5 6 D
//! a s d f        7 8 9 E
//! z x c v        A 0 B F
//! ```

use vstd::prelude::*;
use crate::emu::keypad::{Keypad, KEY_COUNT};

verus! {

/// The keypad key that host key `key` stands for, if it stands for one.
pub open spec fn key_layout(key: i32) -> Option<usize> {
    if key == 0x31 {
        Some(0x1)
    } else if key == 0x32 {
        Some(0x2)
    } else if key == 0x33 {
        Some(0x3)
    } else if key == 0x34 {
        Some(0xC)
    } else if key == 0x71 {
        Some(0x4)
    } else if key == 0x77 {
        Some(0x5)
    } else if key == 0x65 {
        Some(0x6)
    } else if key == 0x72 {
        Some(0xD)
    } else if key == 0x61 {
        Some(0x7)
    } else if key == 0x73 {
        Some(0x8)
    } else if key == 0x64 {
        Some(0x9)
    } else if key == 0x66 {
        Some(0xE)
    } else if key == 0x7A {
        Some(0xA)
    } else if key == 0x78 {
        Some(0x0)
    } else if key == 0x63 {
        Some(0xB)
    } else if key == 0x76 {
        Some(0xF)
    } else {
        None
    }
}

/// Some host key of `pressed` stands for keypad key `idx`.
pub open spec fn holds_key_for(pressed: Seq<i32>, idx: int) -> bool {
    exists|j: int| 0 <= j < pressed.len() && key_layout(#[trigger] pressed[j]) == Some(idx as usize)
}

/// No host key stands for two keypad keys, and no two host keys for the
/// same one.
pub proof fn law_layout_is_one_to_one(a: i32, b: i32)
    requires
        key_layout(a) is Some,
        key_layout(a) == key_layout(b),
    ensures
        a == b,
{
}

/// Every keypad key has a host key.
pub proof fn law_layout_covers_keypad(idx: usize)
    requires
        idx < KEY_COUNT,
    ensures
        exists|key: i32| #[trigger] key_layout(key) == Some(idx),
{
    assert(key_layout(0x78) == Some(0x0usize));
    assert(key_layout(0x31) == Some(0x1usize));
    assert(key_layout(0x32) == Some(0x2usize));
    assert(key_layout(0x33) == Some(0x3usize));
    assert(key_layout(0x71) == Some(0x4usize));
    assert(key_layout(0x77) == Some(0x5usize));
    assert(key_layout(0x65) == Some(0x6usize));
    assert(key_layout(0x61) == Some(0x7usize));
    assert(key_layout(0x73) == Some(0x8usize));
    assert(key_layout(0x64) == Some(0x9usize));
    assert(key_layout(0x7A) == Some(0xAusize));
    assert(key_layout(0x63) == Some(0xBusize));
    assert(key_layout(0x34) == Some(0xCusize));
    assert(key_layout(0x72) == Some(0xDusize));
    assert(key_layout(0x66) == Some(0xEusize));
    assert(key_layout(0x76) == Some(0xFusize));
}

/// Match keycode to chip-8 keypad idx.
pub fn keycode_to_idx(key: i32) -> (found: Option<usize>)
    ensures
        found == key_layout(key),
        found is Some ==> found->0 < KEY_COUNT,
{
    match key {
        0x31 => Some(0x1),
        0x32 => Some(0x2),
        0x33 => Some(0x3),
        0x34 => Some(0xC),
        0x71 => Some(0x4),
        0x77 => Some(0x5),
        0x65 => Some(0x6),
        0x72 => Some(0xD),
        0x61 => Some(0x7),
        0x73 => Some(0x8),
        0x64 => Some(0x9),
        0x66 => Some(0xE),
        0x7A => Some(0xA),
        0x78 => Some(0x0),
        0x63 => Some(0xB),
        0x76 => Some(0xF),
        _ => None,
    }
}

/// Set keypad to true for only pressed keys: a keypad key is down
/// afterwards exactly when one of the host keys in `pressed` stands for it.
/// A pending key wait is not touched.
pub fn set_pressed(kp: &mut Keypad, pressed: &[i32])
    ensures
        final(kp)@.keys.len() == KEY_COUNT,
        forall|idx: int|
            0 <= idx < KEY_COUNT ==> final(kp)@.keys[idx] == holds_key_for(pressed@, idx),
        final(kp)@.block == old(kp)@.block,
        final(kp)@.block_reg == old(kp)@.block_reg,
{
    kp.reset();
    let mut j: usize = 0;
    while j < pressed.len()
        invariant
            j <= pressed@.len(),
            kp@.keys.len() == KEY_COUNT,
            forall|idx: int|
                0 <= idx < KEY_COUNT ==> kp@.keys[idx] == holds_key_for(
                    pressed@.subrange(0, j as int),
                    idx,
                ),
            kp@.block == old(kp)@.block,
            kp@.block_reg == old(kp)@.block_reg,
        decreases pressed@.len() - j,
    {
        let ghost seen = pressed@.subrange(0, j as int);
        let ghost more = pressed@.subrange(0, j + 1);
        if let Some(idx) = keycode_to_idx(pressed[j]) {
            kp.set(idx, true);
        }
        proof {
            assert forall|idx: int| 0 <= idx < KEY_COUNT implies kp@.keys[idx] == holds_key_for(
                more,
                idx,
            ) by {
                if holds_key_for(seen, idx) {
                    let w = choose|w: int|
                        0 <= w < seen.len() && key_layout(#[trigger] seen[w]) == Some(idx as usize);
                    assert(key_layout(more[w]) == Some(idx as usize));
                }
                if key_layout(pressed@[j as int]) == Some(idx as usize) {
                    assert(key_layout(more[j as int]) == Some(idx as usize));
                }
                if holds_key_for(more, idx) {
                    let w = choose|w: int|
                        0 <= w < more.len() && key_layout(#[trigger] more[w]) == Some(idx as usize);
                    if w < j {
                        assert(key_layout(seen[w]) == Some(idx as usize));
                    }
                }
            }
        }
        j += 1;
    }
    assert(pressed@.subrange(0, j as int) =~= pressed@);
}

} // verus!
