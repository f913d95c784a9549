//! Program images.

use vstd::prelude::*;
use crate::emu::machine::ROM_SIZE;

verus! {

/// A program image, padded with zeros to the size of the program area.
pub struct FileDriver {
    pub data: [u8; ROM_SIZE],
}

/// `bytes` cut or zero-padded to `ROM_SIZE` bytes.
pub open spec fn rom_image(bytes: Seq<u8>) -> Seq<u8> {
    Seq::new(
        ROM_SIZE as nat,
        |k: int|
            if k < bytes.len() {
                bytes[k]
            } else {
                0u8
            },
    )
}

impl FileDriver {
    /// The image made of the bytes read from a program file: the bytes in
    /// order, followed by zeros. Bytes beyond the size of the program area
    /// are dropped.
    pub fn from_bytes(bytes: &[u8]) -> (rom: FileDriver)
        ensures
            rom.data@ == rom_image(bytes@),
    {
        let mut data = [0u8; ROM_SIZE];
        let len = if bytes.len() < ROM_SIZE {
            bytes.len()
        } else {
            ROM_SIZE
        };
        let mut k: usize = 0;
        while k < len
            invariant
                k <= len <= ROM_SIZE,
                len <= bytes@.len(),
                len == ROM_SIZE || len == bytes@.len(),
                forall|j: int| 0 <= j < k ==> data@[j] == bytes@[j],
                forall|j: int| k <= j < ROM_SIZE ==> data@[j] == 0,
            decreases len - k,
        {
            data[k] = bytes[k];
            k += 1;
        }
        FileDriver { data }
    }
}

} // verus!
