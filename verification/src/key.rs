//! Account addresses.
use vstd::prelude::*;

verus! {

/// A 32-byte account address, held as four 64-bit words, each read
/// little-endian from eight consecutive bytes of the address.
#[derive(Clone, Copy, Debug, PartialEq, Eq, Structural)]
pub struct Key(pub u64, pub u64, pub u64, pub u64);

/// The little-endian value of the eight bytes of `b` that start at `i`.
pub open spec fn le_word(b: Seq<u8>, i: int) -> int {
    b[i] + 256 * (b[i + 1] + 256 * (b[i + 2] + 256 * (b[i + 3] + 256 * (b[i + 4]
        + 256 * (b[i + 5] + 256 * (b[i + 6] + 256 * b[i + 7]))))))
}

/// The address whose 32 bytes are `b`.
pub open spec fn key_of_bytes(b: Seq<u8>) -> Key {
    Key(
        le_word(b, 0) as u64,
        le_word(b, 8) as u64,
        le_word(b, 16) as u64,
        le_word(b, 24) as u64,
    )
}

/// The address of the system program, whose 32 bytes are all zero.
pub open spec fn system_program_id() -> Key {
    Key(0, 0, 0, 0)
}

fn word_at(b: &[u8; 32], i: usize) -> (w: u64)
    requires
        i + 8 <= 32,
    ensures
        w == le_word(b@, i as int),
{
    let w: u64 = b[i] as u64 + 256 * (b[i + 1] as u64 + 256 * (b[i + 2] as u64 + 256 * (b[i + 3] as u64
        + 256 * (b[i + 4] as u64 + 256 * (b[i + 5] as u64 + 256 * (b[i + 6] as u64 + 256 * (b[i + 7] as u64)))))));
    w
}

impl Key {
    /// Whether this is the address of the system program.
    pub fn is_system_program(&self) -> (r: bool)
        ensures
            r == (*self == system_program_id()),
    {
        self.0 == 0 && self.1 == 0 && self.2 == 0 && self.3 == 0
    }

    /// The address whose 32 bytes are `b`.
    pub fn from_bytes(b: [u8; 32]) -> (k: Key)
        ensures
            k == key_of_bytes(b@),
    {
        Key(word_at(&b, 0), word_at(&b, 8), word_at(&b, 16), word_at(&b, 24))
    }
}

} // verus!
