//! Looking for byte patterns in a section and writing bytes over it.
//!
//! Positions are mathematical integers in the contracts: a position before
//! the first byte or past the last one is a position at which nothing is
//! found, not an error.

use vstd::prelude::*;

verus! {

/// The byte of `bytes` at `at`, if `bytes` reaches that far.
pub open spec fn byte_at(bytes: Seq<u8>, at: int) -> Option<u8> {
    if 0 <= at < bytes.len() {
        Some(bytes[at])
    } else {
        None
    }
}

/// Whether the bytes of `pattern` stand in `bytes` from `at` on.
pub open spec fn occurs_at(bytes: Seq<u8>, at: int, pattern: Seq<u8>) -> bool {
    &&& 0 <= at
    &&& at + pattern.len() <= bytes.len()
    &&& bytes.subrange(at, at + pattern.len()) == pattern
}

/// `bytes` with the bytes of `patch` in place of those that stood from `at`
/// on.
pub open spec fn overwrite(bytes: Seq<u8>, at: int, patch: Seq<u8>) -> Seq<u8>
    recommends
        0 <= at,
        at + patch.len() <= bytes.len(),
{
    bytes.subrange(0, at) + patch + bytes.subrange(at + patch.len(), bytes.len() as int)
}

/// Overwriting in range keeps the length, puts the patch where it was asked
/// for and leaves every other byte as it was.
pub proof fn lemma_overwrite(bytes: Seq<u8>, at: int, patch: Seq<u8>)
    requires
        0 <= at,
        at + patch.len() <= bytes.len(),
    ensures
        overwrite(bytes, at, patch).len() == bytes.len(),
        occurs_at(overwrite(bytes, at, patch), at, patch),
        forall|i: int|
            0 <= i < bytes.len() && !(at <= i < at + patch.len()) ==> overwrite(bytes, at, patch)[i]
                == bytes[i],
        forall|i: int|
            at <= i < at + patch.len() ==> overwrite(bytes, at, patch)[i] == patch[i - at],
{
    assert(overwrite(bytes, at, patch).subrange(at, at + patch.len()) =~= patch);
}

/// The byte at `at`, if `bytes` reaches that far.
pub fn get_byte(bytes: &[u8], at: usize) -> (b: Option<u8>)
    ensures
        b == byte_at(bytes@, at as int),
{
    if at < bytes.len() {
        Some(bytes[at])
    } else {
        None
    }
}

/// Whether the bytes of `pattern` stand in `bytes` from `at` on.
pub fn pattern_at(bytes: &[u8], at: usize, pattern: &[u8]) -> (found: bool)
    ensures
        found == occurs_at(bytes@, at as int, pattern@),
{
    let n = pattern.len();
    if n > bytes.len() || at > bytes.len() - n {
        return false;
    }
    let mut i: usize = 0;
    while i < n
        invariant
            n == pattern@.len(),
            at + n <= bytes.len(),
            i <= n,
            forall|k: int| 0 <= k < i ==> bytes@[at + k] == pattern@[k],
        decreases n - i,
    {
        if bytes[at + i] != pattern[i] {
            assert(bytes@.subrange(at as int, at + n)[i as int] == bytes@[at + i]);
            return false;
        }
        i += 1;
    }
    assert(bytes@.subrange(at as int, at + n) =~= pattern@);
    true
}

/// Whether the bytes of `pattern` stand in `bytes` from `back` bytes before
/// `offset` on. Nothing stands before the first byte.
pub fn pattern_before(bytes: &[u8], offset: u64, back: u64, pattern: &[u8]) -> (found: bool)
    ensures
        found == occurs_at(bytes@, offset - back, pattern@),
{
    if offset < back {
        return false;
    }
    let at: u64 = offset - back;
    if at > bytes.len() as u64 {
        return false;
    }
    pattern_at(bytes, at as usize, pattern)
}

/// Whether the bytes of `pattern` stand in `bytes` from `ahead` bytes after
/// `offset` on. Nothing stands past the last byte.
pub fn pattern_after(bytes: &[u8], offset: u64, ahead: u64, pattern: &[u8]) -> (found: bool)
    ensures
        found == occurs_at(bytes@, offset + ahead, pattern@),
{
    let len = bytes.len();
    if ahead > u64::MAX - offset {
        return false;
    }
    let at: u64 = offset + ahead;
    if at > len as u64 {
        return false;
    }
    pattern_at(bytes, at as usize, pattern)
}

/// The byte that stands `back` bytes before `offset`, if one does.
pub fn byte_before(bytes: &[u8], offset: u64, back: u64) -> (b: Option<u8>)
    ensures
        b == byte_at(bytes@, offset - back),
{
    if offset < back {
        return None;
    }
    let at: u64 = offset - back;
    if at >= bytes.len() as u64 {
        return None;
    }
    get_byte(bytes, at as usize)
}

/// Writes the bytes of `patch` over `bytes` from `at` on.
pub fn write_at(bytes: &mut [u8], at: usize, patch: &[u8])
    requires
        at + patch@.len() <= old(bytes)@.len(),
    ensures
        final(bytes)@ == overwrite(old(bytes)@, at as int, patch@),
{
    let n = patch.len();
    let mut i: usize = 0;
    while i < n
        invariant
            n == patch@.len(),
            bytes@.len() == old(bytes)@.len(),
            at + n <= bytes.len(),
            i <= n,
            forall|k: int| 0 <= k < i ==> bytes@[at + k] == patch@[k],
            forall|k: int|
                0 <= k < bytes@.len() && !(at <= k < at + i) ==> bytes@[k] == old(bytes)@[k],
        decreases n - i,
    {
        bytes[at + i] = patch[i];
        i += 1;
    }
    assert(bytes@ =~= overwrite(old(bytes)@, at as int, patch@));
}

/// The four bytes, lowest first, that hold `value` as a signed 32-bit
/// number in two's complement.
pub open spec fn i32_to_le_bytes(value: int) -> Seq<u8>
    recommends
        -0x8000_0000 <= value < 0x8000_0000,
{
    let unsigned = if value < 0 {
        value + 0x1_0000_0000
    } else {
        value
    };
    seq![
        (unsigned % 256) as u8,
        (unsigned / 0x100 % 256) as u8,
        (unsigned / 0x1_0000 % 256) as u8,
        (unsigned / 0x100_0000 % 256) as u8,
    ]
}

/// The signed 32-bit number that the first four bytes of `bytes` hold,
/// lowest byte first.
pub open spec fn i32_from_le_bytes(bytes: Seq<u8>) -> int
    recommends
        bytes.len() >= 4,
{
    let unsigned = bytes[0] + 0x100 * bytes[1] + 0x1_0000 * bytes[2] + 0x100_0000 * bytes[3];
    if unsigned >= 0x8000_0000 {
        unsigned - 0x1_0000_0000
    } else {
        unsigned
    }
}

/// Reading back what was written gives the number that was written.
pub proof fn lemma_i32_le_round_trip(value: int)
    requires
        -0x8000_0000 <= value < 0x8000_0000,
    ensures
        i32_to_le_bytes(value).len() == 4,
        i32_from_le_bytes(i32_to_le_bytes(value)) == value,
{
}

/// The four bytes, lowest first, that hold `value` as a signed 32-bit number.
pub fn le_bytes_of_i32(value: i32) -> (bytes: [u8; 4])
    ensures
        bytes@ == i32_to_le_bytes(value as int),
{
    let unsigned: u32 = if value < 0 {
        (value as i64 + 0x1_0000_0000) as u32
    } else {
        value as u32
    };
    let bytes: [u8; 4] = [
        (unsigned % 256) as u8,
        (unsigned / 0x100 % 256) as u8,
        (unsigned / 0x1_0000 % 256) as u8,
        (unsigned / 0x100_0000 % 256) as u8,
    ];
    assert(bytes@ =~= i32_to_le_bytes(value as int));
    bytes
}

} // verus!
