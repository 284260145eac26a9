//! CRC-32 as PNG uses it: reflected polynomial `0xEDB88320`, register seeded
//! with all ones, result complemented.
//!
//! The checksum is defined bit by bit; the executable code goes byte by byte
//! through a table and is proved to compute the same value.

use vstd::prelude::*;

verus! {

/// The reflected CRC-32 polynomial.
pub const CRC_POLYNOMIAL: u32 = 0xedb8_8320u32;

/// The register after one bit of division by the polynomial.
pub open spec fn crc_shift(c: u32) -> u32 {
    if c & 1u32 == 1u32 {
        0xedb8_8320u32 ^ (c >> 1u32)
    } else {
        c >> 1u32
    }
}

/// The register after `n` bits of division.
pub open spec fn crc_shift_n(c: u32, n: nat) -> u32
    decreases n,
{
    if n == 0 {
        c
    } else {
        crc_shift(crc_shift_n(c, (n - 1) as nat))
    }
}

/// Eight bits of division, written out.
pub open spec fn crc_shift8(c: u32) -> u32 {
    crc_shift(crc_shift(crc_shift(crc_shift(crc_shift(crc_shift(crc_shift(crc_shift(c))))))))
}

/// The register after the message byte `byte` has been fed into `crc`.
pub open spec fn crc_feed(crc: u32, byte: u8) -> u32 {
    crc_shift8(crc ^ (byte as u32))
}

/// The register after all of `bytes`, starting from all ones.
pub open spec fn crc_register(bytes: Seq<u8>) -> u32
    decreases bytes.len(),
{
    if bytes.len() == 0 {
        0xffff_ffffu32
    } else {
        crc_feed(crc_register(bytes.drop_last()), bytes.last())
    }
}

/// The CRC-32 of `bytes`.
pub open spec fn crc32(bytes: Seq<u8>) -> u32 {
    crc_register(bytes) ^ 0xffff_ffffu32
}

/// Entry `n` of the byte-wise table.
pub open spec fn crc_table_entry(n: nat) -> u32 {
    crc_shift8(n as u32)
}

proof fn lemma_shift_n_is_shift8(c: u32)
    ensures
        crc_shift_n(c, 8) == crc_shift8(c),
{
    reveal_with_fuel(crc_shift_n, 9);
}

/// One table look-up does the work of eight bits of division.
proof fn lemma_table_step(crc: u32, byte: u8)
    ensures
        ((crc ^ (byte as u32)) & 0xffu32) < 256,
        crc_shift8((crc ^ (byte as u32)) & 0xffu32) ^ (crc >> 8u32) == crc_feed(crc, byte),
{
    let x: u32 = crc ^ (byte as u32);
    assert(x & 0xffu32 < 256) by (bit_vector);
    assert((crc ^ (byte as u32)) >> 8u32 == crc >> 8u32) by (bit_vector);
    assert(crc_shift8(x & 0xffu32) ^ (x >> 8u32) == crc_shift8(x)) by (bit_vector);
}

/// One bit of division loses nothing: different registers stay different.
proof fn lemma_shift_injective(a: u32, b: u32)
    by (bit_vector)
    ensures
        crc_shift(a) == crc_shift(b) ==> a == b,
{
}

/// Feeding one byte keeps registers apart, and sets equal registers apart
/// when the bytes differ.
proof fn lemma_feed_injective(crc1: u32, byte1: u8, crc2: u32, byte2: u8)
    requires
        crc1 != crc2 || byte1 != byte2,
        crc1 == crc2 || byte1 == byte2,
    ensures
        crc_feed(crc1, byte1) != crc_feed(crc2, byte2),
{
    let x: u32 = crc1 ^ (byte1 as u32);
    let y: u32 = crc2 ^ (byte2 as u32);
    assert(x != y) by (bit_vector)
        requires
            crc1 != crc2 || byte1 != byte2,
            crc1 == crc2 || byte1 == byte2,
            x == crc1 ^ (byte1 as u32),
            y == crc2 ^ (byte2 as u32),
    ;
    let x1 = crc_shift(x);
    let y1 = crc_shift(y);
    lemma_shift_injective(x, y);
    let x2 = crc_shift(x1);
    let y2 = crc_shift(y1);
    lemma_shift_injective(x1, y1);
    let x3 = crc_shift(x2);
    let y3 = crc_shift(y2);
    lemma_shift_injective(x2, y2);
    let x4 = crc_shift(x3);
    let y4 = crc_shift(y3);
    lemma_shift_injective(x3, y3);
    let x5 = crc_shift(x4);
    let y5 = crc_shift(y4);
    lemma_shift_injective(x4, y4);
    let x6 = crc_shift(x5);
    let y6 = crc_shift(y5);
    lemma_shift_injective(x5, y5);
    let x7 = crc_shift(x6);
    let y7 = crc_shift(y6);
    lemma_shift_injective(x6, y6);
    lemma_shift_injective(x7, y7);
}

/// Changing one byte of a message changes the register after it.
proof fn lemma_register_detects_byte_change(bytes: Seq<u8>, i: int, byte: u8)
    requires
        0 <= i < bytes.len(),
        byte != bytes[i],
    ensures
        crc_register(bytes.update(i, byte)) != crc_register(bytes),
    decreases bytes.len(),
{
    let changed = bytes.update(i, byte);
    if i == bytes.len() - 1 {
        assert(changed.drop_last() =~= bytes.drop_last());
        lemma_feed_injective(
            crc_register(bytes.drop_last()),
            changed.last(),
            crc_register(bytes.drop_last()),
            bytes.last(),
        );
    } else {
        assert(changed.drop_last() =~= bytes.drop_last().update(i, byte));
        lemma_register_detects_byte_change(bytes.drop_last(), i, byte);
        lemma_feed_injective(
            crc_register(changed.drop_last()),
            changed.last(),
            crc_register(bytes.drop_last()),
            bytes.last(),
        );
    }
}

/// A message with one byte changed has another CRC-32.
pub proof fn lemma_crc_detects_byte_change(bytes: Seq<u8>, i: int, byte: u8)
    requires
        0 <= i < bytes.len(),
        byte != bytes[i],
    ensures
        crc32(bytes.update(i, byte)) != crc32(bytes),
{
    lemma_register_detects_byte_change(bytes, i, byte);
    let a = crc_register(bytes.update(i, byte));
    let b = crc_register(bytes);
    assert(a ^ 0xffff_ffffu32 != b ^ 0xffff_ffffu32) by (bit_vector)
        requires
            a != b,
    ;
}

/// Builds the table of the 256 byte values divided by the polynomial.
fn make_crc_table() -> (table: [u32; 256])
    ensures
        forall|n: int| 0 <= n < 256 ==> #[trigger] table[n] == crc_table_entry(n as nat),
{
    let mut table: [u32; 256] = [0u32; 256];
    let mut n: u32 = 0;
    while n < 256
        invariant
            n <= 256,
            forall|j: int| 0 <= j < n ==> #[trigger] table[j] == crc_table_entry(j as nat),
        decreases 256 - n,
    {
        let mut c: u32 = n;
        let mut k: u32 = 0;
        while k < 8
            invariant
                k <= 8,
                c == crc_shift_n(n, k as nat),
            decreases 8 - k,
        {
            if c & 1 == 1 {
                c = CRC_POLYNOMIAL ^ (c >> 1);
            } else {
                c = c >> 1;
            }
            k = k + 1;
        }
        proof {
            lemma_shift_n_is_shift8(n);
        }
        table[n as usize] = c;
        n = n + 1;
    }
    table
}

/// The CRC-32 of `bytes`, as stored at the end of a PNG chunk.
pub fn crc_checksum(bytes: &[u8]) -> (crc: u32)
    ensures
        crc == crc32(bytes@),
{
    let table = make_crc_table();
    let mut crc: u32 = 0xffff_ffffu32;
    let mut n: usize = 0;
    while n < bytes.len()
        invariant
            n <= bytes.len(),
            crc == crc_register(bytes@.take(n as int)),
            forall|j: int| 0 <= j < 256 ==> #[trigger] table[j] == crc_table_entry(j as nat),
        decreases bytes.len() - n,
    {
        proof {
            lemma_table_step(crc, bytes[n as int]);
            assert(bytes@.take(n + 1).drop_last() =~= bytes@.take(n as int));
        }
        let index: u32 = (crc ^ (bytes[n] as u32)) & 0xff;
        crc = table[index as usize] ^ (crc >> 8);
        n = n + 1;
    }
    proof {
        assert(bytes@.take(n as int) =~= bytes@);
    }
    crc ^ 0xffff_ffffu32
}

} // verus!
