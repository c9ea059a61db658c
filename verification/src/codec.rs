//! Integrity codecs of the FIFO stream: the byte-sum checksum that guards
//! every raw record, and the LoRa CRC16 that guards decoded payloads.

use vstd::prelude::*;

verus! {

/// Sum of a byte sequence, as an unbounded integer.
pub open spec fn byte_sum(s: Seq<u8>) -> int
    decreases s.len(),
{
    if s.len() == 0 {
        0
    } else {
        byte_sum(s.drop_last()) + s.last()
    }
}

/// The checksum that closes a FIFO record: the sum of all preceding bytes,
/// reduced modulo 256.
pub open spec fn checksum_spec(s: Seq<u8>) -> u8 {
    (byte_sum(s) % 256) as u8
}

pub proof fn lemma_byte_sum_nonneg(s: Seq<u8>)
    ensures
        0 <= byte_sum(s) <= s.len() * 255,
    decreases s.len(),
{
    if s.len() > 0 {
        lemma_byte_sum_nonneg(s.drop_last());
        assert((s.len() - 1) * 255 + 255 == s.len() * 255) by (nonlinear_arith);
    }
}

/// Changing one byte moves the byte sum by exactly the difference.
pub proof fn lemma_byte_sum_update(s: Seq<u8>, p: int, v: u8)
    requires
        0 <= p < s.len(),
    ensures
        byte_sum(s.update(p, v)) == byte_sum(s) - s[p] + v,
    decreases s.len(),
{
    let s2 = s.update(p, v);
    if p == s.len() - 1 {
        assert(s2.drop_last() =~= s.drop_last());
        assert(s2.last() == v);
    } else {
        lemma_byte_sum_update(s.drop_last(), p, v);
        assert(s2.drop_last() =~= s.drop_last().update(p, v));
        assert(s2.last() == s.last());
    }
}

/// Two sums that differ by less than a full wrap have different checksums.
pub proof fn lemma_checksum_differs(x: int, y: int)
    requires
        x >= 0,
        y >= 0,
        x != y,
        -256 < x - y < 256,
    ensures
        (x % 256) != (y % 256),
{
    let q1 = x / 256;
    let q2 = y / 256;
    if x % 256 == y % 256 {
        assert(x == 256 * q1 + x % 256);
        assert(y == 256 * q2 + y % 256);
        assert(256 * (q1 - q2) == x - y);
        assert(q1 == q2) by (nonlinear_arith)
            requires 256 * (q1 - q2) == x - y && -256 < x - y < 256;
        assert(x == y);
    }
}

/// Byte-sum checksum over `data[start .. start + count]`; bytes outside the
/// vector count as zero, as the chip's zero-filled staging buffer would read.
pub fn compute_checksum(data: &Vec<u8>, start: usize, count: usize) -> (r: u8)
    requires
        start + count <= data@.len(),
        count <= 4096,
    ensures
        r == checksum_spec(data@.subrange(start as int, start as int + count as int)),
{
    let n: usize = data.len();
    let mut sum: u32 = 0;
    let mut i: usize = 0;
    proof {
        assert(data@.subrange(start as int, start as int) =~= Seq::<u8>::empty());
    }
    while i < count
        invariant
            i <= count,
            count <= 4096,
            start + count <= n,
            n == data@.len(),
            sum == byte_sum(data@.subrange(start as int, start as int + i as int)),
            sum <= i * 255,
        decreases count - i,
    {
        proof {
            let pre = data@.subrange(start as int, start as int + i as int);
            let post = data@.subrange(start as int, start as int + i as int + 1);
            assert(post.drop_last() =~= pre);
            assert(post.last() == data@[start as int + i as int]);
            assert(i * 255 + 255 == (i + 1) * 255) by (nonlinear_arith);
            assert((i + 1) * 255 <= 4096 * 255) by (nonlinear_arith)
                requires i + 1 <= 4096;
        }
        sum = sum + data[start + i] as u32;
        i = i + 1;
    }
    proof {
        lemma_byte_sum_nonneg(data@.subrange(start as int, start as int + count as int));
    }
    (sum % 256) as u8
}

/// One byte step of the LoRa payload CRC16: the byte-parallel update of the
/// 16-bit shift register, written as explicit bit equations.
pub open spec fn crc16_step(data: u8, crc: u16) -> u16 {
    (
        ((((data >> 0) & 1) as u16 ^ ((crc >> 12) & 1) ^ ((crc >> 8) & 1)) << 0)
        | ((((data >> 1) & 1) as u16 ^ ((crc >> 13) & 1) ^ ((crc >> 9) & 1)) << 1)
        | ((((data >> 2) & 1) as u16 ^ ((crc >> 14) & 1) ^ ((crc >> 10) & 1)) << 2)
        | ((((data >> 3) & 1) as u16 ^ ((crc >> 15) & 1) ^ ((crc >> 11) & 1)) << 3)
        | ((((data >> 4) & 1) as u16 ^ ((crc >> 12) & 1)) << 4)
        | ((((data >> 5) & 1) as u16 ^ ((crc >> 13) & 1) ^ ((crc >> 12) & 1) ^ ((crc >> 8) & 1)) << 5)
        | ((((data >> 6) & 1) as u16 ^ ((crc >> 14) & 1) ^ ((crc >> 13) & 1) ^ ((crc >> 9) & 1)) << 6)
        | ((((data >> 7) & 1) as u16 ^ ((crc >> 15) & 1) ^ ((crc >> 14) & 1) ^ ((crc >> 10) & 1)) << 7)
        | ((((crc >> 0) & 1) ^ ((crc >> 15) & 1) ^ ((crc >> 11) & 1)) << 8)
        | ((((crc >> 1) & 1) ^ ((crc >> 12) & 1)) << 9)
        | ((((crc >> 2) & 1) ^ ((crc >> 13) & 1)) << 10)
        | ((((crc >> 3) & 1) ^ ((crc >> 14) & 1)) << 11)
        | ((((crc >> 4) & 1) ^ ((crc >> 15) & 1) ^ ((crc >> 12) & 1) ^ ((crc >> 8) & 1)) << 12)
        | ((((crc >> 5) & 1) ^ ((crc >> 13) & 1) ^ ((crc >> 9) & 1)) << 13)
        | ((((crc >> 6) & 1) ^ ((crc >> 14) & 1) ^ ((crc >> 10) & 1)) << 14)
        | ((((crc >> 7) & 1) ^ ((crc >> 15) & 1) ^ ((crc >> 11) & 1)) << 15)
    )
}

/// CRC16 of a byte sequence, processed front to back from register value 0.
pub open spec fn crc16_seq(s: Seq<u8>) -> u16
    decreases s.len(),
{
    if s.len() == 0 {
        0
    } else {
        crc16_step(s.last(), crc16_seq(s.drop_last()))
    }
}

/// Folds one payload byte into the CRC16 shift register.
#[allow(unused_parens)]
pub fn lora_crc16(data: u8, crc: &mut u16)
    ensures
        *final(crc) == crc16_step(data, *old(crc)),
{
    let c: u16 = *crc;
    let next: u16 = (
        ((((data >> 0) & 1) as u16 ^ ((c >> 12) & 1) ^ ((c >> 8) & 1)) << 0)
        | ((((data >> 1) & 1) as u16 ^ ((c >> 13) & 1) ^ ((c >> 9) & 1)) << 1)
        | ((((data >> 2) & 1) as u16 ^ ((c >> 14) & 1) ^ ((c >> 10) & 1)) << 2)
        | ((((data >> 3) & 1) as u16 ^ ((c >> 15) & 1) ^ ((c >> 11) & 1)) << 3)
        | ((((data >> 4) & 1) as u16 ^ ((c >> 12) & 1)) << 4)
        | ((((data >> 5) & 1) as u16 ^ ((c >> 13) & 1) ^ ((c >> 12) & 1) ^ ((c >> 8) & 1)) << 5)
        | ((((data >> 6) & 1) as u16 ^ ((c >> 14) & 1) ^ ((c >> 13) & 1) ^ ((c >> 9) & 1)) << 6)
        | ((((data >> 7) & 1) as u16 ^ ((c >> 15) & 1) ^ ((c >> 14) & 1) ^ ((c >> 10) & 1)) << 7)
        | ((((c >> 0) & 1) ^ ((c >> 15) & 1) ^ ((c >> 11) & 1)) << 8)
        | ((((c >> 1) & 1) ^ ((c >> 12) & 1)) << 9)
        | ((((c >> 2) & 1) ^ ((c >> 13) & 1)) << 10)
        | ((((c >> 3) & 1) ^ ((c >> 14) & 1)) << 11)
        | ((((c >> 4) & 1) ^ ((c >> 15) & 1) ^ ((c >> 12) & 1) ^ ((c >> 8) & 1)) << 12)
        | ((((c >> 5) & 1) ^ ((c >> 13) & 1) ^ ((c >> 9) & 1)) << 13)
        | ((((c >> 6) & 1) ^ ((c >> 14) & 1) ^ ((c >> 10) & 1)) << 14)
        | ((((c >> 7) & 1) ^ ((c >> 15) & 1) ^ ((c >> 11) & 1)) << 15)
    );

    *crc = next;
}

/// CRC16 over the first `size` payload bytes, exactly as the chip's LoRa
/// modem computes it.
pub fn sx1302_lora_payload_crc(data: &Vec<u8>, size: usize) -> (r: u16)
    requires
        size <= data@.len(),
    ensures
        r == crc16_seq(data@.subrange(0, size as int)),
{
    let mut crc: u16 = 0;
    let mut i: usize = 0;
    proof {
        assert(data@.subrange(0, 0) =~= Seq::<u8>::empty());
    }
    while i < size
        invariant
            i <= size,
            size <= data@.len(),
            crc == crc16_seq(data@.subrange(0, i as int)),
        decreases size - i,
    {
        proof {
            let pre = data@.subrange(0, i as int);
            let post = data@.subrange(0, i as int + 1);
            assert(post.drop_last() =~= pre);
            assert(post.last() == data@[i as int]);
        }
        lora_crc16(data[i], &mut crc);
        i = i + 1;
    }
    crc
}

} // verus!
