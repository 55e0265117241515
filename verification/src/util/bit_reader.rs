use vstd::prelude::*;
use vstd::string::StringExecFns;

use crate::error::error_code::{MajorCode, UtilMinorCode};
use crate::error::{construct_error, CustomError};

verus! {

/// `2` to the power `n`.
pub open spec fn two_pow(n: nat) -> nat
    decreases n,
{
    if n == 0 {
        1
    } else {
        2 * two_pow((n - 1) as nat)
    }
}

/// The bit at bit position `i` of `s`, counting from the most significant bit
/// of the first byte.
pub open spec fn bit_at(s: Seq<u8>, i: int) -> nat {
    ((s[i / 8] >> ((7 - i % 8) as u8)) & 1u8) as nat
}

/// The number written by the `n` bits of `s` that start at bit position `pos`,
/// most significant bit first.
pub open spec fn bits_value(s: Seq<u8>, pos: int, n: nat) -> nat
    decreases n,
{
    if n == 0 {
        0
    } else {
        2 * bits_value(s, pos, (n - 1) as nat) + bit_at(s, pos + n - 1)
    }
}

/// The number of zero bits of `s` from bit position `pos` up to the first one
/// bit or the end of `s`.
pub open spec fn zero_run(s: Seq<u8>, pos: int) -> nat
    decreases 8 * s.len() - pos,
{
    if pos < 0 || pos >= 8 * s.len() {
        0
    } else if bit_at(s, pos) == 1 {
        0
    } else {
        1 + zero_run(s, pos + 1)
    }
}

/// Reading `n` bits at `pos`: the value and the position after it, or `None`
/// when fewer than `n` bits are left.
pub open spec fn spec_read_bits(s: Seq<u8>, pos: int, n: nat) -> Option<(nat, int)> {
    if 0 <= pos && pos + n <= 8 * s.len() {
        Some((bits_value(s, pos, n), pos + n))
    } else {
        None
    }
}

/// Reading an unsigned Exp-Golomb code at `pos` (ITU-T H.264, 9.1): `z` zero
/// bits, a one bit and `z` more bits `b` give `2^z - 1 + b`. `None` when the
/// bits run out or `z` is above 31.
pub open spec fn spec_read_ue(s: Seq<u8>, pos: int) -> Option<(nat, int)> {
    let z = zero_run(s, pos);
    if pos < 0 || pos + 2 * z + 1 > 8 * s.len() || z > 31 {
        None
    } else {
        Some(((two_pow(z) - 1 + bits_value(s, pos + z + 1, z)) as nat, pos + 2 * z + 1))
    }
}

pub proof fn lemma_two_pow_positive(n: nat)
    ensures
        two_pow(n) >= 1,
    decreases n,
{
    if n > 0 {
        lemma_two_pow_positive((n - 1) as nat);
    }
}

pub proof fn lemma_two_pow_monotone(a: nat, b: nat)
    requires
        a <= b,
    ensures
        two_pow(a) <= two_pow(b),
    decreases b,
{
    if a < b {
        lemma_two_pow_monotone(a, (b - 1) as nat);
    }
}

/// Eight more bits multiply by 256.
pub proof fn lemma_two_pow_step8(n: nat)
    ensures
        two_pow(n + 8) == two_pow(n) * 256,
{
    reveal_with_fuel(two_pow, 9);
}

pub proof fn lemma_two_pow_64()
    ensures
        two_pow(1) == 2,
        two_pow(2) == 4,
        two_pow(3) == 8,
        two_pow(4) == 16,
        two_pow(7) == 128,
        two_pow(8) == 256,
        two_pow(11) == 2048,
        two_pow(13) == 8192,
        two_pow(14) == 16384,
        two_pow(16) == 65536,
        two_pow(21) == 0x20_0000,
        two_pow(28) == 0x1000_0000,
        two_pow(31) == 0x8000_0000,
        two_pow(32) == 0x1_0000_0000,
        two_pow(64) == 0x1_0000_0000_0000_0000,
{
    reveal_with_fuel(two_pow, 9);
    assert(two_pow(5) == 32);
    assert(two_pow(6) == 64);
    assert(two_pow(7) == 128);
    assert(two_pow(8) == 256);
    lemma_two_pow_step8(3);
    lemma_two_pow_step8(5);
    lemma_two_pow_step8(6);
    lemma_two_pow_step8(7);
    lemma_two_pow_step8(8);
    lemma_two_pow_step8(13);
    lemma_two_pow_step8(4);
    lemma_two_pow_step8(12);
    lemma_two_pow_step8(20);
    lemma_two_pow_step8(15);
    lemma_two_pow_step8(23);
    lemma_two_pow_step8(16);
    lemma_two_pow_step8(24);
    lemma_two_pow_step8(32);
    lemma_two_pow_step8(40);
    lemma_two_pow_step8(48);
    lemma_two_pow_step8(56);
}

pub proof fn lemma_bit_at_bound(s: Seq<u8>, i: int)
    ensures
        bit_at(s, i) <= 1,
{
    let b = s[i / 8];
    let sh = (7 - i % 8) as u8;
    assert((b >> sh) & 1u8 <= 1u8) by (bit_vector);
}

/// `n` bits never write more than `2^n - 1`.
pub proof fn lemma_bits_value_bound(s: Seq<u8>, pos: int, n: nat)
    ensures
        bits_value(s, pos, n) < two_pow(n),
    decreases n,
{
    if n > 0 {
        lemma_bits_value_bound(s, pos, (n - 1) as nat);
        lemma_bit_at_bound(s, pos + n - 1);
    }
}

/// A reader of the bits of a byte slice, most significant bit first.
pub struct BitReader<'a> {
    data: &'a [u8],
    byte_index: usize,
    bit_index: u8,
}

impl<'a> BitReader<'a> {
    /// The bytes being read.
    pub closed spec fn bytes(&self) -> Seq<u8> {
        self.data@
    }

    /// The bit position of the next read.
    pub closed spec fn position(&self) -> int {
        8 * self.byte_index + self.bit_index
    }

    pub closed spec fn wf(&self) -> bool {
        &&& self.byte_index <= self.data@.len()
        &&& self.bit_index < 8
        &&& self.byte_index == self.data@.len() ==> self.bit_index == 0
    }

    pub fn create_bit_reader(data: &'a [u8]) -> (r: BitReader<'a>)
        ensures
            r.wf(),
            r.bytes() == data@,
            r.position() == 0,
    {
        BitReader { data, byte_index: 0, bit_index: 0 }
    }

    fn read_bit(&mut self) -> (b: u8)
        requires
            old(self).wf(),
            old(self).position() < 8 * old(self).bytes().len(),
        ensures
            final(self).wf(),
            final(self).bytes() == old(self).bytes(),
            final(self).position() == old(self).position() + 1,
            b as nat == bit_at(old(self).bytes(), old(self).position()),
            b <= 1,
    {
        let byte = self.data[self.byte_index];
        let shift = 7 - self.bit_index;
        let b = (byte >> shift) & 1u8;
        proof {
            let p = self.position();
            assert(p / 8 == self.byte_index as int);
            assert(p % 8 == self.bit_index as int);
            assert((byte >> shift) & 1u8 <= 1u8) by (bit_vector);
        }
        if self.bit_index == 7 {
            self.bit_index = 0;
            self.byte_index = self.byte_index + 1;
        } else {
            self.bit_index = self.bit_index + 1;
        }
        b
    }

    /// Reads `n` bits as an unsigned number; an error, with the position
    /// unchanged, when fewer than `n` bits are left.
    pub fn read_bits(&mut self, n: usize) -> (r: Result<u64, CustomError>)
        requires
            old(self).wf(),
            n <= 64,
        ensures
            final(self).wf(),
            final(self).bytes() == old(self).bytes(),
            match spec_read_bits(old(self).bytes(), old(self).position(), n as nat) {
                Some((v, p)) => r == Ok::<u64, CustomError>(v as u64) && final(self).position() == p
                    && v < two_pow(n as nat),
                None => r is Err && final(self).position() == old(self).position(),
            },
            r matches Err(e) ==> e.major == MajorCode::UTIL && e.minor == 1,
    {
        let left_bytes = (self.data.len() - self.byte_index) as u128;
        if (n as u128) + (self.bit_index as u128) > left_bytes * 8 {
            return Err(
                construct_error(
                    MajorCode::UTIL,
                    UtilMinorCode::PARSING_BIT_READER_ERROR,
                    String::from_str("Not enough bits left to read"),
                ),
            );
        }
        let ghost start = self.position();
        let ghost s = self.bytes();
        let mut v: u64 = 0;
        let mut i: usize = 0;
        while i < n
            invariant
                self.wf(),
                self.bytes() == s,
                0 <= start,
                start + n <= 8 * s.len(),
                i <= n,
                n <= 64,
                self.position() == start + i,
                v as nat == bits_value(s, start, i as nat),
                (v as nat) < two_pow(i as nat),
            decreases n - i,
        {
            let b = self.read_bit();
            proof {
                lemma_bits_value_bound(s, start, (i + 1) as nat);
                lemma_two_pow_monotone((i + 1) as nat, 64);
                lemma_two_pow_64();
            }
            v = v * 2 + b as u64;
            i = i + 1;
        }
        Ok(v)
    }

    /// Reads an unsigned Exp-Golomb code (ITU-T H.264, 9.1).
    pub fn unsigned_exp_golomb(&mut self) -> (r: Result<usize, CustomError>)
        requires
            old(self).wf(),
        ensures
            final(self).wf(),
            final(self).bytes() == old(self).bytes(),
            match spec_read_ue(old(self).bytes(), old(self).position()) {
                Some((v, p)) => r == Ok::<usize, CustomError>(v as usize) && final(self).position()
                    == p,
                None => r is Err,
            },
            r matches Err(e) ==> e.major == MajorCode::UTIL && e.minor == 1,
    {
        let ghost start = self.position();
        let ghost s = self.bytes();
        let mut zeros: usize = 0;
        let mut power: u64 = 1;
        loop
            invariant_except_break
                self.position() == start + zeros,
                zero_run(s, start) == zeros + zero_run(s, start + zeros),
            invariant
                self.wf(),
                self.bytes() == s,
                s == old(self).bytes(),
                start == old(self).position(),
                0 <= start,
                zeros <= 31,
                power as nat == two_pow(zeros as nat),
            ensures
                self.position() == start + zeros + 1,
                zero_run(s, start) == zeros,
            decreases 8 * s.len() - self.position(),
        {
            if self.byte_index == self.data.len() {
                proof {
                    assert(zero_run(s, start + zeros) == 0);
                }
                return Err(
                    construct_error(
                        MajorCode::UTIL,
                        UtilMinorCode::PARSING_BIT_READER_ERROR,
                        String::from_str("Exp-Golomb code runs past the end"),
                    ),
                );
            }
            let b = self.read_bit();
            if b == 1 {
                proof {
                    assert(zero_run(s, start + zeros) == 0);
                }
                break ;
            }
            if zeros == 31 {
                proof {
                    assert(zero_run(s, start + 31) == 1 + zero_run(s, start + 32));
                }
                return Err(
                    construct_error(
                        MajorCode::UTIL,
                        UtilMinorCode::PARSING_BIT_READER_ERROR,
                        String::from_str("Exp-Golomb code is too long"),
                    ),
                );
            }
            proof {
                lemma_two_pow_monotone(zeros as nat, 31);
                lemma_two_pow_64();
            }
            zeros = zeros + 1;
            power = power * 2;
        }
        let rest = self.read_bits(zeros);
        match rest {
            Ok(rest) => {
                proof {
                    lemma_bits_value_bound(s, start + zeros + 1, zeros as nat);
                    lemma_two_pow_monotone(zeros as nat, 31);
                    lemma_two_pow_64();
                }
                Ok((power - 1 + rest) as usize)
            },
            Err(e) => Err(e),
        }
    }
}

} // verus!
