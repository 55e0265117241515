use vstd::prelude::*;

pub mod aac_audio_specific_config;
pub mod dec_config_descriptor;
pub mod es_descriptor;
pub mod sl_config_descriptor;

verus! {

// Object descriptors, ISO/IEC 14496-1; 7.2.2

/// The class tags of the descriptors the library reads and writes.
#[derive(Debug, PartialEq, Eq, Structural, Clone, Copy)]
pub enum DescriptorTags {
    ES_DESC,
    DECODER_CONFIG_DESC,
    DEC_SPECIFIC_INFO,
    SL_CONFIG_DESC,
}

impl DescriptorTags {
    pub open spec fn spec_value(&self) -> u8 {
        match self {
            DescriptorTags::ES_DESC => 0x03,
            DescriptorTags::DECODER_CONFIG_DESC => 0x04,
            DescriptorTags::DEC_SPECIFIC_INFO => 0x05,
            DescriptorTags::SL_CONFIG_DESC => 0x06,
        }
    }

    pub fn value(&self) -> (v: u8)
        ensures
            v == self.spec_value(),
    {
        match self {
            DescriptorTags::ES_DESC => 0x03,
            DescriptorTags::DECODER_CONFIG_DESC => 0x04,
            DescriptorTags::DEC_SPECIFIC_INFO => 0x05,
            DescriptorTags::SL_CONFIG_DESC => 0x06,
        }
    }
}

/// The size of the descriptor whose tag is at `i`: up to four bytes after
/// the tag, seven bits each, the high bit saying that another follows.
/// Gives the size and where the payload starts, reading from the `k`-th
/// size byte with `acc` read so far; `None` when the bytes end first.
pub open spec fn spec_descriptor_size(s: Seq<u8>, i: int, k: int, acc: nat) -> Option<(nat, int)>
    decreases 4 - k,
{
    if k < 0 || k >= 4 || i + 1 + k >= s.len() || i < 0 {
        None
    } else {
        let b = s[i + 1 + k];
        let acc2 = (acc * 128 + (b & 0x7Fu8)) as nat;
        if b & 0x80u8 != 0 && k < 3 {
            spec_descriptor_size(s, i, k + 1, acc2)
        } else {
            Some((acc2, i + 2 + k))
        }
    }
}

/// Where the first descriptor with the given tag lies, walking the
/// descriptors that follow one another from `i`: its tag and its end.
pub open spec fn spec_find_descriptor(s: Seq<u8>, tag: u8, i: int) -> Option<(int, int)>
    decreases s.len() - i,
{
    if i < 0 || i >= s.len() {
        None
    } else {
        match spec_descriptor_size(s, i, 0, 0) {
            None => None,
            Some((size, start)) => if start + size > s.len() {
                None
            } else if s[i] == tag {
                Some((i, start + size))
            } else {
                proof {
                    crate::util::bit_reader::lemma_two_pow_64();
                    lemma_size_bound(s, i, 0, 0);
                }
                spec_find_descriptor(s, tag, start + size)
            },
        }
    }
}

/// A size takes at most four bytes and is below 2^28.
pub proof fn lemma_size_bound(s: Seq<u8>, i: int, k: int, acc: nat)
    requires
        0 <= k < 4,
        acc < crate::util::bit_reader::two_pow((7 * k) as nat),
    ensures
        spec_descriptor_size(s, i, k, acc) matches Some((size, start)) ==> size < 0x1000_0000
            && start <= i + 5 && start >= i + 2 && start <= s.len(),
    decreases 4 - k,
{
    if !(k < 0 || k >= 4 || i + 1 + k >= s.len() || i < 0) {
        let b = s[i + 1 + k];
        let acc2 = (acc * 128 + (b & 0x7Fu8)) as nat;
        assert(b & 0x7Fu8 < 128) by (bit_vector);
        crate::util::bit_reader::lemma_two_pow_64();
        lemma_two_pow_step((7 * k) as nat);
        assert(acc2 < crate::util::bit_reader::two_pow((7 * (k + 1)) as nat)) by (nonlinear_arith)
            requires
                acc2 == acc * 128 + (b & 0x7Fu8),
                b & 0x7Fu8 < 128,
                acc < crate::util::bit_reader::two_pow((7 * k) as nat),
                crate::util::bit_reader::two_pow((7 * (k + 1)) as nat) == crate::util::bit_reader::two_pow(
                    (7 * k) as nat,
                ) * 128,
        ;
        if b & 0x80u8 != 0 && k < 3 {
            lemma_size_bound(s, i, k + 1, acc2);
        } else {
            assert(crate::util::bit_reader::two_pow((7 * (k + 1)) as nat) <= 0x1000_0000) by {
                crate::util::bit_reader::lemma_two_pow_monotone((7 * (k + 1)) as nat, 28);
                crate::util::bit_reader::lemma_two_pow_64();
            }
        }
    }
}

/// Seven more bits multiply by 128.
pub proof fn lemma_two_pow_step(n: nat)
    ensures
        crate::util::bit_reader::two_pow(n + 7) == crate::util::bit_reader::two_pow(n) * 128,
{
    reveal_with_fuel(crate::util::bit_reader::two_pow, 8);
}

/// A descriptor that is found lies within the bytes, from where the walk
/// started on.
pub proof fn lemma_find_descriptor_bounds(s: Seq<u8>, tag: u8, i: int)
    ensures
        spec_find_descriptor(s, tag, i) matches Some((a, b)) ==> i <= a < b <= s.len() && s[a]
            == tag,
    decreases s.len() - i,
{
    if 0 <= i < s.len() {
        crate::util::bit_reader::lemma_two_pow_64();
        lemma_size_bound(s, i, 0, 0);
        if let Some((size, start)) = spec_descriptor_size(s, i, 0, 0) {
            if start + size <= s.len() && s[i] != tag {
                lemma_find_descriptor_bounds(s, tag, start + size);
            }
        }
    }
}

/// The size of the descriptor at `i` and where its payload starts.
fn read_descriptor_size(data: &[u8], i: usize) -> (r: Option<(usize, usize)>)
    ensures
        match spec_descriptor_size(data@, i as int, 0, 0) {
            None => r is None,
            Some((size, start)) => r == Some((size as usize, start as usize)) && size
                < 0x1000_0000 && i + 2 <= start <= i + 5 && start <= data@.len(),
        },
{
    proof {
        crate::util::bit_reader::lemma_two_pow_64();
        lemma_size_bound(data@, i as int, 0, 0);
    }
    let mut k: usize = 0;
    let mut acc: usize = 0;
    if i >= data.len() {
        return None;
    }
    while k < 4
        invariant
            k < 4 || k == 4,
            i < data@.len(),
            acc < crate::util::bit_reader::two_pow((7 * k) as nat),
            k <= 3,
            spec_descriptor_size(data@, i as int, 0, 0) == spec_descriptor_size(
                data@,
                i as int,
                k as int,
                acc as nat,
            ),
        decreases 4 - k,
    {
        proof {
            crate::util::bit_reader::lemma_two_pow_monotone((7 * k) as nat, 21);
            crate::util::bit_reader::lemma_two_pow_64();
            lemma_size_bound(data@, i as int, k as int, acc as nat);
        }
        if data.len() - i <= 1 + k {
            return None;
        }
        let b = data[i + 1 + k];
        assert(b & 0x7Fu8 < 128) by (bit_vector);
        let acc2 = acc * 128 + (b & 0x7F) as usize;
        if b & 0x80 != 0 && k < 3 {
            proof {
                lemma_two_pow_step((7 * k) as nat);
                assert(acc2 < crate::util::bit_reader::two_pow((7 * (k + 1)) as nat)) by (nonlinear_arith)
                    requires
                        acc2 == acc * 128 + (b & 0x7Fu8),
                        b & 0x7Fu8 < 128,
                        acc < crate::util::bit_reader::two_pow((7 * k) as nat),
                        crate::util::bit_reader::two_pow((7 * (k + 1)) as nat)
                            == crate::util::bit_reader::two_pow((7 * k) as nat) * 128,
                ;
            }
            acc = acc2;
            k = k + 1;
        } else {
            return Some((acc2, i + 2 + k));
        }
    }
    None
}

/// The bytes of the first descriptor with the given tag, walking the
/// descriptors that follow one another from `offset`, from the tag to the
/// end of the payload.
pub fn find_descriptor<'a>(tag: DescriptorTags, offset: usize, data: &'a [u8]) -> (r: Option<
    &'a [u8],
>)
    ensures
        match spec_find_descriptor(data@, tag.spec_value(), offset as int) {
            Some((a, b)) => r matches Some(d) && d@ == data@.subrange(a, b),
            None => r is None,
        },
{
    let t = tag.value();
    let mut i = offset;
    while i < data.len()
        invariant
            t == tag.spec_value(),
            spec_find_descriptor(data@, t, offset as int) == spec_find_descriptor(
                data@,
                t,
                i as int,
            ),
        decreases data@.len() - i,
    {
        let (size, start) = match read_descriptor_size(data, i) {
            None => {
                return None;
            },
            Some(v) => v,
        };
        if size > data.len() - start {
            return None;
        }
        let end = start + size;
        if data[i] == t {
            return Some(&data[i..end]);
        }
        i = end;
    }
    None
}

} // verus!
