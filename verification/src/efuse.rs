//! Efuse field arithmetic: where a field lives in the efuse controller's
//! register space, and how its bits are cut out of a register word. The
//! register reads themselves are memory-mapped I/O and happen outside the
//! library; these functions take and return plain values.

use vstd::prelude::*;

verus! {

/// Layout of a chip's efuse read registers: the address of block 0 and
/// each block's size in 32-bit words. Blocks are laid out back to back.
pub struct EfuseInfo {
    pub block0: u32,
    /// In words
    pub block_sizes: Vec<u32>,
}

/// Total number of words in the blocks before `block`.
pub open spec fn words_before(sizes: Seq<u32>, block: int) -> int
    decreases block,
{
    if block <= 0 {
        0
    } else {
        words_before(sizes, block - 1) + sizes[block - 1]
    }
}

/// Partial block sums only grow.
pub proof fn lemma_words_before_mono(sizes: Seq<u32>, i: int, j: int)
    requires
        0 <= i <= j <= sizes.len(),
    ensures
        words_before(sizes, i) <= words_before(sizes, j),
    decreases j,
{
    if i < j {
        lemma_words_before_mono(sizes, i, j - 1);
    }
}

/// Word sums are non-negative.
pub proof fn lemma_words_before_nonneg(sizes: Seq<u32>, i: int)
    ensures
        words_before(sizes, i) >= 0,
    decreases i,
{
    if i > 0 {
        lemma_words_before_nonneg(sizes, i - 1);
    }
}

/// Address of the register word that holds bit `bit_start` of efuse block
/// `block`.
pub fn field_address(info: &EfuseInfo, block: usize, bit_start: u32) -> (r: u32)
    requires
        block <= info.block_sizes@.len(),
        info.block0 + words_before(info.block_sizes@, block as int) * 4 + (bit_start / 32) * 4
            <= u32::MAX,
    ensures
        r == info.block0 + words_before(info.block_sizes@, block as int) * 4 + (bit_start / 32)
            * 4,
{
    let word_offset = bit_start / 32;

    let mut block_offset: u64 = 0;
    let mut k: usize = 0;
    proof {
        lemma_words_before_nonneg(info.block_sizes@, block as int);
    }
    #[verifier::loop_isolation(false)]
    while k < block
        invariant
            k <= block,
            block_offset == words_before(info.block_sizes@, k as int),
        decreases block - k,
    {
        proof {
            lemma_words_before_mono(info.block_sizes@, k + 1, block as int);
        }
        block_offset = block_offset + info.block_sizes[k] as u64;
        k += 1;
    }

    info.block0 + (block_offset as u32) * 4 + word_offset * 4
}

/// Cut a field of `bit_count` bits out of the register word that holds
/// it, given the field's absolute starting bit number.
pub fn extract_field(word: u32, bit_start: u32, bit_count: u32) -> (r: u8)
    requires
        bit_count <= 8,
    ensures
        r as u32 == (word >> (bit_start % 32)) & !(u32::MAX << bit_count),
{
    let bit_offset = bit_start % 32;

    let mask = !(u32::MAX << bit_count);

    let value = (word >> bit_offset) & mask;

    proof {
        assert(value < 256) by (bit_vector)
            requires
                value == (word >> (bit_start % 32)) & !(0xFFFF_FFFFu32 << bit_count),
                bit_count <= 8,
        ;
    }

    value as u8
}

/// The chip revision as the host tooling counts it: one hundred times the
/// major version plus the minor version.
pub fn read_chip_revision(major: u8, minor: u8) -> (r: u32)
    ensures
        r == major * 100 + minor,
{
    major as u32 * 100 + minor as u32
}

} // verus!
