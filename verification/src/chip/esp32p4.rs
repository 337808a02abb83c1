//! Constant tables and version decoding for one chip family member.

use vstd::prelude::*;

use crate::efuse::{extract_field, EfuseInfo};
use crate::rom::RomDataTable;

verus! {

/// Largest flash this chip can address.
pub fn max_flash_size() -> (r: u32)
    ensures
        r == 0x4000000,
{
    0x4000000
}

/// Size in bytes of one ROM data table entry.
pub fn rom_table_entry_size() -> (r: u32)
    ensures
        r == 12,
{
    12
}

/// The per-revision ROM data tables.
pub fn rom_data_tables() -> (r: Vec<RomDataTable>)
    ensures
        r@ == seq![
            (RomDataTable {
                min_revision: 100,
                data_start: 0x4FC1BEC8,
                data_end: 0x4FC1C054,
                bss_start: 0x4FC1C054,
                bss_end: 0x4FC1C154,
            }),
            (RomDataTable {
                min_revision: 300,
                data_start: 0x4FC1C860,
                data_end: 0x4FC1C9EC,
                bss_start: 0x4FC1C9EC,
                bss_end: 0x4FC1CAEC,
            }),
        ],
{
    let mut tables: Vec<RomDataTable> = Vec::new();
    tables.push(RomDataTable {
        min_revision: 100,
        data_start: 0x4FC1BEC8,
        data_end: 0x4FC1C054,
        bss_start: 0x4FC1C054,
        bss_end: 0x4FC1C154,
    });
    tables.push(RomDataTable {
        min_revision: 300,
        data_start: 0x4FC1C860,
        data_end: 0x4FC1C9EC,
        bss_start: 0x4FC1C9EC,
        bss_end: 0x4FC1CAEC,
    });
    proof {
        assert(tables@ =~= seq![
            (RomDataTable {
                min_revision: 100,
                data_start: 0x4FC1BEC8,
                data_end: 0x4FC1C054,
                bss_start: 0x4FC1C054,
                bss_end: 0x4FC1C154,
            }),
            (RomDataTable {
                min_revision: 300,
                data_start: 0x4FC1C860,
                data_end: 0x4FC1C9EC,
                bss_start: 0x4FC1C9EC,
                bss_end: 0x4FC1CAEC,
            }),
        ]);
    }
    tables
}

/// Layout of the efuse read registers.
pub fn efuse_info() -> (r: EfuseInfo)
    ensures
        r.block0 == 0x5012_D000 + 0x2C,
        r.block_sizes@ == seq![6u32, 6, 8, 8, 8, 8, 8, 8, 8, 8, 8],
{
    let mut block_sizes: Vec<u32> = Vec::new();
    block_sizes.push(6);
    block_sizes.push(6);
    block_sizes.push(8);
    block_sizes.push(8);
    block_sizes.push(8);
    block_sizes.push(8);
    block_sizes.push(8);
    block_sizes.push(8);
    block_sizes.push(8);
    block_sizes.push(8);
    block_sizes.push(8);
    proof {
        assert(block_sizes@ =~= seq![6u32, 6, 8, 8, 8, 8, 8, 8, 8, 8, 8]);
    }
    EfuseInfo { block0: 0x5012_D000 + 0x2C, block_sizes }
}

/// Major chip version: low bits from efuse block 1, bits 68..70, high
/// bit from bit 87. Both sit in the same register word.
pub fn major_chip_version(word: u32) -> (r: u8)
    ensures
        r as u32 == (((word >> 23) & !(u32::MAX << 1)) << 2) | ((word >> 4) & !(u32::MAX << 2)),
{
    let lo = extract_field(word, 68, 2);
    let hi = extract_field(word, 87, 1);

    proof {
        assert(lo < 4) by (bit_vector)
            requires
                lo as u32 == (word >> (68u32 % 32)) & !(0xFFFF_FFFFu32 << 2),
        ;
        assert(hi < 2) by (bit_vector)
            requires
                hi as u32 == (word >> (87u32 % 32)) & !(0xFFFF_FFFFu32 << 1),
        ;
    }

    let v: u32 = ((hi as u32) << 2) | (lo as u32);
    proof {
        assert(v < 256) by (bit_vector)
            requires
                v == ((hi as u32) << 2) | (lo as u32),
                hi < 2,
                lo < 4,
        ;
    }
    v as u8
}

/// Minor chip version, from efuse block 1, bits 64..68. Takes the
/// register word that holds those bits.
pub fn minor_chip_version(word: u32) -> (r: u8)
    ensures
        r as u32 == (word >> 0) & !(u32::MAX << 4),
{
    extract_field(word, 64, 4)
}

} // verus!
