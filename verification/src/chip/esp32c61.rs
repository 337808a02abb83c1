//! Constant tables and version decoding for one chip family member.

use vstd::prelude::*;

use crate::efuse::{extract_field, EfuseInfo};
use crate::flash::MemSpi;
use crate::rom::RomDataTable;

verus! {

/// Largest flash this chip can address.
pub fn max_flash_size() -> (r: u32)
    ensures
        r == 0x2000000,
{
    0x2000000
}

/// Size in bytes of one ROM data table entry.
pub fn rom_table_entry_size() -> (r: u32)
    ensures
        r == 12,
{
    12
}

/// The per-revision ROM data tables.
pub fn rom_data_tables() -> (r: Vec<RomDataTable>)
    ensures
        r@ == seq![
            (RomDataTable {
                min_revision: 0,
                data_start: 0x4003700C,
                data_end: 0x400371E0,
                bss_start: 0x400371E0,
                bss_end: 0x40037310,
            }),
            (RomDataTable {
                min_revision: 100,
                data_start: 0x40038A4C,
                data_end: 0x40038C38,
                bss_start: 0x40038C38,
                bss_end: 0x40038D78,
            }),
        ],
{
    let mut tables: Vec<RomDataTable> = Vec::new();
    tables.push(RomDataTable {
        min_revision: 0,
        data_start: 0x4003700C,
        data_end: 0x400371E0,
        bss_start: 0x400371E0,
        bss_end: 0x40037310,
    });
    tables.push(RomDataTable {
        min_revision: 100,
        data_start: 0x40038A4C,
        data_end: 0x40038C38,
        bss_start: 0x40038C38,
        bss_end: 0x40038D78,
    });
    proof {
        assert(tables@ =~= seq![
            (RomDataTable {
                min_revision: 0,
                data_start: 0x4003700C,
                data_end: 0x400371E0,
                bss_start: 0x400371E0,
                bss_end: 0x40037310,
            }),
            (RomDataTable {
                min_revision: 100,
                data_start: 0x40038A4C,
                data_end: 0x40038C38,
                bss_start: 0x40038C38,
                bss_end: 0x40038D78,
            }),
        ]);
    }
    tables
}

/// Layout of the efuse read registers.
pub fn efuse_info() -> (r: EfuseInfo)
    ensures
        r.block0 == 0x600B_4800 + 0x2C,
        r.block_sizes@ == seq![6u32, 6, 8, 8, 8, 8, 8, 8, 8, 8, 8],
{
    let mut block_sizes: Vec<u32> = Vec::new();
    block_sizes.push(6);
    block_sizes.push(6);
    block_sizes.push(8);
    block_sizes.push(8);
    block_sizes.push(8);
    block_sizes.push(8);
    block_sizes.push(8);
    block_sizes.push(8);
    block_sizes.push(8);
    block_sizes.push(8);
    block_sizes.push(8);
    proof {
        assert(block_sizes@ =~= seq![6u32, 6, 8, 8, 8, 8, 8, 8, 8, 8, 8]);
    }
    EfuseInfo { block0: 0x600B_4800 + 0x2C, block_sizes }
}

/// The SPI controller register block used to probe the flash id.
pub fn mem_spi() -> (r: MemSpi)
    ensures
        r == (MemSpi {
            base: 0x6000_3000,
            cmd: 0x00,
            addr: 0x04,
            ctrl: 0x08,
            user: 0x18,
            user1: 0x1C,
            user2: 0x20,
            miso_dlen: 0x28,
            data_buf_0: 0x58,
        }),
{
    MemSpi {
        base: 0x6000_3000,
        cmd: 0x00,
        addr: 0x04,
        ctrl: 0x08,
        user: 0x18,
        user1: 0x1C,
        user2: 0x20,
        miso_dlen: 0x28,
        data_buf_0: 0x58,
    }
}

/// This chip needs no CPU clock save and restore: set-up leaves the
/// clock configuration alone.
pub struct CpuSaveState {
}

impl CpuSaveState {
    pub fn new() -> (r: Self) {
        CpuSaveState {  }
    }

    pub fn set_max_cpu_clock(&mut self) {
    }

    pub fn restore(&self) {
    }
}

/// Major chip version, from efuse block 1, bits 68..70. Takes the
/// register word that holds those bits.
pub fn major_chip_version(word: u32) -> (r: u8)
    ensures
        r as u32 == (word >> 4) & !(u32::MAX << 2),
{
    extract_field(word, 68, 2)
}

/// Minor chip version, from efuse block 1, bits 64..68. Takes the
/// register word that holds those bits.
pub fn minor_chip_version(word: u32) -> (r: u8)
    ensures
        r as u32 == (word >> 0) & !(u32::MAX << 4),
{
    extract_field(word, 64, 4)
}

} // verus!
