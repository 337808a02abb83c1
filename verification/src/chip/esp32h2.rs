//! Constant tables and version decoding for one chip family member.

use vstd::prelude::*;

use crate::efuse::{extract_field, EfuseInfo};
use crate::flash::MemSpi;
use crate::rom::RomDataTable;

verus! {

/// Largest flash this chip can address.
pub fn max_flash_size() -> (r: u32)
    ensures
        r == 0x1000000,
{
    0x1000000
}

/// Size in bytes of one ROM data table entry.
pub fn rom_table_entry_size() -> (r: u32)
    ensures
        r == 12,
{
    12
}

/// The per-revision ROM data tables.
pub fn rom_data_tables() -> (r: Vec<RomDataTable>)
    ensures
        r@ == seq![
            (RomDataTable {
                min_revision: 0,
                data_start: 0x4001A18C,
                data_end: 0x4001A318,
                bss_start: 0x4001A318,
                bss_end: 0x4001A418,
            }),
        ],
{
    let mut tables: Vec<RomDataTable> = Vec::new();
    tables.push(RomDataTable {
        min_revision: 0,
        data_start: 0x4001A18C,
        data_end: 0x4001A318,
        bss_start: 0x4001A318,
        bss_end: 0x4001A418,
    });
    proof {
        assert(tables@ =~= seq![
            (RomDataTable {
                min_revision: 0,
                data_start: 0x4001A18C,
                data_end: 0x4001A318,
                bss_start: 0x4001A318,
                bss_end: 0x4001A418,
            }),
        ]);
    }
    tables
}

/// Layout of the efuse read registers.
pub fn efuse_info() -> (r: EfuseInfo)
    ensures
        r.block0 == 0x600B_0800 + 0x2C,
        r.block_sizes@ == seq![6u32, 6, 8, 8, 8, 8, 8, 8, 8, 8, 8],
{
    let mut block_sizes: Vec<u32> = Vec::new();
    block_sizes.push(6);
    block_sizes.push(6);
    block_sizes.push(8);
    block_sizes.push(8);
    block_sizes.push(8);
    block_sizes.push(8);
    block_sizes.push(8);
    block_sizes.push(8);
    block_sizes.push(8);
    block_sizes.push(8);
    block_sizes.push(8);
    proof {
        assert(block_sizes@ =~= seq![6u32, 6, 8, 8, 8, 8, 8, 8, 8, 8, 8]);
    }
    EfuseInfo { block0: 0x600B_0800 + 0x2C, block_sizes }
}

/// The SPI controller register block used to probe the flash id.
pub fn mem_spi() -> (r: MemSpi)
    ensures
        r == (MemSpi {
            base: 0x6000_3000,
            cmd: 0x00,
            addr: 0x04,
            ctrl: 0x08,
            user: 0x18,
            user1: 0x1C,
            user2: 0x20,
            miso_dlen: 0x28,
            data_buf_0: 0x58,
        }),
{
    MemSpi {
        base: 0x6000_3000,
        cmd: 0x00,
        addr: 0x04,
        ctrl: 0x08,
        user: 0x18,
        user1: 0x1C,
        user2: 0x20,
        miso_dlen: 0x28,
        data_buf_0: 0x58,
    }
}

/// Saved CPU clock configuration, so tear-down can undo the switch to the
/// maximum CPU clock. The register reads and writes are memory-mapped I/O
/// done outside the library; these methods compute the values to write.
pub struct CpuSaveState {
    pub saved_sysclk_conf_reg: u32,
}

impl CpuSaveState {
    const PCR_SOC_CLK_SEL_M: u32 = 3 << 16;

    const PCR_SOC_CLK_MAX: u32 = 1 << 16;

    pub fn new() -> (r: Self)
        ensures
            r.saved_sysclk_conf_reg == 0,
    {
        CpuSaveState { saved_sysclk_conf_reg: 0 }
    }

    /// Record the current value of the system-clock configuration
    /// register and give back the value that selects the maximum CPU
    /// clock.
    pub fn set_max_cpu_clock(&mut self, sysclk_conf_reg: u32) -> (r: u32)
        ensures
            final(self).saved_sysclk_conf_reg == sysclk_conf_reg,
            r == (sysclk_conf_reg & !(3u32 << 16)) | (1u32 << 16),
    {
        self.saved_sysclk_conf_reg = sysclk_conf_reg;

        (sysclk_conf_reg & !Self::PCR_SOC_CLK_SEL_M) | Self::PCR_SOC_CLK_MAX
    }

    /// The saved register value to write back on tear-down.
    pub fn restore(&self) -> (r: u32)
        ensures
            r == self.saved_sysclk_conf_reg,
    {
        self.saved_sysclk_conf_reg
    }
}

/// Major chip version, from efuse block 1, bits 117..119. Takes the
/// register word that holds those bits.
pub fn major_chip_version(word: u32) -> (r: u8)
    ensures
        r as u32 == (word >> 21) & !(u32::MAX << 2),
{
    extract_field(word, 117, 2)
}

/// Minor chip version, from efuse block 1, bits 114..117. Takes the
/// register word that holds those bits.
pub fn minor_chip_version(word: u32) -> (r: u8)
    ensures
        r as u32 == (word >> 18) & !(u32::MAX << 3),
{
    extract_field(word, 114, 3)
}

} // verus!
