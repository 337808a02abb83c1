//! Constant tables and version decoding for one chip family member.

use vstd::prelude::*;

use crate::efuse::{extract_field, EfuseInfo};
use crate::flash::MemSpi;
use crate::rom::RomDataTable;

verus! {

/// Largest flash this chip can address.
pub fn max_flash_size() -> (r: u32)
    ensures
        r == 0x40000000,
{
    0x40000000
}

/// Size in bytes of one ROM data table entry.
pub fn rom_table_entry_size() -> (r: u32)
    ensures
        r == 16,
{
    16
}

/// The per-revision ROM data tables.
pub fn rom_data_tables() -> (r: Vec<RomDataTable>)
    ensures
        r@ == seq![
            (RomDataTable {
                min_revision: 0,
                data_start: 0x40057354,
                data_end: 0x400575C4,
                bss_start: 0x400575D4,
                bss_end: 0x400577A8,
            }),
        ],
{
    let mut tables: Vec<RomDataTable> = Vec::new();
    tables.push(RomDataTable {
        min_revision: 0,
        data_start: 0x40057354,
        data_end: 0x400575C4,
        bss_start: 0x400575D4,
        bss_end: 0x400577A8,
    });
    proof {
        assert(tables@ =~= seq![
            (RomDataTable {
                min_revision: 0,
                data_start: 0x40057354,
                data_end: 0x400575C4,
                bss_start: 0x400575D4,
                bss_end: 0x400577A8,
            }),
        ]);
    }
    tables
}

/// Layout of the efuse read registers.
pub fn efuse_info() -> (r: EfuseInfo)
    ensures
        r.block0 == 0x6000_7000 + 0x2C,
        r.block_sizes@ == seq![6u32, 6, 8, 8, 8, 8, 8, 8, 8, 8, 8],
{
    let mut block_sizes: Vec<u32> = Vec::new();
    block_sizes.push(6);
    block_sizes.push(6);
    block_sizes.push(8);
    block_sizes.push(8);
    block_sizes.push(8);
    block_sizes.push(8);
    block_sizes.push(8);
    block_sizes.push(8);
    block_sizes.push(8);
    block_sizes.push(8);
    block_sizes.push(8);
    proof {
        assert(block_sizes@ =~= seq![6u32, 6, 8, 8, 8, 8, 8, 8, 8, 8, 8]);
    }
    EfuseInfo { block0: 0x6000_7000 + 0x2C, block_sizes }
}

/// The SPI controller register block used to probe the flash id.
pub fn mem_spi() -> (r: MemSpi)
    ensures
        r == (MemSpi {
            base: 0x6000_2000,
            cmd: 0x00,
            addr: 0x04,
            ctrl: 0x08,
            user: 0x18,
            user1: 0x1C,
            user2: 0x20,
            miso_dlen: 0x28,
            data_buf_0: 0x58,
        }),
{
    MemSpi {
        base: 0x6000_2000,
        cmd: 0x00,
        addr: 0x04,
        ctrl: 0x08,
        user: 0x18,
        user1: 0x1C,
        user2: 0x20,
        miso_dlen: 0x28,
        data_buf_0: 0x58,
    }
}

/// Saved CPU clock configuration, so tear-down can undo the switch to the
/// maximum CPU clock. The register reads and writes are memory-mapped I/O
/// done outside the library; these methods compute the values to write.
pub struct CpuSaveState {
    pub saved_cpu_per_conf_reg: u32,
    pub saved_sysclk_conf_reg: u32,
}

impl CpuSaveState {
    const SYSTEM_CPUPERIOD_SEL_M: u32 = 3;

    const SYSTEM_CPUPERIOD_MAX: u32 = 2;

    const SYSTEM_SOC_CLK_SEL_M: u32 = 3 << 10;

    const SYSTEM_SOC_CLK_MAX: u32 = 1 << 10;

    pub fn new() -> (r: Self)
        ensures
            r.saved_cpu_per_conf_reg == 0,
            r.saved_sysclk_conf_reg == 0,
    {
        CpuSaveState { saved_cpu_per_conf_reg: 0, saved_sysclk_conf_reg: 0 }
    }

    /// Record the current values of the two clock registers and give back
    /// the values that select the maximum CPU clock: first the
    /// system-clock value, then the CPU-period value, in the order they
    /// must be written. On chip revisions of 2 and later the switch
    /// crashes the chip, so nothing is to be written.
    pub fn set_max_cpu_clock(&mut self, cpu_per_conf_reg: u32, sysclk_conf_reg: u32, chip_revision: u32) -> (r: Option<(u32, u32)>)
        ensures
            final(self).saved_cpu_per_conf_reg == cpu_per_conf_reg,
            final(self).saved_sysclk_conf_reg == sysclk_conf_reg,
            chip_revision >= 2 ==> r is None,
            chip_revision < 2 ==> r == Some(
                (
                    (sysclk_conf_reg & !(3u32 << 10)) | (1u32 << 10),
                    (cpu_per_conf_reg & !3u32) | 2,
                ),
            ),
    {
        self.saved_cpu_per_conf_reg = cpu_per_conf_reg;
        self.saved_sysclk_conf_reg = sysclk_conf_reg;

        if chip_revision >= 2 {
            return None;
        }

        Some(
            (
                (sysclk_conf_reg & !Self::SYSTEM_SOC_CLK_SEL_M) | Self::SYSTEM_SOC_CLK_MAX,
                (cpu_per_conf_reg & !Self::SYSTEM_CPUPERIOD_SEL_M) | Self::SYSTEM_CPUPERIOD_MAX,
            ),
        )
    }

    /// The saved register values to write back on tear-down: first the
    /// system-clock value, then the CPU-period value.
    pub fn restore(&self) -> (r: (u32, u32))
        ensures
            r.0 == self.saved_sysclk_conf_reg,
            r.1 == self.saved_cpu_per_conf_reg,
    {
        (self.saved_sysclk_conf_reg, self.saved_cpu_per_conf_reg)
    }
}

/// Major chip version, from efuse block 1, bits 184..186. Takes the
/// register word that holds those bits.
pub fn major_chip_version(word: u32) -> (r: u8)
    ensures
        r as u32 == (word >> 24) & !(u32::MAX << 2),
{
    extract_field(word, 184, 2)
}

/// Minor chip version: low bits from efuse block 1, bits 114..117, high
/// bit from bit 183. Takes the two register words that hold them.
pub fn minor_chip_version(word_lo: u32, word_hi: u32) -> (r: u8)
    ensures
        r as u32 == (((word_hi >> 23) & !(u32::MAX << 1)) << 3) | ((word_lo >> 18) & !(u32::MAX
            << 3)),
{
    let lo = extract_field(word_lo, 114, 3);
    let hi = extract_field(word_hi, 183, 1);

    proof {
        assert(lo < 8) by (bit_vector)
            requires
                lo as u32 == (word_lo >> (114u32 % 32)) & !(0xFFFF_FFFFu32 << 3),
        ;
        assert(hi < 2) by (bit_vector)
            requires
                hi as u32 == (word_hi >> (183u32 % 32)) & !(0xFFFF_FFFFu32 << 1),
        ;
    }

    let v: u32 = ((hi as u32) << 3) | (lo as u32);
    proof {
        assert(v < 256) by (bit_vector)
            requires
                v == ((hi as u32) << 3) | (lo as u32),
                hi < 2,
                lo < 8,
        ;
    }
    v as u8
}

} // verus!
