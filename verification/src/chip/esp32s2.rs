//! Constant tables and version decoding for one chip family member.

use vstd::prelude::*;

use crate::efuse::{extract_field, EfuseInfo};
use crate::rom::RomDataTable;

verus! {

/// Largest flash this chip can address.
pub fn max_flash_size() -> (r: u32)
    ensures
        r == 0x40000000,
{
    0x40000000
}

/// Size in bytes of one ROM data table entry.
pub fn rom_table_entry_size() -> (r: u32)
    ensures
        r == 12,
{
    12
}

/// The per-revision ROM data tables.
pub fn rom_data_tables() -> (r: Vec<RomDataTable>)
    ensures
        r@ == seq![
            (RomDataTable {
                min_revision: 0,
                data_start: 0x4001BD64,
                data_end: 0x4001BE34,
                bss_start: 0x4001BE34,
                bss_end: 0x4001BED0,
            }),
        ],
{
    let mut tables: Vec<RomDataTable> = Vec::new();
    tables.push(RomDataTable {
        min_revision: 0,
        data_start: 0x4001BD64,
        data_end: 0x4001BE34,
        bss_start: 0x4001BE34,
        bss_end: 0x4001BED0,
    });
    proof {
        assert(tables@ =~= seq![
            (RomDataTable {
                min_revision: 0,
                data_start: 0x4001BD64,
                data_end: 0x4001BE34,
                bss_start: 0x4001BE34,
                bss_end: 0x4001BED0,
            }),
        ]);
    }
    tables
}

/// Layout of the efuse read registers.
pub fn efuse_info() -> (r: EfuseInfo)
    ensures
        r.block0 == 0x3F41_A000 + 0x2C,
        r.block_sizes@ == seq![6u32, 6, 8, 8, 8, 8, 8, 8, 8, 8, 8],
{
    let mut block_sizes: Vec<u32> = Vec::new();
    block_sizes.push(6);
    block_sizes.push(6);
    block_sizes.push(8);
    block_sizes.push(8);
    block_sizes.push(8);
    block_sizes.push(8);
    block_sizes.push(8);
    block_sizes.push(8);
    block_sizes.push(8);
    block_sizes.push(8);
    block_sizes.push(8);
    proof {
        assert(block_sizes@ =~= seq![6u32, 6, 8, 8, 8, 8, 8, 8, 8, 8, 8]);
    }
    EfuseInfo { block0: 0x3F41_A000 + 0x2C, block_sizes }
}

/// Saved CPU clock configuration, so tear-down can undo the switch to the
/// maximum CPU clock. The register reads and writes are memory-mapped I/O
/// done outside the library; these methods compute the values to write.
pub struct CpuSaveState {
    pub saved_cpu_per_conf_reg: u32,
    pub saved_sysclk_conf_reg: u32,
}

impl CpuSaveState {
    const SYSTEM_CPUPERIOD_SEL_M: u32 = 3;

    const SYSTEM_CPUPERIOD_MAX: u32 = 2;

    const SYSTEM_SOC_CLK_SEL_M: u32 = 3 << 10;

    const SYSTEM_SOC_CLK_MAX: u32 = 1 << 10;

    pub fn new() -> (r: Self)
        ensures
            r.saved_cpu_per_conf_reg == 0,
            r.saved_sysclk_conf_reg == 0,
    {
        CpuSaveState { saved_cpu_per_conf_reg: 0, saved_sysclk_conf_reg: 0 }
    }

    /// Record the current values of the CPU-period and system-clock
    /// configuration registers and give back the values that select the
    /// maximum CPU clock, in the same order.
    pub fn set_max_cpu_clock(&mut self, cpu_per_conf_reg: u32, sysclk_conf_reg: u32) -> (r: (
        u32,
        u32,
    ))
        ensures
            final(self).saved_cpu_per_conf_reg == cpu_per_conf_reg,
            final(self).saved_sysclk_conf_reg == sysclk_conf_reg,
            r.0 == (cpu_per_conf_reg & !(3u32)) | 2,
            r.1 == (sysclk_conf_reg & !(3u32 << 10)) | (1u32 << 10),
    {
        self.saved_cpu_per_conf_reg = cpu_per_conf_reg;
        self.saved_sysclk_conf_reg = sysclk_conf_reg;

        (
            (cpu_per_conf_reg & !Self::SYSTEM_CPUPERIOD_SEL_M) | Self::SYSTEM_CPUPERIOD_MAX,
            (sysclk_conf_reg & !Self::SYSTEM_SOC_CLK_SEL_M) | Self::SYSTEM_SOC_CLK_MAX,
        )
    }

    /// The saved register values to write back on tear-down, in the same
    /// order as `set_max_cpu_clock` took them.
    pub fn restore(&self) -> (r: (u32, u32))
        ensures
            r.0 == self.saved_cpu_per_conf_reg,
            r.1 == self.saved_sysclk_conf_reg,
    {
        (self.saved_cpu_per_conf_reg, self.saved_sysclk_conf_reg)
    }
}

/// Major chip version, from efuse block 1, bits 114..116. Takes the
/// register word that holds those bits.
pub fn major_chip_version(word: u32) -> (r: u8)
    ensures
        r as u32 == (word >> 18) & !(u32::MAX << 2),
{
    extract_field(word, 114, 2)
}

/// Minor chip version: low bits from efuse block 1, bits 132..135, high
/// bit from bit 116. Takes the two register words that hold them.
pub fn minor_chip_version(word_lo: u32, word_hi: u32) -> (r: u8)
    ensures
        r as u32 == (((word_hi >> 20) & !(u32::MAX << 1)) << 3) | ((word_lo >> 4) & !(u32::MAX
            << 3)),
{
    let lo = extract_field(word_lo, 132, 3);
    let hi = extract_field(word_hi, 116, 1);

    proof {
        assert(lo < 8) by (bit_vector)
            requires
                lo as u32 == (word_lo >> (132u32 % 32)) & !(0xFFFF_FFFFu32 << 3),
        ;
        assert(hi < 2) by (bit_vector)
            requires
                hi as u32 == (word_hi >> (116u32 % 32)) & !(0xFFFF_FFFFu32 << 1),
        ;
    }

    let v: u32 = ((hi as u32) << 3) | (lo as u32);
    proof {
        assert(v < 256) by (bit_vector)
            requires
                v == ((hi as u32) << 3) | (lo as u32),
                hi < 2,
                lo < 8,
        ;
    }
    v as u8
}

} // verus!
