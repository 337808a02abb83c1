//! Constant tables and version decoding for one chip family member.

use vstd::prelude::*;

use crate::efuse::{extract_field, EfuseInfo};
use crate::rom::RomDataTable;

verus! {

/// Largest flash this chip can address.
pub fn max_flash_size() -> (r: u32)
    ensures
        r == 0x1000000,
{
    0x1000000
}

/// Size in bytes of one ROM data table entry.
pub fn rom_table_entry_size() -> (r: u32)
    ensures
        r == 16,
{
    16
}

/// The per-revision ROM data tables.
pub fn rom_data_tables() -> (r: Vec<RomDataTable>)
    ensures
        r@ == seq![
            (RomDataTable {
                min_revision: 0,
                data_start: 0x4000D4F8,
                data_end: 0x4000D5C8,
                bss_start: 0x4000D5D0,
                bss_end: 0x4000D66C,
            }),
        ],
{
    let mut tables: Vec<RomDataTable> = Vec::new();
    tables.push(RomDataTable {
        min_revision: 0,
        data_start: 0x4000D4F8,
        data_end: 0x4000D5C8,
        bss_start: 0x4000D5D0,
        bss_end: 0x4000D66C,
    });
    proof {
        assert(tables@ =~= seq![
            (RomDataTable {
                min_revision: 0,
                data_start: 0x4000D4F8,
                data_end: 0x4000D5C8,
                bss_start: 0x4000D5D0,
                bss_end: 0x4000D66C,
            }),
        ]);
    }
    tables
}

/// Layout of the efuse read registers.
pub fn efuse_info() -> (r: EfuseInfo)
    ensures
        r.block0 == 0x3FF5_A000,
        r.block_sizes@ == seq![14u32, 8, 8, 8],
{
    let mut block_sizes: Vec<u32> = Vec::new();
    block_sizes.push(14);
    block_sizes.push(8);
    block_sizes.push(8);
    block_sizes.push(8);
    proof {
        assert(block_sizes@ =~= seq![14u32, 8, 8, 8]);
    }
    EfuseInfo { block0: 0x3FF5_A000, block_sizes }
}

/// Saved CPU clock configuration, so tear-down can undo the switch to the
/// maximum CPU clock. The register reads and writes are memory-mapped I/O
/// done outside the library; these methods compute the values to write.
pub struct CpuSaveState {
    pub saved_cpu_per_conf_reg: u32,
    pub saved_sysclk_conf_reg: u32,
}

impl CpuSaveState {
    const SYSTEM_CPUPERIOD_SEL_M: u32 = 3;

    const SYSTEM_CPUPERIOD_MAX: u32 = 2;

    const SYSTEM_SOC_CLK_SEL_M: u32 = 3 << 27;

    const SYSTEM_SOC_CLK_MAX: u32 = 1 << 27;

    pub fn new() -> (r: Self)
        ensures
            r.saved_cpu_per_conf_reg == 0,
            r.saved_sysclk_conf_reg == 0,
    {
        CpuSaveState { saved_cpu_per_conf_reg: 0, saved_sysclk_conf_reg: 0 }
    }

    /// Record the current values of the CPU-period and system-clock
    /// configuration registers and give back the values that select the
    /// maximum CPU clock, in the same order.
    pub fn set_max_cpu_clock(&mut self, cpu_per_conf_reg: u32, sysclk_conf_reg: u32) -> (r: (
        u32,
        u32,
    ))
        ensures
            final(self).saved_cpu_per_conf_reg == cpu_per_conf_reg,
            final(self).saved_sysclk_conf_reg == sysclk_conf_reg,
            r.0 == (cpu_per_conf_reg & !(3u32)) | 2,
            r.1 == (sysclk_conf_reg & !(3u32 << 27)) | (1u32 << 27),
    {
        self.saved_cpu_per_conf_reg = cpu_per_conf_reg;
        self.saved_sysclk_conf_reg = sysclk_conf_reg;

        (
            (cpu_per_conf_reg & !Self::SYSTEM_CPUPERIOD_SEL_M) | Self::SYSTEM_CPUPERIOD_MAX,
            (sysclk_conf_reg & !Self::SYSTEM_SOC_CLK_SEL_M) | Self::SYSTEM_SOC_CLK_MAX,
        )
    }

    /// The saved register values to write back on tear-down, in the same
    /// order as `set_max_cpu_clock` took them.
    pub fn restore(&self) -> (r: (u32, u32))
        ensures
            r.0 == self.saved_cpu_per_conf_reg,
            r.1 == self.saved_sysclk_conf_reg,
    {
        (self.saved_cpu_per_conf_reg, self.saved_sysclk_conf_reg)
    }
}

/// Major chip version, decoded from three engineering-change bits: efuse
/// block 0 bit 111, efuse block 0 bit 180, and bit 31 of the APB
/// controller's date register.
pub open spec fn spec_major_chip_version(word0: u32, word1: u32, apb_ctrl_date: u32) -> u8 {
    let e0 = (word0 >> 15) & !(u32::MAX << 1);
    let e1 = (word1 >> 20) & !(u32::MAX << 1);
    let e2 = (apb_ctrl_date & 0x80000000) >> 31;
    let combined = (e2 << 2) | (e1 << 1) | e0;
    if combined == 1 {
        1
    } else if combined == 3 {
        2
    } else if combined == 7 {
        3
    } else {
        0
    }
}

/// Major chip version; see `spec_major_chip_version` for the three bits
/// it is decoded from.
pub fn major_chip_version(word0: u32, word1: u32, apb_ctrl_date: u32) -> (r: u8)
    ensures
        r == spec_major_chip_version(word0, word1, apb_ctrl_date),
{
    let eco_bit0 = extract_field(word0, 111, 1) as u32;
    let eco_bit1 = extract_field(word1, 180, 1) as u32;
    let eco_bit2 = (apb_ctrl_date & 0x80000000) >> 31;

    let combined = (eco_bit2 << 2) | (eco_bit1 << 1) | eco_bit0;
    match combined {
        1 => 1,
        3 => 2,
        7 => 3,
        _ => 0,
    }
}

/// Minor chip version, from efuse block 0, bits 184..186. Takes the
/// register word that holds those bits.
pub fn minor_chip_version(word: u32) -> (r: u8)
    ensures
        r as u32 == (word >> 24) & !(u32::MAX << 2),
{
    extract_field(word, 184, 2)
}

} // verus!
