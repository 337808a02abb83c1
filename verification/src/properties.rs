//! Device-description constants and the descriptor exposed to the host
//! for introspection.

use vstd::prelude::*;

use vstd::string::StringSliceAdditionalSpecFns;

verus! {

/// Size of the buffer the host is asked to use for one `ProgramPage` call.
pub const PAGE_SIZE: u32 = 0x4000;

/// Size of one erase block of the serial flash.
pub const FLASH_BLOCK_SIZE: u32 = 65536;

pub const FLASH_STATUS_MASK: u32 = 0xFFFF;

pub const FLASH_SECTOR_SIZE: u32 = 4096;

/// One sector entry of the descriptor's sector table.
#[derive(Clone, Copy, Debug, PartialEq, Eq, Structural)]
pub struct FlashSector {
    pub size: u32,
    pub address: u32,
}

impl Default for FlashSector {
    fn default() -> (r: Self)
        ensures
            r.size == 0,
            r.address == 0,
    {
        FlashSector { size: 0, address: 0 }
    }
}

/// The descriptor's sector table: one uniform region of block-sized
/// sectors from address zero, closed by the all-ones end sentinel.
pub fn sectors() -> (r: Vec<FlashSector>)
    ensures
        r@.len() == 512,
        r@[0] == (FlashSector { size: FLASH_BLOCK_SIZE, address: 0 }),
        r@[1] == (FlashSector { size: 0xffff_ffff, address: 0xffff_ffff }),
        forall|i: int| 2 <= i < 512 ==> #[trigger] r@[i] == (FlashSector { size: 0, address: 0 }),
{
    let mut table: Vec<FlashSector> = Vec::new();
    table.push(FlashSector { size: FLASH_BLOCK_SIZE, address: 0 });
    table.push(FlashSector { size: 0xffff_ffff, address: 0xffff_ffff });
    let mut k: usize = 2;
    #[verifier::loop_isolation(false)]
    while k < 512
        invariant
            2 <= k <= 512,
            table@.len() == k,
            table@[0] == (FlashSector { size: FLASH_BLOCK_SIZE, address: 0 }),
            table@[1] == (FlashSector { size: 0xffff_ffff, address: 0xffff_ffff }),
            forall|i: int|
                2 <= i < k ==> #[trigger] table@[i] == (FlashSector { size: 0, address: 0 }),
        decreases 512 - k,
    {
        table.push(FlashSector::default());
        k += 1;
    }
    table
}

/// The device description the host reads before driving the agent.
pub struct FlashDeviceDescription {
    pub vers: u16,
    pub dev_name: Vec<u8>,
    pub dev_type: u16,
    pub dev_addr: u32,
    pub device_size: u32,
    pub page_size: u32,
    pub _reserved: u32,
    pub empty: u8,
    pub program_time_out: u32,
    pub erase_time_out: u32,
    pub flash_sectors: Vec<FlashSector>,
}

/// The word naming the CPU frequency the loader was built to run at.
pub open spec fn frequency_word(max_cpu_frequency: bool) -> Seq<u8> {
    if max_cpu_frequency {
        "maximum".spec_bytes()
    } else {
        "default".spec_bytes()
    }
}

/// The descriptor's human-readable text: "A flash loader for the
/// <device name> using <maximum|default> CPU frequency."
pub open spec fn description_text(device_name: Seq<u8>, max_cpu_frequency: bool) -> Seq<u8> {
    "A flash loader for the ".spec_bytes() + device_name + " using ".spec_bytes()
        + frequency_word(max_cpu_frequency) + " CPU frequency.".spec_bytes()
}

impl FlashDeviceDescription {
    /// The descriptor for a device of `max_flash_size` bytes, named for
    /// `device_name` and the configured CPU frequency.
    pub fn new(device_name: &[u8], max_cpu_frequency: bool, max_flash_size: u32) -> (r: Self)
        requires
            description_text(device_name@, max_cpu_frequency).len() <= 128,
        ensures
            r.vers == 0x0001,
            r.dev_name@.len() == 128,
            r.dev_name@.take(description_text(device_name@, max_cpu_frequency).len() as int)
                == description_text(device_name@, max_cpu_frequency),
            r.dev_type == 5,
            r.dev_addr == 0,
            r.device_size == max_flash_size,
            r.page_size == PAGE_SIZE,
            r._reserved == 0,
            r.empty == 0xFF,
            r.program_time_out == 1000,
            r.erase_time_out == 2000,
            r.flash_sectors@.len() == 512,
    {
        let name = algorithm_description(device_name, max_cpu_frequency);
        FlashDeviceDescription {
            vers: 0x0001,
            dev_name: name,
            dev_type: 5,
            dev_addr: 0x0,
            device_size: max_flash_size,
            page_size: PAGE_SIZE,
            _reserved: 0,
            empty: 0xFF,
            program_time_out: 1000,
            erase_time_out: 2000,
            flash_sectors: sectors(),
        }
    }
}

/// Append all of `s` to `buffer`.
fn append(buffer: &mut Vec<u8>, s: &[u8])
    ensures
        final(buffer)@ == old(buffer)@ + s@,
{
    let mut k: usize = 0;
    #[verifier::loop_isolation(false)]
    while k < s.len()
        invariant
            k <= s@.len(),
            buffer@ == old(buffer)@ + s@.take(k as int),
        decreases s@.len() - k,
    {
        let b = s[k];
        buffer.push(b);
        proof {
            assert(old(buffer)@ + s@.take(k as int) + seq![s@[k as int]] =~= old(buffer)@
                + s@.take(k + 1));
        }
        k += 1;
    }
    proof {
        assert(old(buffer)@ + s@.take(s@.len() as int) =~= old(buffer)@ + s@);
    }
}

/// The 128-byte device-name field of the descriptor: "A flash loader for
/// the <device name> using <maximum|default> CPU frequency.", zero-padded
/// to the field size. The assembled text must fit the field.
pub fn algorithm_description(device_name: &[u8], max_cpu_frequency: bool) -> (r: Vec<u8>)
    requires
        description_text(device_name@, max_cpu_frequency).len() <= 128,
    ensures
        r@.len() == 128,
        r@.take(description_text(device_name@, max_cpu_frequency).len() as int)
            == description_text(device_name@, max_cpu_frequency),
        forall|i: int|
            description_text(device_name@, max_cpu_frequency).len() <= i < 128 ==> #[trigger] r@[i]
                == 0u8,
{
    let mut bytes: Vec<u8> = Vec::new();

    append(&mut bytes, "A flash loader for the ".as_bytes());
    append(&mut bytes, device_name);
    append(&mut bytes, " using ".as_bytes());
    if max_cpu_frequency {
        append(&mut bytes, "maximum".as_bytes());
    } else {
        append(&mut bytes, "default".as_bytes());
    }
    append(&mut bytes, " CPU frequency.".as_bytes());

    let ghost text: Seq<u8> = description_text(device_name@, max_cpu_frequency);
    proof {
        assert(bytes@ =~= text);
    }

    #[verifier::loop_isolation(false)]
    while bytes.len() < 128
        invariant
            text.len() <= bytes@.len() <= 128,
            bytes@.take(text.len() as int) == text,
            forall|i: int| text.len() <= i < bytes@.len() ==> #[trigger] bytes@[i] == 0u8,
        decreases 128 - bytes@.len(),
    {
        bytes.push(0);
    }
    bytes
}

} // verus!
