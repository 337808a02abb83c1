//! Unit tests of the building blocks: the output window, the inflate
//! engine boundary, the simulated flash, efuse field arithmetic, chip
//! tables, ROM table selection, flash-size decoding and the device
//! descriptor.

use esp_flash_loader::chip;
use esp_flash_loader::efuse::{extract_field, field_address, read_chip_revision, EfuseInfo};
use esp_flash_loader::flash::{get_flash_size, FlashDriver, SimFlash};
use esp_flash_loader::properties::{algorithm_description, sectors};
use esp_flash_loader::properties::{FlashDeviceDescription, FlashSector};
use esp_flash_loader::rom::init_rom_data;
use esp_flash_loader::tinfl::{OutBuffer, TinflDecompressor, OUT_BUFFER_SIZE};

#[test]
fn out_buffer_basics() {
    let mut out = OutBuffer::new();
    assert_eq!(out.space(), OUT_BUFFER_SIZE);
    assert!(!out.full());

    let taken = out.take();
    assert!(taken.is_empty());
    assert_eq!(out.space(), OUT_BUFFER_SIZE);
}

#[test]
fn inflate_engine_decodes_a_whole_stream() {
    let payload: Vec<u8> = (0..2000).map(|i| (i % 256) as u8).collect();
    let compressed = miniz_oxide::deflate::compress_to_vec_zlib(&payload, 6);

    let mut engine = TinflDecompressor::new();
    let mut out = OutBuffer::new();
    let (status, in_read) = engine.decompress(&compressed, &mut out, true);

    assert_eq!(status, esp_flash_loader::tinfl::TINFL_STATUS_DONE);
    assert_eq!(in_read, compressed.len());
    assert_eq!(out.take(), payload);
}

#[test]
fn sim_flash_starts_erased_and_stores_writes() {
    let mut flash = SimFlash::new(64);
    assert_eq!(flash.size(), 64);
    for a in 0..64 {
        assert_eq!(flash.byte_at(a), 0xFF);
    }

    assert_eq!(flash.write(10, &[1, 2, 3]), 0);
    assert_eq!(flash.byte_at(10), 1);
    assert_eq!(flash.byte_at(12), 3);
    assert_eq!(flash.byte_at(13), 0xFF);

    let mut buf = vec![0u8; 3];
    assert_eq!(flash.read(10, &mut buf), 0);
    assert_eq!(buf, vec![1, 2, 3]);

    // Out-of-range operations fail and leave everything alone.
    assert_eq!(flash.write(63, &[1, 2]), -1);
    assert_eq!(flash.byte_at(63), 0xFF);
    assert_eq!(flash.read(63, &mut buf), -1);
}

#[test]
fn extract_field_cuts_the_right_bits() {
    // Bits 18..21 of the word hold 0b101.
    let word = 0b101 << 18;
    assert_eq!(extract_field(word, 114, 3), 0b101);
    // Bit numbers are taken modulo the word size.
    assert_eq!(extract_field(0x8000_0000, 31, 1), 1);
    assert_eq!(extract_field(0xFFFF_FFFF, 0, 8), 0xFF);
}

#[test]
fn field_address_walks_blocks_and_words() {
    let info = EfuseInfo { block0: 0x1000, block_sizes: vec![6, 6, 8] };
    // Block 1 starts 6 words in; bit 184 is in word 5 of the block.
    assert_eq!(field_address(&info, 1, 184), 0x1000 + 6 * 4 + 5 * 4);
    assert_eq!(field_address(&info, 0, 0), 0x1000);
    assert_eq!(field_address(&info, 2, 32), 0x1000 + 12 * 4 + 4);
}

#[test]
fn chip_revision_combines_major_and_minor() {
    assert_eq!(read_chip_revision(0, 3), 3);
    assert_eq!(read_chip_revision(1, 1), 101);
    assert_eq!(read_chip_revision(3, 0), 300);
}

#[test]
fn chip_version_decoding() {
    // esp32c3: major from bits 184..186 (bit 24 of its word).
    assert_eq!(chip::esp32c3::major_chip_version(1 << 24), 1);
    // minor: low bits 114..117 (bit 18), high bit 183 (bit 23).
    assert_eq!(chip::esp32c3::minor_chip_version(0b101 << 18, 1 << 23), 0b1101);

    // esp32p4: major low bits at bit 4, high bit at bit 23 of one word.
    assert_eq!(chip::esp32p4::major_chip_version((1 << 23) | (0b10 << 4)), 0b110);

    // esp32: major decoded from the three engineering-change bits.
    assert_eq!(chip::esp32::major_chip_version(0, 0, 0), 0);
    assert_eq!(chip::esp32::major_chip_version(1 << 15, 0, 0), 1);
    assert_eq!(chip::esp32::major_chip_version(1 << 15, 1 << 20, 0), 2);
    assert_eq!(chip::esp32::major_chip_version(1 << 15, 1 << 20, 0x8000_0000), 3);
    // An impossible combination decodes to 0.
    assert_eq!(chip::esp32::major_chip_version(0, 1 << 20, 0), 0);

    // esp32h2 and esp32c2 single-field versions.
    assert_eq!(chip::esp32h2::major_chip_version(0b10 << 21), 0b10);
    assert_eq!(chip::esp32c2::minor_chip_version(0b1001 << 16), 0b1001);
}

#[test]
fn rom_table_selection_takes_last_match() {
    let tables = chip::esp32c3::rom_data_tables();
    assert_eq!(init_rom_data(&tables, 0), Some(0));
    assert_eq!(init_rom_data(&tables, 2), Some(0));
    assert_eq!(init_rom_data(&tables, 3), Some(1));
    assert_eq!(init_rom_data(&tables, 100), Some(1));
    assert_eq!(init_rom_data(&tables, 101), Some(2));
    assert_eq!(init_rom_data(&tables, 9999), Some(2));

    let p4 = chip::esp32p4::rom_data_tables();
    // Revisions below every table's minimum select nothing.
    assert_eq!(init_rom_data(&p4, 0), None);
    assert_eq!(init_rom_data(&p4, 100), Some(0));

    assert_eq!(init_rom_data(&Vec::new(), 5), None);
}

#[test]
fn chip_constants() {
    assert_eq!(chip::esp32::max_flash_size(), 0x1000000);
    assert_eq!(chip::esp32s3::max_flash_size(), 0x40000000);
    assert_eq!(chip::esp32p4::max_flash_size(), 0x4000000);
    assert_eq!(chip::esp32c3::rom_table_entry_size(), 16);
    assert_eq!(chip::esp32h2::rom_table_entry_size(), 12);

    let info = chip::esp32c3::efuse_info();
    assert_eq!(info.block0, 0x6000_8800 + 0x2C);
    assert_eq!(info.block_sizes, vec![6, 6, 8, 8, 8, 8, 8, 8, 8, 8, 8]);

    let spi = chip::esp32c3::mem_spi();
    assert_eq!(spi.base, 0x6000_2000);
    assert_eq!(spi.user2(), 0x6000_2020);
    assert_eq!(spi.data_buf_0(), 0x6000_2058);
}

#[test]
fn cpu_save_state_round_trip() {
    let mut cs = chip::esp32c3::CpuSaveState::new();
    let (per, sys) = cs.set_max_cpu_clock(0xFFFF_FFFF, 0x0000_0400);
    assert_eq!(per, (0xFFFF_FFFF & !3) | 1);
    assert_eq!(sys, 0x0000_0400);
    assert_eq!(cs.restore(), (0xFFFF_FFFF, 0x0000_0400));

    // The esp32s3 switch is skipped on chip revisions of 2 and later.
    let mut s3 = chip::esp32s3::CpuSaveState::new();
    assert_eq!(s3.set_max_cpu_clock(0, 0, 200), None);
    assert!(s3.set_max_cpu_clock(0, 0, 1).is_some());

    let mut h2 = chip::esp32h2::CpuSaveState::new();
    assert_eq!(h2.set_max_cpu_clock(0), 1 << 16);
    assert_eq!(h2.restore(), 0);
}

#[test]
fn flash_size_decoding() {
    // Generic vendor: capacity in the third id byte.
    assert_eq!(get_flash_size(0x0016_40EF), 4 * 1024 * 1024);
    assert_eq!(get_flash_size(0x0018_40EF), 16 * 1024 * 1024);
    assert_eq!(get_flash_size(0x0012_0000), 256 * 1024);
    assert_eq!(get_flash_size(0x0034_0000), 1024 * 1024);
    assert_eq!(get_flash_size(0x00FF_0000), -1);

    // Adesto: capacity in the low five bits of the second id byte.
    assert_eq!(get_flash_size(0x0000_051F), 1024 * 1024);
    assert_eq!(get_flash_size(0x0000_091F), 16 * 1024 * 1024);
    assert_eq!(get_flash_size(0x0000_1F1F), -1);
}

#[test]
fn sector_table_shape() {
    let table = sectors();
    assert_eq!(table.len(), 512);
    assert_eq!(table[0], FlashSector { size: 65536, address: 0 });
    assert_eq!(table[1], FlashSector { size: 0xffff_ffff, address: 0xffff_ffff });
    assert_eq!(table[2], FlashSector { size: 0, address: 0 });
    assert_eq!(table[511], FlashSector { size: 0, address: 0 });

    let d: FlashSector = Default::default();
    assert_eq!(d, FlashSector { size: 0, address: 0 });
}

#[test]
fn device_descriptor_fields() {
    let name = b"ESP32-C3";
    let desc = FlashDeviceDescription::new(name, false, 0x1000000);
    assert_eq!(desc.vers, 1);
    assert_eq!(desc.dev_type, 5);
    assert_eq!(desc.dev_addr, 0);
    assert_eq!(desc.device_size, 0x1000000);
    assert_eq!(desc.page_size, 0x4000);
    assert_eq!(desc._reserved, 0);
    assert_eq!(desc.empty, 0xFF);
    assert_eq!(desc.program_time_out, 1000);
    assert_eq!(desc.erase_time_out, 2000);
    assert_eq!(desc.flash_sectors.len(), 512);

    let expected = b"A flash loader for the ESP32-C3 using default CPU frequency.";
    assert_eq!(desc.dev_name.len(), 128);
    assert_eq!(&desc.dev_name[..expected.len()], &expected[..]);
    assert!(desc.dev_name[expected.len()..].iter().all(|&b| b == 0));
}

#[test]
fn algorithm_description_assembles_the_sentence() {
    let field = algorithm_description(b"ESP32-S3", true);
    let expected = b"A flash loader for the ESP32-S3 using maximum CPU frequency.";
    assert_eq!(field.len(), 128);
    assert_eq!(&field[..expected.len()], &expected[..]);
    assert!(field[expected.len()..].iter().all(|&b| b == 0));
}
