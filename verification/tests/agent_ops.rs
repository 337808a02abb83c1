//! Tests of the host-facing operations: lifecycle gating, buffer
//! alignment rejection, erase, blank check, read-back and tear-down.

use esp_flash_loader::agent::{
    BlankCheck_impl, EraseChip_impl, EraseSector_impl, FlasherState, Init_impl, ProgramPage_impl,
    ReadFlash_impl, UnInit_impl, Verify_impl,
};
use esp_flash_loader::flash::SimFlash;
use esp_flash_loader::ERROR_BASE_INTERNAL;

fn framed_zlib(payload: &[u8]) -> Vec<u8> {
    let compressed = miniz_oxide::deflate::compress_to_vec_zlib(payload, 6);
    let mut framed = Vec::new();
    framed.extend_from_slice(&(compressed.len() as u32).to_le_bytes());
    framed.extend_from_slice(&compressed);
    framed
}

#[test]
fn operations_require_init() {
    let mut flash = SimFlash::new(0x20000);
    let mut state = FlasherState::new();

    assert_eq!(EraseSector_impl(&mut state, &mut flash, 0), ERROR_BASE_INTERNAL - 1);
    assert_eq!(EraseChip_impl(&mut state, &mut flash), ERROR_BASE_INTERNAL - 1);
    assert_eq!(
        ProgramPage_impl(&mut state, &mut flash, 0, 0, &[1, 2, 3, 4]),
        ERROR_BASE_INTERNAL - 1
    );
    assert_eq!(
        Verify_impl(&mut state, &mut flash, 0, 0, &[1, 2, 3, 4]),
        ERROR_BASE_INTERNAL - 1
    );
    let mut out = vec![0u8; 4];
    assert_eq!(
        ReadFlash_impl(&mut state, &mut flash, 0, 0, &mut out),
        ERROR_BASE_INTERNAL - 1
    );
    assert_eq!(BlankCheck_impl(&mut state, &mut flash, 0, 16, 0xFF), ERROR_BASE_INTERNAL - 1);
    assert_eq!(UnInit_impl(&mut state, &mut flash, 0), ERROR_BASE_INTERNAL - 1);
}

#[test]
fn unaligned_buffer_rejected() {
    let mut flash = SimFlash::new(0x20000);
    let mut state = FlasherState::new();
    assert_eq!(Init_impl(&mut state, &mut flash, 0, 0, 0), 0);

    let framed = framed_zlib(&[1, 2, 3]);

    // A host buffer pointer not aligned to 4 bytes is an internal error,
    // and nothing is written or read.
    assert_eq!(
        ProgramPage_impl(&mut state, &mut flash, 0x1000, 0x4001, &framed),
        ERROR_BASE_INTERNAL - 5
    );
    assert_eq!(flash.byte_at(0x1000), 0xFF);

    assert_eq!(
        Verify_impl(&mut state, &mut flash, 0x1000, 0x4002, &framed),
        ERROR_BASE_INTERNAL - 5
    );

    let mut out = vec![0u8; 4];
    assert_eq!(
        ReadFlash_impl(&mut state, &mut flash, 0x1000, 0x4003, &mut out),
        ERROR_BASE_INTERNAL - 5
    );
    assert_eq!(out, vec![0u8; 4]);
}

#[test]
fn full_agent_flow() {
    let mut flash = SimFlash::new(0x20000);
    let mut state = FlasherState::new();
    assert_eq!(Init_impl(&mut state, &mut flash, 0, 0, 0), 0);

    assert_eq!(EraseSector_impl(&mut state, &mut flash, 0x0), 0);

    let payload: Vec<u8> = (0..600).map(|i| (i % 251) as u8).collect();
    let framed = framed_zlib(&payload);

    assert_eq!(ProgramPage_impl(&mut state, &mut flash, 0x2000, 0x4000, &framed), 0);

    // Re-initialize between the program and verify passes, as the host
    // does, so the verify pass starts a fresh image.
    assert_eq!(Init_impl(&mut state, &mut flash, 0, 0, 0), 0);
    assert_eq!(
        Verify_impl(&mut state, &mut flash, 0x2000, 0x4000, &framed),
        0x2000 + framed.len() as i32
    );

    let mut out = vec![0u8; 600];
    assert_eq!(ReadFlash_impl(&mut state, &mut flash, 0x2000, 0x4000, &mut out), 0);
    assert_eq!(out, payload);

    assert_eq!(UnInit_impl(&mut state, &mut flash, 2), 0);
    assert_eq!(
        EraseSector_impl(&mut state, &mut flash, 0),
        ERROR_BASE_INTERNAL - 1
    );

    // Without the dedicated tear-down code, UnInit owes plain success.
    assert_eq!(Init_impl(&mut state, &mut flash, 0, 0, 0), 0);
    assert_eq!(UnInit_impl(&mut state, &mut flash, 0), 0);
}

#[test]
fn erase_sector_erases_its_block() {
    let mut flash = SimFlash::new(0x20000);
    let mut state = FlasherState::new();
    assert_eq!(Init_impl(&mut state, &mut flash, 0, 0, 0), 0);

    let framed = framed_zlib(&[0x55; 32]);
    assert_eq!(ProgramPage_impl(&mut state, &mut flash, 0x100, 0x4000, &framed), 0);
    assert_eq!(flash.byte_at(0x100), 0x55);

    assert_eq!(EraseSector_impl(&mut state, &mut flash, 0x100), 0);
    assert_eq!(flash.byte_at(0x100), 0xFF);
}

#[test]
fn erase_sector_out_of_range_fails() {
    let mut flash = SimFlash::new(0x8000);
    let mut state = FlasherState::new();
    assert_eq!(Init_impl(&mut state, &mut flash, 0, 0, 0), 0);

    // The device is smaller than one erase block.
    assert!(EraseSector_impl(&mut state, &mut flash, 0x10000) < 0);
}

#[test]
fn erase_chip_erases_everything() {
    let mut flash = SimFlash::new(0x20000);
    let mut state = FlasherState::new();
    assert_eq!(Init_impl(&mut state, &mut flash, 0, 0, 0), 0);

    let framed = framed_zlib(&[0xAB; 16]);
    assert_eq!(ProgramPage_impl(&mut state, &mut flash, 0x0, 0x4000, &framed), 0);
    assert_eq!(flash.byte_at(0), 0xAB);

    assert_eq!(EraseChip_impl(&mut state, &mut flash), 0);
    assert_eq!(flash.byte_at(0), 0xFF);
    assert_eq!(flash.byte_at(0x1FFFF), 0xFF);
}

#[test]
fn blank_check_reports_blank_and_content() {
    let mut flash = SimFlash::new(0x20000);
    let mut state = FlasherState::new();
    assert_eq!(Init_impl(&mut state, &mut flash, 0, 0, 0), 0);

    assert_eq!(BlankCheck_impl(&mut state, &mut flash, 0x1000, 512, 0xFF), 0);
    assert_eq!(BlankCheck_impl(&mut state, &mut flash, 0x1000, 0, 0xFF), 0);

    let framed = framed_zlib(&[7u8; 8]);
    assert_eq!(ProgramPage_impl(&mut state, &mut flash, 0x1000, 0x4000, &framed), 0);
    assert_eq!(
        BlankCheck_impl(&mut state, &mut flash, 0x1000, 512, 0xFF),
        ERROR_BASE_INTERNAL - 3
    );

    // The check reads whole 256-byte windows, so a size that is not a
    // multiple of the window still inspects the rest of the last window.
    assert_eq!(
        BlankCheck_impl(&mut state, &mut flash, 0x0F04, 300, 0xFF),
        ERROR_BASE_INTERNAL - 3
    );

    // Reading past the end of the device is a read failure.
    assert_eq!(
        BlankCheck_impl(&mut state, &mut flash, 0x1FF00, 512, 0xFF),
        ERROR_BASE_INTERNAL - 2
    );
}
