//! End-to-end tests of the streaming decompression pipeline against the
//! simulated flash target, with payloads compressed by a real zlib
//! encoder.

use esp_flash_loader::decompressor::{Decompressor, ProcessKind};
use esp_flash_loader::flash::{FlashDriver, SimFlash};
use esp_flash_loader::{ERROR_BASE_INTERNAL, ERROR_BASE_TINFL};

fn framed_zlib(payload: &[u8], level: u8) -> Vec<u8> {
    let compressed = miniz_oxide::deflate::compress_to_vec_zlib(payload, level);
    let mut framed = Vec::new();
    framed.extend_from_slice(&(compressed.len() as u32).to_le_bytes());
    framed.extend_from_slice(&compressed);
    framed
}

fn flash_bytes(flash: &SimFlash, address: usize, len: usize) -> Vec<u8> {
    (address..address + len).map(|a| flash.byte_at(a)).collect()
}

fn patterned(len: usize) -> Vec<u8> {
    (0..len).map(|i| ((i * 7 + i / 251) % 256) as u8).collect()
}

#[test]
fn single_call_roundtrip() {
    let payload = [0u8, 1, 2, 3, 4, 5];
    let framed = framed_zlib(&payload, 6);

    let mut flash = SimFlash::new(0x20000);
    let mut d = Decompressor::new();

    let r1 = d.program(0x1000, &framed, &mut flash);
    let r2 = d.flush(ProcessKind::Write, &mut flash);

    assert_eq!(r1, 0);
    assert_eq!(r2, 0);
    assert_eq!(flash_bytes(&flash, 0x1000, 6), payload.to_vec());
}

#[test]
fn split_prefix_roundtrip() {
    let payload = [0u8, 1, 2, 3, 4, 5];
    let framed = framed_zlib(&payload, 6);

    let mut flash = SimFlash::new(0x20000);
    let mut d = Decompressor::new();

    // First call delivers only the 4-byte length prefix.
    let r1 = d.program(0x1000, &framed[..4], &mut flash);
    let r2 = d.program(0x1000, &framed[4..], &mut flash);
    let r3 = d.flush(ProcessKind::Write, &mut flash);

    assert_eq!(r1, 0);
    assert_eq!(r2, 0);
    assert_eq!(r3, 0);
    assert_eq!(flash_bytes(&flash, 0x1000, 6), payload.to_vec());
}

#[test]
fn one_byte_chunks_roundtrip() {
    // Large enough that the 32 KiB window is flushed several times
    // mid-stream, with chunk boundaries at every single byte.
    let payload = patterned(100_000);
    let framed = framed_zlib(&payload, 6);

    let mut flash = SimFlash::new(0x40000);
    let mut d = Decompressor::new();

    // The first call must carry the whole 4-byte length prefix; after
    // that, one byte at a time.
    assert_eq!(d.program(0x800, &framed[..4], &mut flash), 0);
    for (i, b) in framed[4..].iter().enumerate() {
        let r = d.program(0x800, std::slice::from_ref(b), &mut flash);
        assert_eq!(r, 0, "byte {} of {}", i, framed.len());
    }
    let r = d.flush(ProcessKind::Write, &mut flash);
    assert_eq!(r, 0);
    assert_eq!(flash_bytes(&flash, 0x800, payload.len()), payload);
}

#[test]
fn uneven_chunks_roundtrip() {
    let payload = patterned(50_000);
    let framed = framed_zlib(&payload, 9);

    let mut flash = SimFlash::new(0x40000);
    let mut d = Decompressor::new();

    // Uneven chunk boundaries falling mid-block; the first chunk holds
    // the length prefix and nothing else.
    let cuts = [4usize, 3, 7, 100, 1033];
    let mut pos = 0;
    let mut k = 0;
    while pos < framed.len() {
        let len = cuts[k % cuts.len()].min(framed.len() - pos);
        let r = d.program(0x0, &framed[pos..pos + len], &mut flash);
        assert_eq!(r, 0);
        pos += len;
        k += 1;
    }
    let r = d.flush(ProcessKind::Write, &mut flash);
    assert_eq!(r, 0);
    assert_eq!(flash_bytes(&flash, 0, payload.len()), payload);
}

#[test]
fn padding_after_declared_length_ignored() {
    let payload = [9u8, 8, 7, 6, 5];
    let mut framed = framed_zlib(&payload, 6);
    // Hosts pad to block-size multiples; pad bytes must never reach the
    // decoder.
    framed.extend_from_slice(&[0xAA; 64]);

    let mut flash = SimFlash::new(0x20000);
    let mut d = Decompressor::new();

    let r1 = d.program(0x1000, &framed, &mut flash);
    let r2 = d.flush(ProcessKind::Write, &mut flash);

    assert_eq!(r1, 0);
    assert_eq!(r2, 0);
    assert_eq!(flash_bytes(&flash, 0x1000, 5), payload.to_vec());
}

#[test]
fn program_after_exhausted_image_is_protocol_error() {
    let payload = [0u8, 1, 2, 3, 4, 5];
    let framed = framed_zlib(&payload, 6);

    let mut flash = SimFlash::new(0x20000);
    let mut d = Decompressor::new();

    assert_eq!(d.program(0x1000, &framed, &mut flash), 0);

    // The image's declared byte count is exhausted: a further call for
    // the same address has no image in progress to append to.
    let r = d.program(0x1000, &[1, 2, 3, 4], &mut flash);
    assert_eq!(r, ERROR_BASE_INTERNAL - 3);
}

#[test]
fn short_first_chunk_is_protocol_error() {
    let mut flash = SimFlash::new(0x20000);
    let mut d = Decompressor::new();

    let r = d.program(0x1000, &[1, 2, 3], &mut flash);
    assert_eq!(r, ERROR_BASE_INTERNAL - 4);
}

#[test]
fn zero_declared_length_is_protocol_error() {
    let mut flash = SimFlash::new(0x20000);
    let mut d = Decompressor::new();

    let r = d.program(0x1000, &[0, 0, 0, 0, 0x78], &mut flash);
    assert_eq!(r, ERROR_BASE_INTERNAL - 3);
}

#[test]
fn corrupt_stream_reports_decompression_error() {
    let garbage = [0xDEu8, 0xAD, 0xBE, 0xEF, 0x00, 0x11, 0x22, 0x33];
    let mut framed = Vec::new();
    framed.extend_from_slice(&(garbage.len() as u32).to_le_bytes());
    framed.extend_from_slice(&garbage);

    let mut flash = SimFlash::new(0x20000);
    let mut d = Decompressor::new();

    let r = d.program(0x1000, &framed, &mut flash);
    assert!(
        ERROR_BASE_TINFL - 4 <= r && r <= ERROR_BASE_TINFL - 1,
        "expected a decompression-band code, got {}",
        r
    );
}

#[test]
fn corrupt_checksum_reports_decompression_error() {
    let payload = [1u8, 2, 3, 4, 5, 6, 7, 8];
    let mut compressed = miniz_oxide::deflate::compress_to_vec_zlib(&payload, 6);
    // Flip a bit in the trailing adler32 checksum.
    let last = compressed.len() - 1;
    compressed[last] ^= 0x01;
    let mut framed = Vec::new();
    framed.extend_from_slice(&(compressed.len() as u32).to_le_bytes());
    framed.extend_from_slice(&compressed);

    let mut flash = SimFlash::new(0x20000);
    let mut d = Decompressor::new();

    let r = d.program(0x1000, &framed, &mut flash);
    assert!(
        ERROR_BASE_TINFL - 4 <= r && r <= ERROR_BASE_TINFL - 1,
        "expected a decompression-band code, got {}",
        r
    );
}

#[test]
fn image_switch_flushes_previous_buffer() {
    // Stored (level 0) zlib so that a partial stream already produces
    // decompressed output, which stays buffered: the declared length is
    // never reached, so no flush happens for the first image by itself.
    let payload_a = patterned(300);
    let compressed_a = miniz_oxide::deflate::compress_to_vec_zlib(&payload_a, 0);
    let mut first = Vec::new();
    first.extend_from_slice(&(compressed_a.len() as u32).to_le_bytes());
    // Deliver all but the trailing checksum, so decoding cannot finish.
    first.extend_from_slice(&compressed_a[..compressed_a.len() - 4]);

    let mut flash = SimFlash::new(0x20000);
    let mut d = Decompressor::new();
    assert_eq!(d.program(0x1000, &first, &mut flash), 0);

    // Nothing of image A reached flash yet.
    assert_eq!(flash.byte_at(0x1000), 0xFF);

    // A new base address ends image A: its buffered output is flushed
    // before the new image's prefix is parsed.
    let payload_b = [1u8, 2, 3];
    let framed_b = framed_zlib(&payload_b, 6);
    assert_eq!(d.program(0x4000, &framed_b, &mut flash), 0);
    assert_eq!(d.flush(ProcessKind::Write, &mut flash), 0);

    // Image A's decoded bytes (all that the partial stream produced)
    // landed at image A's base.
    let n = 300.min(payload_a.len());
    assert_eq!(flash_bytes(&flash, 0x1000, n), payload_a[..n].to_vec());
    // Image B is complete at its own base.
    assert_eq!(flash_bytes(&flash, 0x4000, 3), payload_b.to_vec());
}

#[test]
fn failed_switch_flush_reports_its_own_code() {
    // Leave decoded bytes buffered for an image whose base is too close
    // to the end of a small device for the flush to fit.
    let payload_a = patterned(300);
    let compressed_a = miniz_oxide::deflate::compress_to_vec_zlib(&payload_a, 0);
    let mut first = Vec::new();
    first.extend_from_slice(&(compressed_a.len() as u32).to_le_bytes());
    first.extend_from_slice(&compressed_a[..compressed_a.len() - 4]);

    let mut flash = SimFlash::new(0x100);
    let mut d = Decompressor::new();
    assert_eq!(d.program(0x80, &first, &mut flash), 0);

    // Switching images flushes the buffered bytes best-effort; the write
    // fails beyond the device and its code, in the flash band, is
    // reported while the new image still starts.
    let framed_b = framed_zlib(&[1, 2, 3], 6);
    let r = d.program(0x0, &framed_b, &mut flash);
    assert!(
        esp_flash_loader::ERROR_BASE_FLASH - 999 <= r && r <= esp_flash_loader::ERROR_BASE_FLASH - 1,
        "expected a flash-band code, got {}",
        r
    );
}

#[test]
fn flush_on_empty_window_is_noop() {
    let mut flash = SimFlash::new(0x1000);
    let mut d = Decompressor::new();

    assert_eq!(d.flush(ProcessKind::Write, &mut flash), 0);
    assert_eq!(flash.byte_at(0), 0xFF);
    assert_eq!(flash.byte_at(0xFFF), 0xFF);
}

#[test]
fn verify_succeeds_on_matching_flash() {
    let payload = patterned(1000);
    let framed = framed_zlib(&payload, 6);

    let mut flash = SimFlash::new(0x20000);
    let mut d = Decompressor::new();
    assert_eq!(d.program(0x1000, &framed, &mut flash), 0);
    assert_eq!(d.flush(ProcessKind::Write, &mut flash), 0);

    // A fresh pass decodes the same stream and compares it against what
    // was programmed.
    let mut v = Decompressor::new();
    let r = v.verify(0x1000, &framed, &mut flash);
    assert_eq!(r, 0x1000 + framed.len() as i32);
}

#[test]
fn verify_fails_on_mismatching_flash() {
    let payload = patterned(1000);
    let framed = framed_zlib(&payload, 6);

    let mut flash = SimFlash::new(0x20000);
    let mut d = Decompressor::new();
    assert_eq!(d.program(0x1000, &framed, &mut flash), 0);
    assert_eq!(d.flush(ProcessKind::Write, &mut flash), 0);

    // Corrupt one programmed byte.
    let was = flash.byte_at(0x1100);
    assert_eq!(flash.write(0x1100, &[was.wrapping_add(1)]), 0);

    let mut v = Decompressor::new();
    let r = v.verify(0x1000, &framed, &mut flash);
    assert_eq!(r, 0x1000);
}

#[test]
fn write_failure_reports_flash_band() {
    let payload = patterned(100);
    let framed = framed_zlib(&payload, 6);

    // A device too small for the image: the flush's write fails.
    let mut flash = SimFlash::new(0x10);
    let mut d = Decompressor::new();
    let r = d.program(0x0, &framed, &mut flash);
    assert!(r < esp_flash_loader::ERROR_BASE_FLASH, "got {}", r);
}
