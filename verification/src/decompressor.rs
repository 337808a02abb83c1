//! The streaming programmer: reassembles a compressed image delivered in
//! arbitrary chunks, decompresses it through the fixed output window, and
//! commits completed windows to flash in strictly increasing address order.
//!
//! The ghost sequence `produced` records every byte the inflate engine has
//! produced for the current image, in order. The well-formedness invariant
//! ties it to the concrete state: the first `offset` bytes have been handed
//! to the flash path, and the rest are exactly the bytes still buffered in
//! the window. The central correctness statement, `committed`, says that
//! the flushed prefix sits byte-for-byte in flash at the image's base
//! address.

use vstd::prelude::*;

use vstd::assert_seqs_equal;
use vstd::slice::slice_subrange;

use crate::flash::FlashDriver;
use crate::flash::{lemma_range_matches_extend, lemma_range_matches_preserved};
use crate::flash::{lemma_unchanged_outside_trans, lemma_unchanged_outside_widen};
use crate::flash::{range_matches, unchanged_outside};
use crate::tinfl::{OutBuffer, TinflDecompressor, OUT_BUFFER_SIZE};
use crate::tinfl::{TINFL_STATUS_DONE, TINFL_STATUS_NEEDS_MORE_INPUT};
use crate::{ERROR_BASE_FLASH, ERROR_BASE_INTERNAL, ERROR_BASE_TINFL};

verus! {

/// How many consecutive decoder steps may make no progress on the input
/// before the stream is declared internally inconsistent.
const STALL_LIMIT: u32 = 64;

/// What a drained window is used for: programming flash, or reading flash
/// back and comparing.
#[derive(Clone, Copy)]
pub enum ProcessKind {
    Write,
    Check,
}

/// Write `data` to flash at `address`, mapping a driver failure into the
/// flash error band.
pub fn write_to_flash<F: FlashDriver>(flash: &mut F, address: u32, data: &[u8]) -> (r: i32)
    ensures
        unchanged_outside(old(flash).mem(), final(flash).mem(), address as int, address + data@.len()),
        r == 0 <==> data@.len() == 0 || address + data@.len() <= old(flash).mem().len(),
        r != 0 ==> ERROR_BASE_FLASH - 999 <= r <= ERROR_BASE_FLASH - 1,
        r == 0 ==> range_matches(final(flash).mem(), address as int, data@, data@.len() as int),
        data@.len() == 0 ==> final(flash).mem() == old(flash).mem(),
{
    let status = crate::flash::write_flash(flash, address, data);

    if status < 0 {
        return ERROR_BASE_FLASH + status;
    }

    0
}

/// Read flash back in 256-byte windows and compare against `data`,
/// short-circuiting on the first mismatch. Returns 0 exactly when every
/// byte of `data` is in range and matches flash.
#[verifier::loop_isolation(false)]
pub fn verify_flash<F: FlashDriver>(flash: &mut F, address: u32, data: &[u8]) -> (r: i32)
    requires
        address + data@.len() <= u32::MAX,
    ensures
        final(flash).mem() == old(flash).mem(),
        r == 0 || r == -1,
        r == 0 <==> range_matches(old(flash).mem(), address as int, data@, data@.len() as int),
{
    let ghost mem0: Seq<u8> = flash.mem();
    let readback_len: usize = 256;
    let mut readback: Vec<u8> = Vec::new();
    let mut k: usize = 0;
    while k < readback_len
        invariant
            k <= readback_len,
            readback@.len() == k,
        decreases readback_len - k,
    {
        readback.push(0);
        k += 1;
    }

    let mut pos: usize = 0;
    while pos < data.len()
        invariant
            pos <= data@.len(),
            readback@.len() <= 256,
            readback@.len() == 256 || pos == data@.len(),
            flash.mem() == mem0,
            range_matches(mem0, address as int, data@, pos as int),
        decreases data@.len() - pos,
    {
        let remaining = data.len() - pos;
        let chunk_size = if remaining < readback.len() {
            remaining
        } else {
            readback.len()
        };
        if chunk_size < readback.len() {
            readback.truncate(chunk_size);
        }

        let status = flash.read(address + pos as u32, &mut readback);
        if status < 0 {
            proof {
                assert(address + pos + chunk_size > mem0.len());
                if range_matches(mem0, address as int, data@, data@.len() as int) {
                    assert(false);
                }
            }
            return -1;
        }

        let mut i: usize = 0;
        while i < chunk_size
            invariant
                i <= chunk_size,
                chunk_size <= readback@.len(),
                1 <= chunk_size,
                pos + chunk_size <= data@.len(),
                flash.mem() == mem0,
                address + pos + chunk_size <= mem0.len(),
                readback@ == mem0.subrange(address + pos, address + pos + chunk_size),
                range_matches(mem0, address as int, data@, pos + i),
            decreases chunk_size - i,
        {
            proof {
                assert(readback@[i as int] == mem0[address + pos + i]);
            }
            if data[pos + i] != readback[i] {
                proof {
                    let w = pos + i;
                    if range_matches(mem0, address as int, data@, data@.len() as int) {
                        assert(mem0.subrange(address as int, address + data@.len())[w]
                            == data@.take(data@.len() as int)[w]);
                        assert(false);
                    }
                }
                return -1;
            }
            proof {
                let n1 = pos + i + 1;
                assert_seqs_equal!(
                    mem0.subrange(address as int, address + n1) == data@.take(n1),
                    t => {
                        if t < pos + i {
                            assert(mem0.subrange(address as int, address + pos + i)[t]
                                == data@.take(pos + i)[t]);
                        } else {
                            assert(mem0[address + t] == readback@[i as int]);
                        }
                    }
                );
            }
            i += 1;
        }

        pos += chunk_size;
    }

    0
}

/// Streaming decompression-and-programming state for one firmware image.
pub struct Decompressor {
    pub decompressor: TinflDecompressor,
    pub output: OutBuffer,
    pub image_start: Option<u32>,
    pub offset: u32,
    pub remaining_compressed: usize,
    /// Every byte the engine has produced for the current image, in order.
    pub produced: Ghost<Seq<u8>>,
}

/// The little-endian 32-bit value formed by the first four bytes of `b`.
pub open spec fn le32(b: Seq<u8>) -> int {
    b[0] + b[1] * 0x100 + b[2] * 0x10000 + b[3] * 0x1000000
}

/// The 32-bit address value `v`, reinterpreted as the signed return code
/// the host receives.
pub open spec fn as_flash_code(v: int) -> int {
    if v <= 0x7FFF_FFFF {
        v
    } else {
        v - 0x1_0000_0000
    }
}

/// The return codes one decoding step may produce: success, the internal
/// band for a misbehaving decoder, the decompression band, or the flash
/// band for a failed flush.
pub open spec fn step_errors_ok(r: i32) -> bool {
    r == 0 || r == ERROR_BASE_INTERNAL - 2 || (ERROR_BASE_TINFL - 4 <= r <= ERROR_BASE_TINFL - 1)
        || (ERROR_BASE_FLASH - 4999 <= r <= ERROR_BASE_FLASH - 1)
}

/// The codes a failed image-switch flush reports: the internal code for a
/// flush target past the 32-bit address space, the flash band for a
/// failed write, and in check mode the bare comparison failure, which
/// `verify` maps to the chunk's start address before the host sees it.
pub open spec fn flush_errors_ok(r: i32, kind: ProcessKind) -> bool {
    ||| r == ERROR_BASE_INTERNAL - 2
    ||| (kind is Write && ERROR_BASE_FLASH - 999 <= r <= ERROR_BASE_FLASH - 1)
    ||| (kind is Check && r == -1)
}

/// What feeding `n_input` compressed bytes to the current image does:
/// nothing but an error when no compressed bytes are owed; otherwise the
/// countdown drops by the consumed amount (never below zero), the write
/// offset only advances, the engine-output record only grows, flash
/// changes only in the freshly flushed window, and on success the whole
/// flushed prefix is committed at the image base.
pub open spec fn decode_step_post(
    pre: Decompressor,
    post: Decompressor,
    mem_pre: Seq<u8>,
    mem_post: Seq<u8>,
    n_input: int,
    kind: ProcessKind,
    r: i32,
) -> bool {
    &&& post.wf()
    &&& post.image_start == pre.image_start
    &&& mem_post.len() == mem_pre.len()
    &&& (kind is Check ==> mem_post == mem_pre)
    &&& (pre.remaining_compressed == 0 ==> r == ERROR_BASE_INTERNAL - 3 && post == pre && mem_post
        == mem_pre)
    &&& (pre.remaining_compressed > 0 ==> {
        &&& post.remaining_compressed == if n_input >= pre.remaining_compressed {
            0int
        } else {
            pre.remaining_compressed - n_input
        }
        &&& post.offset >= pre.offset
        &&& post.produced@.len() >= pre.produced@.len()
        &&& post.produced@.take(pre.produced@.len() as int) == pre.produced@
        &&& unchanged_outside(
            mem_pre,
            mem_post,
            pre.base_spec() + pre.offset,
            pre.base_spec() + post.offset,
        )
        &&& (r == 0 && pre.committed(mem_pre) ==> post.committed(mem_post))
        &&& step_errors_ok(r)
    })
}

/// What a call at a new base address does: the previous image's buffered
/// bytes are flushed first (best effort), then the 4-byte little-endian
/// length prefix is parsed and a fresh image is tracked, and the rest of
/// the chunk is decoded into it.
pub open spec fn switch_post(
    pre: Decompressor,
    post: Decompressor,
    mem_pre: Seq<u8>,
    mem_post: Seq<u8>,
    address: u32,
    data: Seq<u8>,
    kind: ProcessKind,
    r: i32,
) -> bool {
    &&& post.wf()
    &&& mem_post.len() == mem_pre.len()
    &&& (kind is Check ==> mem_post == mem_pre)
    &&& r <= 0
    &&& (pre.flush_fits() ==> post.offset >= pre.offset + pre.output.level() || post.image_start
        == Some(address))
    &&& unchanged_outside(
        mem_pre,
        mem_post,
        vstd::math::min(pre.base_spec() + pre.offset, address as int),
        vstd::math::max(
            pre.base_spec() + pre.offset + pre.output.level(),
            address + post.offset,
        ),
    )
    &&& (data.len() < 4 ==> {
        &&& post.image_start == pre.image_start
        &&& post.remaining_compressed == pre.remaining_compressed
        &&& post.produced@ == pre.produced@
        &&& r < 0
        &&& (r == ERROR_BASE_INTERNAL - 4 <==> pre.flush_would_succeed(mem_pre, kind))
        &&& (!pre.flush_would_succeed(mem_pre, kind) ==> flush_errors_ok(r, kind))
    })
    &&& (data.len() >= 4 ==> {
        &&& post.image_start == Some(address)
        &&& (le32(data) == 0 ==> post.remaining_compressed == 0 && post.offset == 0
            && post.produced@ == Seq::<u8>::empty() && r != 0 && (pre.flush_would_succeed(
            mem_pre,
            kind,
        ) ==> r == ERROR_BASE_INTERNAL - 3) && (!pre.flush_would_succeed(mem_pre, kind)
            ==> flush_errors_ok(r, kind)))
        &&& (le32(data) > 0 ==> {
            &&& post.remaining_compressed == if data.len() - 4 >= le32(data) {
                0int
            } else {
                le32(data) - (data.len() - 4)
            }
            &&& (pre.flush_would_succeed(mem_pre, kind) ==> step_errors_ok(r))
            &&& (!pre.flush_would_succeed(mem_pre, kind) ==> flush_errors_ok(r, kind))
        })
        &&& (r == 0 ==> post.committed(mem_post) && pre.flush_would_succeed(mem_pre, kind))
        &&& (kind is Write && pre.flush_would_succeed(mem_pre, ProcessKind::Write) && (address
            + post.offset <= pre.base_spec() + pre.offset || address as int >= pre.base_spec()
            + pre.offset + pre.output.level()) ==> range_matches(
            mem_post,
            pre.base_spec() + pre.offset,
            pre.output.bytes(),
            pre.output.level(),
        ))
    })
}

/// What a `verify` call reports: the decoding outcome `s` of the chunk is
/// as for `program` in check mode, and the returned value is the chunk's
/// end address when `s` is success, its start address otherwise.
pub open spec fn verify_call_post(
    pre: Decompressor,
    post: Decompressor,
    mem_pre: Seq<u8>,
    mem_post: Seq<u8>,
    address: u32,
    data: Seq<u8>,
    r: i32,
) -> bool {
    exists|s: i32|
        {
            &&& (pre.image_start == Some(address) ==> #[trigger] decode_step_post(
                pre,
                post,
                mem_pre,
                mem_post,
                data.len() as int,
                ProcessKind::Check,
                s,
            ))
            &&& (pre.image_start != Some(address) ==> #[trigger] switch_post(
                pre,
                post,
                mem_pre,
                mem_post,
                address,
                data,
                ProcessKind::Check,
                s,
            ))
            &&& r == (if s == 0 {
                as_flash_code(address + data.len())
            } else {
                as_flash_code(address as int)
            })
        }
}

impl Decompressor {
    /// Flash address the current image is anchored to.
    pub open spec fn base_spec(self) -> int {
        match self.image_start {
            Some(a) => a as int,
            None => 0,
        }
    }

    pub open spec fn wf(self) -> bool {
        &&& self.output.wf()
        &&& self.produced@.len() == self.offset + self.output.level()
        &&& self.output.bytes() == self.produced@.skip(self.offset as int)
        &&& (self.image_start is None ==> self.offset == 0 && self.output.level() == 0
            && self.remaining_compressed == 0)
    }

    /// The flushed prefix of the image sits byte-for-byte in flash at the
    /// image's base address.
    pub open spec fn committed(self, mem: Seq<u8>) -> bool {
        range_matches(mem, self.base_spec(), self.produced@, self.offset as int)
    }

    /// The next flush's address arithmetic stays within `u32`.
    pub open spec fn flush_fits(self) -> bool {
        self.base_spec() + self.offset + self.output.level() <= u32::MAX
    }

    /// Whether a write-mode flush of the buffered bytes would land inside
    /// the device.
    pub open spec fn flush_in_range(self, mem: Seq<u8>) -> bool {
        self.output.level() == 0 || self.base_spec() + self.offset + self.output.level()
            <= mem.len()
    }

    /// Whether the buffered bytes match the flash content they would be
    /// checked against.
    pub open spec fn buffered_matches(self, mem: Seq<u8>) -> bool {
        range_matches(
            mem,
            self.base_spec() + self.offset,
            self.output.bytes(),
            self.output.level(),
        )
    }

    /// Whether draining the window right now would report success.
    pub open spec fn flush_would_succeed(self, mem: Seq<u8>, kind: ProcessKind) -> bool {
        &&& self.flush_fits()
        &&& (kind is Write ==> self.flush_in_range(mem))
        &&& (kind is Check ==> self.buffered_matches(mem))
    }

    pub fn new() -> (r: Self)
        ensures
            r.wf(),
            r.image_start is None,
            r.offset == 0,
            r.remaining_compressed == 0,
            r.produced@ == Seq::<u8>::empty(),
    {
        let r = Decompressor {
            image_start: None,
            offset: 0,
            output: OutBuffer::new(),
            remaining_compressed: 0,
            decompressor: TinflDecompressor::new(),
            produced: Ghost(Seq::empty()),
        };
        proof {
            assert(r.output.bytes() =~= r.produced@.skip(0));
        }
        r
    }

    /// Begin tracking a new image anchored at `address` with `compressed`
    /// declared compressed bytes: reset the decoder, the window fill level
    /// and the write offset.
    fn reinit(&mut self, address: u32, compressed: u32)
        requires
            old(self).wf(),
        ensures
            final(self).wf(),
            final(self).image_start == Some(address),
            final(self).offset == 0,
            final(self).remaining_compressed == compressed,
            final(self).produced@ == Seq::<u8>::empty(),
            final(self).output.level() == 0,
    {
        self.image_start = Some(address);
        self.offset = 0;

        self.remaining_compressed = compressed as usize;

        self.decompressor = TinflDecompressor::new();
        let _ = self.output.take();
        self.produced = Ghost(Seq::empty());
        proof {
            assert(self.output.bytes() =~= self.produced@.skip(0));
        }
    }

    /// Drain the output window in one shot to `base + offset` and advance
    /// the offset by the drained length; a no-op success when the window
    /// is empty. The offset advances even if the flash path fails: the
    /// drained bytes are gone either way.
    pub fn flush<F: FlashDriver>(&mut self, kind: ProcessKind, flash: &mut F) -> (r: i32)
        requires
            old(self).wf(),
        ensures
            final(self).wf(),
            final(self).image_start == old(self).image_start,
            final(self).remaining_compressed == old(self).remaining_compressed,
            final(self).produced == old(self).produced,
            final(self).output.window() == old(self).output.window(),
            final(flash).mem().len() == old(flash).mem().len(),
            kind is Check ==> final(flash).mem() == old(flash).mem(),
            r == 0 <==> old(self).flush_would_succeed(old(flash).mem(), kind),
            r <= 0,
            !old(self).flush_fits() ==> r == ERROR_BASE_INTERNAL - 2 && *final(self)
                == *old(self) && final(flash).mem() == old(flash).mem(),
            old(self).flush_fits() ==> {
                &&& final(self).offset == old(self).offset + old(self).output.level()
                &&& final(self).output.level() == 0
                &&& unchanged_outside(
                    old(flash).mem(),
                    final(flash).mem(),
                    old(self).base_spec() + old(self).offset,
                    old(self).base_spec() + old(self).offset + old(self).output.level(),
                )
                &&& (kind is Write ==> (r == 0 <==> old(self).flush_in_range(old(flash).mem())))
                &&& (kind is Write && r != 0 ==> ERROR_BASE_FLASH - 999 <= r
                    <= ERROR_BASE_FLASH - 1)
                &&& (kind is Write && r == 0 ==> range_matches(
                    final(flash).mem(),
                    old(self).base_spec() + old(self).offset,
                    old(self).output.bytes(),
                    old(self).output.level(),
                ))
                &&& (kind is Check ==> (r == 0 <==> old(self).buffered_matches(old(flash).mem())))
                &&& (kind is Check ==> r == 0 || r == -1)
                &&& (r == 0 && old(self).committed(old(flash).mem()) ==> final(self).committed(
                    final(flash).mem(),
                ))
            },
    {
        let base = match self.image_start {
            Some(a) => a,
            None => 0,
        };
        let level = self.output.len;

        // A flush whose target range would run past the end of the
        // 32-bit address space cannot be a real write; treat it as an
        // internal inconsistency.
        if base as u64 + self.offset as u64 + level as u64 > u32::MAX as u64 {
            return ERROR_BASE_INTERNAL - 2;
        }

        let mut offset = self.offset;
        let address = base + offset;

        let data = self.output.take();
        offset = offset + data.len() as u32;

        let status = match kind {
            ProcessKind::Write => write_to_flash(flash, address, data.as_slice()),
            ProcessKind::Check => verify_flash(flash, address, data.as_slice()),
        };

        self.offset = offset;

        proof {
            let oldmem = old(flash).mem();
            let b = old(self).base_spec();
            let off = old(self).offset as int;
            let lvl = old(self).output.level();
            assert(address as int == b + off);
            assert(self.output.bytes() =~= self.produced@.skip(self.offset as int));
            if status == 0 && old(self).committed(oldmem) {
                assert(old(self).output.bytes() =~= old(self).produced@.skip(off));
                lemma_range_matches_extend(
                    oldmem,
                    flash.mem(),
                    b,
                    off,
                    lvl,
                    old(self).produced@,
                );
            }
        }

        status
    }

    /// Feed one chunk of compressed bytes through the decoder, flushing
    /// the window whenever it fills or the stream completes. Consumes at
    /// most `remaining_compressed` bytes of `input` (trailing padding is
    /// discarded) and decrements the countdown by the consumed amount.
    #[verifier::loop_isolation(false)]
    fn decompress<F: FlashDriver>(&mut self, input: &[u8], kind: ProcessKind, flash: &mut F) -> (r:
        i32)
        requires
            old(self).wf(),
        ensures
            decode_step_post(
                *old(self),
                *final(self),
                old(flash).mem(),
                final(flash).mem(),
                input@.len() as int,
                kind,
                r,
            ),
    {
        if self.remaining_compressed == 0 {
            return ERROR_BASE_INTERNAL - 3;
        }

        // Trailing pad bytes beyond the declared compressed length are cut
        // off here and never reach the decoder.
        let chunk_len = if self.remaining_compressed < input.len() {
            self.remaining_compressed
        } else {
            input.len()
        };
        self.remaining_compressed = self.remaining_compressed - chunk_len;

        // The chunk that exhausts the countdown is the stream's last.
        let last = self.remaining_compressed == 0;

        let ghost rem1: int = self.remaining_compressed as int;
        let ghost prod0: Seq<u8> = self.produced@;
        let ghost off0: int = self.offset as int;
        let ghost b0: int = self.base_spec();
        let ghost mem00: Seq<u8> = flash.mem();

        let mut pos: usize = 0;
        let mut status: i32 = TINFL_STATUS_NEEDS_MORE_INPUT;
        let mut stalled: u32 = 0;
        while pos < chunk_len && status > TINFL_STATUS_DONE
            invariant
                pos <= chunk_len <= input@.len(),
                self.wf(),
                self.image_start == old(self).image_start,
                self.base_spec() == b0,
                self.remaining_compressed == rem1,
                self.offset >= off0,
                self.produced@.len() >= prod0.len(),
                self.produced@.take(prod0.len() as int) == prod0,
                flash.mem().len() == mem00.len(),
                kind is Check ==> flash.mem() == mem00,
                unchanged_outside(mem00, flash.mem(), b0 + off0, b0 + self.offset),
                range_matches(mem00, b0, prod0, off0) ==> self.committed(flash.mem()),
                stalled <= STALL_LIMIT,
                -4 <= status <= 2,
            decreases chunk_len - pos, STALL_LIMIT - stalled,
        {
            let chunk = slice_subrange(input, pos, chunk_len);
            let ghost pre_bytes: Seq<u8> = self.output.bytes();
            let ghost pre_level: int = self.output.level();
            let ghost prod_cur: Seq<u8> = self.produced@;

            let (st, in_read) = self.decompressor.decompress(chunk, &mut self.output, last);
            status = st;

            self.produced = Ghost(self.produced@ + self.output.bytes().skip(pre_level));

            proof {
                let lvl = self.output.level();
                let off = self.offset as int;
                assert(prod_cur.len() == off + pre_level);
                assert(self.produced@.len() == off + lvl);
                assert_seqs_equal!(self.output.bytes() == self.produced@.skip(off), t => {
                    assert(self.produced@[off + t] == self.produced@.skip(off)[t]);
                    if t < pre_level {
                        assert(self.produced@[off + t] == prod_cur[off + t]);
                        assert(prod_cur[off + t] == prod_cur.skip(off)[t]);
                        assert(pre_bytes[t] == self.output.bytes().take(pre_level)[t]);
                    } else {
                        assert(self.produced@[off + t] == self.output.bytes().skip(pre_level)[
                            t - pre_level]);
                    }
                });
                assert_seqs_equal!(self.produced@.take(prod_cur.len() as int) == prod_cur, t => {
                    assert(self.produced@[t] == prod_cur[t]);
                });
                assert_seqs_equal!(self.produced@.take(prod0.len() as int) == prod0, t => {
                    assert(self.produced@[t] == prod_cur[t]);
                    assert(prod_cur.take(prod0.len() as int)[t] == prod0[t]);
                });
                if range_matches(mem00, b0, prod0, off0) {
                    assert(self.committed(flash.mem())) by {
                        if off > 0 {
                            assert(flash.mem().subrange(b0, b0 + off) == prod_cur.take(off));
                            assert_seqs_equal!(self.produced@.take(off) == prod_cur.take(off), t => {
                                assert(self.produced@[t] == prod_cur[t]);
                            });
                        }
                    }
                }
            }

            // The engine's consumption count is not trusted: a decoder
            // that claims more than it was given is an internal error.
            if in_read > chunk_len - pos {
                return ERROR_BASE_INTERNAL - 2;
            }
            pos = pos + in_read;

            // A decoder that repeatedly neither consumes input nor
            // reaches a terminal state is treated the same way; this also
            // bounds the loop.
            if in_read == 0 {
                stalled = stalled + 1;
                if stalled > STALL_LIMIT {
                    return ERROR_BASE_INTERNAL - 2;
                }
            } else {
                stalled = 0;
            }

            if status == TINFL_STATUS_DONE || self.output.full() {
                // Finished, or the decoder cannot continue until the
                // window is drained.
                let ghost mem_pre: Seq<u8> = flash.mem();
                let ghost off_pre: int = self.offset as int;
                let ghost lvl_pre: int = self.output.level();

                let flush_status = self.flush(kind, flash);

                proof {
                    if self.offset as int == off_pre + lvl_pre {
                        lemma_unchanged_outside_trans(
                            mem00,
                            mem_pre,
                            flash.mem(),
                            b0 + off0,
                            b0 + off_pre,
                            b0 + off_pre,
                            b0 + off_pre + lvl_pre,
                            b0 + off0,
                            b0 + self.offset,
                        );
                    } else {
                        lemma_unchanged_outside_trans(
                            mem00,
                            mem_pre,
                            flash.mem(),
                            b0 + off0,
                            b0 + off_pre,
                            b0 + off_pre,
                            b0 + off_pre,
                            b0 + off0,
                            b0 + self.offset,
                        );
                    }
                }

                if flush_status < 0 {
                    return ERROR_BASE_FLASH + flush_status;
                }
            }
        }

        if status < TINFL_STATUS_DONE {
            ERROR_BASE_TINFL + status
        } else {
            0
        }
    }

    /// One host call's worth of compressed bytes for the image anchored at
    /// `address`. A changed address ends the previous image — its buffered
    /// output is flushed first, best effort — and starts a new one, whose
    /// first four bytes declare the image's total compressed length.
    fn handle_compressed<F: FlashDriver>(
        &mut self,
        address: u32,
        data: &[u8],
        kind: ProcessKind,
        flash: &mut F,
    ) -> (r: i32)
        requires
            old(self).wf(),
        ensures
            old(self).image_start == Some(address) ==> decode_step_post(
                *old(self),
                *final(self),
                old(flash).mem(),
                final(flash).mem(),
                data@.len() as int,
                kind,
                r,
            ),
            old(self).image_start != Some(address) ==> switch_post(
                *old(self),
                *final(self),
                old(flash).mem(),
                final(flash).mem(),
                address,
                data@,
                kind,
                r,
            ),
    {
        let switching = match self.image_start {
            Some(a) => a != address,
            None => true,
        };

        if !switching {
            return self.decompress(data, kind, flash);
        }

        let ghost pre = *old(self);
        let ghost mem_pre: Seq<u8> = flash.mem();
        let ghost w_lo: int = vstd::math::min(pre.base_spec() + pre.offset, address as int);

        // End the previous image: drain whatever it still has buffered.
        // A failure here is reported, but the new image still starts.
        let prev_flush = self.flush(kind, flash);

        let ghost m1: Seq<u8> = flash.mem();

        if data.len() < 4 {
            // Too short to hold the length prefix of the new image.
            proof {
                lemma_unchanged_outside_widen(
                    mem_pre,
                    m1,
                    pre.base_spec() + pre.offset,
                    if pre.flush_fits() {
                        pre.base_spec() + pre.offset + pre.output.level()
                    } else {
                        pre.base_spec() + pre.offset
                    },
                    w_lo,
                    vstd::math::max(
                        pre.base_spec() + pre.offset + pre.output.level(),
                        address + self.offset,
                    ),
                );
            }
            if prev_flush < 0 {
                return prev_flush;
            }
            return ERROR_BASE_INTERNAL - 4;
        }

        // The image length is prepended to the first chunk; cut it off.
        let compressed_length = data[0] as u32 + data[1] as u32 * 0x100 + data[2] as u32
            * 0x10000 + data[3] as u32 * 0x1000000;
        proof {
            assert(compressed_length as int == le32(data@));
        }

        self.reinit(address, compressed_length);

        let ghost s2 = *self;

        let rest = slice_subrange(data, 4, data.len());
        let r2 = self.decompress(rest, kind, flash);

        proof {
            assert(s2.committed(m1));
            let hi = vstd::math::max(
                pre.base_spec() + pre.offset + pre.output.level(),
                address + self.offset,
            );
            lemma_unchanged_outside_trans(
                mem_pre,
                m1,
                flash.mem(),
                pre.base_spec() + pre.offset,
                if pre.flush_fits() {
                    pre.base_spec() + pre.offset + pre.output.level()
                } else {
                    pre.base_spec() + pre.offset
                },
                address as int,
                address + self.offset,
                w_lo,
                hi,
            );
            if kind is Write && pre.flush_would_succeed(mem_pre, ProcessKind::Write) && (address
                + self.offset <= pre.base_spec() + pre.offset || address as int >= pre.base_spec()
                + pre.offset + pre.output.level()) {
                lemma_range_matches_preserved(
                    m1,
                    flash.mem(),
                    pre.base_spec() + pre.offset,
                    pre.output.bytes(),
                    pre.output.level(),
                    address as int,
                    address + self.offset,
                );
            }
        }

        if prev_flush < 0 {
            return prev_flush;
        }
        r2
    }

    /// Program one chunk of the compressed image anchored at `address`
    /// into flash.
    pub fn program<F: FlashDriver>(&mut self, address: u32, data: &[u8], flash: &mut F) -> (r:
        i32)
        requires
            old(self).wf(),
        ensures
            old(self).image_start == Some(address) ==> decode_step_post(
                *old(self),
                *final(self),
                old(flash).mem(),
                final(flash).mem(),
                data@.len() as int,
                ProcessKind::Write,
                r,
            ),
            old(self).image_start != Some(address) ==> switch_post(
                *old(self),
                *final(self),
                old(flash).mem(),
                final(flash).mem(),
                address,
                data@,
                ProcessKind::Write,
                r,
            ),
    {
        self.handle_compressed(address, data, ProcessKind::Write, flash)
    }

    /// Decode one chunk of the compressed image anchored at `address` and
    /// compare the decoded bytes against what flash already holds, without
    /// writing. Returns, as the CMSIS-Pack convention asks, the end
    /// address of the chunk on success and the start address on failure;
    /// comparison works on decompressed data, so a mismatch cannot be
    /// located more precisely than that.
    pub fn verify<F: FlashDriver>(&mut self, address: u32, data: &[u8], flash: &mut F) -> (r:
        i32)
        requires
            old(self).wf(),
            address + data@.len() <= u32::MAX,
        ensures
            final(self).wf(),
            final(flash).mem() == old(flash).mem(),
            verify_call_post(
                *old(self),
                *final(self),
                old(flash).mem(),
                final(flash).mem(),
                address,
                data@,
                r,
            ),
    {
        let status = self.handle_compressed(address, data, ProcessKind::Check, flash);

        let rv: u32 = if status == 0 {
            address + data.len() as u32
        } else {
            address
        };

        let code: i32 = if rv <= 0x7FFF_FFFF {
            rv as i32
        } else {
            ((rv as i64) - 0x1_0000_0000i64) as i32
        };

        proof {
            let step_ok = decode_step_post(
                *old(self),
                *self,
                old(flash).mem(),
                flash.mem(),
                data@.len() as int,
                ProcessKind::Check,
                status,
            );
            let switch_ok = switch_post(
                *old(self),
                *self,
                old(flash).mem(),
                flash.mem(),
                address,
                data@,
                ProcessKind::Check,
                status,
            );
            if old(self).image_start == Some(address) {
                assert(step_ok);
            } else {
                assert(switch_ok);
            }
        }

        code
    }
}

/// Bounded memory: a well-formed programmer never buffers more than one
/// window's worth — `OUT_BUFFER_SIZE` bytes — of decompressed data that
/// has not yet been flushed.
pub proof fn lemma_bounded_buffering(d: Decompressor)
    requires
        d.wf(),
    ensures
        d.output.level() <= OUT_BUFFER_SIZE,
        d.produced@.len() - d.offset <= OUT_BUFFER_SIZE,
{
}

/// Monotonic, gap-free writes: everything flushed so far sits in flash as
/// one contiguous run at the image's base address, byte-for-byte equal to
/// the decompressed prefix of that length.
pub proof fn lemma_committed_content(d: Decompressor, mem: Seq<u8>)
    requires
        d.wf(),
        d.committed(mem),
        d.offset > 0,
    ensures
        d.base_spec() + d.offset <= mem.len(),
        mem.subrange(d.base_spec(), d.base_spec() + d.offset) == d.produced@.take(d.offset as int),
{
}

/// Round trip across calls: two consecutive successful decoding steps of
/// the same image compose. The engine-output record of the first step is
/// preserved by the second, flash changes stay inside the two flushed
/// windows, and everything flushed by either step is committed at the
/// image base. Chained over a whole sequence of `program` calls, this
/// puts the image's decompressed bytes in flash contiguously from the
/// base address, in order, for any chunking of the stream.
pub proof fn lemma_decode_steps_compose(
    pre: Decompressor,
    mid: Decompressor,
    post: Decompressor,
    mem_pre: Seq<u8>,
    mem_mid: Seq<u8>,
    mem_post: Seq<u8>,
    n1: int,
    n2: int,
    kind: ProcessKind,
)
    requires
        decode_step_post(pre, mid, mem_pre, mem_mid, n1, kind, 0),
        decode_step_post(mid, post, mem_mid, mem_post, n2, kind, 0),
        pre.committed(mem_pre),
        pre.wf(),
    ensures
        post.committed(mem_post),
        post.produced@.take(pre.produced@.len() as int) == pre.produced@,
        post.offset >= pre.offset,
        unchanged_outside(
            mem_pre,
            mem_post,
            pre.base_spec() + pre.offset,
            pre.base_spec() + post.offset,
        ),
{
    assert(pre.remaining_compressed > 0);
    assert(mid.committed(mem_mid));
    if mid.remaining_compressed > 0 {
        assert_seqs_equal!(post.produced@.take(pre.produced@.len() as int) == pre.produced@, t => {
            assert(post.produced@.take(mid.produced@.len() as int)[t] == mid.produced@[t]);
            assert(mid.produced@.take(pre.produced@.len() as int)[t] == pre.produced@[t]);
        });
        lemma_unchanged_outside_trans(
            mem_pre,
            mem_mid,
            mem_post,
            pre.base_spec() + pre.offset,
            pre.base_spec() + mid.offset,
            mid.base_spec() + mid.offset,
            mid.base_spec() + post.offset,
            pre.base_spec() + pre.offset,
            pre.base_spec() + post.offset,
        );
    } else {
        assert(post == mid && mem_post == mem_mid);
    }
}

} // verus!
