//! The host-facing operations.
//!
//! The host drives the agent through a fixed sequence of calls — set up,
//! erase, program or verify pages, read back, tear down — each reporting a
//! single integer. This module gates every operation on the set-up flag,
//! rejects unaligned host buffers before anything touches flash, and maps
//! the operations onto the streaming programmer and the flash driver.

use vstd::prelude::*;

use crate::decompressor::{decode_step_post, switch_post, verify_call_post};
use crate::decompressor::{Decompressor, ProcessKind};
use crate::flash::FlashDriver;
use crate::ERROR_BASE_INTERNAL;

verus! {

/// Size of the scratch read-back buffer used by the blank check.
pub const READ_BUFFER_SIZE: usize = 256;

/// Every byte of `mem` in `[lo, hi)` equals `pat`.
pub open spec fn blank_region(mem: Seq<u8>, lo: int, hi: int, pat: u8) -> bool {
    forall|i: int| lo <= i < hi ==> #[trigger] mem[i] == pat
}

/// The number of bytes a blank check over `sz` bytes actually inspects:
/// whole scratch-buffer windows, rounded up.
pub open spec fn blank_check_span(sz: u32) -> int {
    256 * ((sz + 255) / 256)
}

/// The agent's cross-call state: the set-up flag, the streaming
/// programmer, and the blank check's scratch buffer.
pub struct FlasherState {
    pub inited: bool,
    pub decompressor: Decompressor,
    pub read_buffer: Vec<u8>,
}

impl FlasherState {
    pub open spec fn wf(self) -> bool {
        &&& self.decompressor.wf()
        &&& self.read_buffer@.len() == READ_BUFFER_SIZE
    }

    /// A fresh, not-yet-set-up state.
    pub fn new() -> (r: Self)
        ensures
            r.wf(),
            !r.inited,
    {
        let mut read_buffer: Vec<u8> = Vec::new();
        let mut k: usize = 0;
        while k < READ_BUFFER_SIZE
            invariant
                k <= READ_BUFFER_SIZE,
                read_buffer@.len() == k,
            decreases READ_BUFFER_SIZE - k,
        {
            read_buffer.push(0);
            k += 1;
        }
        FlasherState { inited: false, decompressor: Decompressor::new(), read_buffer }
    }
}

/// Set up the device for the flashing process: reset the streaming
/// programmer, mark the agent ready and attach the flash.
#[allow(non_snake_case)]
pub fn Init_impl<F: FlashDriver>(
    state: &mut FlasherState,
    flash: &mut F,
    _adr: u32,
    _clk: u32,
    _fnc: u32,
) -> (r: i32)
    requires
        old(state).wf(),
    ensures
        final(state).wf(),
        final(state).inited,
        final(state).decompressor.image_start is None,
        final(state).decompressor.remaining_compressed == 0,
        final(flash).mem() == old(flash).mem(),
        -999 <= r <= 0,
{
    state.decompressor = Decompressor::new();
    state.inited = true;

    crate::flash::attach(flash)
}

/// Erase the sector (one flash block) containing `adr`.
#[allow(non_snake_case)]
pub fn EraseSector_impl<F: FlashDriver>(state: &mut FlasherState, flash: &mut F, adr: u32) -> (r:
    i32)
    requires
        old(state).wf(),
    ensures
        final(state).wf(),
        *final(state) == *old(state),
        !old(state).inited ==> r == ERROR_BASE_INTERNAL - 1 && final(flash).mem() == old(
            flash,
        ).mem(),
        old(state).inited ==> {
            &&& -999 <= r <= 0
            &&& (r == 0 <==> (adr / crate::properties::FLASH_BLOCK_SIZE + 1)
                * crate::properties::FLASH_BLOCK_SIZE <= old(flash).mem().len())
            &&& crate::flash::unchanged_outside(
                old(flash).mem(),
                final(flash).mem(),
                (adr / crate::properties::FLASH_BLOCK_SIZE)
                    * crate::properties::FLASH_BLOCK_SIZE,
                (adr / crate::properties::FLASH_BLOCK_SIZE + 1)
                    * crate::properties::FLASH_BLOCK_SIZE,
            )
            &&& (r == 0 ==> blank_region(
                final(flash).mem(),
                (adr / crate::properties::FLASH_BLOCK_SIZE)
                    * crate::properties::FLASH_BLOCK_SIZE,
                (adr / crate::properties::FLASH_BLOCK_SIZE + 1)
                    * crate::properties::FLASH_BLOCK_SIZE,
                0xFF,
            ))
        },
{
    if !state.inited {
        return ERROR_BASE_INTERNAL - 1;
    }
    crate::flash::erase_block(flash, adr)
}

/// Erase the whole device.
#[allow(non_snake_case)]
pub fn EraseChip_impl<F: FlashDriver>(state: &mut FlasherState, flash: &mut F) -> (r: i32)
    requires
        old(state).wf(),
    ensures
        final(state).wf(),
        *final(state) == *old(state),
        final(flash).mem().len() == old(flash).mem().len(),
        !old(state).inited ==> r == ERROR_BASE_INTERNAL - 1 && final(flash).mem() == old(
            flash,
        ).mem(),
        old(state).inited ==> r == 0 && blank_region(
            final(flash).mem(),
            0,
            old(flash).mem().len() as int,
            0xFF,
        ),
{
    if !state.inited {
        return ERROR_BASE_INTERNAL - 1;
    }
    crate::flash::erase_chip(flash)
}

/// Program one page of the compressed stream. `buf_addr` is the address
/// of the host's buffer: a buffer not aligned to 4 bytes is rejected
/// before anything is decoded or written.
#[allow(non_snake_case)]
pub fn ProgramPage_impl<F: FlashDriver>(
    state: &mut FlasherState,
    flash: &mut F,
    adr: u32,
    buf_addr: u32,
    data: &[u8],
) -> (r: i32)
    requires
        old(state).wf(),
    ensures
        final(state).wf(),
        final(state).inited == old(state).inited,
        final(state).read_buffer == old(state).read_buffer,
        !old(state).inited ==> r == ERROR_BASE_INTERNAL - 1 && *final(state) == *old(state)
            && final(flash).mem() == old(flash).mem(),
        old(state).inited && buf_addr % 4 != 0 ==> r == ERROR_BASE_INTERNAL - 5 && *final(state)
            == *old(state) && final(flash).mem() == old(flash).mem(),
        old(state).inited && buf_addr % 4 == 0 ==> {
            &&& (old(state).decompressor.image_start == Some(adr) ==> decode_step_post(
                old(state).decompressor,
                final(state).decompressor,
                old(flash).mem(),
                final(flash).mem(),
                data@.len() as int,
                ProcessKind::Write,
                r,
            ))
            &&& (old(state).decompressor.image_start != Some(adr) ==> switch_post(
                old(state).decompressor,
                final(state).decompressor,
                old(flash).mem(),
                final(flash).mem(),
                adr,
                data@,
                ProcessKind::Write,
                r,
            ))
        },
{
    if !state.inited {
        return ERROR_BASE_INTERNAL - 1;
    }

    if buf_addr % 4 != 0 {
        return ERROR_BASE_INTERNAL - 5;
    }

    state.decompressor.program(adr, data, flash)
}

/// Verify one page of the compressed stream against flash content.
/// Returns the end address of the page on success and its start address
/// on failure; an unaligned host buffer is rejected with the internal
/// error code instead, and nothing is read.
#[allow(non_snake_case)]
pub fn Verify_impl<F: FlashDriver>(
    state: &mut FlasherState,
    flash: &mut F,
    adr: u32,
    buf_addr: u32,
    data: &[u8],
) -> (r: i32)
    requires
        old(state).wf(),
        adr + data@.len() <= u32::MAX,
    ensures
        final(state).wf(),
        final(state).inited == old(state).inited,
        final(flash).mem() == old(flash).mem(),
        !old(state).inited ==> r == ERROR_BASE_INTERNAL - 1 && *final(state) == *old(state),
        old(state).inited && buf_addr % 4 != 0 ==> r == ERROR_BASE_INTERNAL - 5 && *final(state)
            == *old(state),
        old(state).inited && buf_addr % 4 == 0 ==> verify_call_post(
            old(state).decompressor,
            final(state).decompressor,
            old(flash).mem(),
            final(flash).mem(),
            adr,
            data@,
            r,
        ),
{
    if !state.inited {
        return ERROR_BASE_INTERNAL - 1;
    }

    if buf_addr % 4 != 0 {
        return ERROR_BASE_INTERNAL - 5;
    }

    state.decompressor.verify(adr, data, flash)
}

/// Read back `out.len()` bytes of flash at `adr` into the host's buffer;
/// an unaligned host buffer is rejected and nothing is read.
#[allow(non_snake_case)]
pub fn ReadFlash_impl<F: FlashDriver>(
    state: &mut FlasherState,
    flash: &mut F,
    adr: u32,
    buf_addr: u32,
    out: &mut Vec<u8>,
) -> (r: i32)
    requires
        old(state).wf(),
    ensures
        final(state).wf(),
        *final(state) == *old(state),
        final(flash).mem() == old(flash).mem(),
        final(out)@.len() == old(out)@.len(),
        !old(state).inited ==> r == ERROR_BASE_INTERNAL - 1 && final(out)@ == old(out)@,
        old(state).inited && buf_addr % 4 != 0 ==> r == ERROR_BASE_INTERNAL - 5 && final(out)@
            == old(out)@,
        old(state).inited && buf_addr % 4 == 0 ==> {
            &&& -999 <= r <= 0
            &&& (r == 0 <==> old(out)@.len() == 0 || adr + old(out)@.len() <= old(
                flash,
            ).mem().len())
            &&& (r == 0 ==> old(out)@.len() == 0 || final(out)@ == old(flash).mem().subrange(
                adr as int,
                adr + old(out)@.len(),
            ))
            &&& (r != 0 ==> final(out)@ == old(out)@)
        },
{
    if !state.inited {
        return ERROR_BASE_INTERNAL - 1;
    }

    if buf_addr % 4 != 0 {
        return ERROR_BASE_INTERNAL - 5;
    }

    crate::flash::read_flash(flash, adr, out)
}

/// Check that `sz` bytes at `adr` are erased to the pattern `pat`. The
/// read-back happens in whole scratch-buffer windows, so up to 255 bytes
/// beyond `sz` are inspected as well.
#[allow(non_snake_case)]
#[verifier::loop_isolation(false)]
pub fn BlankCheck_impl<F: FlashDriver>(
    state: &mut FlasherState,
    flash: &mut F,
    adr: u32,
    sz: u32,
    pat: u8,
) -> (r: i32)
    requires
        old(state).wf(),
        old(flash).mem().len() <= 0x1_0000_0000,
    ensures
        final(state).wf(),
        final(state).inited == old(state).inited,
        final(state).decompressor == old(state).decompressor,
        final(flash).mem() == old(flash).mem(),
        !old(state).inited ==> r == ERROR_BASE_INTERNAL - 1,
        old(state).inited ==> {
            &&& (r == 0 || r == ERROR_BASE_INTERNAL - 2 || r == ERROR_BASE_INTERNAL - 3)
            &&& (r == 0 <==> sz == 0 || (adr + blank_check_span(sz) <= old(flash).mem().len()
                && blank_region(old(flash).mem(), adr as int, adr + blank_check_span(sz), pat)))
            &&& (r == ERROR_BASE_INTERNAL - 2 ==> adr + blank_check_span(sz) > old(
                flash,
            ).mem().len())
            &&& (r == ERROR_BASE_INTERNAL - 3 ==> !blank_region(
                old(flash).mem(),
                adr as int,
                adr + blank_check_span(sz),
                pat,
            ))
        },
{
    if !state.inited {
        return ERROR_BASE_INTERNAL - 1;
    }

    let ghost mem0: Seq<u8> = flash.mem();
    let ghost span: int = blank_check_span(sz);

    let mut i: u64 = 0;
    while i < sz as u64
        invariant
            state.wf(),
            state.inited == old(state).inited,
            state.decompressor == old(state).decompressor,
            state.inited,
            flash.mem() == mem0,
            mem0.len() <= 0x1_0000_0000,
            i % 256 == 0,
            i <= span,
            i > 0 ==> adr + i <= mem0.len(),
            blank_region(mem0, adr as int, adr + i, pat),
        decreases span - i,
    {
        proof {
            assert(i < span) by {
                assert(i <= span - 256 || i > span - 256);
                if i > span - 256 {
                    assert(i >= span - 255);
                    assert(span >= sz);
                    assert(i % 256 == 0 && span % 256 == 0) by (nonlinear_arith)
                        requires
                            i % 256 == 0,
                            span == 256 * ((sz + 255) / 256),
                    ;
                    assert(false) by (nonlinear_arith)
                        requires
                            i % 256 == 0,
                            span % 256 == 0,
                            span - 255 <= i < span,
                    ;
                }
            }
            assert(i + 256 <= span);
        }
        if adr as u64 + i > u32::MAX as u64 - 255 {
            proof {
                assert(adr + span > mem0.len());
            }
            return ERROR_BASE_INTERNAL - 2;
        }
        let window_addr = (adr as u64 + i) as u32;
        let status = flash.read(window_addr, &mut state.read_buffer);
        if status != 0 {
            proof {
                assert(adr + i + 256 > mem0.len());
                assert(adr + span > mem0.len());
            }
            return ERROR_BASE_INTERNAL - 2;
        }

        let mut idx: usize = 0;
        while idx < READ_BUFFER_SIZE
            invariant
                state.read_buffer@.len() == READ_BUFFER_SIZE,
                idx <= READ_BUFFER_SIZE,
                state.read_buffer@ == mem0.subrange(adr + i, adr + i + 256),
                flash.mem() == mem0,
                adr + i + 256 <= mem0.len(),
                forall|t: int| 0 <= t < idx ==> #[trigger] state.read_buffer@[t] == pat,
            decreases READ_BUFFER_SIZE - idx,
        {
            if state.read_buffer[idx] != pat {
                proof {
                    assert(mem0[adr + i + idx] == state.read_buffer@[idx as int]);
                    assert(!blank_region(mem0, adr as int, adr + span, pat));
                }
                return ERROR_BASE_INTERNAL - 3;
            }
            idx += 1;
        }

        proof {
            assert forall|t: int| adr <= t < adr + i + 256 implies #[trigger] mem0[t] == pat by {
                if t >= adr + i {
                    let w = t - (adr + i);
                    assert(state.read_buffer@[w] == pat);
                    assert(state.read_buffer@[w] == mem0[adr + i + w]);
                } else {
                    assert(mem0[t] == pat);
                }
            }
        }

        i += 256;
    }

    proof {
        assert(i >= sz as int);
        if sz > 0 {
            assert(i == span) by (nonlinear_arith)
                requires
                    i % 256 == 0,
                    span == 256 * ((sz + 255) / 256),
                    sz <= i <= span,
                    sz > 0,
            ;
        }
    }

    0
}

/// Tear the agent down. With the dedicated tear-down code the call also
/// waits for the last flash operation to finish, since the ROM driver
/// does not.
#[allow(non_snake_case)]
pub fn UnInit_impl<F: FlashDriver>(state: &mut FlasherState, flash: &mut F, fnc: u32) -> (r: i32)
    requires
        old(state).wf(),
    ensures
        final(state).wf(),
        final(flash).mem() == old(flash).mem(),
        !old(state).inited ==> r == ERROR_BASE_INTERNAL - 1 && *final(state) == *old(state),
        old(state).inited ==> !final(state).inited && -999 <= r <= 0,
        old(state).inited && fnc != 2 ==> r == 0,
{
    if !state.inited {
        return ERROR_BASE_INTERNAL - 1;
    }

    state.inited = false;

    if fnc == 2 {
        // The flash ROM functions don't wait for the end of the last
        // operation.
        crate::flash::wait_for_idle(flash)
    } else {
        0
    }
}

} // verus!
