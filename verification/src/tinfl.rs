//! The incremental inflate engine and its 32 KiB output window.
//!
//! The DEFLATE/zlib bit-unpacking itself is an external collaborator: it is
//! performed by `miniz_oxide`'s core decompressor, reached through a single
//! trusted wrapper. Everything stated about a decompression step here is
//! structural — which bytes of the window a step may touch, and how the fill
//! level moves — so that the surrounding pipeline can be verified for every
//! behaviour of the engine.

use vstd::prelude::*;

verus! {

/// The decompression finished and the trailing checksum matched.
pub const TINFL_STATUS_DONE: i32 = 0;

/// The decoder consumed all usable input and needs more to continue.
pub const TINFL_STATUS_NEEDS_MORE_INPUT: i32 = 1;

/// The input has a zlib header and ends with an adler32 checksum.
const TINFL_FLAG_PARSE_ZLIB_HEADER: u32 = 1;

/// More input bytes exist beyond the end of the supplied buffer.
const TINFL_FLAG_HAS_MORE_INPUT: u32 = 2;

/// Capacity of the output window; also the DEFLATE dictionary size, so the
/// engine can resolve back-references into previously produced bytes that
/// are still in the window after a drain.
pub const OUT_BUFFER_SIZE: usize = 32768;

#[verifier::external_type_specification]
#[verifier::external_body]
pub struct ExDecompressorOxide(miniz_oxide::inflate::core::DecompressorOxide);

pub assume_specification[ miniz_oxide::inflate::core::DecompressorOxide::new ]()
    -> miniz_oxide::inflate::core::DecompressorOxide;

/// Relies on `miniz_oxide::inflate::core::decompress`: one incremental
/// inflate step over a wrapping window. The triple is (status, compressed
/// bytes read, bytes produced at `out_pos`). Its source writes only forward
/// from `out_pos`, never past the end of the buffer, and reports statuses
/// in the fixed range `-4 ..= 2` (`0` done, `1` needs input, `2` window
/// full, negative failed).
#[verifier::external_body]
fn inflate_step(
    engine: &mut miniz_oxide::inflate::core::DecompressorOxide,
    input: &[u8],
    buffer: &mut Vec<u8>,
    out_pos: usize,
    flags: u32,
) -> (r: (i32, usize, usize))
    requires
        out_pos <= old(buffer)@.len(),
    ensures
        final(buffer)@.len() == old(buffer)@.len(),
        out_pos + r.2 <= old(buffer)@.len(),
        forall|i: int|
            0 <= i < old(buffer)@.len() && !(out_pos <= i < out_pos + r.2)
                ==> final(buffer)@[i] == old(buffer)@[i],
        -4 <= r.0 <= 2,
{
    let (status, in_read, out_written) = miniz_oxide::inflate::core::decompress(
        engine,
        input,
        buffer.as_mut_slice(),
        out_pos,
        flags,
    );
    (status as i32, in_read, out_written)
}

/// Incremental DEFLATE/zlib decoder state. Opaque: it is always consistent
/// with exactly the bytes it has reported consumed and produced.
pub struct TinflDecompressor {
    engine: miniz_oxide::inflate::core::DecompressorOxide,
}

/// Fixed-capacity output window between decompression and flash writes.
///
/// `buffer` never changes size; `len` counts the valid bytes, which always
/// start at offset 0. Draining resets `len` but keeps the bytes in place,
/// preserving the decoder's dictionary.
pub struct OutBuffer {
    pub buffer: Vec<u8>,
    pub len: usize,
}

impl OutBuffer {
    pub open spec fn wf(self) -> bool {
        self.buffer@.len() == OUT_BUFFER_SIZE && self.len <= OUT_BUFFER_SIZE
    }

    /// The bytes currently buffered and not yet drained.
    pub open spec fn bytes(self) -> Seq<u8> {
        self.buffer@.take(self.len as int)
    }

    /// Current fill level.
    pub open spec fn level(self) -> int {
        self.len as int
    }

    /// The whole window, drained bytes included.
    pub open spec fn window(self) -> Seq<u8> {
        self.buffer@
    }

    pub fn new() -> (r: Self)
        ensures
            r.wf(),
            r.level() == 0,
            r.bytes() == Seq::<u8>::empty(),
    {
        let mut buffer: Vec<u8> = Vec::new();
        let mut k: usize = 0;
        while k < OUT_BUFFER_SIZE
            invariant
                k <= OUT_BUFFER_SIZE,
                buffer@.len() == k,
            decreases OUT_BUFFER_SIZE - k,
        {
            buffer.push(0);
            k += 1;
        }
        OutBuffer { buffer, len: 0 }
    }

    /// Remaining capacity.
    pub fn space(&self) -> (n: usize)
        requires
            self.wf(),
        ensures
            n == OUT_BUFFER_SIZE - self.level(),
    {
        OUT_BUFFER_SIZE - self.len
    }

    /// Whether the window is full and must be drained before the decoder
    /// can produce more.
    pub fn full(&self) -> (b: bool)
        requires
            self.wf(),
        ensures
            b <==> self.level() == OUT_BUFFER_SIZE,
    {
        self.space() == 0
    }

    /// Drain: hand out all buffered bytes in one shot and reset the fill
    /// level. The window contents stay in place for the dictionary.
    pub fn take(&mut self) -> (data: Vec<u8>)
        requires
            old(self).wf(),
        ensures
            final(self).wf(),
            data@ == old(self).bytes(),
            final(self).level() == 0,
            final(self).window() == old(self).window(),
    {
        let mut data: Vec<u8> = Vec::new();
        let mut k: usize = 0;
        while k < self.len
            invariant
                k <= self.len,
                self.len <= self.buffer@.len(),
                self.buffer@ == old(self).window(),
                self.len == old(self).len,
                data@.len() == k,
                forall|i: int| 0 <= i < k ==> #[trigger] data@[i] == self.buffer@[i],
            decreases self.len - k,
        {
            let b = self.buffer[k];
            data.push(b);
            k += 1;
        }
        self.len = 0;
        proof {
            assert(data@ =~= old(self).bytes());
        }
        data
    }
}

impl TinflDecompressor {
    /// A fresh decoder, ready for the start of a zlib stream.
    pub fn new() -> (r: Self) {
        TinflDecompressor { engine: miniz_oxide::inflate::core::DecompressorOxide::new() }
    }

    /// One decompression step: consume some of `input`, append decoded
    /// bytes to `out`. Returns the engine status and the number of input
    /// bytes consumed as the engine reported them; the count is not
    /// trusted and callers must range-check it. `last` tells the engine
    /// that `input` holds the final bytes of the stream, enabling
    /// trailing-checksum validation.
    pub fn decompress(&mut self, input: &[u8], out: &mut OutBuffer, last: bool) -> (r: (
        i32,
        usize,
    ))
        requires
            old(out).wf(),
        ensures
            ({
                let (status, in_read) = r;
                &&& final(out).wf()
                &&& -4 <= status <= 2
                &&& old(out).level() <= final(out).level()
                &&& final(out).bytes().take(old(out).level()) == old(out).bytes()
            }),
    {
        let flags = if last {
            TINFL_FLAG_PARSE_ZLIB_HEADER
        } else {
            TINFL_FLAG_PARSE_ZLIB_HEADER | TINFL_FLAG_HAS_MORE_INPUT
        };

        let (status, in_read, out_written) = inflate_step(
            &mut self.engine,
            input,
            &mut out.buffer,
            out.len,
            flags,
        );

        out.len = out.len + out_written;

        proof {
            assert(out.bytes().take(old(out).level()) =~= old(out).bytes());

        }

        (status, in_read)
    }
}

} // verus!
