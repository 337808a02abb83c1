//! The flash-driver boundary.
//!
//! The agent never touches flash hardware directly: every erase, write and
//! read goes through the [`FlashDriver`] trait, which models the vendor ROM
//! driver as a byte-addressed device. [`SimFlash`] is an in-memory
//! implementation of the same contract, used to exercise the pipeline.

use vstd::prelude::*;

use vstd::assert_seqs_equal;

use crate::properties::FLASH_BLOCK_SIZE;

verus! {

/// The first `n` bytes of `data` sit inside `mem` starting at `address`.
pub open spec fn range_matches(mem: Seq<u8>, address: int, data: Seq<u8>, n: int) -> bool {
    n == 0 || (0 <= address && 0 < n <= data.len() && address + n <= mem.len()
        && mem.subrange(address, address + n) == data.take(n))
}

/// `m2` is `m1` with changes confined to the address range `[lo, hi)`.
pub open spec fn unchanged_outside(m1: Seq<u8>, m2: Seq<u8>, lo: int, hi: int) -> bool {
    m2.len() == m1.len() && forall|i: int|
        0 <= i < m1.len() && !(lo <= i < hi) ==> #[trigger] m2[i] == m1[i]
}

/// Two successive changes, each confined to a sub-range of `[lo, hi)`,
/// are together confined to `[lo, hi)`.
pub proof fn lemma_unchanged_outside_trans(
    m1: Seq<u8>,
    m2: Seq<u8>,
    m3: Seq<u8>,
    lo1: int,
    hi1: int,
    lo2: int,
    hi2: int,
    lo: int,
    hi: int,
)
    requires
        unchanged_outside(m1, m2, lo1, hi1),
        unchanged_outside(m2, m3, lo2, hi2),
        lo <= lo1,
        hi1 <= hi || hi1 <= lo1,
        lo <= lo2,
        hi2 <= hi || hi2 <= lo2,
    ensures
        unchanged_outside(m1, m3, lo, hi),
{
    assert forall|i: int| 0 <= i < m1.len() && !(lo <= i < hi) implies #[trigger] m3[i]
        == m1[i] by {
        assert(m2[i] == m1[i]);
        assert(m3[i] == m2[i]);
    }
}

/// Extending a committed range: if `mem2` still holds the old prefix of
/// `off` bytes of `data` and newly holds the next `k` bytes, the whole
/// prefix of `off + k` bytes is committed.
pub proof fn lemma_range_matches_extend(
    mem1: Seq<u8>,
    mem2: Seq<u8>,
    base: int,
    off: int,
    k: int,
    data: Seq<u8>,
)
    requires
        0 <= base,
        0 <= off,
        0 <= k,
        range_matches(mem1, base, data, off),
        unchanged_outside(mem1, mem2, base + off, base + off + k),
        range_matches(mem2, base + off, data.skip(off), k),
        off + k <= data.len(),
    ensures
        range_matches(mem2, base, data, off + k),
{
    if off + k == 0 {
        return ;
    }
    if k == 0 {
        assert_seqs_equal!(mem2.subrange(base, base + off) == data.take(off), i => {
            assert(mem1.subrange(base, base + off)[i] == data.take(off)[i]);
            assert(mem2[base + i] == mem1[base + i]);
        });
    } else if off == 0 {
        assert_seqs_equal!(mem2.subrange(base, base + k) == data.take(k), i => {
            assert(mem2.subrange(base + 0, base + 0 + k)[i] == data.skip(0).take(k)[i]);
            assert(data.skip(0)[i] == data[i]);
        });
    } else {
        assert_seqs_equal!(mem2.subrange(base, base + off + k) == data.take(off + k), i => {
            if i < off {
                assert(mem1.subrange(base, base + off)[i] == data.take(off)[i]);
                assert(mem2[base + i] == mem1[base + i]);
            } else {
                let j = i - off;
                assert(mem2.subrange(base + off, base + off + k)[j]
                    == data.skip(off).take(k)[j]);
                assert(data.skip(off)[j] == data[off + j]);
            }
        });
    }
}

/// A change confined to a sub-range of `[lo, hi)` is confined to
/// `[lo, hi)`.
pub proof fn lemma_unchanged_outside_widen(
    m1: Seq<u8>,
    m2: Seq<u8>,
    lo1: int,
    hi1: int,
    lo: int,
    hi: int,
)
    requires
        unchanged_outside(m1, m2, lo1, hi1),
        lo <= lo1,
        hi1 <= hi || hi1 <= lo1,
    ensures
        unchanged_outside(m1, m2, lo, hi),
{
    assert forall|i: int| 0 <= i < m1.len() && !(lo <= i < hi) implies #[trigger] m2[i]
        == m1[i] by {
        assert(m2[i] == m1[i]);
    }
}

/// A matched range survives a change that is confined to a disjoint
/// address range.
pub proof fn lemma_range_matches_preserved(
    m1: Seq<u8>,
    m2: Seq<u8>,
    addr: int,
    data: Seq<u8>,
    n: int,
    lo: int,
    hi: int,
)
    requires
        range_matches(m1, addr, data, n),
        unchanged_outside(m1, m2, lo, hi),
        addr + n <= lo || addr >= hi,
    ensures
        range_matches(m2, addr, data, n),
{
    if n != 0 {
        assert_seqs_equal!(m2.subrange(addr, addr + n) == data.take(n), i => {
            assert(m1.subrange(addr, addr + n)[i] == data.take(n)[i]);
            assert(m2[addr + i] == m1[addr + i]);
        });
    }
}

/// A byte-addressed flash device with block-erase semantics.
///
/// `mem()` is the current content of the device. Every operation returns 0
/// on success or a small negative driver error code; an operation that
/// fails touches at most the range it addressed.
///
/// The contract describes an ideal device: an operation succeeds exactly
/// when its range lies on the device. Spontaneous in-range hardware
/// failures are outside this model; admitting them would make success
/// owed nowhere above this trait, and properties such as a verify pass
/// succeeding over matching content could not be stated at all. The
/// failure paths above the trait stay live — any operation fails on an
/// out-of-range access — and each failure is attributed to its error
/// band.
pub trait FlashDriver: Sized {
    spec fn mem(&self) -> Seq<u8>;

    /// Attach and configure the flash; contents are unaffected.
    fn attach(&mut self) -> (r: i32)
        ensures
            final(self).mem() == old(self).mem(),
            -999 <= r <= 0,
    ;

    /// Erase one block: the addressed block becomes all `0xFF`.
    fn erase_block(&mut self, block_number: u32) -> (r: i32)
        ensures
            -999 <= r <= 0,
            r == 0 <==> (block_number + 1) * FLASH_BLOCK_SIZE <= old(self).mem().len(),
            unchanged_outside(
                old(self).mem(),
                final(self).mem(),
                block_number * FLASH_BLOCK_SIZE,
                (block_number + 1) * FLASH_BLOCK_SIZE,
            ),
            r == 0 ==> forall|i: int|
                block_number * FLASH_BLOCK_SIZE <= i < (block_number + 1) * FLASH_BLOCK_SIZE
                    ==> #[trigger] final(self).mem()[i] == 0xFFu8,
    ;

    /// Erase the whole device: every byte becomes `0xFF`.
    fn erase_chip(&mut self) -> (r: i32)
        ensures
            final(self).mem().len() == old(self).mem().len(),
            r == 0,
            forall|i: int|
                0 <= i < old(self).mem().len() ==> #[trigger] final(self).mem()[i] == 0xFFu8,
    ;

    /// Program `data` at `address`. Succeeds exactly when the range lies
    /// within the device.
    fn write(&mut self, address: u32, data: &[u8]) -> (r: i32)
        ensures
            -999 <= r <= 0,
            r == 0 <==> address + data@.len() <= old(self).mem().len(),
            unchanged_outside(
                old(self).mem(),
                final(self).mem(),
                address as int,
                address + data@.len(),
            ),
            r == 0 ==> final(self).mem().subrange(address as int, address + data@.len())
                == data@,
    ;

    /// Read back `buf.len()` bytes starting at `address`. Succeeds exactly
    /// when the range lies within the device; contents are unaffected.
    fn read(&mut self, address: u32, buf: &mut Vec<u8>) -> (r: i32)
        ensures
            final(self).mem() == old(self).mem(),
            final(buf)@.len() == old(buf)@.len(),
            -999 <= r <= 0,
            r == 0 <==> address + old(buf)@.len() <= old(self).mem().len(),
            r == 0 ==> final(buf)@ == old(self).mem().subrange(
                address as int,
                address + old(buf)@.len(),
            ),
            r != 0 ==> final(buf)@ == old(buf)@,
    ;

    /// Wait until the device reports idle; contents are unaffected.
    fn wait_idle(&mut self) -> (r: i32)
        ensures
            final(self).mem() == old(self).mem(),
            -999 <= r <= 0,
    ;
}

/// Attach the flash device.
pub fn attach<F: FlashDriver>(flash: &mut F) -> (r: i32)
    ensures
        final(flash).mem() == old(flash).mem(),
        -999 <= r <= 0,
{
    flash.attach()
}

/// Erase the block containing `adr`.
pub fn erase_block<F: FlashDriver>(flash: &mut F, adr: u32) -> (r: i32)
    ensures
        -999 <= r <= 0,
        r == 0 <==> (adr / FLASH_BLOCK_SIZE + 1) * FLASH_BLOCK_SIZE <= old(flash).mem().len(),
        unchanged_outside(
            old(flash).mem(),
            final(flash).mem(),
            (adr / FLASH_BLOCK_SIZE) * FLASH_BLOCK_SIZE,
            (adr / FLASH_BLOCK_SIZE + 1) * FLASH_BLOCK_SIZE,
        ),
        r == 0 ==> forall|i: int|
            (adr / FLASH_BLOCK_SIZE) * FLASH_BLOCK_SIZE <= i
                < (adr / FLASH_BLOCK_SIZE + 1) * FLASH_BLOCK_SIZE
                ==> #[trigger] final(flash).mem()[i] == 0xFFu8,
{
    flash.erase_block(adr / FLASH_BLOCK_SIZE)
}

/// Erase the whole device.
pub fn erase_chip<F: FlashDriver>(flash: &mut F) -> (r: i32)
    ensures
        final(flash).mem().len() == old(flash).mem().len(),
        r == 0,
        forall|i: int|
            0 <= i < old(flash).mem().len() ==> #[trigger] final(flash).mem()[i] == 0xFFu8,
{
    flash.erase_chip()
}

/// Program `data` at `address`; writing nothing succeeds without touching
/// the driver.
pub fn write_flash<F: FlashDriver>(flash: &mut F, address: u32, data: &[u8]) -> (r: i32)
    ensures
        -999 <= r <= 0,
        r == 0 <==> data@.len() == 0 || address + data@.len() <= old(flash).mem().len(),
        unchanged_outside(
            old(flash).mem(),
            final(flash).mem(),
            address as int,
            address + data@.len(),
        ),
        r == 0 ==> range_matches(final(flash).mem(), address as int, data@, data@.len() as int),
        data@.len() == 0 ==> final(flash).mem() == old(flash).mem(),
{
    if data.len() == 0 {
        return 0;
    }
    let r = flash.write(address, data);
    proof {
        if r == 0 {
            assert(data@.take(data@.len() as int) =~= data@);
        }
    }
    r
}

/// Read `data.len()` bytes at `address`; reading nothing succeeds without
/// touching the driver.
pub fn read_flash<F: FlashDriver>(flash: &mut F, address: u32, data: &mut Vec<u8>) -> (r: i32)
    ensures
        final(flash).mem() == old(flash).mem(),
        final(data)@.len() == old(data)@.len(),
        -999 <= r <= 0,
        r == 0 <==> old(data)@.len() == 0 || address + old(data)@.len() <= old(
            flash,
        ).mem().len(),
        r == 0 ==> old(data)@.len() == 0 || final(data)@ == old(flash).mem().subrange(
            address as int,
            address + old(data)@.len(),
        ),
        r != 0 ==> final(data)@ == old(data)@,
        old(data)@.len() == 0 ==> final(data)@ == old(data)@,
{
    if data.len() == 0 {
        return 0;
    }
    flash.read(address, data)
}

/// Wait for the last flash operation to finish.
pub fn wait_for_idle<F: FlashDriver>(flash: &mut F) -> (r: i32)
    ensures
        final(flash).mem() == old(flash).mem(),
        -999 <= r <= 0,
{
    flash.wait_idle()
}

/// An in-memory flash device obeying the [`FlashDriver`] contract.
pub struct SimFlash {
    data: Vec<u8>,
}

impl SimFlash {
    /// A device of `size` bytes, initially erased (all `0xFF`).
    pub fn new(size: usize) -> (r: Self)
        ensures
            r.mem().len() == size,
            forall|i: int| 0 <= i < size ==> #[trigger] r.mem()[i] == 0xFFu8,
    {
        let mut data: Vec<u8> = Vec::new();
        let mut k: usize = 0;
        while k < size
            invariant
                k <= size,
                data@.len() == k,
                forall|i: int| 0 <= i < k ==> #[trigger] data@[i] == 0xFFu8,
            decreases size - k,
        {
            data.push(0xFF);
            k += 1;
        }
        SimFlash { data }
    }

    /// The byte currently stored at `address`.
    pub fn byte_at(&self, address: usize) -> (b: u8)
        requires
            address < self.mem().len(),
        ensures
            b == self.mem()[address as int],
    {
        self.data[address]
    }

    /// Number of bytes the device holds.
    pub fn size(&self) -> (n: usize)
        ensures
            n == self.mem().len(),
    {
        self.data.len()
    }
}

impl FlashDriver for SimFlash {
    closed spec fn mem(&self) -> Seq<u8> {
        self.data@
    }

    fn attach(&mut self) -> (r: i32) {
        0
    }

    #[verifier::loop_isolation(false)]
    fn erase_block(&mut self, block_number: u32) -> (r: i32) {
        let end = (block_number as u64 + 1) * 65536u64;
        proof {
            assert(end == (block_number + 1) * FLASH_BLOCK_SIZE);
        }
        if end > self.data.len() as u64 {
            return -1;
        }
        let start = (block_number as u64 * 65536u64) as usize;
        let end = end as usize;
        let mut k: usize = start;
        while k < end
            invariant
                start <= k <= end <= self.data@.len(),
                self.data@.len() == old(self).mem().len(),
                forall|i: int|
                    0 <= i < self.data@.len() && !(start <= i < k)
                        ==> #[trigger] self.data@[i] == old(self).mem()[i],
                forall|i: int| start <= i < k ==> #[trigger] self.data@[i] == 0xFFu8,
            decreases end - k,
        {
            self.data.set(k, 0xFF);
            k += 1;
        }
        0
    }

    #[verifier::loop_isolation(false)]
    fn erase_chip(&mut self) -> (r: i32) {
        let end = self.data.len();
        let mut k: usize = 0;
        while k < end
            invariant
                k <= end == self.data@.len(),
                self.data@.len() == old(self).mem().len(),
                forall|i: int| 0 <= i < k ==> #[trigger] self.data@[i] == 0xFFu8,
            decreases end - k,
        {
            self.data.set(k, 0xFF);
            k += 1;
        }
        0
    }

    #[verifier::loop_isolation(false)]
    fn write(&mut self, address: u32, data: &[u8]) -> (r: i32) {
        let n = data.len();
        if n > self.data.len() || address as u64 > (self.data.len() - n) as u64 {
            return -1;
        }
        let start = address as usize;
        let mut k: usize = 0;
        while k < data.len()
            invariant
                k <= data@.len(),
                start == address as int,
                start + data@.len() <= self.data@.len(),
                start + data@.len() <= usize::MAX,
                self.data@.len() == old(self).mem().len(),
                forall|i: int|
                    0 <= i < self.data@.len() && !(start <= i < start + data@.len())
                        ==> #[trigger] self.data@[i] == old(self).mem()[i],
                forall|i: int|
                    start <= i < start + k ==> #[trigger] self.data@[i] == data@[i - start],
            decreases data@.len() - k,
        {
            self.data.set(start + k, data[k]);
            k += 1;
        }
        proof {
            assert_seqs_equal!(
                self.data@.subrange(address as int, address + data@.len()) == data@,
                i => {
                    assert(self.data@[start + i] == data@[i]);
                }
            );
        }
        0
    }

    #[verifier::loop_isolation(false)]
    fn read(&mut self, address: u32, buf: &mut Vec<u8>) -> (r: i32) {
        let n = buf.len();
        if n > self.data.len() || address as u64 > (self.data.len() - n) as u64 {
            return -1;
        }
        let start = address as usize;
        let mut k: usize = 0;
        while k < n
            invariant
                k <= n == buf@.len(),
                start == address as int,
                start + n <= self.data@.len(),
                start + n <= usize::MAX,
                self.data@ == old(self).mem(),
                forall|i: int| 0 <= i < k ==> #[trigger] buf@[i] == self.data@[start + i],
            decreases n - k,
        {
            let b = self.data[start + k];
            buf.set(k, b);
            k += 1;
        }
        proof {
            assert_seqs_equal!(
                buf@ == old(self).mem().subrange(address as int, address + old(buf)@.len()),
                i => {
                    assert(buf@[i] == self.data@[start + i]);
                }
            );
        }
        0
    }

    fn wait_idle(&mut self) -> (r: i32) {
        0
    }
}

/// The flash size in bytes that a 24-bit JEDEC id announces, or -1 for an
/// id the table does not know. Adesto parts encode the capacity in the
/// low bits of the second id byte; everyone else uses the third byte.
pub open spec fn spec_flash_size(id: u32) -> int {
    let manufacturer = id & 0xFF;
    if manufacturer == 0x1F {
        let capacity = ((id >> 8) & 0xFF) & 0x1F;
        if capacity == 0x04 {
            512 * 1024int
        } else if capacity == 0x05 {
            1024int * 1024
        } else if capacity == 0x06 {
            2 * 1024int * 1024
        } else if capacity == 0x07 {
            4 * 1024int * 1024
        } else if capacity == 0x08 {
            8 * 1024int * 1024
        } else if capacity == 0x09 {
            16 * 1024int * 1024
        } else {
            (-1int)
        }
    } else {
        let capacity = (id >> 16) & 0xFF;
        if capacity == 0x12 || capacity == 0x32 {
            256 * 1024int
        } else if capacity == 0x13 || capacity == 0x33 {
            512 * 1024int
        } else if capacity == 0x14 || capacity == 0x34 {
            1024int * 1024
        } else if capacity == 0x15 || capacity == 0x35 {
            2 * 1024int * 1024
        } else if capacity == 0x16 || capacity == 0x36 {
            4 * 1024int * 1024
        } else if capacity == 0x17 || capacity == 0x37 {
            8 * 1024int * 1024
        } else if capacity == 0x18 || capacity == 0x38 {
            16 * 1024int * 1024
        } else if capacity == 0x19 || capacity == 0x39 {
            32 * 1024int * 1024
        } else if capacity == 0x1A || capacity == 0x3A || capacity == 0x20 {
            64 * 1024int * 1024
        } else if capacity == 0x1B || capacity == 0x21 {
            128 * 1024int * 1024
        } else if capacity == 0x1C || capacity == 0x22 {
            256 * 1024int * 1024
        } else {
            (-1int)
        }
    }
}

const KB: i32 = 1024;

const MB: i32 = 1048576;

const ADESTO_VENDOR_ID: u32 = 0x1F;

/// Decode the flash size from the JEDEC id the chip answered to the
/// read-identification command.
pub fn get_flash_size(id: u32) -> (r: i32)
    ensures
        r == spec_flash_size(id),
{
    let manufacturer = id & 0xFF;
    if manufacturer == ADESTO_VENDOR_ID {
        let capacity = ((id >> 8) & 0xFF) & 0x1F;
        match capacity {
            0x04 => 512 * KB,
            0x05 => 1 * MB,
            0x06 => 2 * MB,
            0x07 => 4 * MB,
            0x08 => 8 * MB,
            0x09 => 16 * MB,
            _ => -1,
        }
    } else {
        let capacity = (id >> 16) & 0xFF;
        match capacity {
            0x12 => 256 * KB,
            0x13 => 512 * KB,
            0x14 => 1 * MB,
            0x15 => 2 * MB,
            0x16 => 4 * MB,
            0x17 => 8 * MB,
            0x18 => 16 * MB,
            0x19 => 32 * MB,
            0x1A => 64 * MB,
            0x1B => 128 * MB,
            0x1C => 256 * MB,
            0x20 => 64 * MB,
            0x21 => 128 * MB,
            0x22 => 256 * MB,
            0x32 => 256 * KB,
            0x33 => 512 * KB,
            0x34 => 1 * MB,
            0x35 => 2 * MB,
            0x36 => 4 * MB,
            0x37 => 8 * MB,
            0x38 => 16 * MB,
            0x39 => 32 * MB,
            0x3A => 64 * MB,
            _ => -1,
        }
    }
}

/// The memory-mapped SPI controller's register block: a base address and
/// the offsets of the registers the flash-size probe touches.
pub struct MemSpi {
    pub base: u32,
    pub cmd: u32,
    pub addr: u32,
    pub ctrl: u32,
    pub user: u32,
    pub user1: u32,
    pub user2: u32,
    pub miso_dlen: u32,
    pub data_buf_0: u32,
}

impl MemSpi {
    pub fn cmd(&self) -> (r: u32)
        ensures
            r == self.base | self.cmd,
    {
        self.base | self.cmd
    }

    pub fn addr(&self) -> (r: u32)
        ensures
            r == self.base | self.addr,
    {
        self.base | self.addr
    }

    pub fn ctrl(&self) -> (r: u32)
        ensures
            r == self.base | self.ctrl,
    {
        self.base | self.ctrl
    }

    pub fn user(&self) -> (r: u32)
        ensures
            r == self.base | self.user,
    {
        self.base | self.user
    }

    pub fn user1(&self) -> (r: u32)
        ensures
            r == self.base | self.user1,
    {
        self.base | self.user1
    }

    pub fn user2(&self) -> (r: u32)
        ensures
            r == self.base | self.user2,
    {
        self.base | self.user2
    }

    pub fn miso_dlen(&self) -> (r: u32)
        ensures
            r == self.base | self.miso_dlen,
    {
        self.base | self.miso_dlen
    }

    pub fn data_buf_0(&self) -> (r: u32)
        ensures
            r == self.base | self.data_buf_0,
    {
        self.base | self.data_buf_0
    }
}

} // verus!
