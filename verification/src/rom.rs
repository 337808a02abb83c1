//! ROM data tables: per-revision descriptions of the ROM regions that
//! must be unpacked into RAM before the ROM's flash routines can run. The
//! library decides which table applies to a chip revision; copying the
//! words is memory-mapped I/O and happens outside it.

use vstd::prelude::*;

verus! {

/// One revision's table: where its packed data and its zero-fill regions
/// lie.
#[derive(Clone, Copy, Debug, PartialEq, Eq, Structural)]
pub struct RomDataTable {
    pub min_revision: u32,
    pub data_start: u32,
    pub data_end: u32,
    pub bss_start: u32,
    pub bss_end: u32,
}

/// Pick the ROM data table to unpack for chip revision `rev`: the last
/// listed table whose minimum revision the chip meets, if any.
pub fn init_rom_data(tables: &Vec<RomDataTable>, rev: u32) -> (r: Option<usize>)
    ensures
        match r {
            Some(i) => i < tables@.len() && tables@[i as int].min_revision <= rev && forall|j: int|
                i < j < tables@.len() ==> #[trigger] tables@[j].min_revision > rev,
            None => forall|j: int|
                0 <= j < tables@.len() ==> #[trigger] tables@[j].min_revision > rev,
        },
{
    let mut found: Option<usize> = None;
    let mut k: usize = 0;
    #[verifier::loop_isolation(false)]
    while k < tables.len()
        invariant
            k <= tables@.len(),
            match found {
                Some(i) => i < k && tables@[i as int].min_revision <= rev && forall|j: int|
                    i < j < k ==> #[trigger] tables@[j].min_revision > rev,
                None => forall|j: int| 0 <= j < k ==> #[trigger] tables@[j].min_revision > rev,
            },
        decreases tables@.len() - k,
    {
        if tables[k].min_revision <= rev {
            found = Some(k);
        }
        k += 1;
    }
    found
}

} // verus!
