//! Page-state-change batches: a header with current and end entry cursors,
//! then one 8-byte word per page, laid out in the mailbox's shared buffer.
use vstd::prelude::*;

use crate::page::{vmpl_pa2page, PagePool};
use crate::ghcb::{byte_of, le_u64, set_field, with_shared_buffer, Ghcb, OFF_SW_EXIT_INFO_2, OFF_SW_SCRATCH};
use crate::vc::{
    exit_outcome, exit_prepared, term, vc_check_exit, vc_prepare_exit, vc_terminate_svsm_psc, cleared, Termination,
    GHCB_NAE_PSC, VMPL_REASON_CODE_SET, VMPL_TERM_PSC_ERROR,
};

verus! {

/// Operation code, in bits 52 and up, that makes a page private.
pub const PSC_PRIVATE: u64 = 0x10_0000_0000_0000;

/// Operation code, in bits 52 and up, that makes a page shared.
pub const PSC_SHARED: u64 = 0x20_0000_0000_0000;

/// The bits of a physical address that name its frame: 12 to 51.
pub const PSC_GFN_MASK: u64 = 0x000f_ffff_ffff_f000;

/// Size of the batch header.
pub const PSC_HEADER_SIZE: usize = 8;

/// Entries that fit in the shared buffer after the header.
pub const PSC_ENTRIES: usize = 253;

/// What a page-state change does to a page.
#[derive(Clone, Copy, Debug, PartialEq, Eq, Structural)]
pub enum PageOp {
    Private,
    Shared,
}

pub open spec fn op_code(op: PageOp) -> u64 {
    match op {
        PageOp::Private => PSC_PRIVATE,
        PageOp::Shared => PSC_SHARED,
    }
}

/// The entry word for `op` on the page at `pa`.
pub open spec fn psc_entry(pa: u64, op: PageOp) -> u64 {
    op_code(op) | (pa & PSC_GFN_MASK)
}

/// The batch header: cursors over the entries.
#[derive(Clone, Copy, Debug, PartialEq, Eq, Structural)]
pub struct PscOpHeader {
    pub cur_entry: u16,
    pub end_entry: u16,
    pub reserved: u32,
}

impl PscOpHeader {
    pub fn new() -> (r: PscOpHeader)
        ensures
            r == (PscOpHeader { cur_entry: 0, end_entry: 0, reserved: 0 }),
    {
        PscOpHeader { cur_entry: 0, end_entry: 0, reserved: 0 }
    }
}

/// One entry word of a batch.
#[derive(Clone, Copy, Debug, PartialEq, Eq, Structural)]
pub struct PscOpData {
    pub data: u64,
}

impl PscOpData {
    pub fn new() -> (r: PscOpData)
        ensures
            r.data == 0,
    {
        PscOpData { data: 0 }
    }
}

/// A batch of page-state changes.
pub struct PscOp {
    pub header: PscOpHeader,
    pub entries: Vec<PscOpData>,
}

pub open spec fn le_bytes_u64(v: u64) -> Seq<u8> {
    seq![
        byte_of(v, 0u64),
        byte_of(v, 8u64),
        byte_of(v, 16u64),
        byte_of(v, 24u64),
        byte_of(v, 32u64),
        byte_of(v, 40u64),
        byte_of(v, 48u64),
        byte_of(v, 56u64),
    ]
}

pub open spec fn header_bytes(h: PscOpHeader) -> Seq<u8> {
    seq![
        (h.cur_entry & 0xff) as u8,
        ((h.cur_entry >> 8u16) & 0xff) as u8,
        (h.end_entry & 0xff) as u8,
        ((h.end_entry >> 8u16) & 0xff) as u8,
        (h.reserved & 0xff) as u8,
        ((h.reserved >> 8u32) & 0xff) as u8,
        ((h.reserved >> 16u32) & 0xff) as u8,
        ((h.reserved >> 24u32) & 0xff) as u8,
    ]
}

pub open spec fn entries_bytes(s: Seq<PscOpData>) -> Seq<u8>
    decreases s.len(),
{
    if s.len() == 0 {
        Seq::empty()
    } else {
        entries_bytes(s.drop_last()) + le_bytes_u64(s.last().data)
    }
}

proof fn lemma_entries_bytes_len(s: Seq<PscOpData>)
    ensures
        entries_bytes(s).len() == 8 * s.len(),
    decreases s.len(),
{
    if s.len() > 0 {
        lemma_entries_bytes_len(s.drop_last());
    }
}

/// The wire form of a batch: header, then each entry word, little-endian.
pub open spec fn psc_bytes(h: PscOpHeader, entries: Seq<PscOpData>) -> Seq<u8> {
    header_bytes(h) + entries_bytes(entries)
}

fn push_le_u64(out: &mut Vec<u8>, v: u64)
    ensures
        final(out)@ == old(out)@ + le_bytes_u64(v),
{
    out.push(((v >> 0u64) & 0xff) as u8);
    out.push(((v >> 8u64) & 0xff) as u8);
    out.push(((v >> 16u64) & 0xff) as u8);
    out.push(((v >> 24u64) & 0xff) as u8);
    out.push(((v >> 32u64) & 0xff) as u8);
    out.push(((v >> 40u64) & 0xff) as u8);
    out.push(((v >> 48u64) & 0xff) as u8);
    out.push(((v >> 56u64) & 0xff) as u8);
    proof {
        assert(out@ =~= old(out)@ + le_bytes_u64(v));
    }
}

impl PscOp {
    /// An empty batch: zeroed header and every entry slot zeroed.
    pub fn new() -> (r: PscOp)
        ensures
            r.header == (PscOpHeader { cur_entry: 0, end_entry: 0, reserved: 0 }),
            r.entries@.len() == PSC_ENTRIES,
            forall|k: int| 0 <= k < PSC_ENTRIES ==> #[trigger] r.entries@[k].data == 0,
    {
        let mut entries: Vec<PscOpData> = Vec::new();
        let mut k: usize = 0;
        while k < PSC_ENTRIES
            invariant
                k <= PSC_ENTRIES,
                entries@.len() == k,
                forall|j: int| 0 <= j < k ==> #[trigger] entries@[j].data == 0,
            decreases PSC_ENTRIES - k,
        {
            entries.push(PscOpData::new());
            k = k + 1;
        }
        PscOp { header: PscOpHeader::new(), entries }
    }

    /// A batch applying `op` to each page of `pages`, in order: the cursors
    /// run from the first entry to the last.
    pub fn from_pages(pages: &Vec<u64>, op: PageOp) -> (r: PscOp)
        requires
            1 <= pages@.len() <= PSC_ENTRIES,
        ensures
            r.header == (PscOpHeader { cur_entry: 0, end_entry: (pages@.len() - 1) as u16, reserved: 0 }),
            r.entries@.len() == pages@.len(),
            forall|k: int| 0 <= k < pages@.len() ==> #[trigger] r.entries@[k].data == psc_entry(pages@[k], op),
    {
        let code = match op {
            PageOp::Private => PSC_PRIVATE,
            PageOp::Shared => PSC_SHARED,
        };
        let n = pages.len();
        let mut entries: Vec<PscOpData> = Vec::new();
        let mut k: usize = 0;
        while k < n
            invariant
                n == pages@.len(),
                code == op_code(op),
                k <= n,
                entries@.len() == k,
                forall|j: int| 0 <= j < k ==> #[trigger] entries@[j].data == psc_entry(pages@[j], op),
            decreases n - k,
        {
            entries.push(PscOpData { data: code | (pages[k] & PSC_GFN_MASK) });
            k = k + 1;
        }
        PscOp { header: PscOpHeader { cur_entry: 0, end_entry: (n - 1) as u16, reserved: 0 }, entries }
    }

    /// The batch as it is laid out in the shared buffer.
    pub fn to_bytes(&self) -> (r: Vec<u8>)
        requires
            self.entries@.len() <= PSC_ENTRIES,
        ensures
            r@ == psc_bytes(self.header, self.entries@),
            r@.len() == PSC_HEADER_SIZE + 8 * self.entries@.len(),
    {
        let h = self.header;
        let mut out: Vec<u8> = Vec::new();
        out.push((h.cur_entry & 0xff) as u8);
        out.push(((h.cur_entry >> 8u16) & 0xff) as u8);
        out.push((h.end_entry & 0xff) as u8);
        out.push(((h.end_entry >> 8u16) & 0xff) as u8);
        out.push((h.reserved & 0xff) as u8);
        out.push(((h.reserved >> 8u32) & 0xff) as u8);
        out.push(((h.reserved >> 16u32) & 0xff) as u8);
        out.push(((h.reserved >> 24u32) & 0xff) as u8);
        proof {
            assert(out@ =~= header_bytes(h) + entries_bytes(self.entries@.take(0)));
        }
        let n = self.entries.len();
        let mut k: usize = 0;
        while k < n
            invariant
                n == self.entries@.len(),
                k <= n,
                out@ == header_bytes(h) + entries_bytes(self.entries@.take(k as int)),
            decreases n - k,
        {
            proof {
                assert(self.entries@.take(k + 1).drop_last() =~= self.entries@.take(k as int));
            }
            push_le_u64(&mut out, self.entries[k].data);
            proof {
                assert(out@ =~= header_bytes(h) + entries_bytes(self.entries@.take(k + 1)));
            }
            k = k + 1;
        }
        proof {
            assert(self.entries@.take(n as int) =~= self.entries@);
            lemma_entries_bytes_len(self.entries@);
        }
        out
    }
}

/// Builds the batch that applies `op` to `pages` after looking each page up in
/// the pool. `None` when the batch would be empty or longer than the shared
/// buffer holds, or when a page lies outside the pool's range: a lookup
/// failure the caller treats as fatal.
pub fn psc_batch_for(pool: &PagePool, pages: &Vec<u64>, op: PageOp) -> (r: Option<PscOp>)
    requires
        pool@.wf(),
    ensures
        r is Some <==> (1 <= pages@.len() <= PSC_ENTRIES && forall|k: int|
            0 <= k < pages@.len() ==> pool@.in_range(#[trigger] pages@[k])),
        r matches Some(b) ==> {
            &&& b.header == (PscOpHeader { cur_entry: 0, end_entry: (pages@.len() - 1) as u16, reserved: 0 })
            &&& b.entries@.len() == pages@.len()
            &&& forall|k: int| 0 <= k < pages@.len() ==> #[trigger] b.entries@[k].data == psc_entry(pages@[k], op)
        },
{
    let n = pages.len();
    if n == 0 || n > PSC_ENTRIES {
        return None;
    }
    let mut k: usize = 0;
    while k < n
        invariant
            n == pages@.len(),
            pool@.wf(),
            k <= n,
            forall|j: int| 0 <= j < k ==> pool@.in_range(#[trigger] pages@[j]),
        decreases n - k,
    {
        if vmpl_pa2page(pool, pages[k]).is_none() {
            return None;
        }
        k = k + 1;
    }
    Some(PscOp::from_pages(pages, op))
}

/// Prepares the submission of a batch: its wire form goes into the shared
/// buffer, whose physical address `buffer_pa` goes into the scratch field.
pub fn vc_psc_prepare(ghcb: &mut Ghcb, op: &PscOp, buffer_pa: u64)
    requires
        old(ghcb).wf(),
        op.entries@.len() <= PSC_ENTRIES,
    ensures
        final(ghcb).wf(),
        final(ghcb)@ == exit_prepared(
            set_field(
                with_shared_buffer(old(ghcb)@, psc_bytes(op.header, op.entries@)),
                OFF_SW_SCRATCH as int,
                buffer_pa,
            ),
            GHCB_NAE_PSC,
            0,
            0,
        ),
{
    let bytes = op.to_bytes();
    ghcb.write_shared_buffer(&bytes);
    ghcb.set_field(OFF_SW_SCRATCH, buffer_pa);
    vc_prepare_exit(ghcb, GHCB_NAE_PSC, 0, 0);
}

/// The verdict on a page-state change in `b`: the exit must succeed and the
/// hypervisor report no error in info2.
pub open spec fn psc_outcome(b: Seq<u8>) -> Result<(), Termination> {
    match exit_outcome(b) {
        Err(t) => Err(t),
        Ok(_) => if le_u64(b, OFF_SW_EXIT_INFO_2 as int) != 0 {
            Err(term(VMPL_REASON_CODE_SET, VMPL_TERM_PSC_ERROR))
        } else {
            Ok(())
        },
    }
}

/// Finishes a page-state change: judges the answer and clears the mailbox.
pub fn vc_psc_complete(ghcb: &mut Ghcb) -> (r: Result<(), Termination>)
    requires
        old(ghcb).wf(),
    ensures
        final(ghcb).wf(),
        r == psc_outcome(old(ghcb)@),
        r is Ok ==> cleared(final(ghcb)@),
{
    match vc_check_exit(ghcb) {
        Err(t) => return Err(t),
        Ok(_) => {},
    }
    if ghcb.read_u64(OFF_SW_EXIT_INFO_2) != 0 {
        return Err(vc_terminate_svsm_psc());
    }
    ghcb.clear();
    Ok(())
}

} // verus!
