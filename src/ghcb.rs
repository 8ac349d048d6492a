//! The GHCB: the page shared with the hypervisor, held byte for byte in its
//! published layout. Quadword fields of the save area are little-endian, and
//! each has a bit in the validity bitmap whose index is its offset divided by 8.
use vstd::prelude::*;

verus! {

/// Size of the mailbox page.
pub const GHCB_PAGE_SIZE: usize = 4096;

/// Layout version written in the protocol-version field.
pub const GHCB_VERSION_1: u16 = 1;

/// Usage tag of the default layout.
pub const GHCB_USAGE: u32 = 0;

pub const OFF_RAX: usize = 0x1f8;
pub const OFF_RCX: usize = 0x308;
pub const OFF_RDX: usize = 0x310;
pub const OFF_RBX: usize = 0x318;
pub const OFF_SW_EXIT_CODE: usize = 0x390;
pub const OFF_SW_EXIT_INFO_1: usize = 0x398;
pub const OFF_SW_EXIT_INFO_2: usize = 0x3a0;
pub const OFF_SW_SCRATCH: usize = 0x3a8;
pub const OFF_XCR0: usize = 0x3e8;
pub const OFF_VALID_BITMAP: usize = 0x3f0;
pub const VALID_BITMAP_SIZE: usize = 16;
pub const OFF_SHARED_BUFFER: usize = 0x800;
pub const SHARED_BUFFER_SIZE: usize = 2032;
pub const OFF_PROTOCOL_VERSION: usize = 0xffa;
pub const OFF_USAGE: usize = 0xffc;

/// The byte of `v` that starts at bit `s`.
pub open spec fn byte_of(v: u64, s: u64) -> u8 {
    ((v >> s) & 0xff) as u8
}

/// The little-endian quadword stored at `off`.
pub open spec fn le_u64(b: Seq<u8>, off: int) -> u64 {
    (b[off] as u64) | ((b[off + 1] as u64) << 8u64) | ((b[off + 2] as u64) << 16u64) | ((b[off + 3] as u64)
        << 24u64) | ((b[off + 4] as u64) << 32u64) | ((b[off + 5] as u64) << 40u64) | ((b[off + 6] as u64)
        << 48u64) | ((b[off + 7] as u64) << 56u64)
}

/// `b` with the quadword `v` stored little-endian at `off`.
pub open spec fn put_le_u64(b: Seq<u8>, off: int, v: u64) -> Seq<u8> {
    b.update(off, byte_of(v, 0u64)).update(off + 1, byte_of(v, 8u64)).update(off + 2, byte_of(v, 16u64)).update(
        off + 3,
        byte_of(v, 24u64),
    ).update(off + 4, byte_of(v, 32u64)).update(off + 5, byte_of(v, 40u64)).update(off + 6, byte_of(v, 48u64)).update(
        off + 7,
        byte_of(v, 56u64),
    )
}

/// The byte of the validity bitmap that holds the bit of the field at `off`.
pub open spec fn valid_byte(off: int) -> int {
    OFF_VALID_BITMAP + off / 64
}

/// The mask, within its bitmap byte, of the bit of the field at `off`.
pub open spec fn valid_mask(off: int) -> u8 {
    (1u8 << ((off / 8) % 8) as u8)
}

/// Whether the field at `off` is marked valid.
pub open spec fn valid_bit(b: Seq<u8>, off: int) -> bool {
    b[valid_byte(off)] & valid_mask(off) != 0
}

/// `b` with the field at `off` set to `v` and marked valid.
pub open spec fn set_field(b: Seq<u8>, off: int, v: u64) -> Seq<u8> {
    let w = put_le_u64(b, off, v);
    w.update(valid_byte(off), w[valid_byte(off)] | valid_mask(off))
}

/// A quadword field of the save area that the validity bitmap covers.
pub open spec fn is_field(off: int) -> bool {
    0 <= off && off + 8 <= OFF_VALID_BITMAP && off % 8 == 0
}

/// No field of the save area is marked valid.
pub open spec fn none_valid(b: Seq<u8>) -> bool {
    forall|off: int| is_field(off) ==> !#[trigger] valid_bit(b, off)
}

/// Storing a quadword and reading it back gives the quadword.
pub proof fn lemma_le_u64_round_trip(b: Seq<u8>, off: int, v: u64)
    requires
        0 <= off && off + 8 <= b.len(),
    ensures
        le_u64(put_le_u64(b, off, v), off) == v,
        put_le_u64(b, off, v).len() == b.len(),
{
    let w = put_le_u64(b, off, v);
    assert(w[off] == byte_of(v, 0u64));
    assert(w[off + 1] == byte_of(v, 8u64));
    assert(w[off + 2] == byte_of(v, 16u64));
    assert(w[off + 3] == byte_of(v, 24u64));
    assert(w[off + 4] == byte_of(v, 32u64));
    assert(w[off + 5] == byte_of(v, 40u64));
    assert(w[off + 6] == byte_of(v, 48u64));
    assert(w[off + 7] == byte_of(v, 56u64));
    assert((((v >> 0u64) & 0xff) as u8 as u64) | ((((v >> 8u64) & 0xff) as u8 as u64) << 8u64) | ((((v
        >> 16u64) & 0xff) as u8 as u64) << 16u64) | ((((v >> 24u64) & 0xff) as u8 as u64) << 24u64) | ((((v
        >> 32u64) & 0xff) as u8 as u64) << 32u64) | ((((v >> 40u64) & 0xff) as u8 as u64) << 40u64) | ((((v
        >> 48u64) & 0xff) as u8 as u64) << 48u64) | ((((v >> 56u64) & 0xff) as u8 as u64) << 56u64) == v)
        by (bit_vector);
}

/// `b` with the protocol version and usage tag of the header set.
pub open spec fn put_header(b: Seq<u8>, version: u16, usage: u32) -> Seq<u8> {
    b.update(OFF_PROTOCOL_VERSION as int, (version & 0xff) as u8).update(
        OFF_PROTOCOL_VERSION + 1,
        ((version >> 8u16) & 0xff) as u8,
    ).update(OFF_USAGE as int, (usage & 0xff) as u8).update(OFF_USAGE + 1, ((usage >> 8u32) & 0xff) as u8).update(
        OFF_USAGE + 2,
        ((usage >> 16u32) & 0xff) as u8,
    ).update(OFF_USAGE + 3, ((usage >> 24u32) & 0xff) as u8)
}

/// `b` with `bytes` copied to the start of the shared buffer.
pub open spec fn with_shared_buffer(b: Seq<u8>, bytes: Seq<u8>) -> Seq<u8> {
    Seq::new(
        b.len(),
        |i: int|
            if OFF_SHARED_BUFFER <= i < OFF_SHARED_BUFFER + bytes.len() {
                bytes[i - OFF_SHARED_BUFFER]
            } else {
                b[i]
            },
    )
}

/// The mailbox page.
pub struct Ghcb {
    page: Vec<u8>,
}

impl View for Ghcb {
    type V = Seq<u8>;

    closed spec fn view(&self) -> Seq<u8> {
        self.page@
    }
}

impl Ghcb {
    pub open spec fn wf(&self) -> bool {
        self@.len() == GHCB_PAGE_SIZE
    }

    /// A zeroed mailbox page.
    pub fn zeroed() -> (r: Ghcb)
        ensures
            r.wf(),
            r@ == Seq::new(GHCB_PAGE_SIZE as nat, |i: int| 0u8),
    {
        let mut page: Vec<u8> = Vec::new();
        let mut i: usize = 0;
        while i < GHCB_PAGE_SIZE
            invariant
                i <= GHCB_PAGE_SIZE,
                page@.len() == i,
                forall|j: int| 0 <= j < i ==> page@[j] == 0u8,
            decreases GHCB_PAGE_SIZE - i,
        {
            page.push(0u8);
            i = i + 1;
        }
        let r = Ghcb { page };
        proof {
            assert(r@ =~= Seq::new(GHCB_PAGE_SIZE as nat, |i: int| 0u8));
        }
        r
    }

    /// A mailbox holding the given page bytes, as read from the shared page.
    pub fn from_bytes(bytes: Vec<u8>) -> (r: Ghcb)
        requires
            bytes@.len() == GHCB_PAGE_SIZE,
        ensures
            r.wf(),
            r@ == bytes@,
    {
        Ghcb { page: bytes }
    }

    /// The page bytes, to be written to the shared page.
    pub fn as_bytes(&self) -> (r: &Vec<u8>)
        ensures
            r@ == self@,
    {
        &self.page
    }

    /// The byte at `i`.
    pub fn byte(&self, i: usize) -> (r: u8)
        requires
            self.wf(),
            i < GHCB_PAGE_SIZE,
        ensures
            r == self@[i as int],
    {
        self.page[i]
    }

    /// The quadword at `off`.
    pub fn read_u64(&self, off: usize) -> (r: u64)
        requires
            self.wf(),
            off + 8 <= GHCB_PAGE_SIZE,
        ensures
            r == le_u64(self@, off as int),
    {
        let b = &self.page;
        (b[off] as u64) | ((b[off + 1] as u64) << 8u64) | ((b[off + 2] as u64) << 16u64) | ((b[off + 3] as u64)
            << 24u64) | ((b[off + 4] as u64) << 32u64) | ((b[off + 5] as u64) << 40u64) | ((b[off + 6] as u64)
            << 48u64) | ((b[off + 7] as u64) << 56u64)
    }

    /// Stores the quadword `v` at `off`.
    pub fn write_u64(&mut self, off: usize, v: u64)
        requires
            old(self).wf(),
            off + 8 <= GHCB_PAGE_SIZE,
        ensures
            final(self).wf(),
            final(self)@ == put_le_u64(old(self)@, off as int, v),
    {
        self.page.set(off, ((v >> 0u64) & 0xff) as u8);
        self.page.set(off + 1, ((v >> 8u64) & 0xff) as u8);
        self.page.set(off + 2, ((v >> 16u64) & 0xff) as u8);
        self.page.set(off + 3, ((v >> 24u64) & 0xff) as u8);
        self.page.set(off + 4, ((v >> 32u64) & 0xff) as u8);
        self.page.set(off + 5, ((v >> 40u64) & 0xff) as u8);
        self.page.set(off + 6, ((v >> 48u64) & 0xff) as u8);
        self.page.set(off + 7, ((v >> 56u64) & 0xff) as u8);
        proof {
            assert(self@ =~= put_le_u64(old(self)@, off as int, v));
        }
    }

    /// Stores the byte `v` at `i`.
    pub fn write_byte(&mut self, i: usize, v: u8)
        requires
            old(self).wf(),
            i < GHCB_PAGE_SIZE,
        ensures
            final(self).wf(),
            final(self)@ == old(self)@.update(i as int, v),
    {
        self.page.set(i, v);
    }

    /// Whether the field at `off` is marked valid.
    pub fn is_valid(&self, off: usize) -> (r: bool)
        requires
            self.wf(),
            is_field(off as int),
        ensures
            r == valid_bit(self@, off as int),
    {
        let q = off / 8;
        let mask: u8 = 1u8 << ((q % 8) as u8);
        self.page[OFF_VALID_BITMAP + q / 8] & mask != 0
    }

    /// Sets the field at `off` to `v` and marks it valid.
    pub fn set_field(&mut self, off: usize, v: u64)
        requires
            old(self).wf(),
            is_field(off as int),
        ensures
            final(self).wf(),
            final(self)@ == set_field(old(self)@, off as int, v),
            le_u64(final(self)@, off as int) == v,
            valid_bit(final(self)@, off as int),
    {
        self.write_u64(off, v);
        let q = off / 8;
        let mask: u8 = 1u8 << ((q % 8) as u8);
        let i = OFF_VALID_BITMAP + q / 8;
        let cur = self.page[i];
        self.page.set(i, cur | mask);
        proof {
            let s = ((q % 8) as u8);
            assert(s < 8);
            assert((cur | (1u8 << s)) & (1u8 << s) != 0) by (bit_vector)
                requires s < 8;
            lemma_le_u64_round_trip(old(self)@, off as int, v);
            let w = put_le_u64(old(self)@, off as int, v);
            assert(self@ == w.update(i as int, cur | mask));
            assert(le_u64(self@, off as int) == le_u64(w, off as int));
        }
    }

    /// Zeroes the exit code, both exit infos and the whole validity bitmap, so
    /// that no stale value or valid bit reaches the next exchange.
    pub fn clear(&mut self)
        requires
            old(self).wf(),
        ensures
            final(self).wf(),
            none_valid(final(self)@),
            le_u64(final(self)@, OFF_SW_EXIT_CODE as int) == 0,
            le_u64(final(self)@, OFF_SW_EXIT_INFO_1 as int) == 0,
            le_u64(final(self)@, OFF_SW_EXIT_INFO_2 as int) == 0,
            forall|i: int|
                0 <= i < GHCB_PAGE_SIZE && !(OFF_SW_EXIT_CODE <= i < OFF_SW_EXIT_INFO_2 + 8) && !(
                OFF_VALID_BITMAP <= i < OFF_VALID_BITMAP + VALID_BITMAP_SIZE) ==> final(self)@[i] == old(
                self)@[i],
    {
        let mut i: usize = OFF_SW_EXIT_CODE;
        while i < OFF_SW_EXIT_INFO_2 + 8
            invariant
                OFF_SW_EXIT_CODE <= i <= OFF_SW_EXIT_INFO_2 + 8,
                self.wf(),
                forall|j: int| OFF_SW_EXIT_CODE <= j < i ==> self@[j] == 0u8,
                forall|j: int|
                    0 <= j < GHCB_PAGE_SIZE && !(OFF_SW_EXIT_CODE <= j < i) ==> self@[j] == old(self)@[j],
            decreases OFF_SW_EXIT_INFO_2 + 8 - i,
        {
            self.page.set(i, 0u8);
            i = i + 1;
        }
        let mut k: usize = OFF_VALID_BITMAP;
        while k < OFF_VALID_BITMAP + VALID_BITMAP_SIZE
            invariant
                OFF_VALID_BITMAP <= k <= OFF_VALID_BITMAP + VALID_BITMAP_SIZE,
                self.wf(),
                forall|j: int| OFF_SW_EXIT_CODE <= j < OFF_SW_EXIT_INFO_2 + 8 ==> self@[j] == 0u8,
                forall|j: int| OFF_VALID_BITMAP <= j < k ==> self@[j] == 0u8,
                forall|j: int|
                    0 <= j < GHCB_PAGE_SIZE && !(OFF_SW_EXIT_CODE <= j < OFF_SW_EXIT_INFO_2 + 8) && !(
                    OFF_VALID_BITMAP <= j < k) ==> self@[j] == old(self)@[j],
            decreases OFF_VALID_BITMAP + VALID_BITMAP_SIZE - k,
        {
            self.page.set(k, 0u8);
            k = k + 1;
        }
        proof {
            assert forall|off: int| is_field(off) implies !#[trigger] valid_bit(self@, off) by {
                let m = valid_mask(off);
                assert(self@[valid_byte(off)] == 0u8);
                assert(0u8 & m == 0) by (bit_vector);
            }
            let z: u8 = 0;
            assert((z as u64) | ((z as u64) << 8u64) | ((z as u64) << 16u64) | ((z as u64) << 24u64) | ((
            z as u64) << 32u64) | ((z as u64) << 40u64) | ((z as u64) << 48u64) | ((z as u64) << 56u64) == 0)
                by (bit_vector)
                requires z == 0u8;
        }
    }
}


impl Ghcb {
    /// Writes the protocol version and usage tag of the header.
    pub fn set_header(&mut self, version: u16, usage: u32)
        requires
            old(self).wf(),
        ensures
            final(self).wf(),
            final(self)@ == put_header(old(self)@, version, usage),
    {
        self.page.set(OFF_PROTOCOL_VERSION, (version & 0xff) as u8);
        self.page.set(OFF_PROTOCOL_VERSION + 1, ((version >> 8u16) & 0xff) as u8);
        self.page.set(OFF_USAGE, (usage & 0xff) as u8);
        self.page.set(OFF_USAGE + 1, ((usage >> 8u32) & 0xff) as u8);
        self.page.set(OFF_USAGE + 2, ((usage >> 16u32) & 0xff) as u8);
        self.page.set(OFF_USAGE + 3, ((usage >> 24u32) & 0xff) as u8);
        proof {
            assert(self@ =~= put_header(old(self)@, version, usage));
        }
    }

    /// Copies `bytes` into the shared buffer, from its start.
    pub fn write_shared_buffer(&mut self, bytes: &Vec<u8>)
        requires
            old(self).wf(),
            bytes@.len() <= SHARED_BUFFER_SIZE,
        ensures
            final(self).wf(),
            final(self)@ == with_shared_buffer(old(self)@, bytes@),
    {
        let n = bytes.len();
        let mut k: usize = 0;
        while k < n
            invariant
                n == bytes@.len(),
                n <= SHARED_BUFFER_SIZE,
                k <= n,
                self.wf(),
                forall|i: int|
                    0 <= i < GHCB_PAGE_SIZE ==> #[trigger] self@[i] == if OFF_SHARED_BUFFER <= i
                        < OFF_SHARED_BUFFER + k {
                        bytes@[i - OFF_SHARED_BUFFER]
                    } else {
                        old(self)@[i]
                    },
            decreases n - k,
        {
            self.page.set(OFF_SHARED_BUFFER + k, bytes[k]);
            k = k + 1;
        }
        proof {
            assert(self@ =~= with_shared_buffer(old(self)@, bytes@));
        }
    }
}

} // verus!
