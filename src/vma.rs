//! Virtual memory areas: the entries of a process's memory map and the areas
//! the memory manager keeps, with the kind of each area told by its path.
use vstd::prelude::*;
use vstd::string::StringSliceAdditionalSpecFns;

verus! {

pub const PERM_NONE: u32 = 0;
pub const PERM_R: u32 = 0x1;
pub const PERM_W: u32 = 0x2;
pub const PERM_X: u32 = 0x4;
pub const PERM_U: u32 = 0x8;
pub const PERM_UC: u32 = 0x10;
pub const PERM_COW: u32 = 0x20;
pub const PERM_USR1: u32 = 0x1000;
pub const PERM_USR2: u32 = 0x2000;
pub const PERM_USR3: u32 = 0x4000;
pub const PERM_BIG: u32 = 0x100;
pub const PERM_BIG_1GB: u32 = 0x200;
pub const PERM_SCODE: u32 = PERM_R | PERM_X;
pub const PERM_STEXT: u32 = PERM_R | PERM_W;
pub const PERM_SSTACK: u32 = PERM_STEXT;
pub const PERM_UCODE: u32 = PERM_R | PERM_U | PERM_X;
pub const PERM_UTEXT: u32 = PERM_R | PERM_U | PERM_W;
pub const PERM_USTACK: u32 = PERM_UTEXT;

/// What backs an area.
#[derive(Clone, Copy, Debug, PartialEq, Eq, Structural)]
pub enum VmplVmaType {
    File,
    Anonymous,
    Heap,
    Stack,
    Vsyscall,
    Vdso,
    Vvar,
    Unknown,
}

pub open spec fn lit_heap() -> Seq<u8> {
    seq![0x5bu8, 0x68u8, 0x65u8, 0x61u8, 0x70u8, 0x5du8]
}

pub open spec fn lit_stack_prefix() -> Seq<u8> {
    seq![0x5bu8, 0x73u8, 0x74u8, 0x61u8, 0x63u8, 0x6bu8]
}

pub open spec fn lit_vsyscall() -> Seq<u8> {
    seq![0x5bu8, 0x76u8, 0x73u8, 0x79u8, 0x73u8, 0x63u8, 0x61u8, 0x6cu8, 0x6cu8, 0x5du8]
}

pub open spec fn lit_vdso() -> Seq<u8> {
    seq![0x5bu8, 0x76u8, 0x64u8, 0x73u8, 0x6fu8, 0x5du8]
}

pub open spec fn lit_vvar() -> Seq<u8> {
    seq![0x5bu8, 0x76u8, 0x76u8, 0x61u8, 0x72u8, 0x5du8]
}

/// A stack area's path: `[stack]`, or `[stack:` followed by a thread id and `]`.
pub open spec fn is_stack_path(b: Seq<u8>) -> bool {
    b.len() >= 6 && b.take(6) == lit_stack_prefix() && (b == lit_stack_prefix().push(0x5du8) || (b.len() > 6
        && b[6] == 0x3au8 && b.last() == 0x5du8))
}

/// The kind of area the path bytes `b` name: a path not in brackets is a file,
/// an empty one anonymous memory, and the bracketed names are the kernel's.
pub open spec fn vma_type_of(b: Seq<u8>) -> VmplVmaType {
    if b.len() > 0 && b[0] != 0x5bu8 {
        VmplVmaType::File
    } else if b.len() == 0 {
        VmplVmaType::Anonymous
    } else if b == lit_heap() {
        VmplVmaType::Heap
    } else if is_stack_path(b) {
        VmplVmaType::Stack
    } else if b == lit_vsyscall() {
        VmplVmaType::Vsyscall
    } else if b == lit_vdso() {
        VmplVmaType::Vdso
    } else if b == lit_vvar() {
        VmplVmaType::Vvar
    } else {
        VmplVmaType::Unknown
    }
}

fn eq_bytes(a: &[u8], b: &Vec<u8>) -> (r: bool)
    ensures
        r == (a@ == b@),
{
    if a.len() != b.len() {
        return false;
    }
    let n = a.len();
    let mut i: usize = 0;
    while i < n
        invariant
            n == a@.len(),
            n == b@.len(),
            i <= n,
            forall|j: int| 0 <= j < i ==> a@[j] == b@[j],
        decreases n - i,
    {
        if a[i] != b[i] {
            return false;
        }
        i = i + 1;
    }
    proof {
        assert(a@ =~= b@);
    }
    true
}

impl VmplVmaType {
    /// The kind of area a memory-map path names.
    pub fn from_path(path: &str) -> (r: VmplVmaType)
        ensures
            r == vma_type_of(path.spec_bytes()),
    {
        let b = path.as_bytes();
        let n = b.len();
        if n > 0 && b[0] != 0x5bu8 {
            return VmplVmaType::File;
        }
        if n == 0 {
            return VmplVmaType::Anonymous;
        }
        let heap: Vec<u8> = vec![0x5bu8, 0x68u8, 0x65u8, 0x61u8, 0x70u8, 0x5du8];
        proof {
            assert(heap@ =~= lit_heap());
        }
        if eq_bytes(b, &heap) {
            return VmplVmaType::Heap;
        }
        let stack: Vec<u8> = vec![0x5bu8, 0x73u8, 0x74u8, 0x61u8, 0x63u8, 0x6bu8, 0x5du8];
        proof {
            assert(stack@ =~= lit_stack_prefix().push(0x5du8));
        }
        if n >= 6 && b[1] == 0x73u8 && b[2] == 0x74u8 && b[3] == 0x61u8 && b[4] == 0x63u8 && b[5] == 0x6bu8 {
            proof {
                assert(b@.take(6) =~= lit_stack_prefix());
            }
            if eq_bytes(b, &stack) || (n > 6 && b[6] == 0x3au8 && b[n - 1] == 0x5du8) {
                return VmplVmaType::Stack;
            }
        } else {
            proof {
                if n >= 6 {
                    assert(b@.take(6) != lit_stack_prefix()) by {
                        if b@.take(6) == lit_stack_prefix() {
                            assert(b@.take(6)[1] == b@[1]);
                            assert(b@.take(6)[2] == b@[2]);
                            assert(b@.take(6)[3] == b@[3]);
                            assert(b@.take(6)[4] == b@[4]);
                            assert(b@.take(6)[5] == b@[5]);
                        }
                    }
                }
            }
        }
        let vsyscall: Vec<u8> = vec![0x5bu8, 0x76u8, 0x73u8, 0x79u8, 0x73u8, 0x63u8, 0x61u8, 0x6cu8, 0x6cu8, 0x5du8];
        proof {
            assert(vsyscall@ =~= lit_vsyscall());
        }
        if eq_bytes(b, &vsyscall) {
            return VmplVmaType::Vsyscall;
        }
        let vdso: Vec<u8> = vec![0x5bu8, 0x76u8, 0x64u8, 0x73u8, 0x6fu8, 0x5du8];
        proof {
            assert(vdso@ =~= lit_vdso());
        }
        if eq_bytes(b, &vdso) {
            return VmplVmaType::Vdso;
        }
        let vvar: Vec<u8> = vec![0x5bu8, 0x76u8, 0x76u8, 0x61u8, 0x72u8, 0x5du8];
        proof {
            assert(vvar@ =~= lit_vvar());
        }
        if eq_bytes(b, &vvar) {
            return VmplVmaType::Vvar;
        }
        VmplVmaType::Unknown
    }
}

/// One line of a process's memory map.
pub struct ProcmapEntry {
    pub begin: u64,
    pub end: u64,
    pub offset: u32,
    pub r: bool,
    pub w: bool,
    pub x: bool,
    pub p: bool,
    pub minor: u32,
    pub major: u32,
    pub inode: u32,
    pub path: Option<String>,
}

impl ProcmapEntry {
    pub fn new(
        begin: u64,
        end: u64,
        offset: u32,
        r: bool,
        w: bool,
        x: bool,
        p: bool,
        minor: u32,
        major: u32,
        inode: u32,
        path: Option<String>,
    ) -> (e: ProcmapEntry)
        ensures
            e.begin == begin,
            e.end == end,
            e.offset == offset,
            e.r == r,
            e.w == w,
            e.x == x,
            e.p == p,
            e.minor == minor,
            e.major == major,
            e.inode == inode,
            e.path == path,
    {
        ProcmapEntry { begin, end, offset, r, w, x, p, minor, major, inode, path }
    }
}

/// Protection of an area.
#[derive(Clone, Copy, Debug, PartialEq, Eq, Structural)]
pub enum Prot {
    NoAccess,
    Read,
    Write,
    Exec,
}

pub const PROT_NONE: i32 = 0;
pub const PROT_READ: i32 = 1;
pub const PROT_WRITE: i32 = 2;
pub const PROT_EXEC: i32 = 4;

impl From<i32> for Prot {
    /// The protection a single `PROT_*` value names; any other value is none.
    fn from(prot: i32) -> (r: Prot)
        ensures
            r == prot_of(prot),
    {
        if prot == PROT_READ {
            Prot::Read
        } else if prot == PROT_WRITE {
            Prot::Write
        } else if prot == PROT_EXEC {
            Prot::Exec
        } else {
            Prot::NoAccess
        }
    }
}

pub open spec fn prot_of(prot: i32) -> Prot {
    if prot == PROT_READ {
        Prot::Read
    } else if prot == PROT_WRITE {
        Prot::Write
    } else if prot == PROT_EXEC {
        Prot::Exec
    } else {
        Prot::NoAccess
    }
}

impl vstd::std_specs::convert::FromSpecImpl<i32> for Prot {
    open spec fn obeys_from_spec() -> bool {
        true
    }

    open spec fn from_spec(prot: i32) -> Prot {
        prot_of(prot)
    }
}

/// An area the memory manager keeps.
pub struct VmplVma {
    pub start: u64,
    pub end: u64,
    pub offset: u32,
    pub prot: Prot,
    pub flags: u64,
    pub minor: u32,
    pub major: u32,
    pub inode: u32,
    pub vm_file: Option<String>,
}

impl VmplVma {
    /// An anonymous area over `[start, end)`.
    pub fn new(start: u64, end: u64, flags: u64, prot: Prot, offset: u32) -> (r: VmplVma)
        ensures
            r.start == start,
            r.end == end,
            r.flags == flags,
            r.prot == prot,
            r.offset == offset,
            r.minor == 0,
            r.major == 0,
            r.inode == 0,
            r.vm_file is None,
    {
        VmplVma { start, end, offset, prot, flags, minor: 0, major: 0, inode: 0, vm_file: None }
    }

    /// The area's length in bytes.
    pub fn len(&self) -> (r: u64)
        requires
            self.start <= self.end,
        ensures
            r == self.end - self.start,
    {
        self.end - self.start
    }
}

/// How the memory manager picks a free range.
#[derive(Clone, Copy, Debug, PartialEq, Eq, Structural)]
pub enum FitAlgorithm {
    FirstFit,
    NextFit,
    BestFit,
    WorstFit,
    RandomFit,
}

} // verus!
