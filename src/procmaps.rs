//! The memory-map line format: `begin-end perms offset major:minor inode
//! [path]`, with the addresses, offset and device numbers in hex and the
//! inode in decimal.
use vstd::prelude::*;
use vstd::string::StringSliceAdditionalSpecFns;
use vstd::utf8::{encode_utf8, is_char_boundary};

use crate::vma::ProcmapEntry;

verus! {

pub open spec fn is_digit(c: u8, radix: nat) -> bool {
    (0x30 <= c <= 0x39) || (radix == 16 && ((0x61 <= c <= 0x66) || (0x41 <= c <= 0x46)))
}

pub open spec fn digit_val(c: u8) -> nat {
    if 0x30 <= c <= 0x39 {
        (c - 0x30) as nat
    } else if 0x61 <= c <= 0x66 {
        (c - 0x61 + 10) as nat
    } else {
        (c - 0x41 + 10) as nat
    }
}

/// The value of the digits `s` in base `radix`.
pub open spec fn num_val(s: Seq<u8>, radix: nat) -> nat
    decreases s.len(),
{
    if s.len() == 0 {
        0
    } else {
        num_val(s.drop_last(), radix) * radix + digit_val(s.last())
    }
}

/// Where the run of base-`radix` digits that starts at `k` ends.
pub open spec fn run_end(b: Seq<u8>, k: int, radix: nat) -> int
    decreases b.len() - k,
{
    if k < 0 || k >= b.len() || !is_digit(b[k], radix) {
        k
    } else {
        run_end(b, k + 1, radix)
    }
}

/// The number whose digits start at `k`, and where they end; `None` when no
/// digit is there or the number does not fit in 64 bits.
pub open spec fn number_at(b: Seq<u8>, k: int, radix: nat) -> Option<(u64, int)> {
    let e = run_end(b, k, radix);
    if e == k || num_val(b.subrange(k, e), radix) > u64::MAX {
        None
    } else {
        Some((num_val(b.subrange(k, e), radix) as u64, e))
    }
}

/// Where the run of spaces that starts at `k` ends.
pub open spec fn skip_spaces(b: Seq<u8>, k: int) -> int
    decreases b.len() - k,
{
    if k < 0 || k >= b.len() || b[k] != 0x20 {
        k
    } else {
        skip_spaces(b, k + 1)
    }
}

/// The fields of one memory-map line, and where its path starts.
pub ghost struct ProcmapLine {
    pub begin: u64,
    pub end: u64,
    pub offset: u32,
    pub r: bool,
    pub w: bool,
    pub x: bool,
    pub p: bool,
    pub major: u32,
    pub minor: u32,
    pub inode: u32,
    pub path_start: int,
}

/// The line `b` read by the memory-map grammar.
pub open spec fn procmap_line(b: Seq<u8>) -> Option<ProcmapLine> {
    match number_at(b, 0, 16) {
        None => None,
        Some((begin, e1)) => if e1 >= b.len() || b[e1] != 0x2d {
            None
        } else {
            match number_at(b, e1 + 1, 16) {
                None => None,
                Some((end, e2)) => if e2 + 6 > b.len() || b[e2] != 0x20 || b[e2 + 5] != 0x20 {
                    None
                } else {
                    match number_at(b, e2 + 6, 16) {
                        None => None,
                        Some((offset, e3)) => if offset > u32::MAX || e3 >= b.len() || b[e3] != 0x20 {
                            None
                        } else {
                            match number_at(b, e3 + 1, 16) {
                                None => None,
                                Some((major, e4)) => if major > u32::MAX || e4 >= b.len() || b[e4] != 0x3a {
                                    None
                                } else {
                                    match number_at(b, e4 + 1, 16) {
                                        None => None,
                                        Some((minor, e5)) => if minor > u32::MAX || e5 >= b.len() || b[e5]
                                            != 0x20 {
                                            None
                                        } else {
                                            match number_at(b, e5 + 1, 10) {
                                                None => None,
                                                Some((inode, e6)) => if inode > u32::MAX || (e6 < b.len()
                                                    && b[e6] != 0x20) {
                                                    None
                                                } else {
                                                    Some(
                                                        ProcmapLine {
                                                            begin,
                                                            end,
                                                            offset: offset as u32,
                                                            r: b[e2 + 1] == 0x72,
                                                            w: b[e2 + 2] == 0x77,
                                                            x: b[e2 + 3] == 0x78,
                                                            p: b[e2 + 4] == 0x70,
                                                            major: major as u32,
                                                            minor: minor as u32,
                                                            inode: inode as u32,
                                                            path_start: skip_spaces(b, e6),
                                                        },
                                                    )
                                                },
                                            }
                                        },
                                    }
                                },
                            }
                        },
                    }
                },
            }
        },
    }
}

proof fn lemma_run_end_bounds(b: Seq<u8>, k: int, radix: nat)
    requires
        0 <= k <= b.len(),
    ensures
        k <= run_end(b, k, radix) <= b.len(),
        forall|j: int| k <= j < run_end(b, k, radix) ==> is_digit(#[trigger] b[j], radix),
        run_end(b, k, radix) < b.len() ==> !is_digit(b[run_end(b, k, radix)], radix),
    decreases b.len() - k,
{
    if k < b.len() && is_digit(b[k], radix) {
        lemma_run_end_bounds(b, k + 1, radix);
    }
}

proof fn lemma_num_val_grows(b: Seq<u8>, k: int, i: int, j: int, radix: nat)
    requires
        0 <= k <= i <= j <= b.len(),
        radix >= 1,
    ensures
        num_val(b.subrange(k, i), radix) <= num_val(b.subrange(k, j), radix),
    decreases j - i,
{
    if i < j {
        lemma_num_val_grows(b, k, i, j - 1, radix);
        assert(b.subrange(k, j).drop_last() =~= b.subrange(k, j - 1));
        let v = num_val(b.subrange(k, j - 1), radix);
        assert(v * radix >= v) by (nonlinear_arith)
            requires radix >= 1;
    }
}

fn digit_value(c: u8) -> (r: u64)
    requires
        is_digit(c, 16),
    ensures
        r == digit_val(c),
{
    if 0x30 <= c && c <= 0x39 {
        (c - 0x30) as u64
    } else if 0x61 <= c && c <= 0x66 {
        (c - 0x61 + 10) as u64
    } else {
        (c - 0x41 + 10) as u64
    }
}

fn is_digit_exec(c: u8, radix: u64) -> (r: bool)
    ensures
        r == is_digit(c, radix as nat),
{
    (0x30 <= c && c <= 0x39) || (radix == 16 && ((0x61 <= c && c <= 0x66) || (0x41 <= c && c <= 0x46)))
}

/// Reads the base-`radix` number whose digits start at `k`.
pub fn parse_number(b: &[u8], k: usize, radix: u64) -> (r: Option<(u64, usize)>)
    requires
        k <= b@.len(),
        radix == 10 || radix == 16,
    ensures
        r is None <==> number_at(b@, k as int, radix as nat) is None,
        r matches Some((v, e)) ==> number_at(b@, k as int, radix as nat) == Some((v, e as int)) && k < e
            <= b@.len(),
{
    let n = b.len();
    proof {
        lemma_run_end_bounds(b@, k as int, radix as nat);
    }
    let ghost e = run_end(b@, k as int, radix as nat);
    let mut i: usize = k;
    let mut v: u64 = 0;
    proof {
        assert(b@.subrange(k as int, k as int) =~= Seq::<u8>::empty());
    }
    while i < n && is_digit_exec(b[i], radix)
        invariant
            n == b@.len(),
            radix == 10 || radix == 16,
            k <= i <= e <= n,
            e == run_end(b@, k as int, radix as nat),
            forall|j: int| k <= j < e ==> is_digit(#[trigger] b@[j], radix as nat),
            e < n ==> !is_digit(b@[e], radix as nat),
            v == num_val(b@.subrange(k as int, i as int), radix as nat),
        decreases n - i,
    {
        let d = digit_value(b[i]);
        proof {
            assert(b@.subrange(k as int, i + 1).drop_last() =~= b@.subrange(k as int, i as int));
            assert(d < 16);
        }
        let lim = (u64::MAX - d) / radix;
        proof {
            assert(lim as int == (u64::MAX as int - d as int) / (radix as int));
        }
        if v > lim {
            proof {
                let (vi, ri, di, li) = (v as int, radix as int, d as int, lim as int);
                assert(vi * ri + di > u64::MAX as int) by (nonlinear_arith)
                    requires vi > li, li == (u64::MAX as int - di) / ri, ri > 0, 0 <= di <= u64::MAX as int;
                lemma_num_val_grows(b@, k as int, i + 1, e, radix as nat);
            }
            return None;
        }
        proof {
            let (vi, ri, di, li) = (v as int, radix as int, d as int, lim as int);
            assert(vi * ri + di <= u64::MAX as int) by (nonlinear_arith)
                requires vi <= li, li == (u64::MAX as int - di) / ri, ri > 0, 0 <= di <= u64::MAX as int;
        }
        v = v * radix + d;
        i = i + 1;
    }
    if i == k {
        None
    } else {
        Some((v, i))
    }
}

fn skip_spaces_exec(b: &[u8], k: usize) -> (r: usize)
    requires
        k <= b@.len(),
    ensures
        r == skip_spaces(b@, k as int),
        k <= r <= b@.len(),
{
    let mut i = k;
    while i < b.len() && b[i] == 0x20
        invariant
            k <= i <= b@.len(),
            skip_spaces(b@, k as int) == skip_spaces(b@, i as int),
        decreases b@.len() - i,
    {
        i = i + 1;
    }
    i
}

/// Reads one line of a process's memory map. `None` when the line does not
/// follow the grammar, a number does not fit its field, or the path does not
/// start on a character boundary. A line with nothing after the inode (spaces
/// aside) has no path.
pub fn parse_procmap_line(line: &str) -> (r: Option<ProcmapEntry>)
    ensures
        match procmap_line(line.spec_bytes()) {
            None => r is None,
            Some(l) => if !is_char_boundary(line.spec_bytes(), l.path_start) {
                r is None
            } else {
                r matches Some(e) && {
                    &&& e.begin == l.begin
                    &&& e.end == l.end
                    &&& e.offset == l.offset
                    &&& e.r == l.r
                    &&& e.w == l.w
                    &&& e.x == l.x
                    &&& e.p == l.p
                    &&& e.major == l.major
                    &&& e.minor == l.minor
                    &&& e.inode == l.inode
                    &&& (l.path_start == line.spec_bytes().len() <==> e.path is None)
                    &&& (e.path matches Some(p) ==> encode_utf8(p@) == line.spec_bytes().subrange(
                        l.path_start,
                        line.spec_bytes().len() as int,
                    ))
                }
            },
        },
{
    let b = line.as_bytes();
    let n = b.len();
    let (begin, e1) = match parse_number(b, 0, 16) {
        Some(t) => t,
        None => return None,
    };
    if e1 >= n || b[e1] != 0x2d {
        return None;
    }
    let (end, e2) = match parse_number(b, e1 + 1, 16) {
        Some(t) => t,
        None => return None,
    };
    if n - e2 < 6 || b[e2] != 0x20 || b[e2 + 5] != 0x20 {
        return None;
    }
    let (offset, e3) = match parse_number(b, e2 + 6, 16) {
        Some(t) => t,
        None => return None,
    };
    if offset > 0xffff_ffff || e3 >= n || b[e3] != 0x20 {
        return None;
    }
    let (major, e4) = match parse_number(b, e3 + 1, 16) {
        Some(t) => t,
        None => return None,
    };
    if major > 0xffff_ffff || e4 >= n || b[e4] != 0x3a {
        return None;
    }
    let (minor, e5) = match parse_number(b, e4 + 1, 16) {
        Some(t) => t,
        None => return None,
    };
    if minor > 0xffff_ffff || e5 >= n || b[e5] != 0x20 {
        return None;
    }
    let (inode, e6) = match parse_number(b, e5 + 1, 10) {
        Some(t) => t,
        None => return None,
    };
    if inode > 0xffff_ffff || (e6 < n && b[e6] != 0x20) {
        return None;
    }
    let start = skip_spaces_exec(b, e6);
    if !line.is_char_boundary(start) {
        return None;
    }
    let path = if start == n {
        None
    } else {
        let (_, rest) = line.split_at(start);
        Some(rest.to_owned())
    };
    Some(
        ProcmapEntry::new(
            begin,
            end,
            offset as u32,
            b[e2 + 1] == 0x72,
            b[e2 + 2] == 0x77,
            b[e2 + 3] == 0x78,
            b[e2 + 4] == 0x70,
            minor as u32,
            major as u32,
            inode as u32,
            path,
        ),
    )
}

} // verus!
