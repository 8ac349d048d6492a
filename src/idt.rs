//! The exceptions the runtime handles while in the privileged mode, and what
//! it does on each.
use vstd::prelude::*;

verus! {

pub const VECTOR_BREAKPOINT: u8 = 3;
pub const VECTOR_DOUBLE_FAULT: u8 = 8;
pub const VECTOR_GENERAL_PROTECTION: u8 = 13;
pub const VECTOR_PAGE_FAULT: u8 = 14;

/// What a handler does once it has reported the faulting instruction.
#[derive(Clone, Copy, Debug, PartialEq, Eq, Structural)]
pub enum FaultAction {
    /// Report and continue.
    Report,
    /// Report and fail.
    Fatal,
}

/// A report of an exception: its vector, where it hit, its error code, and
/// what follows.
#[derive(Clone, Copy, Debug, PartialEq, Eq, Structural)]
pub struct FaultReport {
    pub vector: u8,
    pub rip: u64,
    pub error_code: u64,
    pub action: FaultAction,
}

pub open spec fn handled(vector: u8) -> bool {
    vector == VECTOR_BREAKPOINT || vector == VECTOR_DOUBLE_FAULT || vector == VECTOR_GENERAL_PROTECTION
        || vector == VECTOR_PAGE_FAULT
}

/// The vectors that get a handler: breakpoint, double fault, general
/// protection and page fault.
pub fn idt_init() -> (r: Vec<u8>)
    ensures
        r@ == seq![VECTOR_BREAKPOINT, VECTOR_DOUBLE_FAULT, VECTOR_GENERAL_PROTECTION, VECTOR_PAGE_FAULT],
{
    let mut v: Vec<u8> = Vec::new();
    v.push(VECTOR_BREAKPOINT);
    v.push(VECTOR_DOUBLE_FAULT);
    v.push(VECTOR_GENERAL_PROTECTION);
    v.push(VECTOR_PAGE_FAULT);
    proof {
        assert(v@ =~= seq![VECTOR_BREAKPOINT, VECTOR_DOUBLE_FAULT, VECTOR_GENERAL_PROTECTION, VECTOR_PAGE_FAULT]);
    }
    v
}

/// The report of exception `vector` at `rip` with `error_code`. A breakpoint
/// is informational; the others are fatal. A double fault's error code is
/// always zero and is reported as such.
pub fn fault_report(vector: u8, rip: u64, error_code: u64) -> (r: FaultReport)
    requires
        handled(vector),
    ensures
        r.vector == vector,
        r.rip == rip,
        r.error_code == if vector == VECTOR_BREAKPOINT || vector == VECTOR_DOUBLE_FAULT { 0 } else { error_code },
        r.action == if vector == VECTOR_BREAKPOINT { FaultAction::Report } else { FaultAction::Fatal },
{
    if vector == VECTOR_BREAKPOINT {
        FaultReport { vector, rip, error_code: 0, action: FaultAction::Report }
    } else if vector == VECTOR_DOUBLE_FAULT {
        FaultReport { vector, rip, error_code: 0, action: FaultAction::Fatal }
    } else {
        FaultReport { vector, rip, error_code, action: FaultAction::Fatal }
    }
}

} // verus!
