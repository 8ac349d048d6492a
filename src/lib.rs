//! A user-space runtime core for running a process at a reduced VM privilege
//! level of an AMD SEV-SNP guest: the page pool, the GHCB mailbox and #VC
//! channel to the hypervisor, the per-CPU privileged state, and the
//! orchestration of entering that mode and serving its exits.
use vstd::prelude::*;

pub mod apic;
pub mod config;
pub mod error;
pub mod ghcb;
pub mod idt;
pub mod mm;
pub mod page;
pub mod percpu;
pub mod procmaps;
pub mod psc;
pub mod signal;
pub mod system;
pub mod vc;
pub mod vma;

verus! {

/// Adds two sizes.
pub fn add(left: usize, right: usize) -> (r: usize)
    requires
        left + right <= usize::MAX,
    ensures
        r == left + right,
{
    left + right
}

} // verus!
