//! Interrupt-routing bookkeeping: APIC identifiers per core and the encoding
//! of inter-processor interrupts.
use vstd::prelude::*;

verus! {

pub const MSR_APIC_BASE: u32 = 0x1b;
pub const MSR_APIC_ICR: u32 = 0x830;
pub const MSR_APIC_EOI: u32 = 0x80b;
pub const APIC_DM_FIXED: u32 = 0x00000;
pub const NMI_VECTOR: i32 = 0x02;
pub const APIC_DM_NMI: u32 = 0x00400;
pub const APIC_DEST_PHYSICAL: u32 = 0x00000;
pub const EOI_ACK: u32 = 0x0;

/// The low word of an interrupt command: the shortcut and destination mode,
/// then NMI delivery for the NMI vector or fixed delivery of the vector.
pub open spec fn icr_low(shortcut: u32, vector: i32, dest: u32) -> u32 {
    if vector == NMI_VECTOR {
        shortcut | dest | APIC_DM_NMI
    } else {
        shortcut | dest | APIC_DM_FIXED | (vector as u32)
    }
}

pub fn __prepare_icr(shortcut: u32, vector: i32, dest: u32) -> (r: u32)
    ensures
        r == icr_low(shortcut, vector, dest),
{
    let mut icr = shortcut | dest;
    if vector == NMI_VECTOR {
        icr = icr | APIC_DM_NMI;
    } else {
        icr = icr | APIC_DM_FIXED | (vector as u32);
    }
    icr
}

/// The full interrupt command that sends `vector` to the core whose APIC
/// identifier is `dest_apic_id`.
pub fn apic_ipi_command(vector: u8, dest_apic_id: u32) -> (r: u64)
    ensures
        r == ((dest_apic_id as u64) << 32u64) | (icr_low(0, vector as i32, APIC_DEST_PHYSICAL) as u64),
{
    let low = __prepare_icr(0, vector as i32, APIC_DEST_PHYSICAL);
    ((dest_apic_id as u64) << 32u64) | (low as u64)
}

/// The APIC identifier held in the APIC base MSR value `msr`.
pub fn apic_id_of(msr: u64) -> (r: u32)
    ensures
        r == (msr >> 24u64) as u32,
{
    (msr >> 24u64) as u32
}

/// The APIC identifier recorded for core `cpu`; `None` for a core outside the
/// routing table.
pub fn apic_get_id_for_cpu(routing: &Vec<u32>, cpu: u32) -> (r: Option<u32>)
    ensures
        (cpu as int) < routing@.len() ==> r == Some(routing@[cpu as int]),
        (cpu as int) >= routing@.len() ==> r is None,
{
    if (cpu as usize) < routing.len() {
        Some(routing[cpu as usize])
    } else {
        None
    }
}

/// Records the APIC identifier of core `cpu` in the routing table; a core
/// outside the table changes nothing.
pub fn apic_init_rt_entry(routing: &mut Vec<u32>, cpu: u32, apic_id: u32)
    ensures
        (cpu as int) < old(routing)@.len() ==> final(routing)@ == old(routing)@.update(cpu as int, apic_id),
        (cpu as int) >= old(routing)@.len() ==> final(routing)@ == old(routing)@,
{
    if (cpu as usize) < routing.len() {
        routing.set(cpu as usize, apic_id);
    }
}

/// Relies on num_cpus::get_physical: the number of physical cores, which its
/// documentation promises is at least 1.
#[verifier::external_body]
fn get_physical_cpu_count() -> (r: usize)
    ensures
        r >= 1,
{
    num_cpus::get_physical()
}

/// A routing table with one entry per physical core, every entry zero.
pub fn apic_setup() -> (r: Vec<u32>)
    ensures
        r@.len() >= 1,
        forall|i: int| 0 <= i < r@.len() ==> #[trigger] r@[i] == 0,
{
    apic_table(get_physical_cpu_count())
}

/// A routing table for `n` cores, every entry zero.
pub fn apic_table(n: usize) -> (r: Vec<u32>)
    ensures
        r@ == Seq::new(n as nat, |i: int| 0u32),
{
    let mut t: Vec<u32> = Vec::new();
    let mut i: usize = 0;
    while i < n
        invariant
            i <= n,
            t@ == Seq::new(i as nat, |j: int| 0u32),
        decreases n - i,
    {
        t.push(0);
        i = i + 1;
        proof {
            assert(t@ =~= Seq::new(i as nat, |j: int| 0u32));
        }
    }
    t
}

} // verus!
