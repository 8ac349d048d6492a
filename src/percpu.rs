//! Per-CPU privileged state: the task-state segment with its safe stack, the
//! descriptor table, the segment description handed to the driver, the saved
//! extended state, and the phases around a mode transition.
use vstd::prelude::*;

use crate::config::{VmplSegs, VmsaSeg, TSS_SEG_ATTRIB};
use crate::error::{VmplError, EINVAL, ENOMEM};
use crate::page::PGSIZE;
use crate::vc::{ChannelState, GhcbChannel};

verus! {

pub const GD_KT: u16 = 0x10;
pub const GD_KD: u16 = 0x18;
pub const GD_UD: u16 = 0x28;
pub const GD_UT: u16 = 0x30;
pub const GD_TSS: u16 = 0x38;
pub const GD_TSS2: u16 = 0x40;

/// Entries of the descriptor table.
pub const NR_GDT_ENTRIES: usize = 9;

pub const KERNEL_CODE32: u64 = 0x00cf9b000000ffff;
pub const KERNEL_CODE64: u64 = 0x00af9b000000ffff;
pub const KERNEL_DATA: u64 = 0x00cf93000000ffff;
pub const USER_CODE32: u64 = 0x00cffb000000ffff;
pub const USER_DATA: u64 = 0x00cff3000000ffff;
pub const USER_CODE64: u64 = 0x00affb000000ffff;
pub const TSS: u64 = 0x0080890000000000;
pub const TSS2: u64 = 0x0000000000000000;

/// Size of the 64-bit task-state segment.
pub const TSS_SIZE: u64 = 104;

/// Slots of the interrupt stack table.
pub const IST_ENTRIES: usize = 7;

/// Slots of the privilege stack table.
pub const PST_ENTRIES: usize = 3;

/// Size of the buffer that holds the whole extended-state area.
pub const XSAVE_SIZE: usize = 4096;

/// The fixed part of the descriptor table: null, kernel and user segments, and
/// the two halves of the TSS descriptor before its base and limit go in.
pub open spec fn gdt_template() -> Seq<u64> {
    seq![0, KERNEL_CODE32, KERNEL_CODE64, KERNEL_DATA, USER_CODE32, USER_DATA, USER_CODE64, TSS, TSS2]
}

/// The low half of the TSS descriptor for a TSS at `base` with `limit`.
pub open spec fn tss_desc_lo(base: u64, limit: u64) -> u64 {
    TSS | (limit & 0xffff) | (((limit >> 16u64) & 0xf) << 48u64) | ((base & 0xffffff) << 16u64) | (((base
        >> 24u64) & 0xff) << 56u64)
}

/// The high half of the TSS descriptor: the upper 32 bits of the base.
pub open spec fn tss_desc_hi(base: u64) -> u64 {
    base >> 32u64
}

/// The descriptor table for a TSS at `tss_base`.
pub open spec fn gdt_for(tss_base: u64) -> Seq<u64> {
    gdt_template().update((GD_TSS / 8) as int, tss_desc_lo(tss_base, (TSS_SIZE - 1) as u64)).update(
        (GD_TSS2 / 8) as int,
        tss_desc_hi(tss_base),
    )
}

/// The task-state segment's stack tables.
pub struct Tss {
    pub privilege_stack_table: Vec<u64>,
    pub interrupt_stack_table: Vec<u64>,
    pub iomap_base: u16,
}

/// Where a core stands around its transition.
#[derive(Clone, Copy, Debug, PartialEq, Eq, Structural)]
pub enum CpuPhase {
    /// State built; no transition prepared.
    Allocated,
    /// Descriptor tables and segments built; the transition may run.
    Prepared,
    /// The transition returned and the mailbox is registered.
    Active,
}

/// Saved extended processor state: the components saved, and the area.
pub struct XsaveState {
    pub mask: u64,
    pub area: Vec<u8>,
}

/// The privileged state of one logical CPU.
pub struct DunePerCpu {
    /// Address of the state block; it becomes the GS base.
    pub block: u64,
    pub kfs_base: u64,
    pub ufs_base: u64,
    /// 1 while outside the privileged mode, 0 inside it.
    pub in_usermode: u64,
    pub tss: Tss,
    pub gdt: Vec<u64>,
    /// Virtual address of the registered mailbox.
    pub ghcb: Option<u64>,
    pub xsave: Option<XsaveState>,
    /// Top of the safe stack.
    pub safe_stack: u64,
    /// The thread's stack pointer when the state was built.
    pub thread_stack: u64,
    pub phase: CpuPhase,
}

/// Every interrupt-stack-table slot and the ring-0 privilege-stack slot hold
/// `top`.
pub open spec fn safe_stack_installed(t: &Tss, top: u64) -> bool {
    &&& t.interrupt_stack_table@.len() == IST_ENTRIES
    &&& t.privilege_stack_table@.len() == PST_ENTRIES
    &&& forall|i: int| 0 <= i < IST_ENTRIES ==> #[trigger] t.interrupt_stack_table@[i] == top
    &&& t.privilege_stack_table@[0] == top
}

impl DunePerCpu {
    pub open spec fn wf(&self) -> bool {
        &&& safe_stack_installed(&self.tss, self.safe_stack)
        &&& self.safe_stack != 0
        &&& self.safe_stack != self.thread_stack
        &&& self.gdt@.len() == NR_GDT_ENTRIES
        &&& self.phase == CpuPhase::Active ==> self.ghcb is Some
        &&& self.phase == CpuPhase::Allocated ==> self.ghcb is None
        &&& self.xsave is Some ==> self.xsave.unwrap().area@.len() == XSAVE_SIZE
    }

    /// Builds the state of a core. `block` is the page mapped for it and
    /// `safe_stack_map` the page mapped for its safe stack (`None` where the
    /// mapping failed); `fs_base` is the current FS base and `stack_pointer`
    /// the thread's stack pointer. The safe stack's top goes into every
    /// interrupt-stack-table slot and the ring-0 privilege-stack slot. A safe
    /// stack that would hold the thread's own stack pointer is refused.
    pub fn allocate(block: Option<u64>, fs_base: u64, safe_stack_map: Option<u64>, stack_pointer: u64) -> (r: Result<
        DunePerCpu,
        VmplError,
    >)
        ensures
            block is None ==> r == Err::<DunePerCpu, VmplError>(VmplError::Sys(ENOMEM)),
            block is Some && safe_stack_map is None ==> r == Err::<DunePerCpu, VmplError>(
                VmplError::SafeStackSetupFailed(ENOMEM),
            ),
            (block is Some && safe_stack_map is Some) ==> ({
                let m = safe_stack_map.unwrap();
                if m + PGSIZE > u64::MAX || (m <= stack_pointer && stack_pointer <= m + PGSIZE) {
                    r == Err::<DunePerCpu, VmplError>(VmplError::SafeStackSetupFailed(EINVAL))
                } else {
                    match r {
                        Ok(c) => {
                            &&& c.wf()
                            &&& c.block == block.unwrap()
                            &&& c.safe_stack == m + PGSIZE
                            &&& c.thread_stack == stack_pointer
                            &&& c.kfs_base == fs_base
                            &&& c.ufs_base == fs_base
                            &&& c.in_usermode == 1
                            &&& c.ghcb is None
                            &&& c.xsave is None
                            &&& c.phase == CpuPhase::Allocated
                            &&& c.tss.iomap_base == TSS_SIZE
                        },
                        Err(_) => false,
                    }
                }
            }),
    {
        let block = match block {
            Some(b) => b,
            None => return Err(VmplError::Sys(ENOMEM)),
        };
        let map = match safe_stack_map {
            Some(m) => m,
            None => return Err(VmplError::SafeStackSetupFailed(ENOMEM)),
        };
        if map > u64::MAX - PGSIZE {
            return Err(VmplError::SafeStackSetupFailed(EINVAL));
        }
        let top = map + PGSIZE;
        if map <= stack_pointer && stack_pointer <= top {
            return Err(VmplError::SafeStackSetupFailed(EINVAL));
        }
        let mut ist: Vec<u64> = Vec::new();
        let mut i: usize = 0;
        while i < IST_ENTRIES
            invariant
                i <= IST_ENTRIES,
                ist@.len() == i,
                forall|j: int| 0 <= j < i ==> #[trigger] ist@[j] == top,
            decreases IST_ENTRIES - i,
        {
            ist.push(top);
            i = i + 1;
        }
        let mut pst: Vec<u64> = Vec::new();
        pst.push(top);
        pst.push(0);
        pst.push(0);
        let mut gdt: Vec<u64> = Vec::new();
        let mut k: usize = 0;
        while k < NR_GDT_ENTRIES
            invariant
                k <= NR_GDT_ENTRIES,
                gdt@.len() == k,
            decreases NR_GDT_ENTRIES - k,
        {
            gdt.push(0);
            k = k + 1;
        }
        Ok(
            DunePerCpu {
                block,
                kfs_base: fs_base,
                ufs_base: fs_base,
                in_usermode: 1,
                tss: Tss { privilege_stack_table: pst, interrupt_stack_table: ist, iomap_base: TSS_SIZE as u16 },
                gdt,
                ghcb: None,
                xsave: None,
                safe_stack: top,
                thread_stack: stack_pointer,
                phase: CpuPhase::Allocated,
            },
        )
    }

    /// Fills the descriptor table: the fixed layout, and a TSS descriptor for
    /// the task-state segment at `tss_addr`.
    pub fn setup_gdt(&mut self, tss_addr: u64)
        requires
            old(self).wf(),
        ensures
            final(self).wf(),
            final(self).gdt@ == gdt_for(tss_addr),
            final(self).tss == old(self).tss,
            final(self).safe_stack == old(self).safe_stack,
            final(self).thread_stack == old(self).thread_stack,
            final(self).block == old(self).block,
            final(self).kfs_base == old(self).kfs_base,
            final(self).ufs_base == old(self).ufs_base,
            final(self).in_usermode == old(self).in_usermode,
            final(self).ghcb == old(self).ghcb,
            final(self).xsave == old(self).xsave,
            final(self).phase == old(self).phase,
    {
        let limit: u64 = TSS_SIZE - 1;
        let mut gdt: Vec<u64> = Vec::new();
        gdt.push(0);
        gdt.push(KERNEL_CODE32);
        gdt.push(KERNEL_CODE64);
        gdt.push(KERNEL_DATA);
        gdt.push(USER_CODE32);
        gdt.push(USER_DATA);
        gdt.push(USER_CODE64);
        gdt.push(
            TSS | (limit & 0xffff) | (((limit >> 16u64) & 0xf) << 48u64) | ((tss_addr & 0xffffff) << 16u64) | (((
            tss_addr >> 24u64) & 0xff) << 56u64),
        );
        gdt.push(tss_addr >> 32u64);
        proof {
            assert(gdt@ =~= gdt_for(tss_addr));
        }
        self.gdt = gdt;
    }

    /// Prepares the transition: builds the descriptor table and returns the
    /// segment description to install with the driver. FS takes the kernel FS
    /// base, GS the state block, the task register the TSS at `tss_addr`, and
    /// the descriptor-table registers the tables at `gdt_addr` and `idt_addr`.
    pub fn pre_transition(&mut self, tss_addr: u64, gdt_addr: u64, idt_addr: u64, idt_limit: u32) -> (r: VmplSegs)
        requires
            old(self).wf(),
            old(self).phase == CpuPhase::Allocated,
        ensures
            final(self).wf(),
            final(self).phase == CpuPhase::Prepared,
            final(self).gdt@ == gdt_for(tss_addr),
            final(self).tss == old(self).tss,
            final(self).safe_stack == old(self).safe_stack,
            final(self).thread_stack == old(self).thread_stack,
            r == (VmplSegs {
                fs: VmsaSeg { selector: 0x33, attrib: 0x008b, limit: 0xffff, base: old(self).kfs_base },
                gs: VmsaSeg { selector: 0x3b, attrib: 0x008b, limit: 0xffff, base: old(self).block },
                gdtr: VmsaSeg { selector: 0, attrib: 0, limit: (NR_GDT_ENTRIES * 8 - 1) as u32, base: gdt_addr },
                idtr: VmsaSeg { selector: 0, attrib: 0, limit: idt_limit, base: idt_addr },
                tr: VmsaSeg { selector: GD_TSS, attrib: TSS_SEG_ATTRIB, limit: (TSS_SIZE - 1) as u32, base: tss_addr },
            }),
    {
        self.setup_gdt(tss_addr);
        let fs = VmsaSeg::fs(self.kfs_base);
        let gs = VmsaSeg::gs(self.block);
        let tr = VmsaSeg::tr(GD_TSS, tss_addr, (TSS_SIZE - 1) as u32, TSS_SEG_ATTRIB);
        let gdtr = VmsaSeg::new(0, 0, (NR_GDT_ENTRIES * 8 - 1) as u32, gdt_addr);
        let idtr = VmsaSeg::new(0, 0, idt_limit, idt_addr);
        self.phase = CpuPhase::Prepared;
        VmplSegs::new(fs, gs, gdtr, idtr, tr)
    }

    /// Records the extended state saved before the transition: the components
    /// in `mask` and the area that holds them.
    pub fn save_extended_state(&mut self, mask: u64, area: Vec<u8>)
        requires
            old(self).wf(),
            old(self).phase == CpuPhase::Prepared,
            area@.len() == XSAVE_SIZE,
        ensures
            final(self).wf(),
            final(self).phase == CpuPhase::Prepared,
            final(self).xsave is Some,
            final(self).xsave.unwrap().mask == mask,
            final(self).xsave.unwrap().area@ == area@,
            final(self).tss == old(self).tss,
            final(self).safe_stack == old(self).safe_stack,
            final(self).gdt == old(self).gdt,
    {
        self.xsave = Some(XsaveState { mask, area });
    }

    /// Finishes the transition, whether or not it ran: the core counts as in
    /// the privileged mode, the mailbox registered through `channel` at
    /// `ghcb_va` is kept, and the saved extended state is handed back for
    /// restoring and released.
    pub fn post_transition(&mut self, channel: &GhcbChannel, ghcb_va: u64) -> (r: Option<XsaveState>)
        requires
            old(self).wf(),
            old(self).phase == CpuPhase::Prepared,
            channel.state == ChannelState::Active,
        ensures
            final(self).wf(),
            final(self).phase == CpuPhase::Active,
            final(self).in_usermode == 0,
            final(self).ghcb == Some(ghcb_va),
            final(self).xsave is None,
            r is Some <==> old(self).xsave is Some,
            r is Some ==> r.unwrap().mask == old(self).xsave.unwrap().mask && r.unwrap().area@ == old(self).xsave.unwrap().area@,
            final(self).tss == old(self).tss,
            final(self).safe_stack == old(self).safe_stack,
            final(self).gdt == old(self).gdt,
    {
        self.in_usermode = 0;
        let saved = self.xsave.take();
        self.ghcb = Some(ghcb_va);
        self.phase = CpuPhase::Active;
        saved
    }

    /// The registered mailbox, if any.
    pub fn get_ghcb(&self) -> (r: Option<u64>)
        ensures
            r == self.ghcb,
    {
        self.ghcb
    }

    /// Takes out what teardown must release: the mailbox and the extended-state
    /// area, each at most once; a second call finds nothing left.
    pub fn release(&mut self) -> (r: (Option<u64>, Option<XsaveState>))
        ensures
            r.0 == old(self).ghcb,
            r.1 is Some <==> old(self).xsave is Some,
            final(self).ghcb is None,
            final(self).xsave is None,
            final(self).phase == CpuPhase::Allocated,
    {
        let g = self.ghcb.take();
        let x = self.xsave.take();
        self.phase = CpuPhase::Allocated;
        (g, x)
    }
}

/// The safe stack is in place once a core's state is built and its transition
/// prepared: every interrupt-stack-table slot and the ring-0 privilege-stack
/// slot hold the same address, which is not zero and is not the thread's stack
/// pointer.
pub proof fn lemma_safe_stack_installed(c: &DunePerCpu)
    requires
        c.wf(),
    ensures
        forall|i: int| 0 <= i < IST_ENTRIES ==> #[trigger] c.tss.interrupt_stack_table@[i] == c.tss.privilege_stack_table@[0],
        c.tss.privilege_stack_table@[0] != 0,
        c.tss.privilege_stack_table@[0] != c.thread_stack,
{
}

} // verus!
