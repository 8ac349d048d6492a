//! Records exchanged with the driver: page-table parameters, layouts, VMSA
//! segment descriptions and the register snapshot of a transition, with the
//! decision taken on each exit reason.
use vstd::prelude::*;

verus! {

/// Parameters for mapping a guest virtual address at the lower level.
#[derive(Clone, Copy, Debug, PartialEq, Eq, Structural)]
pub struct VmplParam {
    pub gva: u64,
    pub page_size: u32,
    pub attrs: u32,
    pub nr_pages: u32,
}

impl VmplParam {
    pub fn new(gva: u64, page_size: u32, attrs: u32, nr_pages: u32) -> (r: VmplParam)
        ensures
            r == (VmplParam { gva, page_size, attrs, nr_pages }),
    {
        VmplParam { gva, page_size, attrs, nr_pages }
    }
}

/// The address-space layout the driver reports.
#[derive(Clone, Copy, Debug, PartialEq, Eq, Structural)]
pub struct VmplLayout {
    pub phys_limit: u64,
    pub base_map: u64,
    pub base_stack: u64,
}

impl VmplLayout {
    pub fn new(phys_limit: u64, base_map: u64, base_stack: u64) -> (r: VmplLayout)
        ensures
            r == (VmplLayout { phys_limit, base_map, base_stack }),
    {
        VmplLayout { phys_limit, base_map, base_stack }
    }
}

/// Selector of the user FS segment.
pub const FS_SELECTOR: u16 = 0x33;

/// Selector of the user GS segment.
pub const GS_SELECTOR: u16 = 0x3b;

/// Attributes of a present, accessed, read/write data segment.
pub const DATA_SEG_ATTRIB: u16 = 0x008b;

/// Attributes of a present, available 64-bit TSS.
pub const TSS_SEG_ATTRIB: u16 = 0x0089;

/// One segment register as the save area holds it.
#[derive(Clone, Copy, Debug, PartialEq, Eq, Structural)]
pub struct VmsaSeg {
    pub selector: u16,
    pub attrib: u16,
    pub limit: u32,
    pub base: u64,
}

impl VmsaSeg {
    pub fn new(selector: u16, attrib: u16, limit: u32, base: u64) -> (r: VmsaSeg)
        ensures
            r == (VmsaSeg { selector, attrib, limit, base }),
    {
        VmsaSeg { selector, attrib, limit, base }
    }

    /// The FS segment with the given base.
    pub fn fs(base: u64) -> (r: VmsaSeg)
        ensures
            r == (VmsaSeg { selector: FS_SELECTOR, attrib: DATA_SEG_ATTRIB, limit: 0xffff, base }),
    {
        VmsaSeg { selector: FS_SELECTOR, attrib: DATA_SEG_ATTRIB, limit: 0xffff, base }
    }

    /// The GS segment with the given base.
    pub fn gs(base: u64) -> (r: VmsaSeg)
        ensures
            r == (VmsaSeg { selector: GS_SELECTOR, attrib: DATA_SEG_ATTRIB, limit: 0xffff, base }),
    {
        VmsaSeg { selector: GS_SELECTOR, attrib: DATA_SEG_ATTRIB, limit: 0xffff, base }
    }

    /// The task register.
    pub fn tr(selector: u16, base: u64, limit: u32, attrib: u16) -> (r: VmsaSeg)
        ensures
            r == (VmsaSeg { selector, attrib, limit, base }),
    {
        VmsaSeg { selector, attrib, limit, base }
    }
}

/// The segment description installed with the driver: FS, GS, the
/// descriptor-table registers and the task register.
#[derive(Clone, Copy, Debug, PartialEq, Eq, Structural)]
pub struct VmplSegs {
    pub fs: VmsaSeg,
    pub gs: VmsaSeg,
    pub gdtr: VmsaSeg,
    pub idtr: VmsaSeg,
    pub tr: VmsaSeg,
}

impl VmplSegs {
    pub fn new(fs: VmsaSeg, gs: VmsaSeg, gdtr: VmsaSeg, idtr: VmsaSeg, tr: VmsaSeg) -> (r: VmplSegs)
        ensures
            r == (VmplSegs { fs, gs, gdtr, idtr, tr }),
    {
        VmplSegs { fs, gs, gdtr, idtr, tr }
    }
}

/// Exit reason: none recorded.
pub const DUNE_RET_NONE: i64 = 0;
/// Exit reason: the privileged side called process exit.
pub const DUNE_RET_EXIT: i64 = 1;
/// Exit reason: the privileged side asks the host to run a syscall.
pub const DUNE_RET_SYSCALL: i64 = 2;
/// Exit reason: an interrupt.
pub const DUNE_RET_INTERRUPT: i64 = 3;
/// Exit reason: a signal is pending.
pub const DUNE_RET_SIGNAL: i64 = 4;
/// Exit reason: re-entering the privileged mode failed.
pub const DUNE_RET_NOENTER: i64 = 6;

/// Why a transition returned, as the driver reports it in `ret`.
#[derive(Clone, Copy, Debug, PartialEq, Eq, Structural)]
pub enum DuneRet {
    /// No reason recorded.
    Unset,
    Exit,
    Syscall,
    Interrupt,
    Signal,
    NoEnter,
}

/// The reason a `ret` code stands for, if it is one of the protocol's.
pub open spec fn dune_ret_of(code: i64) -> Option<DuneRet> {
    if code == DUNE_RET_NONE {
        Some(DuneRet::Unset)
    } else if code == DUNE_RET_EXIT {
        Some(DuneRet::Exit)
    } else if code == DUNE_RET_SYSCALL {
        Some(DuneRet::Syscall)
    } else if code == DUNE_RET_INTERRUPT {
        Some(DuneRet::Interrupt)
    } else if code == DUNE_RET_SIGNAL {
        Some(DuneRet::Signal)
    } else if code == DUNE_RET_NOENTER {
        Some(DuneRet::NoEnter)
    } else {
        None
    }
}

impl DuneRet {
    /// The reason a `ret` code stands for; `None` outside the protocol.
    pub fn from_code(code: i64) -> (r: Option<DuneRet>)
        ensures
            r == dune_ret_of(code),
    {
        if code == DUNE_RET_NONE {
            Some(DuneRet::Unset)
        } else if code == DUNE_RET_EXIT {
            Some(DuneRet::Exit)
        } else if code == DUNE_RET_SYSCALL {
            Some(DuneRet::Syscall)
        } else if code == DUNE_RET_INTERRUPT {
            Some(DuneRet::Interrupt)
        } else if code == DUNE_RET_SIGNAL {
            Some(DuneRet::Signal)
        } else if code == DUNE_RET_NOENTER {
            Some(DuneRet::NoEnter)
        } else {
            None
        }
    }

    /// The `ret` code of the reason.
    pub fn code(&self) -> (r: i64)
        ensures
            dune_ret_of(r) == Some(*self),
    {
        match *self {
            DuneRet::Unset => DUNE_RET_NONE,
            DuneRet::Exit => DUNE_RET_EXIT,
            DuneRet::Syscall => DUNE_RET_SYSCALL,
            DuneRet::Interrupt => DUNE_RET_INTERRUPT,
            DuneRet::Signal => DUNE_RET_SIGNAL,
            DuneRet::NoEnter => DUNE_RET_NOENTER,
        }
    }
}

/// The same reasons, as the lower privilege level reports them.
#[derive(Clone, Copy, Debug, PartialEq, Eq, Structural)]
pub enum VmplRet {
    Unset,
    Exit,
    Syscall,
    Interrupt,
    Signal,
    NoEnter,
}

impl VmplRet {
    /// The reason in the driver's terms.
    pub fn as_dune_ret(&self) -> (r: DuneRet)
        ensures
            r == match *self {
                VmplRet::Unset => DuneRet::Unset,
                VmplRet::Exit => DuneRet::Exit,
                VmplRet::Syscall => DuneRet::Syscall,
                VmplRet::Interrupt => DuneRet::Interrupt,
                VmplRet::Signal => DuneRet::Signal,
                VmplRet::NoEnter => DuneRet::NoEnter,
            },
    {
        match *self {
            VmplRet::Unset => DuneRet::Unset,
            VmplRet::Exit => DuneRet::Exit,
            VmplRet::Syscall => DuneRet::Syscall,
            VmplRet::Interrupt => DuneRet::Interrupt,
            VmplRet::Signal => DuneRet::Signal,
            VmplRet::NoEnter => DuneRet::NoEnter,
        }
    }
}

/// Initial flags of a transition: interrupts enabled.
pub const DUNE_INITIAL_RFLAGS: u64 = 0x202;

/// The register snapshot exchanged with the entry/exit primitive.
#[derive(Clone, Copy, Debug, PartialEq, Eq, Structural)]
pub struct DuneConfig {
    pub ret: i64,
    pub rax: u64,
    pub rbx: u64,
    pub rcx: u64,
    pub rdx: u64,
    pub rsi: u64,
    pub rdi: u64,
    pub rsp: u64,
    pub rbp: u64,
    pub r8: u64,
    pub r9: u64,
    pub r10: u64,
    pub r11: u64,
    pub r12: u64,
    pub r13: u64,
    pub r14: u64,
    pub r15: u64,
    pub rip: u64,
    pub rflags: u64,
    pub cr3: u64,
    pub status: i64,
    pub vcpu: u64,
}

/// A syscall the privileged side asks the host to run.
#[derive(Clone, Copy, Debug, PartialEq, Eq, Structural)]
pub struct SyscallRequest {
    pub nr: i64,
    pub arg0: u64,
    pub arg1: u64,
    pub arg2: u64,
    pub arg3: u64,
    pub arg4: u64,
    pub arg5: u64,
}

/// Why a transition ended fatally.
#[derive(Clone, Copy, Debug, PartialEq, Eq, Structural)]
pub enum FatalExit {
    /// An interrupt, with its status.
    Interrupt(i64),
    /// Re-entry failed, with its status.
    NoEnter(i64),
    /// An exit reason outside the protocol, with the reason and status.
    Unknown(i64, i64),
}

/// What the host does after a transition returns.
#[derive(Clone, Copy, Debug, PartialEq, Eq, Structural)]
pub enum ExitAction {
    /// Exit the host process with this status; nothing returns.
    Exit(i64),
    /// Run this syscall, store its result in the snapshot, then re-enter.
    Syscall(SyscallRequest),
    /// Re-enter the privileged mode with the same snapshot.
    Reenter,
    /// Report and terminate.
    Fatal(FatalExit),
}

/// The action each exit reason calls for.
pub open spec fn dispatch_spec(c: DuneConfig) -> ExitAction {
    if c.ret == DUNE_RET_EXIT {
        ExitAction::Exit(c.status)
    } else if c.ret == DUNE_RET_SYSCALL {
        ExitAction::Syscall(SyscallRequest { nr: c.status, arg0: c.rdi, arg1: c.rsi, arg2: c.rdx, arg3: c.r10, arg4: c.r8, arg5: c.r9 })
    } else if c.ret == DUNE_RET_INTERRUPT {
        ExitAction::Fatal(FatalExit::Interrupt(c.status))
    } else if c.ret == DUNE_RET_SIGNAL {
        ExitAction::Reenter
    } else if c.ret == DUNE_RET_NOENTER {
        ExitAction::Fatal(FatalExit::NoEnter(c.status))
    } else {
        ExitAction::Fatal(FatalExit::Unknown(c.ret, c.status))
    }
}

impl DuneConfig {
    pub open spec fn new_spec(rip: u64, rsp: u64, rflags: u64) -> DuneConfig {
        DuneConfig {
            ret: 0,
            rax: 0,
            rbx: 0,
            rcx: 0,
            rdx: 0,
            rsi: 0,
            rdi: 0,
            rsp,
            rbp: 0,
            r8: 0,
            r9: 0,
            r10: 0,
            r11: 0,
            r12: 0,
            r13: 0,
            r14: 0,
            r15: 0,
            rip,
            rflags,
            cr3: 0,
            status: 0,
            vcpu: 0,
        }
    }

    /// A fresh snapshot that starts at `rip` with stack `rsp` and flags
    /// `rflags`; every other register and the exit fields are zero.
    pub fn new(rip: u64, rsp: u64, rflags: u64) -> (r: DuneConfig)
        ensures
            r == DuneConfig::new_spec(rip, rsp, rflags),
    {
        DuneConfig {
            ret: 0,
            rax: 0,
            rbx: 0,
            rcx: 0,
            rdx: 0,
            rsi: 0,
            rdi: 0,
            rsp,
            rbp: 0,
            r8: 0,
            r9: 0,
            r10: 0,
            r11: 0,
            r12: 0,
            r13: 0,
            r14: 0,
            r15: 0,
            rip,
            rflags,
            cr3: 0,
            status: 0,
            vcpu: 0,
        }
    }

    /// The privileged side exited: the host exits with the same status.
    pub fn on_dune_exit(&self) -> (r: ExitAction)
        ensures
            r == ExitAction::Exit(self.status),
    {
        ExitAction::Exit(self.status)
    }

    /// An interrupt ended the excursion: fatal, reported with its status.
    pub fn on_dune_interrupt(&self) -> (r: ExitAction)
        ensures
            r == ExitAction::Fatal(FatalExit::Interrupt(self.status)),
    {
        ExitAction::Fatal(FatalExit::Interrupt(self.status))
    }

    /// The syscall the privileged side asks for: its number is the status, its
    /// arguments the argument registers in calling order.
    pub fn on_dune_syscall(&self) -> (r: ExitAction)
        ensures
            r == ExitAction::Syscall(
                SyscallRequest {
                    nr: self.status,
                    arg0: self.rdi,
                    arg1: self.rsi,
                    arg2: self.rdx,
                    arg3: self.r10,
                    arg4: self.r8,
                    arg5: self.r9,
                },
            ),
    {
        ExitAction::Syscall(
            SyscallRequest {
                    nr: self.status,
                    arg0: self.rdi,
                    arg1: self.rsi,
                    arg2: self.rdx,
                    arg3: self.r10,
                    arg4: self.r8,
                    arg5: self.r9,
                },
        )
    }

    /// A signal is pending: hand control back to the privileged side.
    pub fn on_dune_signal(&self) -> (r: ExitAction)
        ensures
            r == ExitAction::Reenter,
    {
        ExitAction::Reenter
    }

    /// Re-entry failed: fatal, reported with its status.
    pub fn on_dune_noenter(&self) -> (r: ExitAction)
        ensures
            r == ExitAction::Fatal(FatalExit::NoEnter(self.status)),
    {
        ExitAction::Fatal(FatalExit::NoEnter(self.status))
    }

    /// Decides what to do on the exit reason of a returned transition.
    pub fn dispatch(&self) -> (r: ExitAction)
        ensures
            r == dispatch_spec(*self),
    {
        if self.ret == DUNE_RET_EXIT {
            self.on_dune_exit()
        } else if self.ret == DUNE_RET_SYSCALL {
            self.on_dune_syscall()
        } else if self.ret == DUNE_RET_INTERRUPT {
            self.on_dune_interrupt()
        } else if self.ret == DUNE_RET_SIGNAL {
            self.on_dune_signal()
        } else if self.ret == DUNE_RET_NOENTER {
            self.on_dune_noenter()
        } else {
            ExitAction::Fatal(FatalExit::Unknown(self.ret, self.status))
        }
    }

    /// Stores the result of the requested syscall in the return-value register
    /// and asks to re-enter with this same snapshot.
    pub fn complete_syscall(&mut self, result: u64) -> (r: ExitAction)
        ensures
            *final(self) == (DuneConfig { rax: result, ..*old(self) }),
            r == ExitAction::Reenter,
    {
        self.rax = result;
        ExitAction::Reenter
    }
}

/// The subset of a snapshot used to start the lower level.
#[derive(Clone, Copy, Debug, PartialEq, Eq, Structural)]
pub struct VmplConfig {
    pub vcpu: u64,
    pub rip: u64,
    pub rsp: u64,
    pub rflags: u64,
    pub cr3: u64,
}

/// General-purpose registers saved on a trap.
#[derive(Clone, Copy, Debug, PartialEq, Eq, Structural)]
pub struct DuneTrapRegisters {
    pub rax: u64,
    pub rbx: u64,
    pub rcx: u64,
    pub rdx: u64,
    pub rsi: u64,
    pub rdi: u64,
    pub rsp: u64,
    pub rbp: u64,
    pub r8: u64,
    pub r9: u64,
    pub r10: u64,
    pub r11: u64,
    pub r12: u64,
    pub r13: u64,
    pub r14: u64,
    pub r15: u64,
    pub rip: u64,
    pub rflags: u64,
}

/// The fields of one GDT descriptor, unpacked.
#[derive(Clone, Copy, Debug, PartialEq, Eq, Structural)]
pub struct GdtrEntry {
    pub limit_lo: u16,
    pub base: u32,
    pub base_hi: u8,
    pub type_: u8,
    pub s: u8,
    pub dpl: u8,
    pub p: u8,
    pub limit_hi: u8,
    pub avl: u8,
    pub l: u8,
    pub db: u8,
    pub g: u8,
    pub base_highest: u8,
}

/// The frame a trap leaves: saved registers, then the exception frame.
#[derive(Clone, Copy, Debug, PartialEq, Eq, Structural)]
pub struct DuneTrapFrame {
    pub rdi: u64,
    pub rsi: u64,
    pub rdx: u64,
    pub rcx: u64,
    pub r8: u64,
    pub r9: u64,
    pub r10: u64,
    pub r11: u64,
    pub rbx: u64,
    pub rbp: u64,
    pub r12: u64,
    pub r13: u64,
    pub r14: u64,
    pub r15: u64,
    pub rax: u64,
    pub err: u32,
    pub rip: u64,
    pub cs: u16,
    pub rflags: u64,
    pub rsp: u64,
    pub ss: u16,
}

/// A request for physical pages from the driver, and where they start.
#[derive(Clone, Copy, Debug, PartialEq, Eq, Structural)]
pub struct GetPagesParams {
    pub num_pages: usize,
    pub phys: u64,
}

impl GetPagesParams {
    pub fn new(num_pages: usize, phys: u64) -> (r: GetPagesParams)
        ensures
            r == (GetPagesParams { num_pages, phys }),
    {
        GetPagesParams { num_pages, phys }
    }
}

/// The two page-table roots of isolation mapping.
#[derive(Clone, Copy, Debug, PartialEq, Eq, Structural)]
pub struct SeimiParams {
    pub pgd_user: u64,
    pub pgd_super: u64,
}

impl SeimiParams {
    pub fn new(pgd_user: u64, pgd_super: u64) -> (r: SeimiParams)
        ensures
            r == (SeimiParams { pgd_user, pgd_super }),
    {
        SeimiParams { pgd_user, pgd_super }
    }
}

} // verus!
