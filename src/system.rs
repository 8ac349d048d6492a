//! The orchestrator: system-wide setup as a sequence of stages, the choice of
//! the core a thread runs on, and the per-core cycle of entering the
//! privileged mode and acting on why it returned.
use vstd::prelude::*;

use crate::config::{dispatch_spec, DuneConfig, ExitAction, DUNE_INITIAL_RFLAGS};
use crate::error::{VmplError, ENOMEM};
use crate::page::{count_free, count_pool, vmpl_page_stats, vmpl_page_test, PagePool, PageStats};
use crate::percpu::{DunePerCpu, XsaveState};

verus! {

/// Relies on num_cpus::get: the number of logical CPUs this process may run
/// on, which its documentation promises is at least 1.
#[verifier::external_body]
fn get_cpu_count() -> (r: usize)
    ensures
        r >= 1,
{
    num_cpus::get()
}

/// The core after `current` in round-robin order over `count` cores.
pub fn next_cpu(current: usize, count: usize) -> (r: usize)
    requires
        count >= 1,
        current < count,
    ensures
        r == (current + 1) % (count as int),
        r < count,
{
    (current + 1) % count
}

/// The stages of system setup, in order.
#[derive(Clone, Copy, Debug, PartialEq, Eq, Structural)]
pub enum InitStage {
    /// Open the driver.
    OpenDevice,
    /// Pin the thread to one core.
    CpuSet,
    /// Set up the page pool and the memory manager.
    Memory,
    /// Install isolation mapping.
    Seimi,
    /// Install the syscall trampoline with the driver.
    Syscall,
    /// Install the v-syscall page; only with full address-space mapping.
    Vsyscall,
    /// Mask the signals outside the always-delivered set.
    Signals,
    /// Install the exception handlers.
    Idt,
    /// Set up interrupt-routing bookkeeping.
    Apic,
    /// Setup is complete.
    Done,
}

/// The stage after `s`.
pub open spec fn next_stage(s: InitStage, map_full: bool) -> InitStage {
    match s {
        InitStage::OpenDevice => InitStage::CpuSet,
        InitStage::CpuSet => InitStage::Memory,
        InitStage::Memory => InitStage::Seimi,
        InitStage::Seimi => InitStage::Syscall,
        InitStage::Syscall => if map_full {
            InitStage::Vsyscall
        } else {
            InitStage::Signals
        },
        InitStage::Vsyscall => InitStage::Signals,
        InitStage::Signals => InitStage::Idt,
        InitStage::Idt => InitStage::Apic,
        InitStage::Apic => InitStage::Done,
        InitStage::Done => InitStage::Done,
    }
}

/// The failure reported when stage `s` fails with OS error `code`.
pub open spec fn stage_error(s: InitStage, code: i32) -> VmplError {
    match s {
        InitStage::OpenDevice => VmplError::Io(code),
        InitStage::CpuSet => VmplError::CpusetSetupFailed(code),
        InitStage::Memory => VmplError::MemorySetupFailed(code),
        InitStage::Seimi => VmplError::SeimiSetupFailed(code),
        InitStage::Syscall => VmplError::SyscallSetupFailed(code),
        InitStage::Vsyscall => VmplError::VsyscallSetupFailed(code),
        InitStage::Signals => VmplError::SignalSetupFailed(code),
        InitStage::Idt => VmplError::IdtSetupFailed(code),
        InitStage::Apic => VmplError::ApicSetupFailed(ENOMEM),
        InitStage::Done => VmplError::Sys(code),
    }
}

/// Where the system and its core stand.
#[derive(Clone, Copy, Debug, PartialEq, Eq, Structural)]
pub enum SystemState {
    Idle,
    /// Setup runs; the stage given is the one under way.
    Initializing(InitStage),
    /// Setup failed at some stage; nothing is retried.
    Failed(VmplError),
    /// Setup done; the core may enter the privileged mode.
    Ready,
    /// The core is in the privileged mode.
    InPrivilegedMode,
    /// Control came back with a syscall to run on the host.
    AwaitingSyscall,
    /// The process exits or terminates.
    Finished,
}

/// The process-wide context: the driver handle, the state of the setup and
/// of the core, and the round-robin core choice.
pub struct VmplSystem {
    pub dune_fd: i32,
    pub state: SystemState,
    pub map_full: bool,
    pub current_cpu: usize,
    pub cpu_count: usize,
}

impl VmplSystem {
    pub open spec fn wf(&self) -> bool {
        &&& self.cpu_count == 0 ==> self.current_cpu == 0
        &&& self.cpu_count > 0 ==> self.current_cpu < self.cpu_count
    }

    pub fn new() -> (r: VmplSystem)
        ensures
            r.wf(),
            r.state == SystemState::Idle,
            r.dune_fd == 0,
            r.current_cpu == 0,
            r.cpu_count == 0,
    {
        VmplSystem { dune_fd: 0, state: SystemState::Idle, map_full: false, current_cpu: 0, cpu_count: 0 }
    }

    /// Picks the core for the calling thread: the next one in round-robin
    /// order over the cores available, counted on first use.
    pub fn alloc_cpu(&mut self) -> (r: usize)
        requires
            old(self).wf(),
        ensures
            final(self).wf(),
            old(self).cpu_count > 0 ==> final(self).cpu_count == old(self).cpu_count,
            final(self).cpu_count >= 1,
            r == (old(self).current_cpu + 1) % (final(self).cpu_count as int),
            final(self).current_cpu == r,
            final(self).state == old(self).state,
            final(self).dune_fd == old(self).dune_fd,
            final(self).map_full == old(self).map_full,
    {
        if self.cpu_count == 0 {
            self.cpu_count = get_cpu_count();
        }
        let cpu = next_cpu(self.current_cpu, self.cpu_count);
        self.current_cpu = cpu;
        cpu
    }

    /// Starts system setup; `map_full` asks for the v-syscall page too. The
    /// first stage is opening the driver.
    pub fn init(&mut self, map_full: bool) -> (r: InitStage)
        requires
            old(self).state == SystemState::Idle,
        ensures
            r == InitStage::OpenDevice,
            final(self).state == SystemState::Initializing(InitStage::OpenDevice),
            final(self).map_full == map_full,
            final(self).current_cpu == old(self).current_cpu,
            final(self).cpu_count == old(self).cpu_count,
            final(self).dune_fd == old(self).dune_fd,
    {
        self.map_full = map_full;
        self.state = SystemState::Initializing(InitStage::OpenDevice);
        InitStage::OpenDevice
    }

    /// Records the driver handle once opening it succeeded.
    pub fn set_fd(&mut self, fd: i32)
        ensures
            final(self).dune_fd == fd,
            final(self).state == old(self).state,
            final(self).map_full == old(self).map_full,
            final(self).current_cpu == old(self).current_cpu,
            final(self).cpu_count == old(self).cpu_count,
    {
        self.dune_fd = fd;
    }

    /// The stage under way succeeded: returns the next one, `Done` when setup
    /// is complete.
    pub fn stage_done(&mut self) -> (r: InitStage)
        requires
            old(self).state matches SystemState::Initializing(s) && s != InitStage::Done,
        ensures
            ({
                let s = match old(self).state {
                    SystemState::Initializing(s) => s,
                    _ => InitStage::Done,
                };
                &&& r == next_stage(s, old(self).map_full)
                &&& final(self).state == if r == InitStage::Done {
                    SystemState::Ready
                } else {
                    SystemState::Initializing(r)
                }
            }),
            final(self).map_full == old(self).map_full,
            final(self).current_cpu == old(self).current_cpu,
            final(self).cpu_count == old(self).cpu_count,
            final(self).dune_fd == old(self).dune_fd,
    {
        let s = match self.state {
            SystemState::Initializing(s) => s,
            _ => InitStage::Done,
        };
        let next = match s {
            InitStage::OpenDevice => InitStage::CpuSet,
            InitStage::CpuSet => InitStage::Memory,
            InitStage::Memory => InitStage::Seimi,
            InitStage::Seimi => InitStage::Syscall,
            InitStage::Syscall => if self.map_full {
                InitStage::Vsyscall
            } else {
                InitStage::Signals
            },
            InitStage::Vsyscall => InitStage::Signals,
            InitStage::Signals => InitStage::Idt,
            InitStage::Idt => InitStage::Apic,
            InitStage::Apic => InitStage::Done,
            InitStage::Done => InitStage::Done,
        };
        self.state = if next == InitStage::Done {
            SystemState::Ready
        } else {
            SystemState::Initializing(next)
        };
        next
    }

    /// The stage under way failed with OS error `code`: setup stops, and the
    /// failure names the stage.
    pub fn stage_failed(&mut self, code: i32) -> (r: VmplError)
        requires
            old(self).state matches SystemState::Initializing(s) && s != InitStage::Done,
        ensures
            ({
                let s = match old(self).state {
                    SystemState::Initializing(s) => s,
                    _ => InitStage::Done,
                };
                r == stage_error(s, code)
            }),
            final(self).state == SystemState::Failed(r),
            final(self).map_full == old(self).map_full,
            final(self).current_cpu == old(self).current_cpu,
            final(self).cpu_count == old(self).cpu_count,
            final(self).dune_fd == old(self).dune_fd,
    {
        let s = match self.state {
            SystemState::Initializing(s) => s,
            _ => InitStage::Done,
        };
        let e = match s {
            InitStage::OpenDevice => VmplError::Io(code),
            InitStage::CpuSet => VmplError::CpusetSetupFailed(code),
            InitStage::Memory => VmplError::MemorySetupFailed(code),
            InitStage::Seimi => VmplError::SeimiSetupFailed(code),
            InitStage::Syscall => VmplError::SyscallSetupFailed(code),
            InitStage::Vsyscall => VmplError::VsyscallSetupFailed(code),
            InitStage::Signals => VmplError::SignalSetupFailed(code),
            InitStage::Idt => VmplError::IdtSetupFailed(code),
            InitStage::Apic => VmplError::ApicSetupFailed(ENOMEM),
            InitStage::Done => VmplError::Sys(code),
        };
        self.state = SystemState::Failed(e);
        e
    }

    /// Starts an excursion into the privileged mode: a fresh snapshot that
    /// resumes at the return trampoline `entry`, with interrupts enabled.
    pub fn enter(&mut self, entry: u64) -> (r: DuneConfig)
        requires
            old(self).state == SystemState::Ready,
        ensures
            r == DuneConfig::new_spec(entry, 0, DUNE_INITIAL_RFLAGS),
            final(self).state == SystemState::InPrivilegedMode,
            final(self).map_full == old(self).map_full,
            final(self).current_cpu == old(self).current_cpu,
            final(self).cpu_count == old(self).cpu_count,
            final(self).dune_fd == old(self).dune_fd,
    {
        self.state = SystemState::InPrivilegedMode;
        DuneConfig::new(entry, 0, DUNE_INITIAL_RFLAGS)
    }

    /// Control came back from the privileged mode with `conf`: decides what
    /// the exit reason calls for and moves on. An exit or a fatal reason
    /// finishes; a syscall waits for its result; a signal re-enters.
    pub fn on_return(&mut self, conf: &DuneConfig) -> (r: ExitAction)
        requires
            old(self).state == SystemState::InPrivilegedMode,
        ensures
            r == dispatch_spec(*conf),
            final(self).state == match r {
                ExitAction::Syscall(_) => SystemState::AwaitingSyscall,
                ExitAction::Reenter => SystemState::InPrivilegedMode,
                _ => SystemState::Finished,
            },
            final(self).map_full == old(self).map_full,
            final(self).current_cpu == old(self).current_cpu,
            final(self).cpu_count == old(self).cpu_count,
            final(self).dune_fd == old(self).dune_fd,
    {
        let action = conf.dispatch();
        self.state = match action {
            ExitAction::Syscall(_) => SystemState::AwaitingSyscall,
            ExitAction::Reenter => SystemState::InPrivilegedMode,
            _ => SystemState::Finished,
        };
        action
    }

    /// The host ran the requested syscall: its result goes into the same
    /// snapshot, and the core re-enters the privileged mode to deliver it.
    pub fn complete_syscall(&mut self, conf: &mut DuneConfig, result: u64) -> (r: ExitAction)
        requires
            old(self).state == SystemState::AwaitingSyscall,
        ensures
            *final(conf) == (DuneConfig { rax: result, ..*old(conf) }),
            r == ExitAction::Reenter,
            final(self).state == SystemState::InPrivilegedMode,
            final(self).map_full == old(self).map_full,
            final(self).current_cpu == old(self).current_cpu,
            final(self).cpu_count == old(self).cpu_count,
            final(self).dune_fd == old(self).dune_fd,
    {
        self.state = SystemState::InPrivilegedMode;
        conf.complete_syscall(result)
    }

    /// Tears the core down: takes out its mailbox and extended-state area for
    /// release, and returns the system to idle.
    pub fn init_exit(&mut self, cpu: &mut DunePerCpu) -> (r: (Option<u64>, Option<XsaveState>))
        ensures
            r.0 == old(cpu).ghcb,
            r.1 is Some <==> old(cpu).xsave is Some,
            final(cpu).ghcb is None,
            final(cpu).xsave is None,
            final(self).state == SystemState::Idle,
            final(self).current_cpu == old(self).current_cpu,
            final(self).cpu_count == old(self).cpu_count,
    {
        self.state = SystemState::Idle;
        cpu.release()
    }

    /// The greeting shown once setup is done.
    pub fn init_banner(&self) -> (r: &'static str)
        ensures
            r@ == "Welcome to VMPL!"@,
    {
        proof {
            reveal_strlit("Welcome to VMPL!");
        }
        "Welcome to VMPL!"
    }

    /// Occupancy of the page pool.
    pub fn init_stats(&self, pool: &PagePool) -> (r: PageStats)
        requires
            pool@.wf(),
        ensures
            r.total == pool@.pages.len(),
            r.pool == count_pool(pool@.pages),
            r.free == count_free(pool@.pages),
    {
        vmpl_page_stats(pool)
    }

    /// Exercises the page pool, which ends as it began; always 0.
    pub fn init_test(&self, pool: &mut PagePool) -> (r: i32)
        requires
            old(pool)@.wf(),
        ensures
            final(pool)@ == old(pool)@,
            r == 0,
    {
        vmpl_page_test(pool);
        0
    }
}

/// The v-syscall page is not supported: nothing to install.
pub fn setup_vsyscall() -> (r: Result<i32, VmplError>)
    ensures
        r == Ok::<i32, VmplError>(0),
{
    Ok(0)
}

} // verus!
