use std::io::Write;

use vmpl::config::{
    DuneRet, VmplRet,
    DuneConfig, ExitAction, FatalExit, GetPagesParams, SeimiParams, SyscallRequest, VmplLayout, VmplParam,
    VmplSegs, VmsaSeg, DUNE_RET_EXIT, DUNE_RET_INTERRUPT, DUNE_RET_NOENTER, DUNE_RET_SIGNAL, DUNE_RET_SYSCALL,
};
use vmpl::error::{VmplError, EINVAL, ENOMEM};
use vmpl::ghcb::{Ghcb, OFF_SW_EXIT_CODE, OFF_SW_EXIT_INFO_1, OFF_VALID_BITMAP};
use vmpl::idt::{fault_report, idt_init, FaultAction};
use vmpl::page::PagePool;
use vmpl::percpu::{CpuPhase, DunePerCpu, GD_TSS, KERNEL_CODE64, TSS, XSAVE_SIZE};
use vmpl::signal::signal_init;
use vmpl::system::{next_cpu, setup_vsyscall, InitStage, SystemState, VmplSystem};
use vmpl::vc::{vc_complete_exit, vc_run_vmpl_prepare, ChannelState, GhcbChannel, GHCB_NAE_RUN_VMPL};
use vmpl::vma::{Prot, ProcmapEntry, VmplVma, VmplVmaType};

fn snapshot(ret: i64, status: i64) -> DuneConfig {
    let mut c = DuneConfig::new(0x4000, 0x7fff_0000, 0x202);
    c.ret = ret;
    c.status = status;
    c.rdi = 1;
    c.rsi = 2;
    c.rdx = 3;
    c.r10 = 4;
    c.r8 = 5;
    c.r9 = 6;
    c
}

fn ready_system() -> VmplSystem {
    let mut sys = VmplSystem::new();
    let mut stage = sys.init(false);
    while stage != InitStage::Done {
        stage = sys.stage_done();
    }
    sys
}

#[test]
fn dispatch_takes_documented_action_per_reason() {
    assert_eq!(snapshot(DUNE_RET_EXIT, 7).dispatch(), ExitAction::Exit(7));
    assert_eq!(
        snapshot(DUNE_RET_SYSCALL, 39).dispatch(),
        ExitAction::Syscall(SyscallRequest { nr: 39, arg0: 1, arg1: 2, arg2: 3, arg3: 4, arg4: 5, arg5: 6 })
    );
    assert_eq!(snapshot(DUNE_RET_INTERRUPT, 32).dispatch(), ExitAction::Fatal(FatalExit::Interrupt(32)));
    assert_eq!(snapshot(DUNE_RET_SIGNAL, 0).dispatch(), ExitAction::Reenter);
    assert_eq!(snapshot(DUNE_RET_NOENTER, -5).dispatch(), ExitAction::Fatal(FatalExit::NoEnter(-5)));
    assert_eq!(snapshot(5, 9).dispatch(), ExitAction::Fatal(FatalExit::Unknown(5, 9)));
    assert_eq!(snapshot(0, 0).dispatch(), ExitAction::Fatal(FatalExit::Unknown(0, 0)));
}

#[test]
fn return_handling_moves_core_state() {
    let mut sys = ready_system();
    let conf = sys.enter(0x4000);
    assert_eq!(conf.rip, 0x4000);
    assert_eq!(conf.rflags, 0x202);
    assert_eq!(sys.state, SystemState::InPrivilegedMode);
    assert_eq!(sys.on_return(&snapshot(DUNE_RET_SIGNAL, 0)), ExitAction::Reenter);
    assert_eq!(sys.state, SystemState::InPrivilegedMode);
    assert_eq!(sys.on_return(&snapshot(DUNE_RET_EXIT, 0)), ExitAction::Exit(0));
    assert_eq!(sys.state, SystemState::Finished);

    let mut sys = ready_system();
    sys.enter(0x4000);
    sys.on_return(&snapshot(42, 0));
    assert_eq!(sys.state, SystemState::Finished);
}

#[test]
fn syscall_result_goes_into_same_snapshot() {
    let mut sys = ready_system();
    sys.enter(0x4000);
    let mut conf = snapshot(DUNE_RET_SYSCALL, 39);
    assert!(matches!(sys.on_return(&conf), ExitAction::Syscall(_)));
    assert_eq!(sys.state, SystemState::AwaitingSyscall);
    let before = conf;
    assert_eq!(sys.complete_syscall(&mut conf, 1234), ExitAction::Reenter);
    assert_eq!(conf.rax, 1234);
    assert_eq!(DuneConfig { rax: before.rax, ..conf }, before);
    assert_eq!(sys.state, SystemState::InPrivilegedMode);
}

#[test]
fn init_stages_run_in_order() {
    let mut sys = VmplSystem::new();
    let mut seen = vec![sys.init(true)];
    while *seen.last().unwrap() != InitStage::Done {
        seen.push(sys.stage_done());
    }
    assert_eq!(
        seen,
        vec![
            InitStage::OpenDevice,
            InitStage::CpuSet,
            InitStage::Memory,
            InitStage::Seimi,
            InitStage::Syscall,
            InitStage::Vsyscall,
            InitStage::Signals,
            InitStage::Idt,
            InitStage::Apic,
            InitStage::Done,
        ]
    );
    assert_eq!(sys.state, SystemState::Ready);
    let mut sys = VmplSystem::new();
    sys.init(false);
    for _ in 0..4 {
        sys.stage_done();
    }
    assert_eq!(sys.stage_done(), InitStage::Signals);
}

#[test]
fn init_failure_names_the_stage() {
    let cases = [
        (0, VmplError::Io(2)),
        (1, VmplError::CpusetSetupFailed(2)),
        (2, VmplError::MemorySetupFailed(2)),
        (3, VmplError::SeimiSetupFailed(2)),
        (4, VmplError::SyscallSetupFailed(2)),
        (5, VmplError::VsyscallSetupFailed(2)),
        (6, VmplError::SignalSetupFailed(2)),
        (7, VmplError::IdtSetupFailed(2)),
        (8, VmplError::ApicSetupFailed(ENOMEM)),
    ];
    for (advance, expected) in cases {
        let mut sys = VmplSystem::new();
        sys.init(true);
        for _ in 0..advance {
            sys.stage_done();
        }
        let e = sys.stage_failed(2);
        assert_eq!(e, expected);
        assert_eq!(sys.state, SystemState::Failed(expected));
    }
    assert_eq!(VmplError::MemorySetupFailed(12).code(), 12);
    assert_eq!(VmplError::from(5), VmplError::Sys(5));
}

#[test]
fn cpus_are_chosen_round_robin() {
    assert_eq!(next_cpu(0, 4), 1);
    assert_eq!(next_cpu(3, 4), 0);
    assert_eq!(next_cpu(0, 1), 0);
    let mut sys = VmplSystem::new();
    let first = sys.alloc_cpu();
    assert!(sys.cpu_count >= 1);
    assert_eq!(first, 1 % sys.cpu_count);
    let second = sys.alloc_cpu();
    assert_eq!(second, (first + 1) % sys.cpu_count);
}

#[test]
fn safe_stack_fills_every_stack_slot() {
    let sp = 0x7ffd_0000_1000u64;
    let mut cpu = DunePerCpu::allocate(Some(0x6000_0000), 0x5555_0000, Some(0x6100_0000), sp).ok().unwrap();
    let top = 0x6100_1000u64;
    assert_eq!(cpu.safe_stack, top);
    cpu.pre_transition(0x6000_0100, 0x6000_0200, 0x6000_0300, 0xfff);
    for &slot in cpu.tss.interrupt_stack_table.iter() {
        assert_eq!(slot, top);
    }
    assert_eq!(cpu.tss.interrupt_stack_table.len(), 7);
    assert_eq!(cpu.tss.privilege_stack_table[0], top);
    assert_ne!(top, 0);
    assert_ne!(top, sp);
    assert_eq!(cpu.tss.iomap_base, 104);
}

#[test]
fn allocation_failures_are_typed() {
    assert_eq!(DunePerCpu::allocate(None, 0, Some(0x1000), 0).err(), Some(VmplError::Sys(ENOMEM)));
    assert_eq!(
        DunePerCpu::allocate(Some(0x1000), 0, None, 0).err(),
        Some(VmplError::SafeStackSetupFailed(ENOMEM))
    );
    assert_eq!(
        DunePerCpu::allocate(Some(0x1000), 0, Some(0x8000), 0x8800).err(),
        Some(VmplError::SafeStackSetupFailed(EINVAL))
    );
    assert_eq!(
        DunePerCpu::allocate(Some(0x1000), 0, Some(u64::MAX - 0x10), 0).err(),
        Some(VmplError::SafeStackSetupFailed(EINVAL))
    );
}

#[test]
fn pre_transition_builds_gdt_and_segments() {
    let mut cpu = DunePerCpu::allocate(Some(0x6000_0000), 0x5555_0000, Some(0x6100_0000), 0x10).ok().unwrap();
    let tss = 0x1122_3344_5566_7788u64;
    let segs = cpu.pre_transition(tss, 0x6000_0200, 0x6000_0300, 0xfff);
    assert_eq!(cpu.phase, CpuPhase::Prepared);
    assert_eq!(cpu.gdt.len(), 9);
    assert_eq!(cpu.gdt[2], KERNEL_CODE64);
    let lo = TSS | 0x67 | (0x44_5566_7788u64 & 0xff_ffff) << 16 | (0x55u64 << 56);
    assert_eq!(cpu.gdt[(GD_TSS / 8) as usize], lo);
    assert_eq!(cpu.gdt[8], 0x1122_3344);
    let expected = VmplSegs::new(
        VmsaSeg::fs(0x5555_0000),
        VmsaSeg::gs(0x6000_0000),
        VmsaSeg::new(0, 0, 71, 0x6000_0200),
        VmsaSeg::new(0, 0, 0xfff, 0x6000_0300),
        VmsaSeg::tr(GD_TSS, tss, 103, 0x0089),
    );
    assert_eq!(segs, expected);
}

#[test]
fn post_transition_keeps_mailbox_and_returns_saved_state() {
    let mut cpu = DunePerCpu::allocate(Some(0x6000_0000), 0, Some(0x6100_0000), 0x10).ok().unwrap();
    cpu.pre_transition(0x100, 0x200, 0x300, 0xfff);
    cpu.save_extended_state(0x7, vec![0u8; XSAVE_SIZE]);
    let channel = GhcbChannel { state: ChannelState::Active, hv_features: 0x13, ghcb_pa: 0x9000 };
    let saved = cpu.post_transition(&channel, 0x7000_0000).unwrap();
    assert_eq!(saved.mask, 0x7);
    assert_eq!(saved.area.len(), XSAVE_SIZE);
    assert_eq!(cpu.in_usermode, 0);
    assert_eq!(cpu.get_ghcb(), Some(0x7000_0000));
    assert_eq!(cpu.phase, CpuPhase::Active);
    let (g, x) = cpu.release();
    assert_eq!(g, Some(0x7000_0000));
    assert!(x.is_none());
    let (g, x) = cpu.release();
    assert_eq!(g, None);
    assert!(x.is_none());
}

#[test]
fn end_to_end_write_syscall_reenters() {
    let mut events: Vec<&str> = Vec::new();
    let mut sys = VmplSystem::new();
    let mut stage = sys.init(true);
    while stage != InitStage::Done {
        events.push("driver accepts");
        stage = sys.stage_done();
    }
    assert_eq!(sys.state, SystemState::Ready);
    let mut cpu = DunePerCpu::allocate(Some(0x6000_0000), 0, Some(0x6100_0000), 0x10).ok().unwrap();
    let segs = cpu.pre_transition(0x100, 0x200, 0x300, 0xfff);
    assert_eq!(segs.gs.base, 0x6000_0000);
    let mut conf = sys.enter(0x4000);
    let channel = GhcbChannel { state: ChannelState::Active, hv_features: 0x13, ghcb_pa: 0x9000 };
    cpu.post_transition(&channel, 0x7000_0000);

    let message = b"vmpl\n";
    conf.ret = DUNE_RET_SYSCALL;
    conf.status = libc::SYS_write;
    conf.rdi = 1;
    conf.rsi = message.as_ptr() as u64;
    conf.rdx = message.len() as u64;
    let req = match sys.on_return(&conf) {
        ExitAction::Syscall(req) => req,
        other => panic!("unexpected action {:?}", other),
    };
    assert_eq!((req.nr, req.arg0, req.arg1, req.arg2), (libc::SYS_write, 1, message.as_ptr() as u64, 5));
    let written = std::io::stdout().write(&message[..req.arg2 as usize]).unwrap();
    events.push("syscall ran");
    let next = sys.complete_syscall(&mut conf, written as u64);
    assert_eq!(conf.rax, message.len() as u64);
    assert_eq!(next, ExitAction::Reenter);
    let mut ghcb = Ghcb::zeroed();
    vc_run_vmpl_prepare(&mut ghcb, 1);
    assert_eq!(ghcb.read_u64(OFF_SW_EXIT_CODE), GHCB_NAE_RUN_VMPL);
    events.push("switch to other vmpl");
    ghcb.set_field(OFF_SW_EXIT_INFO_1, 0);
    assert_eq!(vc_complete_exit(&mut ghcb), Ok(()));
    assert_eq!(ghcb.byte(OFF_VALID_BITMAP + 14), 0);
    assert_eq!(&events[events.len() - 2..], &["syscall ran", "switch to other vmpl"]);
    assert_eq!(sys.state, SystemState::InPrivilegedMode);
}

#[test]
fn teardown_returns_system_to_idle() {
    let mut sys = ready_system();
    let mut cpu = DunePerCpu::allocate(Some(0x6000_0000), 0, Some(0x6100_0000), 0x10).ok().unwrap();
    cpu.pre_transition(0x100, 0x200, 0x300, 0xfff);
    cpu.save_extended_state(0x3, vec![0u8; XSAVE_SIZE]);
    let (g, x) = sys.init_exit(&mut cpu);
    assert_eq!(g, None);
    assert_eq!(x.unwrap().mask, 0x3);
    assert_eq!(sys.state, SystemState::Idle);
    let mut pool = PagePool::new(0x1000, 4);
    assert_eq!(sys.init_test(&mut pool), 0);
    assert_eq!(sys.init_stats(&pool).total, 4);
}

#[test]
fn ignored_signals_spare_the_delivered_set() {
    let sigs = signal_init();
    assert_eq!(sigs.len(), 25);
    for s in [2, 9, 15, 17, 19, 20] {
        assert!(!sigs.contains(&s));
    }
    assert_eq!(sigs[0], 1);
    assert_eq!(*sigs.last().unwrap(), 31);
    assert!(sigs.windows(2).all(|w| w[0] < w[1]));
}

#[test]
fn exception_handlers_and_reports() {
    assert_eq!(idt_init(), vec![3, 8, 13, 14]);
    let bp = fault_report(3, 0x401000, 5);
    assert_eq!((bp.error_code, bp.action), (0, FaultAction::Report));
    let df = fault_report(8, 0x401000, 5);
    assert_eq!((df.error_code, df.action), (0, FaultAction::Fatal));
    let pf = fault_report(14, 0x401000, 6);
    assert_eq!((pf.rip, pf.error_code, pf.action), (0x401000, 6, FaultAction::Fatal));
    assert_eq!(setup_vsyscall(), Ok(0));
}

#[test]
fn driver_records_keep_fields() {
    let p = VmplParam::new(0x1000, 4096, 7, 1);
    assert_eq!((p.gva, p.page_size, p.attrs, p.nr_pages), (0x1000, 4096, 7, 1));
    let l = VmplLayout::new(1, 2, 3);
    assert_eq!((l.phys_limit, l.base_map, l.base_stack), (1, 2, 3));
    let g = GetPagesParams::new(16, 0x8000);
    assert_eq!((g.num_pages, g.phys), (16, 0x8000));
    let s = SeimiParams::new(0x12345678, 0x87654321);
    assert_eq!((s.pgd_user, s.pgd_super), (0x12345678, 0x87654321));
    let fs = VmsaSeg::fs(0xabc);
    assert_eq!((fs.selector, fs.attrib, fs.limit, fs.base), (0x33, 0x8b, 0xffff, 0xabc));
    let gs = VmsaSeg::gs(0xdef);
    assert_eq!((gs.selector, gs.base), (0x3b, 0xdef));
    let c = DuneConfig::new(1, 2, 3);
    assert_eq!((c.rip, c.rsp, c.rflags, c.rax, c.ret, c.status), (1, 2, 3, 0, 0, 0));
    assert_eq!(c.on_dune_interrupt(), ExitAction::Fatal(FatalExit::Interrupt(0)));
    assert_eq!(c.on_dune_noenter(), ExitAction::Fatal(FatalExit::NoEnter(0)));
}

#[test]
fn memory_map_paths_name_area_kinds() {
    assert_eq!(VmplVmaType::from_path("/usr/lib/libc.so.6"), VmplVmaType::File);
    assert_eq!(VmplVmaType::from_path(""), VmplVmaType::Anonymous);
    assert_eq!(VmplVmaType::from_path("[heap]"), VmplVmaType::Heap);
    assert_eq!(VmplVmaType::from_path("[stack]"), VmplVmaType::Stack);
    assert_eq!(VmplVmaType::from_path("[stack:1234]"), VmplVmaType::Stack);
    assert_eq!(VmplVmaType::from_path("[stack"), VmplVmaType::Unknown);
    assert_eq!(VmplVmaType::from_path("[vsyscall]"), VmplVmaType::Vsyscall);
    assert_eq!(VmplVmaType::from_path("[vdso]"), VmplVmaType::Vdso);
    assert_eq!(VmplVmaType::from_path("[vvar]"), VmplVmaType::Vvar);
    assert_eq!(VmplVmaType::from_path("[anon:x]"), VmplVmaType::Unknown);
}

#[test]
fn areas_and_protections() {
    let v = VmplVma::new(0x1000, 0x3000, 0, Prot::from(1), 0);
    assert_eq!(v.len(), 0x2000);
    assert_eq!(v.prot, Prot::Read);
    assert_eq!(Prot::from(2), Prot::Write);
    assert_eq!(Prot::from(4), Prot::Exec);
    assert_eq!(Prot::from(3), Prot::NoAccess);
    let e = ProcmapEntry::new(1, 2, 3, true, false, true, true, 4, 5, 6, Some(String::from("[heap]")));
    assert_eq!((e.begin, e.end, e.offset, e.inode), (1, 2, 3, 6));
    assert_eq!(e.path.as_deref(), Some("[heap]"));
}

#[test]
fn exit_reason_codes() {
    assert_eq!(DuneRet::from_code(1), Some(DuneRet::Exit));
    assert_eq!(DuneRet::from_code(6), Some(DuneRet::NoEnter));
    assert_eq!(DuneRet::from_code(5), None);
    assert_eq!(DuneRet::Syscall.code(), 2);
    assert_eq!(DuneRet::Unset.code(), 0);
    assert_eq!(VmplRet::Signal.as_dune_ret(), DuneRet::Signal);
    assert_eq!(VmplSystem::new().init_banner(), "Welcome to VMPL!");
}
