use vmpl::ghcb::{
    Ghcb, GHCB_PAGE_SIZE, OFF_PROTOCOL_VERSION, OFF_RAX, OFF_RBX, OFF_RCX, OFF_RDX, OFF_SHARED_BUFFER,
    OFF_SW_EXIT_CODE, OFF_SW_EXIT_INFO_1, OFF_SW_EXIT_INFO_2, OFF_SW_SCRATCH, OFF_USAGE, OFF_VALID_BITMAP,
    OFF_XCR0, VALID_BITMAP_SIZE,
};
use vmpl::page::PagePool;
use vmpl::psc::{psc_batch_for, vc_psc_complete, vc_psc_prepare, PageOp, PscOp, PscOpData, PscOpHeader, PSC_ENTRIES};
use vmpl::vc::{
    check_hv_features, check_registration, check_sev_info, cpuid_xcr0, ioio_info, vc_complete_exit,
    vc_cpuid_complete, vc_cpuid_prepare, vc_io_in_complete, vc_io_in_prepare, vc_io_out_prepare,
    vc_run_vmpl_prepare, vc_terminate_ghcb_feature, vc_terminate_ghcb_general,
    vc_terminate_ghcb_unsupported_protocol, vc_terminate_svsm_bios, vc_terminate_svsm_enomem,
    vc_terminate_svsm_fwcfg, vc_terminate_svsm_general, vc_terminate_svsm_incorrect_vmpl,
    vc_terminate_svsm_page_err, vc_terminate_svsm_psc, vc_terminate_svsm_resp_invalid,
    vc_terminate_unhandled_vc, vc_terminate_vmpl0_sev_features, vc_terminate_vmpl1_sev_features, ChannelAction,
    ChannelState, CpuidResult, GhcbChannel, IoWidth, GHCB_MSR_HV_FEATURE_REQ, GHCB_MSR_SEV_INFO_REQ,
    GHCB_NAE_CPUID, GHCB_NAE_IOIO, GHCB_NAE_PSC, GHCB_NAE_RUN_VMPL,
};

fn sev_info_response(min: u64, max: u64) -> u64 {
    (max << 48) | (min << 32) | 0x001
}

fn feature_response(features: u64) -> u64 {
    (features << 12) | 0x081
}

/// Runs negotiation against `hv`, counting terminations.
fn negotiate(ch: &mut GhcbChannel, hv: &dyn Fn(u64) -> u64) -> (ChannelAction, usize) {
    let mut terminations = 0;
    let mut action = ch.establish_protocol();
    loop {
        match action {
            ChannelAction::MsrRequest(req) => action = ch.on_msr_response(hv(req)),
            ChannelAction::Terminate(_) => {
                terminations += 1;
                return (action, terminations);
            }
            other => return (other, terminations),
        }
    }
}

fn read_u64(g: &Ghcb, off: usize) -> u64 {
    let mut v = 0u64;
    for k in 0..8 {
        v |= (g.byte(off + k) as u64) << (8 * k);
    }
    v
}

/// A hypervisor answer: the given quadwords written and marked valid.
fn answer(g: &mut Ghcb, fields: &[(usize, u64)]) {
    for &(off, v) in fields {
        g.set_field(off, v);
    }
}

fn no_valid_bits(g: &Ghcb) -> bool {
    (OFF_VALID_BITMAP..OFF_VALID_BITMAP + VALID_BITMAP_SIZE).all(|i| g.byte(i) == 0)
}

#[test]
fn negotiation_succeeds_with_supported_hypervisor() {
    let hv = |req: u64| match req {
        GHCB_MSR_SEV_INFO_REQ => sev_info_response(1, 2),
        GHCB_MSR_HV_FEATURE_REQ => feature_response(0x13 | 0x100),
        _ => 0,
    };
    let mut ch = GhcbChannel::new();
    let (action, terminations) = negotiate(&mut ch, &hv);
    assert_eq!(action, ChannelAction::Established);
    assert_eq!(terminations, 0);
    assert_eq!(ch.state, ChannelState::ProtocolEstablished);
    assert_eq!(ch.hv_features, 0x113);
}

#[test]
fn negotiation_terminates_once_on_unsupported_protocol() {
    let hv = |req: u64| match req {
        GHCB_MSR_SEV_INFO_REQ => sev_info_response(3, 5),
        GHCB_MSR_HV_FEATURE_REQ => feature_response(0x13),
        _ => 0,
    };
    let mut ch = GhcbChannel::new();
    let (action, terminations) = negotiate(&mut ch, &hv);
    assert_eq!(action, ChannelAction::Terminate(vc_terminate_ghcb_unsupported_protocol()));
    assert_eq!(terminations, 1);
    assert_eq!(ch.state, ChannelState::Terminated);
}

#[test]
fn negotiation_terminates_on_missing_feature() {
    let hv = |req: u64| match req {
        GHCB_MSR_SEV_INFO_REQ => sev_info_response(2, 2),
        GHCB_MSR_HV_FEATURE_REQ => feature_response(0x03),
        _ => 0,
    };
    let mut ch = GhcbChannel::new();
    let (action, _) = negotiate(&mut ch, &hv);
    assert_eq!(action, ChannelAction::Terminate(vc_terminate_ghcb_feature()));
}

#[test]
fn negotiation_terminates_on_wrong_response_code() {
    assert_eq!(check_sev_info(sev_info_response(2, 2) & !0xfff | 0x005), Err(vc_terminate_ghcb_general()));
    assert_eq!(check_hv_features(0x13 << 12), Err(vc_terminate_ghcb_general()));
    assert_eq!(check_sev_info(sev_info_response(2, 2)), Ok(()));
    assert_eq!(check_sev_info(sev_info_response(1, 1)), Err(vc_terminate_ghcb_unsupported_protocol()));
    assert_eq!(check_hv_features(feature_response(0x1f)), Ok(0x1f));
}

#[test]
fn registration_mismatch_terminates_with_general_reason() {
    let mut ch = GhcbChannel::new();
    ch.establish_protocol();
    ch.on_msr_response(sev_info_response(2, 2));
    ch.on_msr_response(feature_response(0x13));
    let pa = 0x7f000u64 << 12;
    assert_eq!(ch.register(pa), ChannelAction::MsrRequest(pa | 0x12));
    let action = ch.on_msr_response((pa + 0x1000) | 0x13);
    assert_eq!(action, ChannelAction::Terminate(vc_terminate_svsm_general()));
    assert_eq!(ch.state, ChannelState::Terminated);
    assert_eq!(check_registration(pa, pa | 0x14), Err(vc_terminate_svsm_general()));
}

#[test]
fn registration_echo_persists_address() {
    let mut ch = GhcbChannel::new();
    ch.establish_protocol();
    ch.on_msr_response(sev_info_response(2, 2));
    ch.on_msr_response(feature_response(0x13));
    let pa = 0x1234_5000u64;
    ch.register(pa);
    assert_eq!(ch.on_msr_response(pa | 0x13), ChannelAction::SetMsr(pa));
    assert_eq!(ch.state, ChannelState::Active);
}

#[test]
fn termination_requests_encode_set_and_code() {
    assert_eq!(vc_terminate_ghcb_general().msr_value(), 0x100);
    assert_eq!(vc_terminate_ghcb_unsupported_protocol().msr_value(), 0x1_0100);
    assert_eq!(vc_terminate_ghcb_feature().msr_value(), 0x2_0100);
    assert_eq!(vc_terminate_svsm_general().msr_value(), 0x1100);
    assert_eq!(vc_terminate_svsm_enomem().msr_value(), 0x1_1100);
    assert_eq!(vc_terminate_svsm_fwcfg().reason_code, 2);
    assert_eq!(vc_terminate_svsm_bios().reason_code, 3);
    assert_eq!(vc_terminate_vmpl0_sev_features().reason_code, 5);
    assert_eq!(vc_terminate_svsm_incorrect_vmpl().reason_code, 6);
    assert_eq!(vc_terminate_vmpl1_sev_features().reason_code, 7);
    assert_eq!(vc_terminate_svsm_psc().reason_code, 8);
    assert_eq!(vc_terminate_svsm_page_err().reason_code, 9);
    assert_eq!(vc_terminate_svsm_resp_invalid().msr_value(), 0xc_1100);
    assert_eq!(vc_terminate_unhandled_vc().reason_code, 13);
}

#[test]
fn run_vmpl_clears_mailbox_after_success() {
    let mut g = Ghcb::zeroed();
    vc_run_vmpl_prepare(&mut g, 1);
    assert_eq!(read_u64(&g, OFF_SW_EXIT_CODE), GHCB_NAE_RUN_VMPL);
    assert_eq!(read_u64(&g, OFF_SW_EXIT_INFO_1), 1);
    assert_eq!(g.byte(OFF_PROTOCOL_VERSION), 1);
    assert_eq!(g.byte(OFF_USAGE), 0);
    assert!(g.is_valid(OFF_SW_EXIT_CODE));
    answer(&mut g, &[(OFF_SW_EXIT_INFO_1, 0), (OFF_RAX, 7)]);
    assert_eq!(vc_complete_exit(&mut g), Ok(()));
    assert!(no_valid_bits(&g));
    assert_eq!(read_u64(&g, OFF_SW_EXIT_CODE), 0);
}

#[test]
fn exit_with_invalid_info1_terminates() {
    let mut g = Ghcb::zeroed();
    vc_run_vmpl_prepare(&mut g, 1);
    g.clear();
    assert_eq!(vc_complete_exit(&mut g), Err(vc_terminate_svsm_resp_invalid()));
    let mut g = Ghcb::zeroed();
    answer(&mut g, &[(OFF_SW_EXIT_INFO_1, 0x1)]);
    assert_eq!(vc_complete_exit(&mut g), Err(vc_terminate_ghcb_general()));
    let mut g = Ghcb::zeroed();
    answer(&mut g, &[(OFF_SW_EXIT_INFO_1, 0x5_0000_0000)]);
    assert_eq!(vc_complete_exit(&mut g), Ok(()));
}

#[test]
fn cpuid_marshals_and_reads_all_registers() {
    let mut g = Ghcb::zeroed();
    vc_cpuid_prepare(&mut g, 0xd, 1, cpuid_xcr0(true, 0x7));
    assert_eq!(read_u64(&g, OFF_RAX), 0xd);
    assert_eq!(read_u64(&g, OFF_RCX), 1);
    assert_eq!(read_u64(&g, OFF_XCR0), 0x7);
    assert!(g.is_valid(OFF_XCR0));
    assert_eq!(read_u64(&g, OFF_SW_EXIT_CODE), GHCB_NAE_CPUID);
    answer(&mut g, &[(OFF_SW_EXIT_INFO_1, 0), (OFF_RAX, 0x1_0000_0001), (OFF_RBX, 2), (OFF_RCX, 3), (OFF_RDX, 4)]);
    assert_eq!(vc_cpuid_complete(&mut g), Ok(CpuidResult { eax: 1, ebx: 2, ecx: 3, edx: 4 }));
    assert!(no_valid_bits(&g));

    let mut g = Ghcb::zeroed();
    vc_cpuid_prepare(&mut g, 1, 0, cpuid_xcr0(false, 0x7));
    assert!(!g.is_valid(OFF_XCR0));
    assert_eq!(cpuid_xcr0(false, 0x7), 1);
    g.clear();
    answer(&mut g, &[(OFF_SW_EXIT_INFO_1, 0), (OFF_RAX, 1), (OFF_RBX, 2), (OFF_RCX, 3)]);
    assert_eq!(vc_cpuid_complete(&mut g), Err(vc_terminate_svsm_resp_invalid()));
}

#[test]
fn port_io_descriptor_and_width() {
    assert_eq!(ioio_info(0x3f8, IoWidth::Byte, false), (0x3f8 << 16) | 0x200 | 0x10);
    assert_eq!(ioio_info(0xcf8, IoWidth::Dword, true), (0xcf8 << 16) | 0x200 | 0x40 | 1);
    assert_eq!(ioio_info(0x60, IoWidth::Word, true), (0x60 << 16) | 0x200 | 0x20 | 1);

    let mut g = Ghcb::zeroed();
    vc_io_out_prepare(&mut g, 0x3f8, IoWidth::Byte, 0x1241);
    assert_eq!(read_u64(&g, OFF_RAX), 0x41);
    assert_eq!(read_u64(&g, OFF_SW_EXIT_CODE), GHCB_NAE_IOIO);
    assert_eq!(read_u64(&g, OFF_SW_EXIT_INFO_1), (0x3f8 << 16) | 0x200 | 0x10);

    let mut g = Ghcb::zeroed();
    vc_io_in_prepare(&mut g, 0x60, IoWidth::Word);
    assert_eq!(read_u64(&g, OFF_RAX), 0);
    g.clear();
    answer(&mut g, &[(OFF_SW_EXIT_INFO_1, 0), (OFF_RAX, 0xdead_beef)]);
    assert_eq!(vc_io_in_complete(&mut g, IoWidth::Word), Ok(0xbeef));
    assert!(no_valid_bits(&g));

    let mut g = Ghcb::zeroed();
    answer(&mut g, &[(OFF_SW_EXIT_INFO_1, 0)]);
    assert_eq!(vc_io_in_complete(&mut g, IoWidth::Byte), Err(vc_terminate_svsm_resp_invalid()));
}

#[test]
fn psc_batch_wire_layout() {
    let h = PscOpHeader::new();
    assert_eq!((h.cur_entry, h.end_entry, h.reserved), (0, 0, 0));
    assert_eq!(PscOpData::new().data, 0);
    let empty = PscOp::new();
    assert_eq!(empty.entries.len(), PSC_ENTRIES);
    assert_eq!(empty.to_bytes().len(), 2032);

    let op = PscOp::from_pages(&vec![0x1234_5000, 0xabc_def_0123], PageOp::Shared);
    assert_eq!(op.header.end_entry, 1);
    assert_eq!(op.entries[0].data, (2u64 << 52) | 0x1234_5000);
    assert_eq!(op.entries[1].data, (2u64 << 52) | 0xabc_def_0000);
    let bytes = op.to_bytes();
    assert_eq!(bytes.len(), 24);
    assert_eq!(&bytes[0..8], &[0, 0, 1, 0, 0, 0, 0, 0]);
    assert_eq!(&bytes[8..16], &(op.entries[0].data).to_le_bytes());
    let private = PscOp::from_pages(&vec![0x2000], PageOp::Private);
    assert_eq!(private.entries[0].data, (1u64 << 52) | 0x2000);
}

#[test]
fn psc_submission_uses_shared_buffer() {
    let op = PscOp::from_pages(&vec![0x5000], PageOp::Private);
    let mut g = Ghcb::zeroed();
    vc_psc_prepare(&mut g, &op, 0x9800);
    assert_eq!(read_u64(&g, OFF_SW_EXIT_CODE), GHCB_NAE_PSC);
    assert_eq!(read_u64(&g, OFF_SW_SCRATCH), 0x9800);
    assert_eq!(g.byte(OFF_SHARED_BUFFER + 2), 0);
    assert_eq!(read_u64(&g, OFF_SHARED_BUFFER + 8), (1u64 << 52) | 0x5000);
    answer(&mut g, &[(OFF_SW_EXIT_INFO_1, 0), (OFF_SW_EXIT_INFO_2, 0)]);
    assert_eq!(vc_psc_complete(&mut g), Ok(()));
    assert!(no_valid_bits(&g));

    let mut g = Ghcb::zeroed();
    answer(&mut g, &[(OFF_SW_EXIT_INFO_1, 0), (OFF_SW_EXIT_INFO_2, 3)]);
    assert_eq!(vc_psc_complete(&mut g), Err(vc_terminate_svsm_psc()));
}

#[test]
fn mailbox_bytes_round_trip() {
    let mut g = Ghcb::zeroed();
    g.write_u64(OFF_RBX, 0x0102_0304_0506_0708);
    assert_eq!(g.read_u64(OFF_RBX), 0x0102_0304_0506_0708);
    assert_eq!(g.byte(OFF_RBX), 0x08);
    assert!(!g.is_valid(OFF_RBX));
    let copy = Ghcb::from_bytes(g.as_bytes().clone());
    assert_eq!(copy.read_u64(OFF_RBX), 0x0102_0304_0506_0708);
    assert_eq!(copy.as_bytes().len(), GHCB_PAGE_SIZE);
}

#[test]
fn psc_batch_targets_must_be_managed_pages() {
    let pool = PagePool::new(0x10000, 8);
    let b = psc_batch_for(&pool, &vec![0x10000, 0x17000], PageOp::Private).unwrap();
    assert_eq!(b.header.end_entry, 1);
    assert_eq!(b.entries[1].data, (1u64 << 52) | 0x17000);
    assert!(psc_batch_for(&pool, &vec![0x10000, 0x18000], PageOp::Shared).is_none());
    assert!(psc_batch_for(&pool, &vec![], PageOp::Shared).is_none());
    assert!(psc_batch_for(&pool, &vec![0x10000; PSC_ENTRIES + 1], PageOp::Shared).is_none());
}
