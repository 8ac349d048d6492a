//! The #VC communication channel: the MSR protocol that negotiates with the
//! hypervisor and registers the mailbox, the termination requests, and the
//! exit events exchanged through the mailbox.
use vstd::prelude::*;

use crate::ghcb::{
    le_u64, none_valid, put_header, set_field, valid_bit, Ghcb, GHCB_USAGE, GHCB_VERSION_1, OFF_RAX, OFF_RBX,
    OFF_RCX, OFF_RDX, OFF_SW_EXIT_CODE, OFF_SW_EXIT_INFO_1, OFF_SW_EXIT_INFO_2, OFF_XCR0,
};

verus! {

/// Lowest GHCB protocol version this runtime speaks.
pub const GHCB_PROTOCOL_MIN: u64 = 2;

/// Highest GHCB protocol version this runtime speaks.
pub const GHCB_PROTOCOL_MAX: u64 = 2;

/// Hypervisor features the runtime needs: bits zero, one and four.
pub const GHCB_VMPL_FEATURES: u64 = 0x13;

pub const GHCB_MSR_INFO_MASK: u64 = 0xfff;
pub const GHCB_MSR_SEV_INFO_REQ: u64 = 0x002;
pub const GHCB_MSR_SEV_INFO_RES: u64 = 0x001;
pub const GHCB_MSR_REGISTER_GHCB_REQ: u64 = 0x012;
pub const GHCB_MSR_REGISTER_GHCB_RES: u64 = 0x013;
pub const GHCB_MSR_HV_FEATURE_REQ: u64 = 0x080;
pub const GHCB_MSR_HV_FEATURE_RES: u64 = 0x081;
pub const GHCB_MSR_TERMINATE_REQ: u64 = 0x100;

/// Reason-code set of the GHCB protocol itself.
pub const GHCB_REASON_CODE_SET: u64 = 0;
pub const GHCB_TERM_GENERAL: u64 = 0;
pub const GHCB_TERM_UNSUPPORTED_PROTOCOL: u64 = 1;
pub const GHCB_TERM_FEATURE_SUPPORT: u64 = 2;

/// Reason-code set of this runtime.
pub const VMPL_REASON_CODE_SET: u64 = 1;
pub const VMPL_TERM_GENERAL: u64 = 0;
pub const VMPL_TERM_ENOMEM: u64 = 1;
pub const VMPL_TERM_FW_CFG_ERROR: u64 = 2;
pub const VMPL_TERM_BIOS_FORMAT: u64 = 3;
pub const VMPL_TERM_NOT_VMPL0: u64 = 4;
pub const VMPL_TERM_VMPL0_SEV_FEATURES: u64 = 5;
pub const VMPL_TERM_INCORRECT_VMPL: u64 = 6;
pub const VMPL_TERM_VMPL1_SEV_FEATURES: u64 = 7;
pub const VMPL_TERM_PSC_ERROR: u64 = 8;
pub const VMPL_TERM_SET_PAGE_ERROR: u64 = 9;
pub const VMPL_TERM_GHCB_RESP_INVALID: u64 = 12;
pub const VMPL_TERM_UNHANDLED_VC: u64 = 13;

/// A request to terminate the guest: a reason-code set and a code within it.
#[derive(Clone, Copy, Debug, PartialEq, Eq, Structural)]
pub struct Termination {
    pub reason_set: u64,
    pub reason_code: u64,
}

pub open spec fn terminate_request(t: Termination) -> u64 {
    GHCB_MSR_TERMINATE_REQ | (t.reason_set << 12u64) | (t.reason_code << 16u64)
}

impl Termination {
    /// The value written to the GHCB MSR to ask for termination: the request
    /// code, the reason set in bits 12 to 15 and the reason code from bit 16.
    pub fn msr_value(&self) -> (r: u64)
        ensures
            r == terminate_request(*self),
    {
        GHCB_MSR_TERMINATE_REQ | (self.reason_set << 12u64) | (self.reason_code << 16u64)
    }
}

pub open spec fn term(set: u64, code: u64) -> Termination {
    Termination { reason_set: set, reason_code: code }
}

/// Termination for a general runtime failure.
pub fn vc_terminate_svsm_general() -> (r: Termination)
    ensures
        r == term(VMPL_REASON_CODE_SET, VMPL_TERM_GENERAL),
{
    Termination { reason_set: VMPL_REASON_CODE_SET, reason_code: VMPL_TERM_GENERAL }
}

/// Termination for lack of memory.
pub fn vc_terminate_svsm_enomem() -> (r: Termination)
    ensures
        r == term(VMPL_REASON_CODE_SET, VMPL_TERM_ENOMEM),
{
    Termination { reason_set: VMPL_REASON_CODE_SET, reason_code: VMPL_TERM_ENOMEM }
}

/// Termination for a firmware configuration error.
pub fn vc_terminate_svsm_fwcfg() -> (r: Termination)
    ensures
        r == term(VMPL_REASON_CODE_SET, VMPL_TERM_FW_CFG_ERROR),
{
    Termination { reason_set: VMPL_REASON_CODE_SET, reason_code: VMPL_TERM_FW_CFG_ERROR }
}

/// Termination for an invalid response in the mailbox.
pub fn vc_terminate_svsm_resp_invalid() -> (r: Termination)
    ensures
        r == term(VMPL_REASON_CODE_SET, VMPL_TERM_GHCB_RESP_INVALID),
{
    Termination { reason_set: VMPL_REASON_CODE_SET, reason_code: VMPL_TERM_GHCB_RESP_INVALID }
}

/// Termination for a page-related error.
pub fn vc_terminate_svsm_page_err() -> (r: Termination)
    ensures
        r == term(VMPL_REASON_CODE_SET, VMPL_TERM_SET_PAGE_ERROR),
{
    Termination { reason_set: VMPL_REASON_CODE_SET, reason_code: VMPL_TERM_SET_PAGE_ERROR }
}

/// Termination for a failed page-state change.
pub fn vc_terminate_svsm_psc() -> (r: Termination)
    ensures
        r == term(VMPL_REASON_CODE_SET, VMPL_TERM_PSC_ERROR),
{
    Termination { reason_set: VMPL_REASON_CODE_SET, reason_code: VMPL_TERM_PSC_ERROR }
}

/// Termination for a malformed firmware image.
pub fn vc_terminate_svsm_bios() -> (r: Termination)
    ensures
        r == term(VMPL_REASON_CODE_SET, VMPL_TERM_BIOS_FORMAT),
{
    Termination { reason_set: VMPL_REASON_CODE_SET, reason_code: VMPL_TERM_BIOS_FORMAT }
}

/// Termination for a #VC exception nobody handles.
pub fn vc_terminate_unhandled_vc() -> (r: Termination)
    ensures
        r == term(VMPL_REASON_CODE_SET, VMPL_TERM_UNHANDLED_VC),
{
    Termination { reason_set: VMPL_REASON_CODE_SET, reason_code: VMPL_TERM_UNHANDLED_VC }
}

/// Termination for a general GHCB protocol failure.
pub fn vc_terminate_ghcb_general() -> (r: Termination)
    ensures
        r == term(GHCB_REASON_CODE_SET, GHCB_TERM_GENERAL),
{
    Termination { reason_set: GHCB_REASON_CODE_SET, reason_code: GHCB_TERM_GENERAL }
}

/// Termination for a hypervisor whose protocol range misses ours.
pub fn vc_terminate_ghcb_unsupported_protocol() -> (r: Termination)
    ensures
        r == term(GHCB_REASON_CODE_SET, GHCB_TERM_UNSUPPORTED_PROTOCOL),
{
    Termination { reason_set: GHCB_REASON_CODE_SET, reason_code: GHCB_TERM_UNSUPPORTED_PROTOCOL }
}

/// Termination for a hypervisor that lacks a required feature.
pub fn vc_terminate_ghcb_feature() -> (r: Termination)
    ensures
        r == term(GHCB_REASON_CODE_SET, GHCB_TERM_FEATURE_SUPPORT),
{
    Termination { reason_set: GHCB_REASON_CODE_SET, reason_code: GHCB_TERM_FEATURE_SUPPORT }
}

/// Termination for wrong SEV features of the lower privilege level.
pub fn vc_terminate_vmpl1_sev_features() -> (r: Termination)
    ensures
        r == term(VMPL_REASON_CODE_SET, VMPL_TERM_VMPL1_SEV_FEATURES),
{
    Termination { reason_set: VMPL_REASON_CODE_SET, reason_code: VMPL_TERM_VMPL1_SEV_FEATURES }
}

/// Termination for wrong SEV features of the higher privilege level.
pub fn vc_terminate_vmpl0_sev_features() -> (r: Termination)
    ensures
        r == term(VMPL_REASON_CODE_SET, VMPL_TERM_VMPL0_SEV_FEATURES),
{
    Termination { reason_set: VMPL_REASON_CODE_SET, reason_code: VMPL_TERM_VMPL0_SEV_FEATURES }
}

/// Termination for a save area at the wrong privilege level.
pub fn vc_terminate_svsm_incorrect_vmpl() -> (r: Termination)
    ensures
        r == term(VMPL_REASON_CODE_SET, VMPL_TERM_INCORRECT_VMPL),
{
    Termination { reason_set: VMPL_REASON_CODE_SET, reason_code: VMPL_TERM_INCORRECT_VMPL }
}

/// The 12-bit info field of an MSR protocol value.
pub open spec fn msr_info(v: u64) -> u64 {
    v & GHCB_MSR_INFO_MASK
}

/// The data field of an MSR protocol value: all bits above the info field.
pub open spec fn msr_data(v: u64) -> u64 {
    v & !GHCB_MSR_INFO_MASK
}

pub open spec fn msr_protocol_min(v: u64) -> u64 {
    (v >> 32u64) & 0xffff
}

pub open spec fn msr_protocol_max(v: u64) -> u64 {
    (v >> 48u64) & 0xffff
}

pub open spec fn msr_hv_features(v: u64) -> u64 {
    msr_data(v) >> 12u64
}

pub open spec fn register_request(pa: u64) -> u64 {
    pa | GHCB_MSR_REGISTER_GHCB_REQ
}

/// What the runtime makes of the hypervisor's answer to the SEV-information
/// request.
pub open spec fn sev_info_outcome(resp: u64) -> Result<(), Termination> {
    if msr_info(resp) != GHCB_MSR_SEV_INFO_RES {
        Err(term(GHCB_REASON_CODE_SET, GHCB_TERM_GENERAL))
    } else if msr_protocol_min(resp) > GHCB_PROTOCOL_MAX || msr_protocol_max(resp) < GHCB_PROTOCOL_MIN {
        Err(term(GHCB_REASON_CODE_SET, GHCB_TERM_UNSUPPORTED_PROTOCOL))
    } else {
        Ok(())
    }
}

/// What the runtime makes of the answer to the feature query: the features,
/// when all required ones are there.
pub open spec fn hv_feature_outcome(resp: u64) -> Result<u64, Termination> {
    if msr_info(resp) != GHCB_MSR_HV_FEATURE_RES {
        Err(term(GHCB_REASON_CODE_SET, GHCB_TERM_GENERAL))
    } else if msr_hv_features(resp) & GHCB_VMPL_FEATURES != GHCB_VMPL_FEATURES {
        Err(term(GHCB_REASON_CODE_SET, GHCB_TERM_FEATURE_SUPPORT))
    } else {
        Ok(msr_hv_features(resp))
    }
}

/// What the runtime makes of the answer to registering the mailbox at `pa`.
pub open spec fn registration_outcome(pa: u64, resp: u64) -> Result<(), Termination> {
    if msr_info(resp) != GHCB_MSR_REGISTER_GHCB_RES || msr_data(resp) != pa {
        Err(term(VMPL_REASON_CODE_SET, VMPL_TERM_GENERAL))
    } else {
        Ok(())
    }
}

/// Validates the answer to the SEV-information request: its code, and a
/// protocol range that meets ours.
pub fn check_sev_info(resp: u64) -> (r: Result<(), Termination>)
    ensures
        r == sev_info_outcome(resp),
{
    if resp & GHCB_MSR_INFO_MASK != GHCB_MSR_SEV_INFO_RES {
        return Err(vc_terminate_ghcb_general());
    }
    if (resp >> 32u64) & 0xffff > GHCB_PROTOCOL_MAX || (resp >> 48u64) & 0xffff < GHCB_PROTOCOL_MIN {
        return Err(vc_terminate_ghcb_unsupported_protocol());
    }
    Ok(())
}

/// Validates the answer to the feature query and returns the features.
pub fn check_hv_features(resp: u64) -> (r: Result<u64, Termination>)
    ensures
        r == hv_feature_outcome(resp),
{
    if resp & GHCB_MSR_INFO_MASK != GHCB_MSR_HV_FEATURE_RES {
        return Err(vc_terminate_ghcb_general());
    }
    let features = (resp & !GHCB_MSR_INFO_MASK) >> 12u64;
    if features & GHCB_VMPL_FEATURES != GHCB_VMPL_FEATURES {
        return Err(vc_terminate_ghcb_feature());
    }
    Ok(features)
}

/// Validates the acknowledgement of registering the mailbox at `pa`: its code,
/// and an echo of the same address.
pub fn check_registration(pa: u64, resp: u64) -> (r: Result<(), Termination>)
    ensures
        r == registration_outcome(pa, resp),
{
    if resp & GHCB_MSR_INFO_MASK != GHCB_MSR_REGISTER_GHCB_RES {
        return Err(vc_terminate_svsm_general());
    }
    if resp & !GHCB_MSR_INFO_MASK != pa {
        return Err(vc_terminate_svsm_general());
    }
    Ok(())
}


/// Where the channel stands in negotiating with the hypervisor.
#[derive(Clone, Copy, Debug, PartialEq, Eq, Structural)]
pub enum ChannelState {
    Uninitialized,
    AwaitSevInfo,
    AwaitFeatures,
    ProtocolEstablished,
    AwaitRegistration,
    /// The mailbox is registered; exit events may flow.
    Active,
    /// A termination was requested; nothing more happens.
    Terminated,
}

/// What the channel asks its driver to do next.
#[derive(Clone, Copy, Debug, PartialEq, Eq, Structural)]
pub enum ChannelAction {
    /// Write the value to the GHCB MSR, exit to the hypervisor, hand back what
    /// the MSR then holds, and restore the MSR's earlier value.
    MsrRequest(u64),
    /// Write the value to the GHCB MSR and leave it there.
    SetMsr(u64),
    /// Protocol and features are agreed on.
    Established,
    /// Terminate the guest with this request.
    Terminate(Termination),
}

/// The negotiation state of one core's channel.
pub struct GhcbChannel {
    pub state: ChannelState,
    /// Features the hypervisor reported, once agreed on.
    pub hv_features: u64,
    /// Physical address of the mailbox, once registration began.
    pub ghcb_pa: u64,
}

impl GhcbChannel {
    pub fn new() -> (r: GhcbChannel)
        ensures
            r.state == ChannelState::Uninitialized,
            r.hv_features == 0,
            r.ghcb_pa == 0,
    {
        GhcbChannel { state: ChannelState::Uninitialized, hv_features: 0, ghcb_pa: 0 }
    }

    /// Starts negotiation with the SEV-information request.
    pub fn establish_protocol(&mut self) -> (r: ChannelAction)
        requires
            old(self).state == ChannelState::Uninitialized,
        ensures
            r == ChannelAction::MsrRequest(GHCB_MSR_SEV_INFO_REQ),
            final(self).state == ChannelState::AwaitSevInfo,
            final(self).hv_features == old(self).hv_features,
            final(self).ghcb_pa == old(self).ghcb_pa,
    {
        self.state = ChannelState::AwaitSevInfo;
        ChannelAction::MsrRequest(GHCB_MSR_SEV_INFO_REQ)
    }

    /// Starts registering the mailbox at physical address `pa`.
    pub fn register(&mut self, pa: u64) -> (r: ChannelAction)
        requires
            old(self).state == ChannelState::ProtocolEstablished,
        ensures
            r == ChannelAction::MsrRequest(register_request(pa)),
            final(self).state == ChannelState::AwaitRegistration,
            final(self).ghcb_pa == pa,
            final(self).hv_features == old(self).hv_features,
    {
        self.state = ChannelState::AwaitRegistration;
        self.ghcb_pa = pa;
        ChannelAction::MsrRequest(pa | GHCB_MSR_REGISTER_GHCB_REQ)
    }

    /// Takes the hypervisor's answer to the pending MSR request and decides
    /// the next step. Any mismatch ends in a termination, never a retry.
    pub fn on_msr_response(&mut self, resp: u64) -> (r: ChannelAction)
        requires
            old(self).state == ChannelState::AwaitSevInfo || old(self).state == ChannelState::AwaitFeatures
                || old(self).state == ChannelState::AwaitRegistration,
        ensures
            final(self).ghcb_pa == old(self).ghcb_pa,
            old(self).state == ChannelState::AwaitSevInfo ==> match sev_info_outcome(resp) {
                Ok(_) => r == ChannelAction::MsrRequest(GHCB_MSR_HV_FEATURE_REQ) && final(self).state
                    == ChannelState::AwaitFeatures && final(self).hv_features == old(self).hv_features,
                Err(t) => r == ChannelAction::Terminate(t) && final(self).state == ChannelState::Terminated
                    && final(self).hv_features == old(self).hv_features,
            },
            old(self).state == ChannelState::AwaitFeatures ==> match hv_feature_outcome(resp) {
                Ok(f) => r == ChannelAction::Established && final(self).state
                    == ChannelState::ProtocolEstablished && final(self).hv_features == f,
                Err(t) => r == ChannelAction::Terminate(t) && final(self).state == ChannelState::Terminated
                    && final(self).hv_features == old(self).hv_features,
            },
            old(self).state == ChannelState::AwaitRegistration ==> final(self).hv_features
                == old(self).hv_features && match registration_outcome(old(self).ghcb_pa, resp) {
                Ok(_) => r == ChannelAction::SetMsr(old(self).ghcb_pa) && final(self).state
                    == ChannelState::Active,
                Err(t) => r == ChannelAction::Terminate(t) && final(self).state == ChannelState::Terminated,
            },
    {
        match self.state {
            ChannelState::AwaitSevInfo => match check_sev_info(resp) {
                Ok(_) => {
                    self.state = ChannelState::AwaitFeatures;
                    ChannelAction::MsrRequest(GHCB_MSR_HV_FEATURE_REQ)
                },
                Err(t) => {
                    self.state = ChannelState::Terminated;
                    ChannelAction::Terminate(t)
                },
            },
            ChannelState::AwaitFeatures => match check_hv_features(resp) {
                Ok(f) => {
                    self.hv_features = f;
                    self.state = ChannelState::ProtocolEstablished;
                    ChannelAction::Established
                },
                Err(t) => {
                    self.state = ChannelState::Terminated;
                    ChannelAction::Terminate(t)
                },
            },
            _ => match check_registration(self.ghcb_pa, resp) {
                Ok(_) => {
                    self.state = ChannelState::Active;
                    ChannelAction::SetMsr(self.ghcb_pa)
                },
                Err(t) => {
                    self.state = ChannelState::Terminated;
                    ChannelAction::Terminate(t)
                },
            },
        }
    }
}

/// Exit code: CPUID.
pub const GHCB_NAE_CPUID: u64 = 0x72;
/// Exit code: port I/O.
pub const GHCB_NAE_IOIO: u64 = 0x7b;
/// Exit code: page-state change.
pub const GHCB_NAE_PSC: u64 = 0x80000010;
/// Exit code: resume another privilege level.
pub const GHCB_NAE_RUN_VMPL: u64 = 0x80000018;

/// The CPUID leaf that describes extended processor state.
pub const CPUID_EXTENDED_STATE: u32 = 0xd;

pub const IOIO_ADDR_64: u64 = 0x200;
pub const IOIO_SIZE_32: u64 = 0x40;
pub const IOIO_SIZE_16: u64 = 0x20;
pub const IOIO_SIZE_8: u64 = 0x10;
pub const IOIO_TYPE_IN: u64 = 0x1;

/// The mailbox `b` made ready for an exit event: header, exit code and both
/// exit infos written, each field marked valid.
pub open spec fn exit_prepared(b: Seq<u8>, code: u64, info1: u64, info2: u64) -> Seq<u8> {
    set_field(
        set_field(set_field(put_header(b, GHCB_VERSION_1, GHCB_USAGE), OFF_SW_EXIT_CODE as int, code), OFF_SW_EXIT_INFO_1 as int, info1),
        OFF_SW_EXIT_INFO_2 as int,
        info2,
    )
}

/// The verdict on the hypervisor's answer in `b`: info1 must be marked valid
/// and its low 32 bits zero.
pub open spec fn exit_outcome(b: Seq<u8>) -> Result<(), Termination> {
    if !valid_bit(b, OFF_SW_EXIT_INFO_1 as int) {
        Err(term(VMPL_REASON_CODE_SET, VMPL_TERM_GHCB_RESP_INVALID))
    } else if le_u64(b, OFF_SW_EXIT_INFO_1 as int) & 0xffff_ffff != 0 {
        Err(term(GHCB_REASON_CODE_SET, GHCB_TERM_GENERAL))
    } else {
        Ok(())
    }
}

/// The state of a mailbox after a successful exchange has been cleared up.
pub open spec fn cleared(b: Seq<u8>) -> bool {
    &&& none_valid(b)
    &&& le_u64(b, OFF_SW_EXIT_CODE as int) == 0
    &&& le_u64(b, OFF_SW_EXIT_INFO_1 as int) == 0
    &&& le_u64(b, OFF_SW_EXIT_INFO_2 as int) == 0
}

/// Writes the header, exit code and exit infos of an exit event.
pub fn vc_prepare_exit(ghcb: &mut Ghcb, code: u64, info1: u64, info2: u64)
    requires
        old(ghcb).wf(),
    ensures
        final(ghcb).wf(),
        final(ghcb)@ == exit_prepared(old(ghcb)@, code, info1, info2),
{
    ghcb.set_header(GHCB_VERSION_1, GHCB_USAGE);
    ghcb.set_field(OFF_SW_EXIT_CODE, code);
    ghcb.set_field(OFF_SW_EXIT_INFO_1, info1);
    ghcb.set_field(OFF_SW_EXIT_INFO_2, info2);
}

/// Judges the hypervisor's answer to an exit event.
pub fn vc_check_exit(ghcb: &Ghcb) -> (r: Result<(), Termination>)
    requires
        ghcb.wf(),
    ensures
        r == exit_outcome(ghcb@),
{
    if !ghcb.is_valid(OFF_SW_EXIT_INFO_1) {
        return Err(vc_terminate_svsm_resp_invalid());
    }
    let info1 = ghcb.read_u64(OFF_SW_EXIT_INFO_1);
    if info1 & 0xffff_ffff != 0 {
        return Err(vc_terminate_ghcb_general());
    }
    Ok(())
}

/// Finishes an exit event that returns nothing: judges the answer and, when it
/// is good, clears the mailbox.
pub fn vc_complete_exit(ghcb: &mut Ghcb) -> (r: Result<(), Termination>)
    requires
        old(ghcb).wf(),
    ensures
        final(ghcb).wf(),
        r == exit_outcome(old(ghcb)@),
        r is Ok ==> cleared(final(ghcb)@),
{
    let r = vc_check_exit(ghcb);
    if r.is_ok() {
        ghcb.clear();
    }
    r
}

/// Prepares the request to resume execution at privilege level `vmpl`.
pub fn vc_run_vmpl_prepare(ghcb: &mut Ghcb, vmpl: u64)
    requires
        old(ghcb).wf(),
    ensures
        final(ghcb).wf(),
        final(ghcb)@ == exit_prepared(old(ghcb)@, GHCB_NAE_RUN_VMPL, vmpl, 0),
{
    vc_prepare_exit(ghcb, GHCB_NAE_RUN_VMPL, vmpl, 0);
}

/// The extended-state mask the hypervisor needs for the extended-state leaf:
/// the enabled components when the OS enabled XSAVE, else x87 state alone.
pub fn cpuid_xcr0(osxsave: bool, xcr0: u64) -> (r: u64)
    ensures
        r == if osxsave { xcr0 } else { 1 },
{
    if osxsave {
        xcr0
    } else {
        1
    }
}

/// The mailbox `b` with the CPUID inputs written.
pub open spec fn cpuid_inputs(b: Seq<u8>, leaf: u32, subleaf: u32, xcr0: u64) -> Seq<u8> {
    let w = set_field(set_field(b, OFF_RAX as int, leaf as u64), OFF_RCX as int, subleaf as u64);
    if leaf == CPUID_EXTENDED_STATE {
        set_field(w, OFF_XCR0 as int, xcr0)
    } else {
        w
    }
}

/// Prepares a CPUID request for `leaf` and `subleaf`; `xcr0` is passed on for
/// the extended-state leaf only.
pub fn vc_cpuid_prepare(ghcb: &mut Ghcb, leaf: u32, subleaf: u32, xcr0: u64)
    requires
        old(ghcb).wf(),
    ensures
        final(ghcb).wf(),
        final(ghcb)@ == exit_prepared(cpuid_inputs(old(ghcb)@, leaf, subleaf, xcr0), GHCB_NAE_CPUID, 0, 0),
{
    ghcb.set_field(OFF_RAX, leaf as u64);
    ghcb.set_field(OFF_RCX, subleaf as u64);
    if leaf == CPUID_EXTENDED_STATE {
        ghcb.set_field(OFF_XCR0, xcr0);
    }
    vc_prepare_exit(ghcb, GHCB_NAE_CPUID, 0, 0);
}

/// The four result registers of CPUID.
#[derive(Clone, Copy, Debug, PartialEq, Eq, Structural)]
pub struct CpuidResult {
    pub eax: u32,
    pub ebx: u32,
    pub ecx: u32,
    pub edx: u32,
}

/// The verdict on a CPUID answer in `b`: the exit must succeed and all four
/// result registers be marked valid.
pub open spec fn cpuid_outcome(b: Seq<u8>) -> Result<CpuidResult, Termination> {
    match exit_outcome(b) {
        Err(t) => Err(t),
        Ok(_) => if !valid_bit(b, OFF_RAX as int) || !valid_bit(b, OFF_RBX as int) || !valid_bit(
            b,
            OFF_RCX as int,
        ) || !valid_bit(b, OFF_RDX as int) {
            Err(term(VMPL_REASON_CODE_SET, VMPL_TERM_GHCB_RESP_INVALID))
        } else {
            Ok(
                CpuidResult {
                    eax: le_u64(b, OFF_RAX as int) as u32,
                    ebx: le_u64(b, OFF_RBX as int) as u32,
                    ecx: le_u64(b, OFF_RCX as int) as u32,
                    edx: le_u64(b, OFF_RDX as int) as u32,
                },
            )
        },
    }
}

/// Finishes a CPUID request: judges the answer, reads the four registers and
/// clears the mailbox.
pub fn vc_cpuid_complete(ghcb: &mut Ghcb) -> (r: Result<CpuidResult, Termination>)
    requires
        old(ghcb).wf(),
    ensures
        final(ghcb).wf(),
        r == cpuid_outcome(old(ghcb)@),
        r is Ok ==> cleared(final(ghcb)@),
{
    match vc_check_exit(ghcb) {
        Err(t) => return Err(t),
        Ok(_) => {},
    }
    if !ghcb.is_valid(OFF_RAX) || !ghcb.is_valid(OFF_RBX) || !ghcb.is_valid(OFF_RCX) || !ghcb.is_valid(
        OFF_RDX,
    ) {
        return Err(vc_terminate_svsm_resp_invalid());
    }
    let res = CpuidResult {
        eax: ghcb.read_u64(OFF_RAX) as u32,
        ebx: ghcb.read_u64(OFF_RBX) as u32,
        ecx: ghcb.read_u64(OFF_RCX) as u32,
        edx: ghcb.read_u64(OFF_RDX) as u32,
    };
    ghcb.clear();
    Ok(res)
}

/// Width of a port access.
#[derive(Clone, Copy, Debug, PartialEq, Eq, Structural)]
pub enum IoWidth {
    Byte,
    Word,
    Dword,
}

pub open spec fn io_size_bit(w: IoWidth) -> u64 {
    match w {
        IoWidth::Byte => IOIO_SIZE_8,
        IoWidth::Word => IOIO_SIZE_16,
        IoWidth::Dword => IOIO_SIZE_32,
    }
}

pub open spec fn io_mask(w: IoWidth) -> u64 {
    match w {
        IoWidth::Byte => 0xff,
        IoWidth::Word => 0xffff,
        IoWidth::Dword => 0xffff_ffff,
    }
}

/// The I/O descriptor of an access: port in bits 16 to 31, the 64-bit address
/// flag, the width bit, and the direction bit for a read.
pub open spec fn ioio_spec(port: u16, w: IoWidth, input: bool) -> u64 {
    ((port as u64) << 16u64) | IOIO_ADDR_64 | io_size_bit(w) | if input { IOIO_TYPE_IN } else { 0 }
}

/// Encodes the I/O descriptor of an access.
pub fn ioio_info(port: u16, w: IoWidth, input: bool) -> (r: u64)
    ensures
        r == ioio_spec(port, w, input),
{
    let size = match w {
        IoWidth::Byte => IOIO_SIZE_8,
        IoWidth::Word => IOIO_SIZE_16,
        IoWidth::Dword => IOIO_SIZE_32,
    };
    let dir = if input { IOIO_TYPE_IN } else { 0 };
    ((port as u64) << 16u64) | IOIO_ADDR_64 | size | dir
}

fn width_mask(w: IoWidth) -> (r: u64)
    ensures
        r == io_mask(w),
{
    match w {
        IoWidth::Byte => 0xff,
        IoWidth::Word => 0xffff,
        IoWidth::Dword => 0xffff_ffff,
    }
}

/// Prepares a write of `value`, cut to the access width, to `port`.
pub fn vc_io_out_prepare(ghcb: &mut Ghcb, port: u16, w: IoWidth, value: u32)
    requires
        old(ghcb).wf(),
    ensures
        final(ghcb).wf(),
        final(ghcb)@ == exit_prepared(
            set_field(old(ghcb)@, OFF_RAX as int, (value as u64) & io_mask(w)),
            GHCB_NAE_IOIO,
            ioio_spec(port, w, false),
            0,
        ),
{
    let info = ioio_info(port, w, false);
    ghcb.set_field(OFF_RAX, (value as u64) & width_mask(w));
    vc_prepare_exit(ghcb, GHCB_NAE_IOIO, info, 0);
}

/// Prepares a read from `port`.
pub fn vc_io_in_prepare(ghcb: &mut Ghcb, port: u16, w: IoWidth)
    requires
        old(ghcb).wf(),
    ensures
        final(ghcb).wf(),
        final(ghcb)@ == exit_prepared(
            set_field(old(ghcb)@, OFF_RAX as int, 0),
            GHCB_NAE_IOIO,
            ioio_spec(port, w, true),
            0,
        ),
{
    let info = ioio_info(port, w, true);
    ghcb.set_field(OFF_RAX, 0);
    vc_prepare_exit(ghcb, GHCB_NAE_IOIO, info, 0);
}

/// The verdict on a port read in `b`: the exit must succeed and the value
/// register be marked valid; the value is cut to the access width.
pub open spec fn io_in_outcome(b: Seq<u8>, w: IoWidth) -> Result<u32, Termination> {
    match exit_outcome(b) {
        Err(t) => Err(t),
        Ok(_) => if !valid_bit(b, OFF_RAX as int) {
            Err(term(VMPL_REASON_CODE_SET, VMPL_TERM_GHCB_RESP_INVALID))
        } else {
            Ok((le_u64(b, OFF_RAX as int) & io_mask(w)) as u32)
        },
    }
}

/// Finishes a port read: judges the answer, reads the value and clears the
/// mailbox.
pub fn vc_io_in_complete(ghcb: &mut Ghcb, w: IoWidth) -> (r: Result<u32, Termination>)
    requires
        old(ghcb).wf(),
    ensures
        final(ghcb).wf(),
        r == io_in_outcome(old(ghcb)@, w),
        r is Ok ==> cleared(final(ghcb)@),
{
    match vc_check_exit(ghcb) {
        Err(t) => return Err(t),
        Ok(_) => {},
    }
    if !ghcb.is_valid(OFF_RAX) {
        return Err(vc_terminate_svsm_resp_invalid());
    }
    let value = (ghcb.read_u64(OFF_RAX) & width_mask(w)) as u32;
    ghcb.clear();
    Ok(value)
}

} // verus!
