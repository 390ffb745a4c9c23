//! Exit dispatcher: classifies a trap taken from the guest by its exception
//! syndrome, emulates the matching behaviour on the core's saved context,
//! and decides whether the guest resumes.
use vstd::prelude::*;
use crate::vcpu::{Vcpu, VcpuStateStruct, VcpuView};
use crate::vgic::{Vgic, VgicView, inject_spec};

verus! {

/// Exception class of a hypervisor call from AArch64 state.
pub const EC_HVC: u64 = 0x16;

/// Exception class of a supervisor call from AArch64 state.
pub const EC_SVC: u64 = 0x15;

/// Exception class of a data abort from a lower exception level.
pub const EC_DATA_ABORT_LOWER: u64 = 0x24;

/// Exception class of an instruction abort from a lower exception level.
pub const EC_INSTRUCTION_ABORT_LOWER: u64 = 0x20;

/// Exception class of a trapped WFI or WFE instruction.
pub const EC_WFI_WFE: u64 = 0x01;

/// Identifier returned in x0 by hypervisor call 1.
pub const HYP_INFO_ID: u64 = 0x4849_5001;

/// Vector base forced into the guest by hypervisor call 3.
pub const FORCED_GUEST_VBAR: u64 = 0x4800_0800;

/// Virtual interrupt injected by hypervisor call 3.
pub const HVC_IRQ_INTID: u32 = 32;

/// Virtual interrupt injected by hypervisor call 4.
pub const HVC_FIQ_INTID: u32 = 33;

/// Value left in x0 by an unknown supervisor call.
pub const SVC_ERROR: u64 = 0xFFFF_FFFF;

/// Width of one instruction.
pub const INSN_WIDTH: u64 = 4;

/// Why the guest trapped.
#[derive(Debug, Clone, Copy, PartialEq, Eq, Structural)]
pub enum VmExitReason {
    Hvc,
    Svc,
    DataAbortLowerEL,
    InstructionAbortLowerEL,
    TrappedWfiWfe,
    Unknown(u32),
}

/// One exit event: its cause, the raw syndrome, the trapping address, the
/// captured PSTATE, and the address of the instruction after the trap.
#[derive(Debug, Clone, Copy)]
pub struct VmExitInfo {
    pub reason: VmExitReason,
    pub esr: u64,
    pub far: usize,
    pub pstate: u64,
    pub return_addr: usize,
}

/// What the dispatcher decided: whether the guest resumes, and a vector
/// base that must be written to the guest's hardware register first.
#[derive(Debug, Clone, Copy, PartialEq, Eq, Structural)]
pub struct ExitOutcome {
    pub resume: bool,
    pub vbar_el1: Option<u64>,
}

/// Bits 31:26 of a syndrome.
pub open spec fn exception_class(esr: u64) -> u64 {
    (esr >> 26u64) & 0x3Fu64
}

/// The cause named by an exception class.
pub open spec fn classify(ec: u64) -> VmExitReason {
    if ec == EC_HVC {
        VmExitReason::Hvc
    } else if ec == EC_SVC {
        VmExitReason::Svc
    } else if ec == EC_DATA_ABORT_LOWER {
        VmExitReason::DataAbortLowerEL
    } else if ec == EC_INSTRUCTION_ABORT_LOWER {
        VmExitReason::InstructionAbortLowerEL
    } else if ec == EC_WFI_WFE {
        VmExitReason::TrappedWfiWfe
    } else {
        VmExitReason::Unknown(ec as u32)
    }
}

/// The cause of the exit that raised syndrome `esr`.
pub open spec fn reason_of(esr: u64) -> VmExitReason {
    classify(exception_class(esr))
}

/// The immediate of a hypervisor call: the low 16 bits of its syndrome.
pub open spec fn hvc_number(esr: u64) -> u64 {
    esr & 0xFFFFu64
}

/// x0 after a supervisor call numbered `n`.
pub open spec fn svc_result(n: u64) -> u64 {
    if n == 0 {
        0
    } else if n == 1 {
        1
    } else {
        SVC_ERROR
    }
}

/// Whether the guest resumes after the exit that raised `esr`.
pub open spec fn exit_resumes(esr: u64) -> bool {
    match reason_of(esr) {
        VmExitReason::Hvc => hvc_number(esr) != 2,
        VmExitReason::Svc => true,
        VmExitReason::TrappedWfiWfe => true,
        _ => false,
    }
}

/// x0 of the saved context after the exit.
pub open spec fn exit_x0(c: VcpuStateStruct, esr: u64) -> u64 {
    match reason_of(esr) {
        VmExitReason::Hvc => if hvc_number(esr) == 1 {
            HYP_INFO_ID
        } else {
            c.regs@[0]
        },
        VmExitReason::Svc => svc_result(c.regs@[0]),
        _ => c.regs@[0],
    }
}

/// The saved return address after the exit: one instruction on for a
/// serviced hypervisor call or a trapped wait, the trapping address plus
/// one instruction for a supervisor call, else unchanged.
pub open spec fn exit_elr(c: VcpuStateStruct, esr: u64, far: usize) -> u64 {
    match reason_of(esr) {
        VmExitReason::Hvc => if hvc_number(esr) == 2 {
            c.elr_el2
        } else {
            c.elr_el2.wrapping_add(INSN_WIDTH)
        },
        VmExitReason::Svc => far.wrapping_add(4) as u64,
        VmExitReason::TrappedWfiWfe => c.elr_el2.wrapping_add(INSN_WIDTH),
        _ => c.elr_el2,
    }
}

/// The forced guest vector base of the exit, if any.
pub open spec fn exit_vbar(esr: u64) -> Option<u64> {
    if reason_of(esr) == VmExitReason::Hvc && hvc_number(esr) == 3 {
        Some(FORCED_GUEST_VBAR)
    } else {
        None
    }
}

/// The virtual interrupt that the exit injects, if any.
pub open spec fn exit_injection(esr: u64) -> Option<u32> {
    if reason_of(esr) == VmExitReason::Hvc && hvc_number(esr) == 3 {
        Some(HVC_IRQ_INTID)
    } else if reason_of(esr) == VmExitReason::Hvc && hvc_number(esr) == 4 {
        Some(HVC_FIQ_INTID)
    } else {
        None
    }
}

/// Whether `n` is context `c` after the exit that raised `esr` at `far`:
/// only x0, the return address and the vector base may change.
pub open spec fn exit_context(c: VcpuStateStruct, n: VcpuStateStruct, esr: u64, far: usize) -> bool {
    &&& n.regs@ == c.regs@.update(0, exit_x0(c, esr))
    &&& n.elr_el2 == exit_elr(c, esr, far)
    &&& n.sp == c.sp
    &&& n.pstate == c.pstate
    &&& n.spsr == c.spsr
    &&& n.vbar_el1 == match exit_vbar(esr) {
        Some(v) => v,
        None => c.vbar_el1,
    }
}

/// The queue after the exit's injection, if any.
pub open spec fn exit_queue(q: VgicView, esr: u64) -> VgicView {
    match exit_injection(esr) {
        Some(id) => inject_spec(q, id),
        None => q,
    }
}

/// Whether core view `n` is `v` after the exit: only the context changes.
pub open spec fn exit_vcpu(v: VcpuView, n: VcpuView, esr: u64, far: usize) -> bool {
    &&& exit_context(v.context, n.context, esr, far)
    &&& n == VcpuView { context: n.context, ..v }
}

/// The cause named by bits 31:26 of a syndrome.
pub fn parse_exit_reason(esr: u64) -> (r: VmExitReason)
    ensures
        r == reason_of(esr),
{
    let ec = (esr >> 26u64) & 0x3Fu64;
    if ec == EC_HVC {
        VmExitReason::Hvc
    } else if ec == EC_SVC {
        VmExitReason::Svc
    } else if ec == EC_DATA_ABORT_LOWER {
        VmExitReason::DataAbortLowerEL
    } else if ec == EC_INSTRUCTION_ABORT_LOWER {
        VmExitReason::InstructionAbortLowerEL
    } else if ec == EC_WFI_WFE {
        VmExitReason::TrappedWfiWfe
    } else {
        VmExitReason::Unknown(ec as u32)
    }
}

/// The fault status code of an abort: the low 6 bits of its syndrome.
pub fn fault_status_code(esr: u64) -> (r: u64)
    ensures
        r == esr & 0x3Fu64,
        r < 64,
{
    assert(esr & 0x3Fu64 < 64) by (bit_vector);
    esr & 0x3Fu64
}

/// Whether a fault status code falls in the group 0b0101xx that the abort
/// report singles out as a stage-2 translation fault.
pub fn is_stage2_translation_fault(fsc: u64) -> (r: bool)
    ensures
        r == (fsc & 0x3Cu64 == 0x14u64),
{
    fsc & 0x3Cu64 == 0x14u64
}

/// Services the exit that raised syndrome `esr` at address `far` with
/// PSTATE `pstate`, on the exiting core and its interrupt queue. Hypervisor
/// calls: 0 echo (no effect), 1 returns the identifier in x0, 2 terminates,
/// 3 forces the guest vector base and injects interrupt 32, 4 injects
/// interrupt 33, others nothing; all but 2 step over the call. Supervisor
/// calls answer in x0 and resume after the trapping address. Aborts and
/// unknown causes terminate; a trapped wait is stepped over.
pub fn handle_vm_exit(vcpu: &mut Vcpu, vgic: &mut Vgic, esr: u64, far: usize, pstate: u64) -> (r:
    ExitOutcome)
    requires
        old(vgic)@.wf(),
    ensures
        exit_vcpu(old(vcpu)@, final(vcpu)@, esr, far),
        final(vgic)@ == exit_queue(old(vgic)@, esr),
        final(vgic)@.wf(),
        r == (ExitOutcome { resume: exit_resumes(esr), vbar_el1: exit_vbar(esr) }),
{
    crate::vgic::sync(vcpu.id());
    let reason = parse_exit_reason(esr);
    let info = VmExitInfo { reason, esr, far, pstate, return_addr: far.wrapping_add(4) };
    proof {
        let c = old(vcpu)@.context;
        assert(c.regs@.update(0, c.regs@[0]) =~= c.regs@);
    }
    match reason {
        VmExitReason::Hvc => handle_hvc(vcpu, vgic, &info),
        VmExitReason::Svc => {
            let resume = handle_svc(vcpu, &info);
            ExitOutcome { resume, vbar_el1: None }
        },
        VmExitReason::DataAbortLowerEL => ExitOutcome { resume: false, vbar_el1: None },
        VmExitReason::InstructionAbortLowerEL => ExitOutcome { resume: false, vbar_el1: None },
        VmExitReason::TrappedWfiWfe => {
            let context = vcpu.context_mut();
            context.elr_el2 = context.elr_el2.wrapping_add(INSN_WIDTH);
            ExitOutcome { resume: true, vbar_el1: None }
        },
        VmExitReason::Unknown(_) => ExitOutcome { resume: false, vbar_el1: None },
    }
}

/// Services a hypervisor call; see `handle_vm_exit`.
fn handle_hvc(vcpu: &mut Vcpu, vgic: &mut Vgic, info: &VmExitInfo) -> (r: ExitOutcome)
    requires
        old(vgic)@.wf(),
        reason_of(info.esr) == VmExitReason::Hvc,
    ensures
        exit_vcpu(old(vcpu)@, final(vcpu)@, info.esr, info.far),
        final(vgic)@ == exit_queue(old(vgic)@, info.esr),
        final(vgic)@.wf(),
        r == (ExitOutcome { resume: exit_resumes(info.esr), vbar_el1: exit_vbar(info.esr) }),
{
    let saved_x0 = vcpu.context().regs[0];
    let hvc_num = info.esr & 0xFFFFu64;
    if hvc_num == 2 {
        proof {
            let c = old(vcpu)@.context;
            assert(c.regs@.update(0, c.regs@[0]) =~= c.regs@);
        }
        return ExitOutcome { resume: false, vbar_el1: None };
    }
    let mut vbar_el1: Option<u64> = None;
    if hvc_num == 1 {
        vcpu.context_mut().regs[0] = HYP_INFO_ID;
    } else if hvc_num == 3 {
        vcpu.context_mut().vbar_el1 = FORCED_GUEST_VBAR;
        vbar_el1 = Some(FORCED_GUEST_VBAR);
        vgic.inject(HVC_IRQ_INTID);
    } else if hvc_num == 4 {
        vgic.inject(HVC_FIQ_INTID);
    }
    let context = vcpu.context_mut();
    if hvc_num != 1 {
        context.regs[0] = saved_x0;
    }
    context.elr_el2 = context.elr_el2.wrapping_add(INSN_WIDTH);
    proof {
        let c = old(vcpu)@.context;
        assert(context.regs@ =~= c.regs@.update(0, exit_x0(c, info.esr)));
    }
    ExitOutcome { resume: true, vbar_el1 }
}

/// Services a supervisor call: x0 holds the call number and receives the
/// answer; the guest resumes one instruction after the trapping address.
fn handle_svc(vcpu: &mut Vcpu, info: &VmExitInfo) -> (r: bool)
    requires
        reason_of(info.esr) == VmExitReason::Svc,
        info.return_addr == info.far.wrapping_add(4),
    ensures
        exit_vcpu(old(vcpu)@, final(vcpu)@, info.esr, info.far),
        r,
{
    let context = vcpu.context_mut();
    let svc_num = context.regs[0];
    if svc_num == 0 {
        context.regs[0] = 0;
    } else if svc_num == 1 {
        context.regs[0] = 1;
    } else {
        context.regs[0] = SVC_ERROR;
    }
    context.elr_el2 = info.return_addr as u64;
    proof {
        let c = old(vcpu)@.context;
        assert(context.regs@ =~= c.regs@.update(0, exit_x0(c, info.esr)));
    }
    true
}

/// Classification reads bits 31:26 of the syndrome alone: a syndrome built
/// from a 6-bit class and any 26 low bits is classified by that class.
pub proof fn lemma_syndrome_class(ec: u64, iss: u64)
    requires
        ec < 64,
        iss < 0x400_0000,
    ensures
        exception_class((ec << 26u64) | iss) == ec,
        reason_of((ec << 26u64) | iss) == classify(ec),
{
    assert((((ec << 26u64) | iss) >> 26u64) & 0x3Fu64 == ec) by (bit_vector)
        requires
            ec < 64,
            iss < 0x400_0000,
    ;
}

/// Hypervisor call 2 terminates whatever the registers hold, and leaves the
/// context as it was; hypervisor call 0 resumes and moves the return address
/// on by exactly one instruction.
pub proof fn lemma_hvc_terminate_and_echo(c: VcpuStateStruct, esr: u64, far: usize)
    requires
        reason_of(esr) == VmExitReason::Hvc,
    ensures
        hvc_number(esr) == 2 ==> !exit_resumes(esr) && exit_elr(c, esr, far) == c.elr_el2
            && exit_x0(c, esr) == c.regs@[0] && exit_vbar(esr) is None,
        hvc_number(esr) == 0 ==> exit_resumes(esr) && exit_elr(c, esr, far) == c.elr_el2.wrapping_add(
            4,
        ) && exit_x0(c, esr) == c.regs@[0],
        hvc_number(esr) == 0 && c.elr_el2 <= u64::MAX - 4 ==> exit_elr(c, esr, far) == c.elr_el2
            + 4,
{
}

/// Data and instruction aborts from the guest terminate it for every
/// syndrome, with no side effect.
pub proof fn lemma_aborts_terminate(c: VcpuStateStruct, esr: u64, far: usize)
    requires
        reason_of(esr) == VmExitReason::DataAbortLowerEL || reason_of(esr)
            == VmExitReason::InstructionAbortLowerEL,
    ensures
        !exit_resumes(esr),
        exit_elr(c, esr, far) == c.elr_el2,
        exit_x0(c, esr) == c.regs@[0],
        exit_vbar(esr) is None,
        exit_injection(esr) is None,
{
}

} // verus!
