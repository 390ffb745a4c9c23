//! The hypervisor instance: bring-up of EL2, the store of virtual cores with
//! their interrupt queues, and the service of a synchronous trap from the
//! guest on the frame that the trap's entry code captured.
use vstd::prelude::*;
use crate::exit::{
    ExitOutcome, exit_context, exit_queue, exit_resumes, exit_vbar, handle_vm_exit,
};
use crate::vcpu::{VcpuManager, VcpuStateStruct, VcpuView};
use crate::vgic::{Vgic, all_wf, same_except};

verus! {

/// HCR_EL2.VM, bit 0: stage-2 translation enabled.
pub const HCR_EL2_VM: u64 = 1u64 << 0u64;
/// HCR_EL2.AMO, bit 3: SError routed to EL2.
pub const HCR_EL2_AMO: u64 = 1u64 << 3u64;
/// HCR_EL2.IMO, bit 4: IRQ routed to EL2.
pub const HCR_EL2_IMO: u64 = 1u64 << 4u64;
/// HCR_EL2.FMO, bit 5: FIQ routed to EL2.
pub const HCR_EL2_FMO: u64 = 1u64 << 5u64;
/// HCR_EL2.RW, bit 31: EL1 runs in AArch64.
pub const HCR_EL2_RW: u64 = 1u64 << 31u64;

/// SCTLR_EL2.M, bit 0: stage-1 translation enabled.
pub const SCTLR_EL2_M: u64 = 1u64 << 0u64;
/// SCTLR_EL2.C, bit 2: data accesses cacheable.
pub const SCTLR_EL2_C: u64 = 1u64 << 2u64;
/// SCTLR_EL2.I, bit 12: instruction accesses cacheable.
pub const SCTLR_EL2_I: u64 = 1u64 << 12u64;

/// CNTHCTL_EL2 value giving the guest the physical counter and timer.
pub const CNTHCTL_EL2_PASSTHROUGH: u64 = 0x3;

/// One step of the EL2 bring-up, to be performed in order.
#[derive(Debug, Clone, Copy, PartialEq, Eq, Structural)]
pub enum InitStep {
    WriteHcrEl2(u64),
    WriteSctlrEl2(u64),
    WriteCnthctlEl2(u64),
    WriteCntvoffEl2(u64),
    Barrier,
    WriteVbarEl2(u64),
}

/// The HCR_EL2 value of the bring-up: virtualization on, a 64-bit guest, and
/// SError, IRQ and FIQ routed to the hypervisor.
pub fn configure_hcr_el2() -> (r: u64)
    ensures
        r == HCR_EL2_VM | HCR_EL2_RW | HCR_EL2_AMO | HCR_EL2_IMO | HCR_EL2_FMO,
        r == 0x8000_0039,
{
    let r = HCR_EL2_VM | HCR_EL2_RW | HCR_EL2_AMO | HCR_EL2_IMO | HCR_EL2_FMO;
    assert(r == 0x8000_0039) by (bit_vector)
        requires
            r == (1u64 << 0u64) | (1u64 << 31u64) | (1u64 << 3u64) | (1u64 << 4u64) | (1u64
                << 5u64),
    ;
    r
}

/// The SCTLR_EL2 value of the bring-up: EL2 translation and both caches on.
pub fn configure_sctlr_el2() -> (r: u64)
    ensures
        r == SCTLR_EL2_M | SCTLR_EL2_C | SCTLR_EL2_I,
        r == 0x1005,
{
    let r = SCTLR_EL2_M | SCTLR_EL2_C | SCTLR_EL2_I;
    assert(r == 0x1005) by (bit_vector)
        requires
            r == (1u64 << 0u64) | (1u64 << 2u64) | (1u64 << 12u64),
    ;
    r
}

/// The bring-up of EL2 with its exception vectors at `vector_base`:
/// hypervisor control, EL2 system control, timer pass-through with a zero
/// virtual offset, a full barrier, and last the vector base.
pub fn hyp_init(vector_base: u64) -> (r: Vec<InitStep>)
    ensures
        r@ == seq![
            InitStep::WriteHcrEl2(0x8000_0039),
            InitStep::WriteSctlrEl2(0x1005),
            InitStep::WriteCnthctlEl2(CNTHCTL_EL2_PASSTHROUGH),
            InitStep::WriteCntvoffEl2(0),
            InitStep::Barrier,
            InitStep::WriteVbarEl2(vector_base),
        ],
{
    let mut r: Vec<InitStep> = Vec::new();
    r.push(InitStep::WriteHcrEl2(configure_hcr_el2()));
    r.push(InitStep::WriteSctlrEl2(configure_sctlr_el2()));
    r.push(InitStep::WriteCnthctlEl2(CNTHCTL_EL2_PASSTHROUGH));
    r.push(InitStep::WriteCntvoffEl2(0));
    r.push(InitStep::Barrier);
    r.push(InitStep::WriteVbarEl2(vector_base));
    assert(r@ =~= seq![
        InitStep::WriteHcrEl2(0x8000_0039),
        InitStep::WriteSctlrEl2(0x1005),
        InitStep::WriteCnthctlEl2(CNTHCTL_EL2_PASSTHROUGH),
        InitStep::WriteCntvoffEl2(0),
        InitStep::Barrier,
        InitStep::WriteVbarEl2(vector_base),
    ]);
    r
}

/// The HCR_EL2 bits that the bring-up sets, as read back.
#[derive(Debug, Clone, Copy, PartialEq, Eq, Structural)]
pub struct HcrEl2Flags {
    pub vm: bool,
    pub rw: bool,
    pub amo: bool,
    pub imo: bool,
    pub fmo: bool,
}

/// Decodes the bring-up's bits of an HCR_EL2 value.
pub fn decode_hcr_el2(hcr: u64) -> (r: HcrEl2Flags)
    ensures
        r == (HcrEl2Flags {
            vm: hcr & HCR_EL2_VM != 0,
            rw: hcr & HCR_EL2_RW != 0,
            amo: hcr & HCR_EL2_AMO != 0,
            imo: hcr & HCR_EL2_IMO != 0,
            fmo: hcr & HCR_EL2_FMO != 0,
        }),
{
    HcrEl2Flags {
        vm: hcr & HCR_EL2_VM != 0,
        rw: hcr & HCR_EL2_RW != 0,
        amo: hcr & HCR_EL2_AMO != 0,
        imo: hcr & HCR_EL2_IMO != 0,
        fmo: hcr & HCR_EL2_FMO != 0,
    }
}

/// The registers that the entry code of a synchronous trap from the guest
/// captures, in this order: x0..x30, the exception return address, and the
/// saved exception PSTATE.
#[derive(Debug, Clone, Copy)]
pub struct TrapFrame {
    pub regs: [u64; 31],
    pub elr: u64,
    pub spsr: u64,
}

/// The hypervisor's whole state: the store of virtual cores and one
/// interrupt queue per core slot.
pub struct Hypervisor {
    pub vcpus: VcpuManager,
    pub vgics: [Vgic; 4],
}

impl Hypervisor {
    /// Well-formedness of the store and of every queue.
    pub open spec fn wf(&self) -> bool {
        &&& self.vcpus.wf()
        &&& all_wf(self.vgics@)
    }

    /// No cores and empty queues.
    pub fn new() -> (r: Self)
        ensures
            r.wf(),
            r.vcpus@.count == 0,
            r.vcpus@.current is None,
            forall|i: int| 0 <= i < 4 ==> #[trigger] r.vcpus@.slots[i] is None,
            forall|i: int| 0 <= i < 4 ==> (#[trigger] r.vgics@[i])@.count == 0,
    {
        let vcpus = VcpuManager::new();
        let vgics = [Vgic::new(), Vgic::new(), Vgic::new(), Vgic::new()];
        Hypervisor { vcpus, vgics }
    }
}

/// The saved context once the trap frame is loaded into it.
pub open spec fn loaded_context(c: VcpuStateStruct, f: TrapFrame) -> VcpuStateStruct {
    VcpuStateStruct { regs: f.regs, elr_el2: f.elr, spsr: f.spsr, ..c }
}

/// Services a synchronous trap from the guest with syndrome `esr` on the
/// frame its entry code captured. Without a current core the guest
/// terminates and nothing changes. Otherwise the frame is loaded into the
/// current core's context, the exit is dispatched with the frame's return
/// address as trapping address, and the new return address and x0 are
/// written back into the frame for the return into the guest.
pub fn sync_from_lower_el1_rust(hv: &mut Hypervisor, frame: &mut TrapFrame, esr: u64) -> (r:
    ExitOutcome)
    requires
        old(hv).wf(),
    ensures
        final(hv).wf(),
        old(hv).vcpus@.current is None ==> {
            &&& r == ExitOutcome { resume: false, vbar_el1: None }
            &&& final(hv).vcpus@ == old(hv).vcpus@
            &&& final(hv).vgics == old(hv).vgics
            &&& *final(frame) == *old(frame)
        },
        old(hv).vcpus@.current matches Some(id) ==> {
            let v = old(hv).vcpus@.slots[id as int]->0;
            let c0 = loaded_context(v.context, *old(frame));
            let n = final(hv).vcpus@.slots[id as int]->0;
            &&& r == ExitOutcome { resume: exit_resumes(esr), vbar_el1: exit_vbar(esr) }
            &&& final(hv).vcpus@.slots[id as int] is Some
            &&& exit_context(c0, n.context, esr, old(frame).elr as usize)
            &&& n == VcpuView { context: n.context, ..v }
            &&& final(hv).vcpus@.slots == old(hv).vcpus@.slots.update(id as int, Some(n))
            &&& final(hv).vcpus@.count == old(hv).vcpus@.count
            &&& final(hv).vcpus@.current == old(hv).vcpus@.current
            &&& same_except(old(hv).vgics@, final(hv).vgics@, id as int)
            &&& final(hv).vgics@[id as int]@ == exit_queue(old(hv).vgics@[id as int]@, esr)
            &&& final(frame).regs@ == old(frame).regs@.update(0, n.context.regs@[0])
            &&& final(frame).elr == n.context.elr_el2
            &&& final(frame).spsr == old(frame).spsr
        },
{
    let id = match hv.vcpus.current_vcpu_id() {
        Some(id) => id,
        None => {
            return ExitOutcome { resume: false, vbar_el1: None };
        },
    };
    let mut vgic = hv.vgics[id];
    let r = match hv.vcpus.get_vcpu(id) {
        Some(vcpu) => {
            let context = vcpu.context_mut();
            context.regs = frame.regs;
            context.elr_el2 = frame.elr;
            context.spsr = frame.spsr;
            let outcome = handle_vm_exit(vcpu, &mut vgic, esr, frame.elr as usize, frame.spsr);
            let context = vcpu.context();
            frame.elr = context.elr_el2;
            frame.regs[0] = context.regs[0];
            outcome
        },
        None => ExitOutcome { resume: false, vbar_el1: None },
    };
    hv.vgics[id] = vgic;
    r
}

} // verus!
