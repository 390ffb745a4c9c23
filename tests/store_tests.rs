use aarch64_virt::guest::guest_stack_top;
use aarch64_virt::hyp::{
    configure_hcr_el2, configure_sctlr_el2, decode_hcr_el2, hyp_init, sync_from_lower_el1_rust,
    Hypervisor, InitStep, TrapFrame,
};
use aarch64_virt::exit::ExitOutcome;
use aarch64_virt::vcpu::{CpuRegisters, Vcpu, VcpuError, VcpuManager, VcpuState, VcpuStateStruct};

#[test]
fn create_errors_and_count() {
    let mut m = VcpuManager::new();
    assert_eq!(m.create_vcpu(4, 0x1000, 0x2000).err(), Some(VcpuError::IdOutOfRange));
    assert_eq!(m.create_vcpu(usize::MAX, 0x1000, 0x2000).err(), Some(VcpuError::IdOutOfRange));
    assert_eq!(m.vcpu_count(), 0);
    {
        let v = m.create_vcpu(2, 0x4000_0000, 0x4100_0000).unwrap();
        assert_eq!(v.id(), 2);
        assert_eq!(v.state(), VcpuState::Stopped);
        assert_eq!(v.elr(), 0x4000_0000);
        assert_eq!(v.context().spsr(), 0x3C5);
        assert_eq!(v.stack_top(), 0x4100_0000);
        assert_eq!(v.entry_point(), 0x4000_0000);
    }
    assert_eq!(m.vcpu_count(), 1);
    assert_eq!(m.create_vcpu(2, 0x1000, 0x2000).err(), Some(VcpuError::IdAlreadyUsed));
    assert_eq!(m.vcpu_count(), 1);
    assert_eq!(m.iter(), vec![2]);
}

#[test]
fn full_store_refuses_further_creation() {
    let mut m = VcpuManager::new();
    for id in [3usize, 0, 2, 1] {
        assert!(m.create_vcpu(id, 0x1000, 0x2000).is_ok());
    }
    assert_eq!(m.vcpu_count(), 4);
    for id in 0..4 {
        assert_eq!(m.create_vcpu(id, 0x1000, 0x2000).err(), Some(VcpuError::MaxLimitReached));
    }
    assert_eq!(m.create_vcpu(4, 0x1000, 0x2000).err(), Some(VcpuError::IdOutOfRange));
    assert_eq!(m.iter(), vec![0, 1, 2, 3]);
}

#[test]
fn error_messages() {
    assert_eq!(VcpuError::IdOutOfRange.message(), "vCPU ID out of range (max 3)");
    assert_eq!(VcpuError::MaxLimitReached.message(), "Reached max vCPU count");
    assert_eq!(VcpuError::IdAlreadyUsed.message(), "vCPU ID already used");
    assert_eq!(VcpuError::NotFound.message(), "vCPU not found");
    assert_eq!(VcpuError::InvalidState.message(), "vCPU state invalid for this operation");
}

#[test]
fn run_enters_only_runnable_cores() {
    let mut m = VcpuManager::new();
    assert_eq!(m.run_vcpu(0).err(), Some(VcpuError::NotFound));
    assert_eq!(m.run_vcpu(9).err(), Some(VcpuError::NotFound));
    assert!(!m.has_running());
    m.create_vcpu(1, 0x4800_0000, 0x480F_FFF0).unwrap().context_mut().regs[5] = 55;
    let e = m.run_vcpu(1).unwrap();
    assert_eq!(e.sctlr_el1, 0x30D0_0800);
    assert_eq!(e.sp_el1, 0x480F_FFF0);
    assert_eq!(e.elr_el2, 0x4800_0000);
    assert_eq!(e.spsr_el2, 0x3C5);
    assert_eq!(e.regs[5], 55);
    assert_eq!(m.current_vcpu_id(), Some(1));
    assert!(m.has_running());
    assert_eq!(m.get_vcpu(1).unwrap().state(), VcpuState::Running);
    assert_eq!(m.run_vcpu(1).err(), Some(VcpuError::InvalidState));
    m.get_vcpu(1).unwrap().set_state(VcpuState::Paused);
    assert!(m.run_vcpu(1).is_ok());
    assert!(m.get_vcpu(0).is_none());
    assert!(m.get_vcpu(7).is_none());
}

#[test]
fn core_flags_and_setters() {
    let mut v = Vcpu::new(3, 0x10, 0x20);
    assert!(!v.pending_irq() && !v.pending_fiq());
    assert!(v.can_run());
    v.inject_irq();
    v.inject_fiq();
    assert!(v.pending_irq() && v.pending_fiq());
    v.set_pending_irq(false);
    v.set_pending_fiq(false);
    assert!(!v.pending_irq() && !v.pending_fiq());
    v.set_entry(0x30);
    v.set_stack_top(0x40);
    assert_eq!(v.entry_point(), 0x30);
    assert_eq!(v.stack_top(), 0x40);
    v.set_state(VcpuState::Running);
    assert!(!v.can_run());
    v.set_state(VcpuState::Exited);
    assert!(v.can_run());
}

#[test]
fn context_new_valid_reset() {
    let mut c = VcpuStateStruct::new();
    assert!(!c.is_valid());
    c.set_elr(0x100);
    assert!(!c.is_valid());
    c.sp = 0x200;
    assert!(c.is_valid());
    c.set_spsr(0x3C5);
    c.regs[30] = 1;
    assert_eq!(c.elr(), 0x100);
    assert_eq!(c.spsr(), 0x3C5);
    c.reset();
    assert_eq!(c.regs, [0u64; 31]);
    assert_eq!((c.elr_el2, c.sp, c.pstate, c.spsr, c.vbar_el1), (0, 0, 0, 0, 0));
    let d = VcpuStateStruct::default();
    assert_eq!(d.regs, [0u64; 31]);
}

fn sample_registers() -> CpuRegisters {
    let mut regs = [0u64; 31];
    for (i, r) in regs.iter_mut().enumerate() {
        *r = 0x1000 + i as u64;
    }
    CpuRegisters { regs, elr_el2: 0x4800_0040, sp: 0x480F_FF00, pstate: 0x3C0, spsr_el2: 0x3C5, vbar_el1: 0x4800_0800 }
}

#[test]
fn save_then_restore_is_identity() {
    let hw = sample_registers();
    let mut v = Vcpu::new(0, 0, 0);
    v.save_context(&hw);
    assert_eq!(v.context().regs, hw.regs);
    assert_eq!(v.elr(), 0x4800_0040);
    assert_eq!(v.context().pstate, 0x3C0);
    assert_eq!(v.context().spsr, 0x3C5);
    let mut after = hw;
    v.restore_context(&mut after);
    assert_eq!(after.regs, hw.regs);
    assert_eq!(after.elr_el2, hw.elr_el2);
    assert_eq!(after.sp, hw.sp);
    assert_eq!(after.pstate, hw.pstate);
    assert_eq!(after.spsr_el2, hw.spsr_el2);
    assert_eq!(after.vbar_el1, hw.vbar_el1);
}

#[test]
fn restore_writes_only_sp_vbar_and_registers() {
    let mut v = Vcpu::new(0, 0x10, 0);
    v.context_mut().regs[0] = 77;
    v.context_mut().regs[30] = 88;
    v.context_mut().sp = 0x999;
    v.context_mut().vbar_el1 = 0xABC;
    let mut hw = sample_registers();
    v.restore_context(&mut hw);
    assert_eq!(hw.regs[0], 77);
    assert_eq!(hw.regs[30], 88);
    assert_eq!(hw.regs[1], 0);
    assert_eq!(hw.sp, 0x999);
    assert_eq!(hw.vbar_el1, 0xABC);
    assert_eq!(hw.elr_el2, 0x4800_0040);
    assert_eq!(hw.spsr_el2, 0x3C5);
    let mut hw2 = sample_registers();
    v.restore_regs(&mut hw2);
    assert_eq!(hw2.regs[0], 77);
    assert_eq!(hw2.sp, 0x480F_FF00);
}

#[test]
fn bring_up_sequence() {
    assert_eq!(configure_hcr_el2(), 0x8000_0039);
    assert_eq!(configure_sctlr_el2(), 0x1005);
    assert_eq!(
        hyp_init(0x4000_2000),
        vec![
            InitStep::WriteHcrEl2(0x8000_0039),
            InitStep::WriteSctlrEl2(0x1005),
            InitStep::WriteCnthctlEl2(3),
            InitStep::WriteCntvoffEl2(0),
            InitStep::Barrier,
            InitStep::WriteVbarEl2(0x4000_2000),
        ]
    );
    let f = decode_hcr_el2(0x8000_0039);
    assert!(f.vm && f.rw && f.amo && f.imo && f.fmo);
    let f = decode_hcr_el2(0x8000_0000);
    assert!(!f.vm && f.rw && !f.amo && !f.imo && !f.fmo);
}

#[test]
fn guest_stack_address() {
    assert_eq!(guest_stack_top(), 0x480F_FFF0);
}

#[test]
fn trap_without_current_core_terminates() {
    let mut hv = Hypervisor::new();
    let mut frame = TrapFrame { regs: [3u64; 31], elr: 0x4800_0000, spsr: 0x3C5 };
    let r = sync_from_lower_el1_rust(&mut hv, &mut frame, (0x16u64 << 26) | 0);
    assert_eq!(r, ExitOutcome { resume: false, vbar_el1: None });
    assert_eq!(frame.elr, 0x4800_0000);
}

#[test]
fn trap_loads_frame_dispatches_and_writes_back() {
    let mut hv = Hypervisor::new();
    hv.vcpus.create_vcpu(0, 0x4800_0000, 0x480F_FFF0).unwrap();
    assert!(hv.vcpus.run_vcpu(0).is_ok());
    let mut frame = TrapFrame { regs: [3u64; 31], elr: 0x4800_0010, spsr: 0x3C4 };
    frame.regs[0] = 1;
    // supervisor call 1: x0 becomes 1, resume after the trapping address
    let r = sync_from_lower_el1_rust(&mut hv, &mut frame, 0x15u64 << 26);
    assert_eq!(r, ExitOutcome { resume: true, vbar_el1: None });
    assert_eq!(frame.elr, 0x4800_0014);
    assert_eq!(frame.regs[0], 1);
    // hypervisor call 1: the identifier comes back in x0
    let r = sync_from_lower_el1_rust(&mut hv, &mut frame, (0x16u64 << 26) | 1);
    assert!(r.resume);
    assert_eq!(frame.regs[0], 0x48495001);
    assert_eq!(frame.elr, 0x4800_0018);
    assert_eq!(frame.spsr, 0x3C4);
    let v = hv.vcpus.get_vcpu(0).unwrap();
    assert_eq!(v.context().regs[7], 3);
    assert_eq!(v.context().spsr, 0x3C4);
    // hypervisor call 3 queues interrupt 32 for the current core
    let r = sync_from_lower_el1_rust(&mut hv, &mut frame, (0x16u64 << 26) | 3);
    assert_eq!(r, ExitOutcome { resume: true, vbar_el1: Some(0x4800_0800) });
    assert_eq!(hv.vgics[0].pending(), vec![32]);
    assert_eq!(hv.vgics[1].pending_count(), 0);
}
