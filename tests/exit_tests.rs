use aarch64_virt::exit::{
    fault_status_code, handle_vm_exit, is_stage2_translation_fault, parse_exit_reason, ExitOutcome,
    VmExitReason,
};
use aarch64_virt::vcpu::Vcpu;
use aarch64_virt::vgic::Vgic;

fn hvc(n: u64) -> u64 {
    (0x16u64 << 26) | (1 << 25) | n
}

fn svc() -> u64 {
    (0x15u64 << 26) | (1 << 25)
}

#[test]
fn test_parse_exit_reason() {
    // 0x56000000 carries class 0x15 in bits 31:26 (a supervisor call with
    // the instruction-length bit set); 0x5A000000 carries class 0x16.
    let hvc_esr = 0x5A000000;
    assert_eq!(parse_exit_reason(hvc_esr), VmExitReason::Hvc);
    let svc_esr = 0x55000000;
    assert_eq!(parse_exit_reason(svc_esr), VmExitReason::Svc);
    assert_eq!(parse_exit_reason(0x56000000), VmExitReason::Svc);
}

#[test]
fn test_vcpu_context_access() {
    let mut vcpu = Vcpu::new(0, 0x4000_0000, 0x4100_0000);

    {
        let context = vcpu.context_mut();
        context.regs[0] = 0x12345678;
    }

    let context = vcpu.context();
    assert_eq!(context.regs[0], 0x12345678);
}

#[test]
fn classification_of_every_class() {
    for ec in 0u64..64 {
        let expected = match ec {
            0x16 => VmExitReason::Hvc,
            0x15 => VmExitReason::Svc,
            0x24 => VmExitReason::DataAbortLowerEL,
            0x20 => VmExitReason::InstructionAbortLowerEL,
            0x01 => VmExitReason::TrappedWfiWfe,
            other => VmExitReason::Unknown(other as u32),
        };
        assert_eq!(parse_exit_reason((ec << 26) | 0x1FF_FFFF), expected);
        assert_eq!(parse_exit_reason(ec << 26), expected);
    }
    assert_eq!(parse_exit_reason(0xFFFF_FFFF_0000_0000 | (0x3Fu64 << 26)), VmExitReason::Unknown(0x3F));
}

fn core_at(elr: u64, x0: u64) -> Vcpu {
    let mut vcpu = Vcpu::new(0, elr as usize, 0x4100_0000);
    vcpu.context_mut().regs[0] = x0;
    vcpu.context_mut().regs[1] = 0x1111;
    vcpu
}

#[test]
fn hvc_two_terminates_whatever_the_registers() {
    for x0 in [0u64, 1, 0xEEEE, u64::MAX] {
        let mut vcpu = core_at(0x4800_0100, x0);
        let mut vgic = Vgic::new();
        let r = handle_vm_exit(&mut vcpu, &mut vgic, hvc(2), 0x4800_0100, 0x3C5);
        assert_eq!(r, ExitOutcome { resume: false, vbar_el1: None });
        assert_eq!(vcpu.elr(), 0x4800_0100);
        assert_eq!(vcpu.context().regs[0], x0);
    }
}

#[test]
fn hvc_zero_resumes_one_instruction_on() {
    for x0 in [0u64, 0xEEEE, 0xAAAA, 42] {
        let mut vcpu = core_at(0x4800_0100, x0);
        let mut vgic = Vgic::new();
        let r = handle_vm_exit(&mut vcpu, &mut vgic, hvc(0), 0x4800_0100, 0x3C5);
        assert_eq!(r, ExitOutcome { resume: true, vbar_el1: None });
        assert_eq!(vcpu.elr(), 0x4800_0104);
        assert_eq!(vcpu.context().regs[0], x0);
        assert_eq!(vcpu.context().regs[1], 0x1111);
        assert_eq!(vgic.pending_count(), 0);
    }
}

#[test]
fn hvc_one_returns_identifier() {
    let mut vcpu = core_at(0x4800_0200, 7);
    let mut vgic = Vgic::new();
    let r = handle_vm_exit(&mut vcpu, &mut vgic, hvc(1), 0x4800_0200, 0x3C5);
    assert!(r.resume);
    assert_eq!(vcpu.context().regs[0], 0x48495001);
    assert_eq!(vcpu.elr(), 0x4800_0204);
}

#[test]
fn hvc_three_forces_vector_base_and_injects_32() {
    let mut vcpu = core_at(0x4800_0300, 9);
    let mut vgic = Vgic::new();
    let r = handle_vm_exit(&mut vcpu, &mut vgic, hvc(3), 0x4800_0300, 0x3C5);
    assert_eq!(r, ExitOutcome { resume: true, vbar_el1: Some(0x4800_0800) });
    assert_eq!(vcpu.context().vbar_el1, 0x4800_0800);
    assert_eq!(vcpu.context().regs[0], 9);
    assert_eq!(vcpu.elr(), 0x4800_0304);
    assert_eq!(vgic.pending(), vec![32]);
}

#[test]
fn hvc_four_injects_33_and_others_do_nothing() {
    let mut vcpu = core_at(0x4800_0400, 9);
    let mut vgic = Vgic::new();
    let r = handle_vm_exit(&mut vcpu, &mut vgic, hvc(4), 0, 0);
    assert!(r.resume);
    assert_eq!(vgic.pending(), vec![33]);
    let r = handle_vm_exit(&mut vcpu, &mut vgic, hvc(5), 0, 0);
    assert!(r.resume);
    let r = handle_vm_exit(&mut vcpu, &mut vgic, hvc(0x1234), 0, 0);
    assert!(r.resume);
    assert_eq!(vgic.pending(), vec![33]);
    assert_eq!(vcpu.elr(), 0x4800_040C);
    assert_eq!(vcpu.context().regs[0], 9);
}

#[test]
fn hvc_return_address_wraps() {
    let mut vcpu = core_at(0, 0);
    vcpu.context_mut().set_elr(u64::MAX - 1);
    let mut vgic = Vgic::new();
    let r = handle_vm_exit(&mut vcpu, &mut vgic, hvc(0), 0, 0);
    assert!(r.resume);
    assert_eq!(vcpu.elr(), 2);
}

#[test]
fn svc_answers_in_x0_and_resumes_after_far() {
    for (x0, answer) in [(0u64, 0u64), (1, 1), (2, 0xFFFF_FFFF), (u64::MAX, 0xFFFF_FFFF)] {
        let mut vcpu = core_at(0x4800_0500, x0);
        let mut vgic = Vgic::new();
        let r = handle_vm_exit(&mut vcpu, &mut vgic, svc(), 0x4800_0600, 0x3C5);
        assert_eq!(r, ExitOutcome { resume: true, vbar_el1: None });
        assert_eq!(vcpu.context().regs[0], answer);
        assert_eq!(vcpu.elr(), 0x4800_0604);
    }
}

#[test]
fn aborts_terminate_for_any_syndrome() {
    for iss in [0u64, 0x14, 0x07, 0x1FF_FFFF, 0x3F] {
        for ec in [0x24u64, 0x20] {
            let mut vcpu = core_at(0x4800_0700, 5);
            let mut vgic = Vgic::new();
            let r = handle_vm_exit(&mut vcpu, &mut vgic, (ec << 26) | iss, 0x4800_0700, 0);
            assert_eq!(r, ExitOutcome { resume: false, vbar_el1: None });
            assert_eq!(vcpu.elr(), 0x4800_0700);
            assert_eq!(vcpu.context().regs[0], 5);
        }
    }
}

#[test]
fn trapped_wait_is_stepped_over() {
    let mut vcpu = core_at(0x4800_0800, 5);
    let mut vgic = Vgic::new();
    let r = handle_vm_exit(&mut vcpu, &mut vgic, 0x01u64 << 26, 0x4800_0800, 0);
    assert_eq!(r, ExitOutcome { resume: true, vbar_el1: None });
    assert_eq!(vcpu.elr(), 0x4800_0804);
}

#[test]
fn unknown_class_terminates() {
    let mut vcpu = core_at(0x4800_0900, 5);
    let mut vgic = Vgic::new();
    let r = handle_vm_exit(&mut vcpu, &mut vgic, 0x07u64 << 26, 0x4800_0900, 0);
    assert_eq!(r, ExitOutcome { resume: false, vbar_el1: None });
    assert_eq!(vcpu.elr(), 0x4800_0900);
}

#[test]
fn abort_fault_status() {
    assert_eq!(fault_status_code((0x24u64 << 26) | 0x1FF_FF95), 0x15);
    assert!(is_stage2_translation_fault(0x15));
    assert!(is_stage2_translation_fault(0x14));
    assert!(!is_stage2_translation_fault(0x07));
    assert!(!is_stage2_translation_fault(0x18));
}
