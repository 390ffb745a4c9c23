//! EL2 (hypervisor) core for AArch64 guests: virtual-core store, exit
//! dispatcher and virtual interrupt controller, as verified state machines
//! over plain register values. The hardware accesses themselves (system
//! register reads and writes, the exception return) are left to the caller,
//! which hands the values in and performs the writes that come back.
use vstd::prelude::*;

pub mod exit;
pub mod guest;
pub mod hyp;
pub mod vcpu;
pub mod vgic;

pub use exit::{VmExitInfo, VmExitReason};
pub use hyp::{Hypervisor, hyp_init};
pub use vcpu::{Vcpu, VcpuManager, VcpuState};

verus! {

} // verus!
