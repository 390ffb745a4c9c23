//! Addresses of the guest image that a virtual core is created with.
use vstd::prelude::*;

verus! {

/// Load address of the guest code.
pub const GUEST_CODE_LOAD_ADDR: usize = 0x4800_0000;

/// Size of the guest stack.
pub const GUEST_STACK_SIZE: usize = 32 * 1024;

/// Initial guest stack pointer: 16 bytes below the end of its region.
pub const GUEST_STACK_TOP: usize = 0x480F_FFF0;

/// The initial guest stack pointer.
pub fn guest_stack_top() -> (r: usize)
    ensures
        r == 0x4810_0000 - 16,
{
    GUEST_STACK_TOP
}

} // verus!
