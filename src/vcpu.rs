//! Virtual cores: their saved architectural context, their lifecycle, and
//! the bounded store that holds them.
use vstd::prelude::*;

verus! {

/// Number of general-purpose registers saved for a guest (x0..x30).
pub const NUM_GP_REGS: usize = 31;

/// Lifecycle state of a virtual core.
#[derive(Debug, Clone, Copy, PartialEq, Eq, Structural)]
pub enum VcpuState {
    Stopped,
    Running,
    Paused,
    Exited,
}

/// The complete guest-visible state needed to resume a guest.
#[derive(Debug, Clone, Copy)]
pub struct VcpuStateStruct {
    pub regs: [u64; 31],
    pub elr_el2: u64,
    pub sp: u64,
    pub pstate: u64,
    pub spsr: u64,
    pub vbar_el1: u64,
}

impl Default for VcpuStateStruct {
    fn default() -> (r: Self)
        ensures
            r.is_zeroed(),
    {
        VcpuStateStruct::new()
    }
}

impl VcpuStateStruct {
    /// Whether every field of the context is zero.
    pub open spec fn is_zeroed(self) -> bool {
        &&& forall|i: int| 0 <= i < 31 ==> #[trigger] self.regs@[i] == 0
        &&& self.elr_el2 == 0
        &&& self.sp == 0
        &&& self.pstate == 0
        &&& self.spsr == 0
        &&& self.vbar_el1 == 0
    }

    /// An all-zero context.
    pub fn new() -> (r: Self)
        ensures
            r.is_zeroed(),
    {
        VcpuStateStruct { regs: [0u64; 31], elr_el2: 0, sp: 0, pstate: 0, spsr: 0, vbar_el1: 0 }
    }

    /// A context is usable once both its return address and stack pointer are set.
    pub fn is_valid(&self) -> (r: bool)
        ensures
            r == (self.elr_el2 != 0 && self.sp != 0),
    {
        self.elr_el2 != 0 && self.sp != 0
    }

    /// Clears every field of the context.
    pub fn reset(&mut self)
        ensures
            final(self).is_zeroed(),
    {
        self.regs = [0u64; 31];
        self.elr_el2 = 0;
        self.sp = 0;
        self.pstate = 0;
        self.spsr = 0;
        self.vbar_el1 = 0;
    }

    pub fn elr(&self) -> (r: u64)
        ensures
            r == self.elr_el2,
    {
        self.elr_el2
    }

    pub fn set_elr(&mut self, elr: u64)
        ensures
            *final(self) == (VcpuStateStruct { elr_el2: elr, ..*old(self) }),
    {
        self.elr_el2 = elr;
    }

    pub fn spsr(&self) -> (r: u64)
        ensures
            r == self.spsr,
    {
        self.spsr
    }

    pub fn set_spsr(&mut self, spsr: u64)
        ensures
            *final(self) == (VcpuStateStruct { spsr: spsr, ..*old(self) }),
    {
        self.spsr = spsr;
    }
}

/// Saved processor state given to a freshly created core: EL1h with the
/// D, A, I and F exceptions masked.
pub const DEFAULT_GUEST_SPSR: u64 = 0x3C5;

/// EL1 system-control value programmed on entry into a guest.
pub const GUEST_SCTLR_EL1: u64 = 0x30D0_0800;

/// The machine's register image at EL2 as the context switch sees it.
#[derive(Debug, Clone, Copy)]
pub struct CpuRegisters {
    pub regs: [u64; 31],
    pub elr_el2: u64,
    pub sp: u64,
    pub pstate: u64,
    pub spsr_el2: u64,
    pub vbar_el1: u64,
}

/// The context captured from a register image.
pub open spec fn saved_context(hw: CpuRegisters) -> VcpuStateStruct {
    VcpuStateStruct {
        regs: hw.regs,
        elr_el2: hw.elr_el2,
        sp: hw.sp,
        pstate: hw.pstate,
        spsr: hw.spsr_el2,
        vbar_el1: hw.vbar_el1,
    }
}

/// The register image after a context is restored into it: stack pointer,
/// vector base and general registers come from the context.
pub open spec fn restored(c: VcpuStateStruct, hw: CpuRegisters) -> CpuRegisters {
    CpuRegisters { regs: c.regs, sp: c.sp, vbar_el1: c.vbar_el1, ..hw }
}

/// Register values for the exception return into a guest.
#[derive(Debug, Clone, Copy)]
pub struct GuestEntry {
    pub sctlr_el1: u64,
    pub sp_el1: u64,
    pub elr_el2: u64,
    pub spsr_el2: u64,
    pub regs: [u64; 31],
}

/// The entry values for a core: its stack top as the EL1 stack pointer, and
/// its saved return address, exception PSTATE and general registers.
pub open spec fn entry_for(v: VcpuView) -> GuestEntry {
    GuestEntry {
        sctlr_el1: GUEST_SCTLR_EL1,
        sp_el1: v.stack_top as u64,
        elr_el2: v.context.elr_el2,
        spsr_el2: v.context.spsr,
        regs: v.context.regs,
    }
}

/// What a virtual core holds, as seen by contracts.
pub struct VcpuView {
    pub id: usize,
    pub state: VcpuState,
    pub context: VcpuStateStruct,
    pub entry: usize,
    pub stack_top: usize,
    pub pending_irq: bool,
    pub pending_fiq: bool,
}

/// The context that a new core starts from: zero everywhere but the
/// return address, which is the entry point, and the default saved PSTATE.
pub open spec fn is_initial_context(c: VcpuStateStruct, entry: usize) -> bool {
    &&& forall|i: int| 0 <= i < 31 ==> #[trigger] c.regs@[i] == 0
    &&& c.elr_el2 == entry as u64
    &&& c.sp == 0
    &&& c.pstate == 0
    &&& c.spsr == DEFAULT_GUEST_SPSR
    &&& c.vbar_el1 == 0
}

/// The view of a core just created with the given identity and addresses.
pub open spec fn is_initial_vcpu(v: VcpuView, id: usize, entry: usize, stack_top: usize) -> bool {
    &&& v.id == id
    &&& v.state == VcpuState::Stopped
    &&& is_initial_context(v.context, entry)
    &&& v.entry == entry
    &&& v.stack_top == stack_top
    &&& !v.pending_irq
    &&& !v.pending_fiq
}

/// States from which a core may be (re)entered: every state but `Running`.
pub open spec fn runnable(s: VcpuState) -> bool {
    s == VcpuState::Stopped || s == VcpuState::Paused || s == VcpuState::Exited
}

/// A virtual core: identity, lifecycle state, saved context, fixed entry and
/// stack addresses, and two request flags for interrupt injection.
pub struct Vcpu {
    id: usize,
    state: VcpuState,
    context: VcpuStateStruct,
    entry: usize,
    stack_top: usize,
    pending_irq: bool,
    pending_fiq: bool,
}

impl View for Vcpu {
    type V = VcpuView;

    closed spec fn view(&self) -> VcpuView {
        VcpuView {
            id: self.id,
            state: self.state,
            context: self.context,
            entry: self.entry,
            stack_top: self.stack_top,
            pending_irq: self.pending_irq,
            pending_fiq: self.pending_fiq,
        }
    }
}

impl Vcpu {
    /// A stopped core whose context resumes at `entry` in EL1h with
    /// exceptions masked.
    pub fn new(id: usize, entry: usize, stack_top: usize) -> (r: Self)
        ensures
            is_initial_vcpu(r@, id, entry, stack_top),
    {
        let mut context = VcpuStateStruct::new();
        context.elr_el2 = entry as u64;
        context.spsr = DEFAULT_GUEST_SPSR;
        Vcpu {
            id,
            state: VcpuState::Stopped,
            context,
            entry,
            stack_top,
            pending_irq: false,
            pending_fiq: false,
        }
    }

    pub fn id(&self) -> (r: usize)
        ensures
            r == self@.id,
    {
        self.id
    }

    pub fn entry_point(&self) -> (r: usize)
        ensures
            r == self@.entry,
    {
        self.entry
    }

    pub fn stack_top(&self) -> (r: usize)
        ensures
            r == self@.stack_top,
    {
        self.stack_top
    }

    pub fn state(&self) -> (r: VcpuState)
        ensures
            r == self@.state,
    {
        self.state
    }

    pub fn context(&self) -> (r: &VcpuStateStruct)
        ensures
            *r == self@.context,
    {
        &self.context
    }

    /// Mutable access to the saved context; nothing else of the core changes.
    pub fn context_mut(&mut self) -> (r: &mut VcpuStateStruct)
        ensures
            *r == old(self)@.context,
            final(self)@ == (VcpuView { context: *final(r), ..old(self)@ }),
    {
        &mut self.context
    }

    pub fn pending_irq(&self) -> (r: bool)
        ensures
            r == self@.pending_irq,
    {
        self.pending_irq
    }

    pub fn pending_fiq(&self) -> (r: bool)
        ensures
            r == self@.pending_fiq,
    {
        self.pending_fiq
    }

    pub fn set_pending_irq(&mut self, val: bool)
        ensures
            final(self)@ == (VcpuView { pending_irq: val, ..old(self)@ }),
    {
        self.pending_irq = val;
    }

    pub fn set_pending_fiq(&mut self, val: bool)
        ensures
            final(self)@ == (VcpuView { pending_fiq: val, ..old(self)@ }),
    {
        self.pending_fiq = val;
    }

    /// The saved exception-return address.
    pub fn elr(&self) -> (r: u64)
        ensures
            r == self@.context.elr_el2,
    {
        self.context.elr_el2
    }

    pub fn set_entry(&mut self, entry: usize)
        ensures
            final(self)@ == (VcpuView { entry: entry, ..old(self)@ }),
    {
        self.entry = entry;
    }

    pub fn set_stack_top(&mut self, stack_top: usize)
        ensures
            final(self)@ == (VcpuView { stack_top: stack_top, ..old(self)@ }),
    {
        self.stack_top = stack_top;
    }

    pub fn set_state(&mut self, state: VcpuState)
        ensures
            final(self)@ == (VcpuView { state: state, ..old(self)@ }),
    {
        self.state = state;
    }

    /// Records a request to inject an IRQ into this core.
    pub fn inject_irq(&mut self)
        ensures
            final(self)@ == (VcpuView { pending_irq: true, ..old(self)@ }),
    {
        self.pending_irq = true;
    }

    /// Records a request to inject an FIQ into this core.
    pub fn inject_fiq(&mut self)
        ensures
            final(self)@ == (VcpuView { pending_fiq: true, ..old(self)@ }),
    {
        self.pending_fiq = true;
    }

    /// Captures the machine's register image into the saved context: all 31
    /// general registers, the return address, the stack pointer, the PSTATE
    /// snapshot, the saved exception PSTATE and the vector base.
    pub fn save_context(&mut self, hw: &CpuRegisters)
        ensures
            final(self)@ == (VcpuView { context: saved_context(*hw), ..old(self)@ }),
    {
        self.context.regs = hw.regs;
        self.context.elr_el2 = hw.elr_el2;
        self.context.sp = hw.sp;
        self.context.pstate = hw.pstate;
        self.context.spsr = hw.spsr_el2;
        self.context.vbar_el1 = hw.vbar_el1;
    }

    /// Writes the saved stack pointer and vector base back to the machine,
    /// then the general registers, x0 last. The return address and the
    /// exception PSTATE registers are left as they are.
    pub fn restore_context(&self, hw: &mut CpuRegisters)
        ensures
            *final(hw) == restored(self@.context, *old(hw)),
    {
        hw.sp = self.context.sp;
        hw.vbar_el1 = self.context.vbar_el1;
        self.restore_regs(hw);
    }

    /// Reloads the general registers x1..x30 and then x0 from the context.
    pub fn restore_regs(&self, hw: &mut CpuRegisters)
        ensures
            *final(hw) == (CpuRegisters { regs: self@.context.regs, ..*old(hw) }),
    {
        let mut i: usize = 1;
        while i < NUM_GP_REGS
            invariant
                1 <= i <= NUM_GP_REGS,
                forall|j: int| 1 <= j < i ==> hw.regs@[j] == self.context.regs@[j],
                forall|j: int| (j == 0 || i <= j < 31) ==> hw.regs@[j] == old(hw).regs@[j],
                hw.elr_el2 == old(hw).elr_el2,
                hw.sp == old(hw).sp,
                hw.pstate == old(hw).pstate,
                hw.spsr_el2 == old(hw).spsr_el2,
                hw.vbar_el1 == old(hw).vbar_el1,
            decreases NUM_GP_REGS - i,
        {
            hw.regs[i] = self.context.regs[i];
            i = i + 1;
        }
        hw.regs[0] = self.context.regs[0];
        assert(hw.regs =~= self.context.regs);
    }

    /// Marks the core running and gives the register values with which the
    /// caller performs the one-way exception return into the guest.
    pub fn run(&mut self) -> (r: GuestEntry)
        ensures
            final(self)@ == (VcpuView { state: VcpuState::Running, ..old(self)@ }),
            r == entry_for(old(self)@),
    {
        self.state = VcpuState::Running;
        GuestEntry {
            sctlr_el1: GUEST_SCTLR_EL1,
            sp_el1: self.stack_top as u64,
            elr_el2: self.context.elr_el2,
            spsr_el2: self.context.spsr,
            regs: self.context.regs,
        }
    }

    /// Whether the core may be entered: it is not already running.
    pub fn can_run(&self) -> (r: bool)
        ensures
            r == runnable(self@.state),
    {
        self.state == VcpuState::Stopped || self.state == VcpuState::Paused || self.state
            == VcpuState::Exited
    }
}

/// Number of slots in the virtual-core store.
pub const MAX_VCPUS: usize = 4;

/// Why a virtual-core operation was refused.
#[derive(Debug, Clone, Copy, PartialEq, Eq, Structural)]
pub enum VcpuError {
    IdOutOfRange,
    MaxLimitReached,
    IdAlreadyUsed,
    NotFound,
    InvalidState,
}

impl VcpuError {
    /// A one-line description of the error.
    pub fn message(&self) -> (r: &'static str)
        ensures
            *self == VcpuError::IdOutOfRange ==> r@ == "vCPU ID out of range (max 3)"@,
            *self == VcpuError::MaxLimitReached ==> r@ == "Reached max vCPU count"@,
            *self == VcpuError::IdAlreadyUsed ==> r@ == "vCPU ID already used"@,
            *self == VcpuError::NotFound ==> r@ == "vCPU not found"@,
            *self == VcpuError::InvalidState ==> r@ == "vCPU state invalid for this operation"@,
    {
        match self {
            VcpuError::IdOutOfRange => "vCPU ID out of range (max 3)",
            VcpuError::MaxLimitReached => "Reached max vCPU count",
            VcpuError::IdAlreadyUsed => "vCPU ID already used",
            VcpuError::NotFound => "vCPU not found",
            VcpuError::InvalidState => "vCPU state invalid for this operation",
        }
    }
}

/// The store as seen by contracts: one optional core per slot, the number of
/// occupied slots, and the core currently entered, if any.
pub struct VcpuManagerView {
    pub slots: Seq<Option<VcpuView>>,
    pub count: usize,
    pub current: Option<usize>,
}

/// 1 when slot `i` holds a core, else 0.
pub open spec fn slot_used(slots: Seq<Option<VcpuView>>, i: int) -> int {
    if slots[i] is Some {
        1
    } else {
        0
    }
}

/// Number of occupied slots of the store.
pub open spec fn used_slots(slots: Seq<Option<VcpuView>>) -> int {
    slot_used(slots, 0) + slot_used(slots, 1) + slot_used(slots, 2) + slot_used(slots, 3)
}

/// The outcome of creating a core with identity `id` in store `m`.
pub open spec fn create_outcome(m: VcpuManagerView, id: usize) -> Result<(), VcpuError> {
    if id >= MAX_VCPUS {
        Err(VcpuError::IdOutOfRange)
    } else if m.count >= MAX_VCPUS {
        Err(VcpuError::MaxLimitReached)
    } else if m.slots[id as int] is Some {
        Err(VcpuError::IdAlreadyUsed)
    } else {
        Ok(())
    }
}

/// The bounded store of virtual cores.
pub struct VcpuManager {
    vcpus: [Option<Vcpu>; 4],
    count: usize,
    current_vcpu: Option<usize>,
}

pub open spec fn slot_view(s: Option<Vcpu>) -> Option<VcpuView> {
    match s {
        Some(v) => Some(v@),
        None => None,
    }
}

impl View for VcpuManager {
    type V = VcpuManagerView;

    closed spec fn view(&self) -> VcpuManagerView {
        VcpuManagerView {
            slots: Seq::new(4, |i: int| slot_view(self.vcpus@[i])),
            count: self.count,
            current: self.current_vcpu,
        }
    }
}

impl VcpuManager {
    /// Well-formedness: the count is the number of occupied slots, and the
    /// current core, if any, is an occupied slot.
    pub open spec fn wf(&self) -> bool {
        &&& self@.slots.len() == MAX_VCPUS
        &&& self@.count == used_slots(self@.slots)
        &&& (self@.current matches Some(c) ==> c < MAX_VCPUS && self@.slots[c as int] is Some)
    }

    /// An empty store.
    pub fn new() -> (r: Self)
        ensures
            r.wf(),
            r@.count == 0,
            r@.current is None,
            forall|i: int| 0 <= i < MAX_VCPUS ==> #[trigger] r@.slots[i] is None,
    {
        let r = VcpuManager { vcpus: [None, None, None, None], count: 0, current_vcpu: None };
        assert(r@.slots[0] is None && r@.slots[1] is None && r@.slots[2] is None
            && r@.slots[3] is None);
        r
    }

    /// Creates a core in slot `id`, which resumes at `entry` with `stack_top`
    /// as its stack. Fails with `IdOutOfRange` for an identity past the
    /// table, `MaxLimitReached` when every slot is taken, and
    /// `IdAlreadyUsed` when slot `id` is.
    pub fn create_vcpu(&mut self, id: usize, entry: usize, stack_top: usize) -> (r: Result<
        &mut Vcpu,
        VcpuError,
    >)
        requires
            old(self).wf(),
        ensures
            final(self).wf(),
            r is Ok <==> create_outcome(old(self)@, id) is Ok,
            r is Err ==> r->Err_0 == create_outcome(old(self)@, id)->Err_0,
            r is Err ==> final(self)@ == old(self)@,
            r is Ok ==> is_initial_vcpu((*r->Ok_0)@, id, entry, stack_top),
            r is Ok ==> final(self)@.count == old(self)@.count + 1,
            r is Ok ==> final(self)@.current == old(self)@.current,
            r is Ok ==> final(self)@.slots == old(self)@.slots.update(
                id as int,
                Some((*final(r->Ok_0))@),
            ),
    {
        if id >= MAX_VCPUS {
            return Err(VcpuError::IdOutOfRange);
        }
        if self.count >= MAX_VCPUS {
            return Err(VcpuError::MaxLimitReached);
        }
        if self.vcpus[id].is_some() {
            return Err(VcpuError::IdAlreadyUsed);
        }
        let vcpu = Vcpu::new(id, entry, stack_top);
        let ghost vv = vcpu@;
        self.vcpus[id] = Some(vcpu);
        self.count = self.count + 1;
        assert(self@.slots =~= old(self)@.slots.update(id as int, Some(vv)));
        match &mut self.vcpus[id] {
            Some(v) => Ok(v),
            None => Err(VcpuError::NotFound),
        }
    }

    /// Enters core `vcpu_id`: when the slot holds a core that is not already
    /// running, records it as current, marks it running and returns the
    /// values for the exception return into it. Otherwise nothing changes:
    /// `NotFound` for an empty or out-of-range slot, `InvalidState` for a
    /// core that is running.
    pub fn run_vcpu(&mut self, vcpu_id: usize) -> (r: Result<GuestEntry, VcpuError>)
        requires
            old(self).wf(),
        ensures
            final(self).wf(),
            r is Ok <==> can_enter(old(self)@, vcpu_id),
            r is Err ==> final(self)@ == old(self)@,
            r is Err ==> r->Err_0 == if vcpu_id < MAX_VCPUS && old(self)@.slots[vcpu_id as int] is Some {
                VcpuError::InvalidState
            } else {
                VcpuError::NotFound
            },
            r is Ok ==> {
                let v = old(self)@.slots[vcpu_id as int]->0;
                &&& r->Ok_0 == entry_for(v)
                &&& final(self)@.current == Some(vcpu_id)
                &&& final(self)@.count == old(self)@.count
                &&& final(self)@.slots == old(self)@.slots.update(
                    vcpu_id as int,
                    Some(VcpuView { state: VcpuState::Running, ..v }),
                )
            },
    {
        if vcpu_id >= MAX_VCPUS {
            return Err(VcpuError::NotFound);
        }
        let ready = match &self.vcpus[vcpu_id] {
            Some(v) => v.can_run(),
            None => {
                return Err(VcpuError::NotFound);
            },
        };
        if !ready {
            return Err(VcpuError::InvalidState);
        }
        self.current_vcpu = Some(vcpu_id);
        let r = match &mut self.vcpus[vcpu_id] {
            Some(v) => Ok(v.run()),
            None => Err(VcpuError::NotFound),
        };
        assert(self@.slots =~= old(self)@.slots.update(
            vcpu_id as int,
            Some(VcpuView { state: VcpuState::Running, ..old(self)@.slots[vcpu_id as int]->0 }),
        ));
        r
    }

    /// Mutable access to the core in slot `id`, if there is one.
    pub fn get_vcpu(&mut self, id: usize) -> (r: Option<&mut Vcpu>)
        requires
            old(self).wf(),
        ensures
            final(self).wf(),
            r is Some <==> (id < MAX_VCPUS && old(self)@.slots[id as int] is Some),
            r is None ==> final(self)@ == old(self)@,
            r is Some ==> Some((*r->0)@) == old(self)@.slots[id as int],
            r is Some ==> final(self)@.count == old(self)@.count,
            r is Some ==> final(self)@.current == old(self)@.current,
            r is Some ==> final(self)@.slots == old(self)@.slots.update(
                id as int,
                Some((*final(r->0))@),
            ),
    {
        if id >= MAX_VCPUS || self.vcpus[id].is_none() {
            return None;
        }
        self.vcpus[id].as_mut()
    }

    /// The core most recently entered, if any.
    pub fn current_vcpu_id(&self) -> (r: Option<usize>)
        ensures
            r == self@.current,
    {
        self.current_vcpu
    }

    /// Number of occupied slots.
    pub fn vcpu_count(&self) -> (r: usize)
        ensures
            r == self@.count,
    {
        self.count
    }

    /// Whether some core has been entered.
    pub fn has_running(&self) -> (r: bool)
        ensures
            r == self@.current is Some,
    {
        self.current_vcpu.is_some()
    }

    /// The identities of the occupied slots, in increasing order.
    pub fn iter(&self) -> (r: Vec<usize>)
        ensures
            r@ == occupied_ids(self@.slots, MAX_VCPUS as int),
    {
        let mut r: Vec<usize> = Vec::new();
        let mut i: usize = 0;
        while i < MAX_VCPUS
            invariant
                i <= MAX_VCPUS,
                r@ == occupied_ids(self@.slots, i as int),
            decreases MAX_VCPUS - i,
        {
            if self.vcpus[i].is_some() {
                r.push(i);
            }
            i = i + 1;
        }
        r
    }
}

/// Whether slot `id` holds a core that may be entered.
pub open spec fn can_enter(m: VcpuManagerView, id: usize) -> bool {
    &&& id < MAX_VCPUS
    &&& m.slots[id as int] is Some
    &&& runnable(m.slots[id as int]->0.state)
}

/// Identities of the occupied slots among the first `n`, in increasing order.
pub open spec fn occupied_ids(slots: Seq<Option<VcpuView>>, n: int) -> Seq<usize>
    decreases n,
{
    if n <= 0 {
        Seq::empty()
    } else if slots[n - 1] is Some {
        occupied_ids(slots, n - 1).push((n - 1) as usize)
    } else {
        occupied_ids(slots, n - 1)
    }
}

/// Whether store `n` is store `m` after a creation that put core `v` in
/// slot `id`: one more occupied slot, the same current core. These are the
/// three facts that a successful `create_vcpu` ensures.
pub open spec fn created(m: VcpuManagerView, n: VcpuManagerView, id: usize, v: VcpuView) -> bool {
    &&& n.count == m.count + 1
    &&& n.current == m.current
    &&& n.slots == m.slots.update(id as int, Some(v))
}

/// Starting from an empty store, four successful creations at distinct
/// identities fill it: each was allowed, the count is then 4, and every
/// further creation fails, with `MaxLimitReached` for an identity within the
/// table and `IdOutOfRange` for one past it.
pub proof fn lemma_four_creations_fill_store(
    m0: VcpuManagerView,
    m1: VcpuManagerView,
    m2: VcpuManagerView,
    m3: VcpuManagerView,
    m4: VcpuManagerView,
    ids: Seq<usize>,
    cores: Seq<VcpuView>,
    id: usize,
)
    requires
        m0.slots.len() == MAX_VCPUS,
        m0.count == 0,
        forall|i: int| 0 <= i < MAX_VCPUS ==> #[trigger] m0.slots[i] is None,
        ids.len() == 4,
        cores.len() == 4,
        forall|i: int| 0 <= i < 4 ==> #[trigger] ids[i] < MAX_VCPUS,
        forall|i: int, j: int| 0 <= i < j < 4 ==> ids[i] != ids[j],
        created(m0, m1, ids[0], cores[0]),
        created(m1, m2, ids[1], cores[1]),
        created(m2, m3, ids[2], cores[2]),
        created(m3, m4, ids[3], cores[3]),
    ensures
        create_outcome(m0, ids[0]) is Ok,
        create_outcome(m1, ids[1]) is Ok,
        create_outcome(m2, ids[2]) is Ok,
        create_outcome(m3, ids[3]) is Ok,
        m4.count == 4,
        create_outcome(m4, id) == if id < MAX_VCPUS {
            Err::<(), VcpuError>(VcpuError::MaxLimitReached)
        } else {
            Err::<(), VcpuError>(VcpuError::IdOutOfRange)
        },
{
    assert(ids[0] != ids[1] && ids[0] != ids[2] && ids[0] != ids[3]);
    assert(ids[1] != ids[2] && ids[1] != ids[3] && ids[2] != ids[3]);
    assert(ids[0] < 4 && ids[1] < 4 && ids[2] < 4 && ids[3] < 4);
}

/// Saving a register image and restoring it at once leaves the image as it
/// was: general registers, return address, exception PSTATE, stack pointer
/// and vector base are all unchanged.
pub proof fn lemma_save_restore_round_trip(hw: CpuRegisters)
    ensures
        restored(saved_context(hw), hw) == hw,
{
}

} // verus!
