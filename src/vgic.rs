//! Virtual interrupt controller: per-core bounded FIFO of pending virtual
//! interrupt identifiers, and the reconciliation of that queue with the
//! hardware list registers before each guest resume.
use vstd::prelude::*;
use crate::hyp::Hypervisor;
use crate::vcpu::MAX_VCPUS;

verus! {

/// Number of hardware list registers.
pub const MAX_LR: usize = 4;

/// Capacity of a pending queue.
pub const MAX_PENDING: usize = 64;

/// List-register state field value of an interrupt acknowledged by the
/// guest and not yet deactivated.
pub const LR_STATE_ACTIVE: u64 = 2;

/// A list-register value holding `intid` in the Pending state, Group 1.
pub open spec fn pending_lr(intid: u32) -> u64 {
    (1u64 << 62u64) | (1u64 << 60u64) | (intid as u64)
}

/// The state field (bits 63:62) of a list-register value.
pub open spec fn lr_state(lr: u64) -> u64 {
    (lr >> 62u64) & 3u64
}

/// Whether bit `i` of a status bitmap is set.
pub open spec fn bit_set(mask: u64, i: int) -> bool {
    mask & (1u64 << (i as u64)) != 0
}

/// The list registers below `n` that `mask` reports empty, in increasing order.
pub open spec fn free_lrs(mask: u64, n: int) -> Seq<usize>
    decreases n,
{
    if n <= 0 {
        Seq::empty()
    } else if bit_set(mask, n - 1) {
        free_lrs(mask, n - 1).push((n - 1) as usize)
    } else {
        free_lrs(mask, n - 1)
    }
}

/// The list registers below `n` that `empty_mask` reports in use and whose
/// value is in the Active state, in increasing order.
pub open spec fn stale_active_lrs(empty_mask: u64, lrs: Seq<u64>, n: int) -> Seq<usize>
    decreases n,
{
    if n <= 0 {
        Seq::empty()
    } else if !bit_set(empty_mask, n - 1) && lr_state(lrs[n - 1]) == LR_STATE_ACTIVE {
        stale_active_lrs(empty_mask, lrs, n - 1).push((n - 1) as usize)
    } else {
        stale_active_lrs(empty_mask, lrs, n - 1)
    }
}

/// A pending queue as seen by contracts: the ring buffer's cells, the number
/// of pending entries, and the head and tail indices.
pub struct VgicView {
    pub irqs: Seq<u32>,
    pub count: usize,
    pub head: usize,
    pub tail: usize,
}

impl VgicView {
    /// Indices in range and the tail `count` cells past the head.
    pub open spec fn wf(self) -> bool {
        &&& self.irqs.len() == MAX_PENDING
        &&& self.head < MAX_PENDING
        &&& self.tail < MAX_PENDING
        &&& self.count <= MAX_PENDING
        &&& self.tail == (self.head + self.count) % (MAX_PENDING as int)
    }

    /// The pending identifiers, oldest first.
    pub open spec fn pending(self) -> Seq<u32> {
        Seq::new(self.count as nat, |k: int| self.irqs[(self.head + k) % (MAX_PENDING as int)])
    }

    /// The queue emptied, cells kept.
    pub open spec fn emptied(self) -> VgicView {
        VgicView { count: 0, head: 0, tail: 0, ..self }
    }
}

/// The queue after `intid` is offered to it: appended at the tail, or
/// dropped when the queue is full.
pub open spec fn inject_spec(q: VgicView, intid: u32) -> VgicView {
    if q.count >= MAX_PENDING {
        q
    } else {
        VgicView {
            irqs: q.irqs.update(q.tail as int, intid),
            tail: ((q.tail + 1) % (MAX_PENDING as int)) as usize,
            count: (q.count + 1) as usize,
            head: q.head,
        }
    }
}

/// The queue as flush sees it after its index check: emptied when the head
/// or tail index is out of range, else unchanged.
pub open spec fn checked(q: VgicView) -> VgicView {
    if q.head >= MAX_PENDING || q.tail >= MAX_PENDING {
        q.emptied()
    } else {
        q
    }
}

/// How many entries a flush moves: one per empty list register, as long as
/// entries remain.
pub open spec fn flush_count(q: VgicView, free_mask: u64) -> int {
    let f = free_lrs(free_mask, MAX_LR as int).len() as int;
    let c = checked(q).count as int;
    if f < c {
        f
    } else {
        c
    }
}

/// The list-register writes of a flush: the `t`-th empty register receives
/// the `t`-th oldest pending identifier, tagged Pending and Group 1.
pub open spec fn flush_writes(q: VgicView, free_mask: u64) -> Seq<(usize, u64)> {
    let c = checked(q);
    Seq::new(
        flush_count(q, free_mask) as nat,
        |t: int|
            (
                free_lrs(free_mask, MAX_LR as int)[t],
                pending_lr(c.irqs[(c.head + t) % (MAX_PENDING as int)]),
            ),
    )
}

/// The queue after a flush: the moved entries leave from the head.
pub open spec fn flush_spec(q: VgicView, free_mask: u64) -> VgicView {
    let c = checked(q);
    let k = flush_count(q, free_mask);
    VgicView {
        head: ((c.head + k) % (MAX_PENDING as int)) as usize,
        count: (c.count - k) as usize,
        ..c
    }
}

/// One core's pending virtual interrupts.
#[derive(Debug, Clone, Copy)]
pub struct Vgic {
    pending_irqs: [u32; 64],
    pending_count: usize,
    pending_head: usize,
    pending_tail: usize,
}

impl View for Vgic {
    type V = VgicView;

    closed spec fn view(&self) -> VgicView {
        VgicView {
            irqs: self.pending_irqs@,
            count: self.pending_count,
            head: self.pending_head,
            tail: self.pending_tail,
        }
    }
}

impl Vgic {
    /// An empty queue.
    pub fn new() -> (r: Self)
        ensures
            r@.wf(),
            r@.count == 0,
            r@.head == 0,
    {
        Vgic { pending_irqs: [0u32; 64], pending_count: 0, pending_head: 0, pending_tail: 0 }
    }

    /// Number of pending entries.
    pub fn pending_count(&self) -> (r: usize)
        ensures
            r == self@.count,
    {
        self.pending_count
    }

    /// Index of the oldest pending entry.
    pub fn pending_head(&self) -> (r: usize)
        ensures
            r == self@.head,
    {
        self.pending_head
    }

    /// Index of the cell that the next entry goes to.
    pub fn pending_tail(&self) -> (r: usize)
        ensures
            r == self@.tail,
    {
        self.pending_tail
    }

    /// The pending identifiers, oldest first.
    pub fn pending(&self) -> (r: Vec<u32>)
        requires
            self@.wf(),
        ensures
            r@ == self@.pending(),
    {
        let mut r: Vec<u32> = Vec::new();
        let mut k: usize = 0;
        while k < self.pending_count
            invariant
                self@.wf(),
                k <= self.pending_count,
                r@ == self@.pending().take(k as int),
            decreases self.pending_count - k,
        {
            r.push(self.pending_irqs[(self.pending_head + k) % MAX_PENDING]);
            k = k + 1;
            assert(r@ =~= self@.pending().take(k as int));
        }
        assert(r@ =~= self@.pending());
        r
    }

    /// Empties the queue; the cells keep their old contents.
    pub fn reset(&mut self)
        ensures
            final(self)@ == old(self)@.emptied(),
    {
        self.pending_head = 0;
        self.pending_tail = 0;
        self.pending_count = 0;
    }

    /// Appends `intid` at the tail; when the queue is full it is dropped.
    pub fn inject(&mut self, intid: u32)
        requires
            old(self)@.wf(),
        ensures
            final(self)@ == inject_spec(old(self)@, intid),
            final(self)@.wf(),
    {
        if self.pending_count >= MAX_PENDING {
            return;
        }
        self.pending_irqs[self.pending_tail] = intid;
        self.pending_tail = (self.pending_tail + 1) % MAX_PENDING;
        self.pending_count = self.pending_count + 1;
    }

    /// Moves pending entries into the list registers that `free_mask`
    /// reports empty (bit `i` for register `i`), oldest entry into the
    /// lowest register, until registers or entries run out. Indices out of
    /// range are first repaired by emptying the queue. Returns the writes
    /// to perform, as (register, value) pairs in increasing register order.
    #[verifier::rlimit(40)]
    pub fn flush(&mut self, free_mask: u64) -> (r: Vec<(usize, u64)>)
        ensures
            final(self)@ == flush_spec(old(self)@, free_mask),
            r@ == flush_writes(old(self)@, free_mask),
            old(self)@.wf() ==> final(self)@.wf(),
    {
        if self.pending_head >= MAX_PENDING || self.pending_tail >= MAX_PENDING {
            self.reset();
        }
        let ghost c = self@;
        let mut writes: Vec<(usize, u64)> = Vec::new();
        let mut i: usize = 0;
        while i < MAX_LR
            invariant
                c == checked(old(self)@),
                i <= MAX_LR,
                c.head < MAX_PENDING,
                self@.irqs == c.irqs,
                self@.tail == c.tail,
                writes@.len() <= c.count,
                writes@.len() == if free_lrs(free_mask, i as int).len() < c.count {
                    free_lrs(free_mask, i as int).len() as int
                } else {
                    c.count as int
                },
                self@.head == (c.head + writes@.len()) % (MAX_PENDING as int),
                self@.count == c.count - writes@.len(),
                forall|t: int|
                    0 <= t < writes@.len() ==> #[trigger] writes@[t] == (
                        free_lrs(free_mask, i as int)[t],
                        pending_lr(c.irqs[(c.head + t) % (MAX_PENDING as int)]),
                    ),
            decreases MAX_LR - i,
        {
            let ghost before = free_lrs(free_mask, i as int);
            assert(free_lrs(free_mask, i + 1) == if bit_set(free_mask, i as int) {
                before.push(i)
            } else {
                before
            });
            if (free_mask & (1u64 << (i as u64))) != 0 && self.pending_count > 0 {
                let intid = self.pending_irqs[self.pending_head];
                self.pending_head = (self.pending_head + 1) % MAX_PENDING;
                self.pending_count = self.pending_count - 1;
                let lr_val: u64 = (1u64 << 62u64) | (1u64 << 60u64) | (intid as u64);
                writes.push((i, lr_val));
            }
            i = i + 1;
        }
        proof {
            assert(writes@ =~= flush_writes(old(self)@, free_mask));
        }
        writes
    }
}

/// Which list registers a flush must clear before refilling: those that
/// `empty_mask` reports in use and whose value `lrs[i]` is in the Active
/// state, so that an acknowledged interrupt cannot block later ones.
pub fn stale_active_lr_indices(empty_mask: u64, lrs: &[u64; 4]) -> (r: Vec<usize>)
    ensures
        r@ == stale_active_lrs(empty_mask, lrs@, MAX_LR as int),
{
    let mut r: Vec<usize> = Vec::new();
    let mut i: usize = 0;
    while i < MAX_LR
        invariant
            i <= MAX_LR,
            r@ == stale_active_lrs(empty_mask, lrs@, i as int),
        decreases MAX_LR - i,
    {
        if (empty_mask & (1u64 << (i as u64))) == 0 && ((lrs[i] >> 62u64) & 3u64)
            == LR_STATE_ACTIVE {
            r.push(i);
        }
        i = i + 1;
    }
    r
}

/// Whether every per-core queue is well formed.
pub open spec fn all_wf(vgics: Seq<Vgic>) -> bool {
    forall|i: int| 0 <= i < vgics.len() ==> (#[trigger] vgics[i])@.wf()
}

/// Whether two banks of queues agree everywhere but at `id`.
pub open spec fn same_except(a: Seq<Vgic>, b: Seq<Vgic>, id: int) -> bool {
    &&& a.len() == b.len()
    &&& forall|j: int| 0 <= j < a.len() && j != id ==> #[trigger] a[j] == b[j]
}

/// One-time per-core setup of the queue: core `vcpu_id`'s queue is emptied.
/// Identities past the table are ignored.
pub fn cpu_init(vgics: &mut [Vgic; 4], vcpu_id: usize)
    ensures
        vcpu_id >= MAX_VCPUS ==> *final(vgics) == *old(vgics),
        vcpu_id < MAX_VCPUS ==> same_except(old(vgics)@, final(vgics)@, vcpu_id as int),
        vcpu_id < MAX_VCPUS ==> final(vgics)@[vcpu_id as int]@ == old(
            vgics,
        )@[vcpu_id as int]@.emptied(),
{
    if vcpu_id >= MAX_VCPUS {
        return;
    }
    let mut g = vgics[vcpu_id];
    g.reset();
    vgics[vcpu_id] = g;
}

/// Queues `intid` for core `vcpu_id`; dropped when that queue is full.
/// Identities past the table are ignored.
pub fn inject(vgics: &mut [Vgic; 4], vcpu_id: usize, intid: u32)
    requires
        all_wf(old(vgics)@),
    ensures
        all_wf(final(vgics)@),
        vcpu_id >= MAX_VCPUS ==> *final(vgics) == *old(vgics),
        vcpu_id < MAX_VCPUS ==> same_except(old(vgics)@, final(vgics)@, vcpu_id as int),
        vcpu_id < MAX_VCPUS ==> final(vgics)@[vcpu_id as int]@ == inject_spec(
            old(vgics)@[vcpu_id as int]@,
            intid,
        ),
{
    if vcpu_id >= MAX_VCPUS {
        return;
    }
    let mut g = vgics[vcpu_id];
    g.inject(intid);
    vgics[vcpu_id] = g;
}

/// Flushes core `vcpu_id`'s queue into the list registers that `free_mask`
/// reports empty, and returns the list-register writes to perform.
/// Identities past the table are ignored.
pub fn flush(vgics: &mut [Vgic; 4], vcpu_id: usize, free_mask: u64) -> (r: Vec<(usize, u64)>)
    requires
        all_wf(old(vgics)@),
    ensures
        all_wf(final(vgics)@),
        vcpu_id >= MAX_VCPUS ==> *final(vgics) == *old(vgics) && r@.len() == 0,
        vcpu_id < MAX_VCPUS ==> same_except(old(vgics)@, final(vgics)@, vcpu_id as int),
        vcpu_id < MAX_VCPUS ==> final(vgics)@[vcpu_id as int]@ == flush_spec(
            old(vgics)@[vcpu_id as int]@,
            free_mask,
        ),
        vcpu_id < MAX_VCPUS ==> r@ == flush_writes(old(vgics)@[vcpu_id as int]@, free_mask),
{
    if vcpu_id >= MAX_VCPUS {
        return Vec::new();
    }
    let mut g = vgics[vcpu_id];
    let r = g.flush(free_mask);
    vgics[vcpu_id] = g;
    r
}

/// Queues `intid` for the current core, if there is one.
pub fn inject_irq(hv: &mut Hypervisor, intid: u32)
    requires
        old(hv).wf(),
    ensures
        final(hv).wf(),
        final(hv).vcpus == old(hv).vcpus,
        old(hv).vcpus@.current is None ==> final(hv).vgics == old(hv).vgics,
        old(hv).vcpus@.current matches Some(id) ==> same_except(
            old(hv).vgics@,
            final(hv).vgics@,
            id as int,
        ) && final(hv).vgics@[id as int]@ == inject_spec(old(hv).vgics@[id as int]@, intid),
{
    if let Some(id) = hv.vcpus.current_vcpu_id() {
        inject(&mut hv.vgics, id, intid);
    }
}

/// Queues `intid` for the current core, if there is one. Fast interrupts
/// share the pending queue of ordinary ones.
pub fn inject_fiq(hv: &mut Hypervisor, intid: u32)
    requires
        old(hv).wf(),
    ensures
        final(hv).wf(),
        final(hv).vcpus == old(hv).vcpus,
        old(hv).vcpus@.current is None ==> final(hv).vgics == old(hv).vgics,
        old(hv).vcpus@.current matches Some(id) ==> same_except(
            old(hv).vgics@,
            final(hv).vgics@,
            id as int,
        ) && final(hv).vgics@[id as int]@ == inject_spec(old(hv).vgics@[id as int]@, intid),
{
    inject_irq(hv, intid);
}

/// Post-exit synchronisation of a core's queue with its list registers;
/// nothing needs updating in this design.
pub fn sync(_vcpu_id: usize) {
}

/// Global distributor setup; there is none to do in this design.
pub fn init() {
}

/// The queue after each of `ids` is offered to it in order.
pub open spec fn inject_all(q: VgicView, ids: Seq<u32>) -> VgicView
    decreases ids.len(),
{
    if ids.len() == 0 {
        q
    } else {
        inject_spec(inject_all(q, ids.drop_last()), ids.last())
    }
}

/// Every register `free_lrs` lists is below `n` and reported empty.
pub proof fn lemma_free_lrs_are_free(mask: u64, n: int)
    requires
        n <= MAX_LR,
    ensures
        forall|t: int|
            0 <= t < free_lrs(mask, n).len() ==> #[trigger] free_lrs(mask, n)[t] < n
                && bit_set(mask, free_lrs(mask, n)[t] as int),
    decreases n,
{
    if n > 0 {
        lemma_free_lrs_are_free(mask, n - 1);
        let prev = free_lrs(mask, n - 1);
        if bit_set(mask, n - 1) {
            assert forall|t: int| 0 <= t < prev.len() + 1 implies #[trigger] prev.push(
                (n - 1) as usize,
            )[t] < n && bit_set(mask, prev.push((n - 1) as usize)[t] as int) by {
                if t < prev.len() {
                    assert(prev.push((n - 1) as usize)[t] == prev[t]);
                }
            }
        }
    }
}

/// A register below `n` reported empty makes the list non-empty.
proof fn lemma_free_lrs_nonempty(mask: u64, n: int, i: int)
    requires
        0 <= i < n,
        bit_set(mask, i),
    ensures
        free_lrs(mask, n).len() > 0,
    decreases n,
{
    if i < n - 1 {
        lemma_free_lrs_nonempty(mask, n - 1, i);
    }
}

/// An identifier injected into an empty queue and flushed while some list
/// register is empty leaves the queue again: the count drops by one, the
/// head moves one cell on, and the identifier is written, tagged Pending and
/// Group 1, into a register that was reported empty.
pub proof fn lemma_inject_then_flush(q: VgicView, intid: u32, free_mask: u64, i: int)
    requires
        q.wf(),
        q.count == 0,
        0 <= i < MAX_LR,
        bit_set(free_mask, i),
    ensures
        ({
            let q1 = inject_spec(q, intid);
            let q2 = flush_spec(q1, free_mask);
            let w = flush_writes(q1, free_mask);
            &&& q1.count == 1
            &&& q2.count == q1.count - 1
            &&& q2.head == (q1.head + 1) % (MAX_PENDING as int)
            &&& q2.wf()
            &&& w.len() == 1
            &&& w[0].1 == pending_lr(intid)
            &&& w[0].0 < MAX_LR
            &&& bit_set(free_mask, w[0].0 as int)
        }),
{
    lemma_free_lrs_nonempty(free_mask, MAX_LR as int, i);
    lemma_free_lrs_are_free(free_mask, MAX_LR as int);
    let q1 = inject_spec(q, intid);
    assert(q1.irqs[q1.head as int] == intid);
}

/// Offering an identifier to a queue with room appends it to the pending
/// entries.
proof fn lemma_inject_appends(p: VgicView, x: u32)
    requires
        p.wf(),
        p.count < MAX_PENDING,
    ensures
        inject_spec(p, x).wf(),
        inject_spec(p, x).head == p.head,
        inject_spec(p, x).pending() == p.pending().push(x),
{
    let r = inject_spec(p, x);
    assert forall|k: int| 0 <= k < r.count implies #[trigger] r.pending()[k] == p.pending().push(
        x,
    )[k] by {
        if k < p.count {
            assert((p.head + k) % 64 != (p.head + p.count) % 64);
        }
    }
    assert(r.pending() =~= p.pending().push(x));
}

/// Offering up to a queue's capacity of identifiers to an empty queue keeps
/// them all, in order.
pub proof fn lemma_inject_all_keeps(q: VgicView, ids: Seq<u32>)
    requires
        q.wf(),
        q.count == 0,
        ids.len() <= MAX_PENDING,
    ensures
        inject_all(q, ids).wf(),
        inject_all(q, ids).count == ids.len(),
        inject_all(q, ids).head == q.head,
        inject_all(q, ids).pending() == ids,
    decreases ids.len(),
{
    if ids.len() == 0 {
        assert(q.pending() =~= ids);
    } else {
        let prev = ids.drop_last();
        lemma_inject_all_keeps(q, prev);
        lemma_inject_appends(inject_all(q, prev), ids.last());
        assert(prev.push(ids.last()) =~= ids);
    }
}

/// Once a queue holds its capacity, a further identifier is dropped: after
/// 65 identifiers are offered to an empty queue, it holds exactly 64 and is
/// the same as after the first 64 alone.
pub proof fn lemma_overflow_dropped(q: VgicView, ids: Seq<u32>)
    requires
        q.wf(),
        q.count == 0,
        ids.len() == MAX_PENDING + 1,
    ensures
        inject_all(q, ids) == inject_all(q, ids.take(MAX_PENDING as int)),
        inject_all(q, ids).count == MAX_PENDING,
        inject_all(q, ids).pending() == ids.take(MAX_PENDING as int),
{
    assert(ids.drop_last() =~= ids.take(MAX_PENDING as int));
    lemma_inject_all_keeps(q, ids.take(MAX_PENDING as int));
}

} // verus!
