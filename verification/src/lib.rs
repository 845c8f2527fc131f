//! First-stage boot dispatch for a multi-core ARM64 machine, as a verified
//! model.
//!
//! After reset every core runs the same routine: read the core-identity
//! register, mask it with the affinity mask, and classify the core. The one
//! core whose masked identity is zero is primary and jumps to the kernel
//! entry point with the device-tree pointer in argument register 0 and
//! argument registers 1 to 3 cleared. Every other core is secondary: it
//! waits for an event, reloads the spin-table slot on each wake, keeps
//! waiting while the slot is zero, and jumps to the slot's value once it is
//! non-zero. No writer of the slot exists in this stage, so under it a
//! secondary core waits forever.
//!
//! The hardware itself offers nothing to verify against, so this crate
//! models the dispatcher over plain values: the register read becomes a
//! `u64` argument, the spin-table slot a `u64` observed at each wake, and
//! the irrevocable jump a [`Jump`] record naming the target and the four
//! argument registers. The functions here decide exactly what the stage
//! would do; performing the jump is left to whatever drives the model.

use vstd::prelude::*;

verus! {

/// Bitmask isolating the bits of the core-identity register that
/// distinguish physical cores from cluster and thread information.
pub const AFF_MASK: u64 = 0x00ff_ffff;

/// Physical address of the kernel entry point, fixed at build time.
pub const KERNEL_ENTRY: u64 = 0x0008_0000;

/// Physical address of the device-tree blob handed to the kernel.
pub const DTB_PTR: u64 = 0x0800_0000;

/// How the dispatcher classifies the core it is running on.
#[derive(Clone, Copy, Debug, PartialEq, Eq, Structural)]
pub enum CoreClass {
    /// The single core whose masked identity is zero; it boots the kernel.
    Primary,
    /// Any other core; it waits for a wake address.
    Secondary,
}

/// An irrevocable control transfer: the jump target together with the
/// four argument registers the target reads on entry.
#[derive(Clone, Copy, Debug, PartialEq, Eq, Structural)]
pub struct Jump {
    /// Physical address execution transfers to.
    pub target: u64,
    /// Argument register 0: the device-tree pointer.
    pub arg0: u64,
    /// Argument register 1, reserved and cleared.
    pub arg1: u64,
    /// Argument register 2, reserved and cleared.
    pub arg2: u64,
    /// Argument register 3, reserved and cleared.
    pub arg3: u64,
}

/// What one evaluation of the dispatcher does next.
#[derive(Clone, Copy, Debug, PartialEq, Eq, Structural)]
pub enum BootAction {
    /// Control leaves this stage for `Jump::target`.
    Jump(Jump),
    /// A secondary core re-enters the wait-for-event state.
    Wait,
}

/// The state of one core as it moves through the dispatcher: reset, the
/// secondary wait loop, or control already transferred.
#[derive(Clone, Copy, Debug, PartialEq, Eq, Structural)]
pub enum BootState {
    /// The core has just left reset and has not been classified yet.
    Reset,
    /// A secondary core waiting for a non-zero spin-table slot.
    SecondaryWaiting,
    /// Control has left this stage; the record says where it went.
    Jumped(Jump),
}

/// Classification of a core-identity register value: primary exactly when
/// the masked identity is zero.
pub open spec fn spec_classify(v: u64) -> CoreClass {
    if v & AFF_MASK == 0 {
        CoreClass::Primary
    } else {
        CoreClass::Secondary
    }
}

/// The jump a primary core takes: the kernel entry address, the
/// device-tree pointer in argument register 0, zeros elsewhere.
pub open spec fn spec_kernel_jump() -> Jump {
    Jump { target: KERNEL_ENTRY, arg0: DTB_PTR, arg1: 0, arg2: 0, arg3: 0 }
}

/// The jump a woken secondary core takes: the slot's value as target, the
/// same argument convention as the kernel jump.
pub open spec fn spec_wake_jump(slot: u64) -> Jump {
    Jump { target: slot, arg0: DTB_PTR, arg1: 0, arg2: 0, arg3: 0 }
}

/// One evaluation of the secondary wait loop against the slot value it
/// just reloaded: keep waiting on zero, jump to anything else.
pub open spec fn spec_secondary_step(slot: u64) -> BootAction {
    if slot == 0 {
        BootAction::Wait
    } else {
        BootAction::Jump(spec_wake_jump(slot))
    }
}

/// One evaluation of the whole dispatcher: classify, then either the
/// kernel jump or the secondary wait decision.
pub open spec fn spec_dispatch(v: u64, slot: u64) -> BootAction {
    match spec_classify(v) {
        CoreClass::Primary => BootAction::Jump(spec_kernel_jump()),
        CoreClass::Secondary => spec_secondary_step(slot),
    }
}

/// The dispatcher's state transition. At reset only the register value is
/// read; in the wait loop only the slot; a transferred core never comes
/// back.
pub open spec fn spec_step(s: BootState, v: u64, slot: u64) -> BootState {
    match s {
        BootState::Reset => {
            if spec_classify(v) == CoreClass::Primary {
                BootState::Jumped(spec_kernel_jump())
            } else {
                BootState::SecondaryWaiting
            }
        },
        BootState::SecondaryWaiting => {
            if slot == 0 {
                BootState::SecondaryWaiting
            } else {
                BootState::Jumped(spec_wake_jump(slot))
            }
        },
        BootState::Jumped(j) => BootState::Jumped(j),
    }
}

/// Whether every slot value observed over a run of wake events was zero.
pub open spec fn all_zero(slots: Seq<u64>) -> bool {
    forall|j: int| 0 <= j < slots.len() ==> slots[j] == 0
}

/// The outcome of the secondary wait loop over the slot values observed at
/// successive wake events: the jump taken at the first non-zero value, or
/// `None` when the core is still waiting after the last event.
pub open spec fn spec_wait(slots: Seq<u64>) -> Option<Jump>
    decreases slots.len(),
{
    if slots.len() == 0 {
        None
    } else if slots[0] != 0 {
        Some(spec_wake_jump(slots[0]))
    } else {
        spec_wait(slots.drop_first())
    }
}

/// The outcome of a whole core's run: a primary core jumps at once and
/// never consults the slot; a secondary core's fate is the wait loop's.
pub open spec fn spec_simulate(v: u64, slots: Seq<u64>) -> Option<Jump> {
    if spec_classify(v) == CoreClass::Primary {
        Some(spec_kernel_jump())
    } else {
        spec_wait(slots)
    }
}

/// Classifies a core by its core-identity register value.
pub fn classify(v: u64) -> (c: CoreClass)
    ensures
        c == spec_classify(v),
        (c == CoreClass::Primary) <==> (v & AFF_MASK == 0),
        (c == CoreClass::Secondary) <==> (v & AFF_MASK != 0),
{
    if v & AFF_MASK == 0 {
        CoreClass::Primary
    } else {
        CoreClass::Secondary
    }
}

/// Builds the jump a primary core takes into the kernel.
pub fn primary_jump() -> (j: Jump)
    ensures
        j == spec_kernel_jump(),
        j.target == KERNEL_ENTRY,
        j.arg0 == DTB_PTR,
        j.arg1 == 0,
        j.arg2 == 0,
        j.arg3 == 0,
{
    Jump { target: KERNEL_ENTRY, arg0: DTB_PTR, arg1: 0, arg2: 0, arg3: 0 }
}

/// Builds the jump a woken secondary core takes to the given wake address.
pub fn wake_jump(slot: u64) -> (j: Jump)
    ensures
        j == spec_wake_jump(slot),
        j.target == slot,
        j.arg0 == DTB_PTR,
        j.arg1 == 0,
        j.arg2 == 0,
        j.arg3 == 0,
{
    Jump { target: slot, arg0: DTB_PTR, arg1: 0, arg2: 0, arg3: 0 }
}

/// One evaluation of the secondary wait loop: the core keeps waiting
/// exactly while the reloaded slot is zero, and otherwise jumps to the
/// slot's value.
pub fn secondary_step(slot: u64) -> (a: BootAction)
    ensures
        a == spec_secondary_step(slot),
        (slot == 0) <==> (a == BootAction::Wait),
        slot != 0 ==> a == BootAction::Jump(spec_wake_jump(slot)),
{
    if slot == 0 {
        BootAction::Wait
    } else {
        BootAction::Jump(wake_jump(slot))
    }
}

/// One evaluation of the whole dispatcher against the current register and
/// slot values.
pub fn dispatch(v: u64, slot: u64) -> (a: BootAction)
    ensures
        a == spec_dispatch(v, slot),
        v & AFF_MASK == 0 ==> a == BootAction::Jump(spec_kernel_jump()),
        v & AFF_MASK != 0 && slot == 0 ==> a == BootAction::Wait,
        v & AFF_MASK != 0 && slot != 0 ==> a == BootAction::Jump(spec_wake_jump(slot)),
{
    match classify(v) {
        CoreClass::Primary => BootAction::Jump(primary_jump()),
        CoreClass::Secondary => secondary_step(slot),
    }
}

/// Advances a core's state by one event: classification at reset, a slot
/// check in the wait loop. A state whose control has already transferred is
/// terminal.
pub fn step(s: BootState, v: u64, slot: u64) -> (t: BootState)
    ensures
        t == spec_step(s, v, slot),
{
    match s {
        BootState::Reset => {
            match classify(v) {
                CoreClass::Primary => BootState::Jumped(primary_jump()),
                CoreClass::Secondary => BootState::SecondaryWaiting,
            }
        },
        BootState::SecondaryWaiting => {
            if slot == 0 {
                BootState::SecondaryWaiting
            } else {
                BootState::Jumped(wake_jump(slot))
            }
        },
        BootState::Jumped(j) => BootState::Jumped(j),
    }
}

/// Runs the secondary wait loop over the slot values observed at
/// successive wake events, in order. Returns the jump taken at the first
/// non-zero value, or `None` when every observed value was zero and the
/// core is still waiting.
pub fn wait_for_wake(slots: &Vec<u64>) -> (r: Option<Jump>)
    ensures
        r == spec_wait(slots@),
        (r is None) <==> all_zero(slots@),
{
    let n: usize = slots.len();
    let mut i: usize = 0;
    assert(slots@.subrange(0, n as int) =~= slots@);
    while i < n
        invariant
            n == slots@.len(),
            0 <= i <= n,
            forall|j: int| 0 <= j < i ==> slots@[j] == 0,
            spec_wait(slots@) == spec_wait(slots@.subrange(i as int, n as int)),
        decreases n - i,
    {
        let slot: u64 = slots[i];
        if slot != 0 {
            assert(slots@.subrange(i as int, n as int)[0] == slot);
            return Some(wake_jump(slot));
        }
        assert(slots@.subrange(i as int, n as int).drop_first() =~= slots@.subrange(
            i as int + 1,
            n as int,
        ));
        i = i + 1;
    }
    None
}

/// Simulates one core's whole run: classification, then either the kernel
/// jump or the wait loop over the observed slot values.
pub fn simulate(v: u64, slots: &Vec<u64>) -> (r: Option<Jump>)
    ensures
        r == spec_simulate(v, slots@),
        v & AFF_MASK == 0 ==> r == Some(spec_kernel_jump()),
        v & AFF_MASK != 0 ==> r == spec_wait(slots@),
{
    match classify(v) {
        CoreClass::Primary => Some(primary_jump()),
        CoreClass::Secondary => wait_for_wake(slots),
    }
}

/// Every register value is classified, as primary exactly when its masked
/// identity is zero and as secondary otherwise, and never both.
pub proof fn lemma_classification_total(v: u64)
    ensures
        (spec_classify(v) == CoreClass::Primary) <==> (v & AFF_MASK == 0),
        (spec_classify(v) == CoreClass::Secondary) <==> (v & AFF_MASK != 0),
        spec_classify(v) == CoreClass::Primary || spec_classify(v) == CoreClass::Secondary,
{
}

/// The core whose identity register reads zero is the primary core.
pub proof fn lemma_core_zero_is_primary()
    ensures
        spec_classify(0) == CoreClass::Primary,
{
    assert(0u64 & AFF_MASK == 0) by (bit_vector);
}

/// Bits outside the affinity mask never affect classification: a register
/// value and its masked identity classify alike.
pub proof fn lemma_cluster_bits_ignored(v: u64)
    ensures
        spec_classify(v & AFF_MASK) == spec_classify(v),
{
    assert((v & AFF_MASK) & AFF_MASK == v & AFF_MASK) by (bit_vector);
}

/// Classification has no hidden state: two classifications of the same
/// register value agree, however often the step is re-run.
pub proof fn lemma_classify_idempotent(v: u64, c1: CoreClass, c2: CoreClass)
    requires
        c1 == spec_classify(v),
        c2 == spec_classify(v),
    ensures
        c1 == c2,
{
}

/// A secondary core whose every observed slot value is zero never jumps,
/// across any number of wake events.
pub proof fn lemma_wait_never_wakes(slots: Seq<u64>)
    requires
        all_zero(slots),
    ensures
        spec_wait(slots) is None,
    decreases slots.len(),
{
    if slots.len() > 0 {
        assert(slots[0] == 0);
        assert forall|j: int| 0 <= j < slots.drop_first().len() implies slots.drop_first()[j]
            == 0 by {
            assert(slots.drop_first()[j] == slots[j + 1]);
        }
        lemma_wait_never_wakes(slots.drop_first());
    }
}

/// A secondary core that observes a non-zero slot value, after only zeros,
/// jumps to exactly that value under the fixed argument convention.
pub proof fn lemma_first_wake_jumps(slots: Seq<u64>, k: int)
    requires
        0 <= k < slots.len(),
        slots[k] != 0,
        forall|j: int| 0 <= j < k ==> slots[j] == 0,
    ensures
        spec_wait(slots) == Some(spec_wake_jump(slots[k])),
        spec_wait(slots)->Some_0.target == slots[k],
    decreases k,
{
    if k > 0 {
        assert(slots[0] == 0);
        assert(slots.drop_first()[k - 1] == slots[k]);
        assert forall|j: int| 0 <= j < k - 1 implies slots.drop_first()[j] == 0 by {
            assert(slots.drop_first()[j] == slots[j + 1]);
        }
        lemma_first_wake_jumps(slots.drop_first(), k - 1);
    }
}

/// A state whose control has transferred is terminal: no later event moves
/// it, so control leaves this stage exactly once.
pub proof fn lemma_jumped_is_terminal(j: Jump, v: u64, slot: u64)
    ensures
        spec_step(BootState::Jumped(j), v, slot) == BootState::Jumped(j),
{
}

} // verus!
