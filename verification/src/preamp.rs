//! Preamp stage bookkeeping: which of the cascaded triode stages are active
//! and which hold a configured stage.
//!
//! The slots are generic over the stage type. Active stages keep their
//! settings when the stage count changes; stages added by raising the count
//! are freshly made with default settings.

use vstd::prelude::*;

verus! {

/// Maximum number of cascaded preamp stages.
pub const MAX_STAGES: usize = 4;

/// `n` clamped to the supported range of stage counts, 1 to [`MAX_STAGES`].
pub open spec fn clamp_stage_count(n: int) -> int {
    if n < 1 {
        1
    } else if n > MAX_STAGES {
        MAX_STAGES as int
    } else {
        n
    }
}

/// Every slot below `upto` holds the same stage in `after` as in `before`.
pub open spec fn keeps_stages<T>(before: Seq<Option<T>>, after: Seq<Option<T>>, upto: int) -> bool {
    forall|i: int| 0 <= i < upto && 0 <= i < before.len() ==> #[trigger] after[i] == before[i]
}

/// Mutable access to the stage held in `slot`, if any.
fn slot_mut<T>(slot: &mut Option<T>) -> (r: Option<&mut T>)
    ensures
        *old(slot) is None ==> r is None && *final(slot) == *old(slot),
        *old(slot) is Some ==> r is Some && *r->Some_0 == (*old(slot))->Some_0 && *final(slot)
            == Some(*final(r->Some_0)),
    no_unwind
{
    match slot {
        Some(stage) => Some(stage),
        None => None,
    }
}

/// Puts `stage` into slot `i`.
fn fill_slot<T>(slots: &mut [Option<T>; MAX_STAGES], i: usize, stage: T)
    requires
        i < MAX_STAGES,
    ensures
        final(slots)@ == old(slots)@.update(i as int, Some(stage)),
    no_unwind
{
    slots[i] = Some(stage);
}

/// Up to [`MAX_STAGES`] stage slots, of which the first `num_stages` are active.
pub struct StageSlots<T> {
    stages: [Option<T>; MAX_STAGES],
    num_stages: usize,
}

impl<T> StageSlots<T> {
    /// The slots, first stage first.
    pub closed spec fn slots(&self) -> Seq<Option<T>> {
        self.stages@
    }

    /// The number of active stages.
    pub closed spec fn count(&self) -> nat {
        self.num_stages as nat
    }

    /// Between one and four stages are active, and each active slot holds a stage.
    #[verifier::type_invariant]
    spec fn wf(&self) -> bool {
        &&& 1 <= self.num_stages <= MAX_STAGES
        &&& forall|i: int| 0 <= i < self.num_stages ==> #[trigger] self.stages@[i] is Some
    }

    /// Each active slot holds a stage, and between one and four are active.
    pub open spec fn holds_active_stages(&self) -> bool {
        &&& self.slots().len() == MAX_STAGES
        &&& 1 <= self.count() <= MAX_STAGES
        &&& forall|i: int| 0 <= i < self.count() ==> #[trigger] self.slots()[i] is Some
    }

    /// `num_stages` active stages (clamped to 1..=4), each made by `make`.
    pub fn new<F: Fn() -> T>(num_stages: usize, make: F) -> (s: Self)
        requires
            make.requires(()),
        ensures
            s.holds_active_stages(),
            s.count() == clamp_stage_count(num_stages as int),
            1 <= num_stages <= MAX_STAGES ==> s.count() == num_stages,
            num_stages == 0 ==> s.count() == 1,
            num_stages > MAX_STAGES ==> s.count() == MAX_STAGES,
            forall|i: int|
                0 <= i < s.count() ==> make.ensures((), #[trigger] s.slots()[i]->Some_0),
            forall|i: int| s.count() <= i < MAX_STAGES ==> #[trigger] s.slots()[i] is None,
    {
        let num = if num_stages < 1 {
            1
        } else if num_stages > MAX_STAGES {
            MAX_STAGES
        } else {
            num_stages
        };
        let mut stages: [Option<T>; MAX_STAGES] = [None, None, None, None];
        let mut i: usize = 0;
        while i < num
            invariant
                make.requires(()),
                1 <= num <= MAX_STAGES,
                i <= num,
                forall|j: int| 0 <= j < i ==> #[trigger] stages@[j] is Some && make.ensures((), stages@[j]->Some_0),
                forall|j: int| i <= j < MAX_STAGES ==> #[trigger] stages@[j] is None,
            decreases num - i,
        {
            stages[i] = Some(make());
            i = i + 1;
        }
        StageSlots { stages, num_stages: num }
    }

    /// The number of active stages.
    pub fn num_stages(&self) -> (n: usize)
        ensures
            n == self.count(),
            1 <= n <= MAX_STAGES,
    {
        proof {
            use_type_invariant(self);
        }
        self.num_stages
    }

    /// Activates `num` stages (clamped to 1..=4). Stages that stay active keep
    /// their settings; stages added by raising the count are made by `make`
    /// (default settings); slots switched off are left as they were.
    pub fn set_num_stages<F: Fn() -> T>(&mut self, num: usize, make: F)
        requires
            make.requires(()),
        ensures
            final(self).holds_active_stages(),
            final(self).count() == clamp_stage_count(num as int),
            1 <= num <= MAX_STAGES ==> final(self).count() == num,
            num == 0 ==> final(self).count() == 1,
            num > MAX_STAGES ==> final(self).count() == MAX_STAGES,
            keeps_stages(old(self).slots(), final(self).slots(), old(self).count() as int),
            forall|i: int|
                old(self).count() <= i < final(self).count() ==> #[trigger] final(self).slots()[i]
                    is Some && make.ensures((), final(self).slots()[i]->Some_0),
            forall|i: int|
                final(self).count() <= i < MAX_STAGES ==> #[trigger] final(self).slots()[i]
                    == old(self).slots()[i],
    {
        proof {
            use_type_invariant(&*self);
        }
        let n = if num < 1 {
            1
        } else if num > MAX_STAGES {
            MAX_STAGES
        } else {
            num
        };
        let mut i: usize = self.num_stages;
        while i < n
            invariant
                make.requires(()),
                1 <= n <= MAX_STAGES,
                1 <= old(self).num_stages <= MAX_STAGES,
                old(self).num_stages <= i,
                old(self).num_stages <= n ==> i <= n,
                old(self).num_stages > n ==> i == old(self).num_stages,
                self.num_stages == old(self).num_stages,
                forall|j: int| 0 <= j < i ==> #[trigger] self.stages@[j] is Some,
                forall|j: int|
                    0 <= j < MAX_STAGES && (j < old(self).num_stages || j >= i)
                        ==> #[trigger] self.stages@[j] == old(self).stages@[j],
                forall|j: int|
                    old(self).num_stages <= j < i ==> #[trigger] self.stages@[j] is Some
                        && make.ensures((), self.stages@[j]->Some_0),
            decreases n - i,
        {
            let stage = make();
            fill_slot(&mut self.stages, i, stage);
            i = i + 1;
        }
        self.num_stages = n;
    }

    /// Replaces an active stage; an index past the active stages changes nothing.
    pub fn set_stage(&mut self, stage_idx: usize, stage: T)
        ensures
            final(self).holds_active_stages(),
            final(self).count() == old(self).count(),
            stage_idx < old(self).count() ==> final(self).slots() == old(self).slots().update(
                stage_idx as int,
                Some(stage),
            ),
            stage_idx >= old(self).count() ==> final(self).slots() == old(self).slots(),
    {
        proof {
            use_type_invariant(&*self);
        }
        if stage_idx < self.num_stages {
            self.stages[stage_idx] = Some(stage);
        }
    }

    /// Mutable access to the stage in slot `stage_idx`, active or not;
    /// `None` for an empty slot.
    pub fn stage_mut(&mut self, stage_idx: usize) -> (r: Option<&mut T>)
        requires
            stage_idx < MAX_STAGES,
        ensures
            final(self).holds_active_stages(),
            final(self).count() == old(self).count(),
            old(self).slots()[stage_idx as int] is None ==> r is None && final(self).slots()
                == old(self).slots(),
            old(self).slots()[stage_idx as int] is Some ==> r is Some && *r->Some_0 == old(
                self,
            ).slots()[stage_idx as int]->Some_0 && final(self).slots() == old(self).slots().update(
                stage_idx as int,
                Some(*final(r->Some_0)),
            ),
    {
        proof {
            use_type_invariant(&*self);
        }
        slot_mut(&mut self.stages[stage_idx])
    }

    /// The stage in an active slot; `None` past the active stages.
    pub fn get_stage(&self, stage_idx: usize) -> (r: Option<&T>)
        ensures
            self.holds_active_stages(),
            stage_idx < self.count() ==> r == Some(&self.slots()[stage_idx as int]->Some_0),
            stage_idx >= self.count() ==> r is None,
    {
        proof {
            use_type_invariant(self);
        }
        if stage_idx < self.num_stages {
            self.stages[stage_idx].as_ref()
        } else {
            None
        }
    }
}

/// The stage count is the requested count whenever it lies in 1..=4; a
/// request for no stages gives one stage and a request for more than four
/// gives four.
pub proof fn lemma_stage_count_clamp(n: int)
    ensures
        1 <= n <= 4 ==> clamp_stage_count(n) == n,
        n < 1 ==> clamp_stage_count(n) == 1,
        n > 4 ==> clamp_stage_count(n) == 4,
        1 <= clamp_stage_count(n) <= 4,
        MAX_STAGES == 4,
{
}

/// Shrinking the stage count and raising it again keeps the stages that stayed
/// active throughout and brings the others back freshly made: after resizing
/// from `c0` active stages to `c1` and then to `c2`, every slot below both
/// `c0` and `c1` holds its original stage.
pub proof fn lemma_resizes_keep_stages<T>(
    s0: Seq<Option<T>>,
    c0: int,
    s1: Seq<Option<T>>,
    c1: int,
    s2: Seq<Option<T>>,
)
    requires
        s0.len() == MAX_STAGES,
        s1.len() == MAX_STAGES,
        keeps_stages(s0, s1, c0),
        keeps_stages(s1, s2, c1),
    ensures
        keeps_stages(s0, s2, if c0 < c1 { c0 } else { c1 }),
{
    assert forall|i: int|
        0 <= i < (if c0 < c1 { c0 } else { c1 }) && 0 <= i < s0.len() implies #[trigger] s2[i]
        == s0[i] by {
        assert(s1[i] == s0[i]);
        assert(s2[i] == s1[i]);
    }
}

} // verus!
