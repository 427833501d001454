use vstd::prelude::*;

verus! {

/// Number of largest jumps that are kept.
pub const SLOT_COUNT: usize = 5;

/// Index of the first smallest value of a non-empty sequence.
pub open spec fn first_min_index(s: Seq<u64>) -> int
    decreases s.len(),
{
    if s.len() <= 1 {
        0
    } else {
        let k = first_min_index(s.drop_last());
        if s.last() < s[k] {
            s.len() - 1
        } else {
            k
        }
    }
}

/// The smallest value of a non-empty sequence.
pub open spec fn seq_min(s: Seq<u64>) -> u64 {
    s[first_min_index(s)]
}

/// Slots after one jump is offered: the jump takes the place of the first smallest slot
/// when it is larger than that slot.
pub open spec fn record_jump(s: Seq<u64>, jump: u64) -> Seq<u64> {
    if jump > seq_min(s) {
        s.update(first_min_index(s), jump)
    } else {
        s
    }
}

/// Slots after offering each jump of a sequence in turn, starting from zeros.
pub open spec fn slots_after(jumps: Seq<u64>) -> Seq<u64>
    decreases jumps.len(),
{
    if jumps.len() == 0 {
        Seq::new(SLOT_COUNT as nat, |_i: int| 0u64)
    } else {
        record_jump(slots_after(jumps.drop_last()), jumps.last())
    }
}

/// The largest value of a sequence, or zero for an empty one.
pub open spec fn largest(s: Seq<u64>) -> u64
    decreases s.len(),
{
    if s.len() == 0 {
        0
    } else {
        let m = largest(s.drop_last());
        if s.last() > m {
            s.last()
        } else {
            m
        }
    }
}

pub proof fn lemma_first_min_index(s: Seq<u64>)
    requires
        s.len() > 0,
    ensures
        0 <= first_min_index(s) < s.len(),
        forall|j: int| 0 <= j < s.len() ==> s[first_min_index(s)] <= #[trigger] s[j],
        forall|j: int| 0 <= j < first_min_index(s) ==> s[first_min_index(s)] < #[trigger] s[j],
    decreases s.len(),
{
    if s.len() > 1 {
        let t = s.drop_last();
        lemma_first_min_index(t);
        assert forall|j: int| 0 <= j < t.len() implies s[j] == t[j] by {}
    }
}

/// The slots never lose their smallest value: offering a jump keeps or raises it, and a jump
/// that is not kept is no larger than it.
pub proof fn lemma_record_raises_floor(s: Seq<u64>, jump: u64)
    requires
        s.len() == SLOT_COUNT,
    ensures
        record_jump(s, jump).len() == SLOT_COUNT,
        seq_min(s) <= seq_min(record_jump(s, jump)),
        jump <= seq_min(record_jump(s, jump)) || record_jump(s, jump)[first_min_index(s)] == jump,
        forall|j: int|
            0 <= j < SLOT_COUNT && j != first_min_index(s) ==> #[trigger] record_jump(s, jump)[j]
                == s[j],
        forall|j: int|
            0 <= j < SLOT_COUNT && s[j] != record_jump(s, jump)[j] ==> s[j] <= seq_min(
                record_jump(s, jump),
            ),
{
    lemma_first_min_index(s);
    let r = record_jump(s, jump);
    lemma_first_min_index(r);
    let k = first_min_index(s);
    let kr = first_min_index(r);
    assert(s[k] <= s[kr]);
}

/// What the reported peak means, for any jumps offered in turn from a fresh state: each
/// slot holds zero or one of the jumps, no slot exceeds the largest jump (so neither does
/// the reported peak), and every jump that was offered either is still kept or is no larger
/// than the reported peak.
pub proof fn lemma_peak_within_reason(jumps: Seq<u64>)
    ensures
        slots_after(jumps).len() == SLOT_COUNT,
        forall|j: int|
            0 <= j < SLOT_COUNT ==> #[trigger] slots_after(jumps)[j] <= largest(jumps) && (
            slots_after(jumps)[j] == 0 || jumps.contains(slots_after(jumps)[j])),
        seq_min(slots_after(jumps)) <= largest(jumps),
        forall|i: int|
            0 <= i < jumps.len() ==> #[trigger] jumps[i] <= seq_min(slots_after(jumps))
                || slots_after(jumps).contains(jumps[i]),
    decreases jumps.len(),
{
    let s = slots_after(jumps);
    if jumps.len() == 0 {
        assert forall|j: int| 0 <= j < SLOT_COUNT implies #[trigger] s[j] == 0 by {}
        lemma_first_min_index(s);
    } else {
        let t = jumps.drop_last();
        let d = jumps.last();
        lemma_peak_within_reason(t);
        let p = slots_after(t);
        lemma_record_raises_floor(p, d);
        lemma_first_min_index(p);
        lemma_first_min_index(s);
        assert(s == record_jump(p, d));
        assert(largest(t) <= largest(jumps));
        assert forall|j: int| 0 <= j < SLOT_COUNT implies #[trigger] s[j] <= largest(jumps) && (
        s[j] == 0 || jumps.contains(s[j])) by {
            if s[j] != p[j] {
                assert(s[j] == d);
                assert(jumps[jumps.len() - 1] == d);
            } else if p[j] != 0 {
                let i = choose|i: int| 0 <= i < t.len() && t[i] == p[j];
                assert(jumps[i] == p[j]);
            }
        }
        assert forall|i: int| 0 <= i < jumps.len() implies #[trigger] jumps[i] <= seq_min(s)
            || s.contains(jumps[i]) by {
            if i == jumps.len() - 1 {
                if !(d <= seq_min(s)) {
                    assert(s[first_min_index(p)] == d);
                }
            } else {
                assert(jumps[i] == t[i]);
                if !(t[i] <= seq_min(p)) {
                    let m = choose|m: int| 0 <= m < p.len() && p[m] == t[i];
                    if s[m] == p[m] {
                        assert(s.contains(t[i]));
                    }
                }
            }
        }
    }
}

/// The largest jumps seen so far, as order keys: for non-negative floats the bit patterns
/// order as the values do.
pub struct TopSpeeds {
    slots: Vec<u64>,
}

impl TopSpeeds {
    pub closed spec fn view(&self) -> Seq<u64> {
        self.slots@
    }

    pub open spec fn wf(&self) -> bool {
        self.view().len() == SLOT_COUNT
    }

    pub fn new() -> (r: Self)
        ensures
            r.wf(),
            r.view() == slots_after(Seq::empty()),
    {
        let r = TopSpeeds { slots: vec![0u64, 0u64, 0u64, 0u64, 0u64] };
        assert(r.view() =~= slots_after(Seq::empty()));
        r
    }

    /// Index of the first smallest slot.
    fn min_slot(&self) -> (r: usize)
        requires
            self.wf(),
        ensures
            r as int == first_min_index(self.view()),
            r < SLOT_COUNT,
    {
        let mut k: usize = 0;
        let mut i: usize = 1;
        proof {
            assert(self.view().take(1).len() == 1);
        }
        while i < self.slots.len()
            invariant
                self.wf(),
                1 <= i <= SLOT_COUNT,
                k as int == first_min_index(self.view().take(i as int)),
                0 <= k < i,
            decreases SLOT_COUNT - i,
        {
            proof {
                let t = self.view().take(i as int + 1);
                assert(t.drop_last() =~= self.view().take(i as int));
            }
            if self.slots[i] < self.slots[k] {
                k = i;
            }
            i = i + 1;
        }
        assert(self.view().take(SLOT_COUNT as int) =~= self.view());
        proof {
            lemma_first_min_index(self.view());
        }
        k
    }

    /// Offers a jump larger than the noise threshold: it replaces the first smallest slot
    /// when it exceeds it.
    pub fn record(&mut self, jump: u64)
        requires
            old(self).wf(),
        ensures
            final(self).wf(),
            final(self).view() == record_jump(old(self).view(), jump),
    {
        let k = self.min_slot();
        if jump > self.slots[k] {
            self.slots.set(k, jump);
        }
    }

    /// The smallest of the kept jumps: a peak that recurred, not a single spike.
    pub fn max_within_reason(&self) -> (r: u64)
        requires
            self.wf(),
        ensures
            r == seq_min(self.view()),
    {
        let k = self.min_slot();
        self.slots[k]
    }
}

} // verus!
