use vstd::prelude::*;
use bracket_random::prelude::RandomNumberGenerator;
use crate::rng::roll_dice;

verus! {

/// A weighted entry in a weighted-choice catalog: a payload together with
/// the weight that governs how often it is selected.
pub struct RandomEntry<T: Clone> {
    pub value: T,
    pub weight: i32,
}

/// A reusable weighted-choice catalog. Entries only grow, through the
/// builder step `add`; `total_weight` always equals the sum of the entry
/// weights.
pub struct RandomTable<T: Clone> {
    entries: Vec<RandomEntry<T>>,
    total_weight: i32,
}

/// The sum of the weights of a sequence of entries.
pub open spec fn sum_weights<T: Clone>(entries: Seq<RandomEntry<T>>) -> int
    decreases entries.len(),
{
    if entries.len() == 0 {
        0
    } else {
        sum_weights(entries.drop_last()) + entries.last().weight as int
    }
}

/// Every weight in the sequence is nonnegative. A negative weight corrupts
/// the roll distribution and is a documented caller error.
pub open spec fn nonneg_weights<T: Clone>(entries: Seq<RandomEntry<T>>) -> bool {
    forall|i: int| 0 <= i < entries.len() ==> (#[trigger] entries[i]).weight >= 0
}

/// The walk that resolves a zero-based roll against the entries, starting
/// at entry `i`: while the roll is positive, an entry whose weight span
/// covers the roll is selected, and otherwise its weight is subtracted and
/// the walk moves on. A roll that reaches zero, or runs past the last
/// entry, selects nothing.
pub open spec fn selected_from<T: Clone>(entries: Seq<RandomEntry<T>>, roll: int, i: int) -> Option<
    T,
>
    decreases entries.len() - i,
{
    if roll <= 0 || i < 0 || i >= entries.len() {
        None
    } else if roll < entries[i].weight as int {
        Some(entries[i].value)
    } else {
        selected_from(entries, roll - entries[i].weight as int, i + 1)
    }
}

/// What the table's walk selects for a zero-based roll.
pub open spec fn spec_selected<T: Clone>(entries: Seq<RandomEntry<T>>, roll: int) -> Option<T> {
    selected_from(entries, roll, 0)
}

/// The sum of the weights of the entries before entry `i`: the walk selects
/// entry `i` exactly for the zero-based rolls strictly between this prefix
/// sum and the prefix sum plus the entry's own weight.
pub open spec fn prefix_weight<T: Clone>(entries: Seq<RandomEntry<T>>, i: int) -> int {
    sum_weights(entries.take(i))
}

proof fn lemma_sum_weights_push<T: Clone>(entries: Seq<RandomEntry<T>>, e: RandomEntry<T>)
    ensures
        sum_weights(entries.push(e)) == sum_weights(entries) + e.weight as int,
{
    assert(entries.push(e).drop_last() =~= entries);
    assert(entries.push(e).last() == e);
}

/// Nonnegative weights sum to a nonnegative total.
pub proof fn lemma_sum_weights_nonneg<T: Clone>(entries: Seq<RandomEntry<T>>)
    requires
        nonneg_weights(entries),
    ensures
        sum_weights(entries) >= 0,
    decreases entries.len(),
{
    if entries.len() > 0 {
        assert(nonneg_weights(entries.drop_last()));
        lemma_sum_weights_nonneg(entries.drop_last());
    }
}

proof fn lemma_sum_weights_subrange_step<T: Clone>(entries: Seq<RandomEntry<T>>, j: int, i: int)
    requires
        0 <= j < i <= entries.len(),
    ensures
        sum_weights(entries.subrange(j, i)) == entries[j].weight as int + sum_weights(
            entries.subrange(j + 1, i),
        ),
    decreases i - j,
{
    if i == j + 1 {
        assert(entries.subrange(j, i).drop_last() =~= Seq::<RandomEntry<T>>::empty());
        assert(entries.subrange(j + 1, i) =~= Seq::<RandomEntry<T>>::empty());
    } else {
        assert(entries.subrange(j, i).drop_last() =~= entries.subrange(j, i - 1));
        assert(entries.subrange(j + 1, i).drop_last() =~= entries.subrange(j + 1, i - 1));
        lemma_sum_weights_subrange_step(entries, j, i - 1);
    }
}

proof fn lemma_nonneg_weights_subrange<T: Clone>(entries: Seq<RandomEntry<T>>, j: int, i: int)
    requires
        nonneg_weights(entries),
        0 <= j <= i <= entries.len(),
    ensures
        nonneg_weights(entries.subrange(j, i)),
{
    assert forall|k: int| 0 <= k < entries.subrange(j, i).len() implies (#[trigger] entries.subrange(
        j,
        i,
    )[k]).weight >= 0 by {
        assert(entries.subrange(j, i)[k] == entries[j + k]);
    }
}

proof fn lemma_selected_in_span_from<T: Clone>(
    entries: Seq<RandomEntry<T>>,
    roll: int,
    j: int,
    i: int,
)
    requires
        nonneg_weights(entries),
        0 <= j <= i < entries.len(),
        sum_weights(entries.subrange(j, i)) < roll < sum_weights(entries.subrange(j, i))
            + entries[i].weight as int,
    ensures
        selected_from(entries, roll, j) == Some(entries[i].value),
    decreases i - j,
{
    if j == i {
        assert(entries.subrange(j, j) =~= Seq::<RandomEntry<T>>::empty());
    } else {
        lemma_sum_weights_subrange_step(entries, j, i);
        lemma_nonneg_weights_subrange(entries, j + 1, i);
        lemma_sum_weights_nonneg(entries.subrange(j + 1, i));
        lemma_selected_in_span_from(entries, roll - entries[j].weight as int, j + 1, i);
    }
}

/// The law of proportional selection, one entry at a time: the walk selects
/// entry `i` for exactly the zero-based rolls strictly between the sum of
/// the weights before it and that sum plus its own weight. That open
/// interval holds `weight - 1` integers, one fewer than the entry's stated
/// weight: the boundary rolls, the initial zero among them, select nothing.
pub proof fn lemma_selected_in_span<T: Clone>(entries: Seq<RandomEntry<T>>, roll: int, i: int)
    requires
        nonneg_weights(entries),
        0 <= i < entries.len(),
        prefix_weight(entries, i) < roll < prefix_weight(entries, i) + entries[i].weight as int,
    ensures
        spec_selected(entries, roll) == Some(entries[i].value),
{
    assert(entries.take(i) =~= entries.subrange(0, i));
    lemma_selected_in_span_from(entries, roll, 0, i);
}

proof fn lemma_selected_some_hits<T: Clone>(entries: Seq<RandomEntry<T>>, roll: int, j: int)
    requires
        nonneg_weights(entries),
        0 <= j <= entries.len(),
        selected_from(entries, roll, j) is Some,
    ensures
        exists|i: int|
            j <= i < entries.len() && #[trigger] sum_weights(entries.subrange(j, i)) < roll
                < sum_weights(entries.subrange(j, i)) + entries[i].weight as int,
    decreases entries.len() - j,
{
    if roll < entries[j].weight as int {
        assert(entries.subrange(j, j) =~= Seq::<RandomEntry<T>>::empty());
        assert(sum_weights(entries.subrange(j, j)) < roll < sum_weights(entries.subrange(j, j))
            + entries[j].weight as int);
    } else {
        let r2 = roll - entries[j].weight as int;
        lemma_selected_some_hits(entries, r2, j + 1);
        let i = choose|i: int|
            j + 1 <= i < entries.len() && #[trigger] sum_weights(entries.subrange(j + 1, i)) < r2
                < sum_weights(entries.subrange(j + 1, i)) + entries[i].weight as int;
        lemma_sum_weights_subrange_step(entries, j, i);
        assert(sum_weights(entries.subrange(j, i)) < roll < sum_weights(entries.subrange(j, i))
            + entries[i].weight as int);
    }
}

/// The walk hits entry `i` exactly when the zero-based roll lies strictly
/// inside that entry's weight span.
pub open spec fn hits_entry<T: Clone>(entries: Seq<RandomEntry<T>>, roll: int, i: int) -> bool {
    0 <= i < entries.len() && prefix_weight(entries, i) < roll < prefix_weight(entries, i)
        + entries[i].weight as int
}

/// The other half of the law of proportional selection: the walk selects
/// some entry exactly when the zero-based roll lies strictly inside some
/// entry's weight span; every other roll, the boundary rolls included,
/// selects nothing.
pub proof fn lemma_selected_some_iff<T: Clone>(entries: Seq<RandomEntry<T>>, roll: int)
    requires
        nonneg_weights(entries),
    ensures
        (spec_selected(entries, roll) is Some) <==> exists|i: int|
            #[trigger] hits_entry(entries, roll, i),
{
    if spec_selected(entries, roll) is Some {
        lemma_selected_some_hits(entries, roll, 0);
        let i = choose|i: int|
            0 <= i < entries.len() && #[trigger] sum_weights(entries.subrange(0, i)) < roll
                < sum_weights(entries.subrange(0, i)) + entries[i].weight as int;
        assert(entries.take(i) =~= entries.subrange(0, i));
        assert(hits_entry(entries, roll, i));
    }
    if exists|i: int| #[trigger] hits_entry(entries, roll, i) {
        let i = choose|i: int| #[trigger] hits_entry(entries, roll, i);
        lemma_selected_in_span(entries, roll, i);
    }
}

/// A zero-based roll of zero selects nothing, even when the total weight is
/// positive: the walk never tests the first entry for it. A table with
/// positive total weight can therefore return `None`, and the first entry
/// wins one fewer roll value than its stated weight.
pub proof fn lemma_zero_roll_selects_none<T: Clone>(entries: Seq<RandomEntry<T>>)
    ensures
        spec_selected(entries, 0) is None,
{
}

/// A table whose entries all have zero weight selects nothing, whatever is
/// rolled against it.
pub proof fn lemma_zero_weights_select_none<T: Clone>(entries: Seq<RandomEntry<T>>, roll: int)
    requires
        forall|i: int| 0 <= i < entries.len() ==> (#[trigger] entries[i]).weight == 0,
    ensures
        spec_selected(entries, roll) is None,
{
    lemma_zero_weights_select_none_from(entries, roll, 0);
}

proof fn lemma_zero_weights_select_none_from<T: Clone>(
    entries: Seq<RandomEntry<T>>,
    roll: int,
    j: int,
)
    requires
        forall|i: int| 0 <= i < entries.len() ==> (#[trigger] entries[i]).weight == 0,
        0 <= j,
    ensures
        selected_from(entries, roll, j) is None,
    decreases entries.len() - j,
{
    if roll > 0 && j < entries.len() {
        lemma_zero_weights_select_none_from(entries, roll, j + 1);
    }
}

impl<T: Clone> RandomTable<T> {
    /// The catalog's entries, in insertion order.
    pub closed spec fn spec_entries(&self) -> Seq<RandomEntry<T>> {
        self.entries@
    }

    /// The catalog's stored total weight.
    pub closed spec fn spec_total(&self) -> int {
        self.total_weight as int
    }

    /// The stored total weight equals the sum of the entry weights.
    pub open spec fn wf(&self) -> bool {
        self.spec_total() == sum_weights(self.spec_entries())
    }

    /// An empty table: no entries and no weight.
    pub fn new() -> (t: RandomTable<T>)
        ensures
            t.spec_entries() == Seq::<RandomEntry<T>>::empty(),
            t.spec_total() == 0,
            t.wf(),
    {
        let t = RandomTable { entries: Vec::new(), total_weight: 0 };
        proof {
            assert(t.spec_entries() =~= Seq::<RandomEntry<T>>::empty());
        }
        t
    }

    /// Append an entry and add its weight to the total; returns the table
    /// for chained building. The weight is not validated: zero is allowed
    /// (the entry can then never be selected), and a negative weight is a
    /// documented caller error.
    pub fn add(self, value: T, weight: i32) -> (t: RandomTable<T>)
        requires
            i32::MIN <= self.spec_total() + weight <= i32::MAX,
        ensures
            t.spec_entries() == self.spec_entries().push(RandomEntry { value, weight }),
            t.spec_total() == self.spec_total() + weight,
            self.wf() ==> t.wf(),
    {
        proof {
            lemma_sum_weights_push(self.entries@, RandomEntry { value, weight });
        }
        let mut t = self;
        t.total_weight = t.total_weight + weight;
        t.entries.push(RandomEntry { value, weight });
        t
    }

    /// The total weight the table was built with.
    pub fn total_weight(&self) -> (t: i32)
        ensures
            t as int == self.spec_total(),
    {
        self.total_weight
    }

    /// Resolve a zero-based roll against the entries, walking them in
    /// insertion order. This is the deterministic half of `roll`: it takes
    /// the drawn value as an argument, so its result is pinned exactly.
    pub fn pick(&self, roll: i32) -> (r: Option<T>) where T: Copy
        requires
            nonneg_weights(self.spec_entries()),
        ensures
            r == spec_selected(self.spec_entries(), roll as int),
    {
        let mut remaining = roll;
        let mut index: usize = 0;
        while remaining > 0 && index < self.entries.len()
            invariant
                nonneg_weights(self.spec_entries()),
                0 <= index <= self.entries@.len(),
                spec_selected(self.spec_entries(), roll as int) == selected_from(
                    self.spec_entries(),
                    remaining as int,
                    index as int,
                ),
            decreases self.entries@.len() - index,
        {
            if remaining < self.entries[index].weight {
                return Some(self.entries[index].value);
            }
            remaining = remaining - self.entries[index].weight;
            index = index + 1;
        }
        None
    }

    /// Draw a uniform value in `[1, total_weight]` and resolve it with
    /// `pick` on the zero-based roll. Returns `None` when the table has no
    /// weight; because the walk treats a zero-based roll of zero (and every
    /// roll landing exactly on a prefix-sum boundary) as a miss, `None` is
    /// possible even with positive total weight.
    pub fn roll(&self, rng: &mut RandomNumberGenerator) -> (r: Option<T>) where T: Copy
        requires
            self.wf(),
            nonneg_weights(self.spec_entries()),
            self.spec_total() < i32::MAX,
        ensures
            self.spec_total() == 0 ==> r is None,
            self.spec_total() > 0 ==> exists|d: int|
                0 <= d < self.spec_total() && r == #[trigger] spec_selected(
                    self.spec_entries(),
                    d,
                ),
    {
        proof {
            lemma_sum_weights_nonneg(self.spec_entries());
        }
        if self.total_weight == 0 {
            return None;
        }
        let d = roll_dice(rng, 1, self.total_weight);
        let r = self.pick(d - 1);
        proof {
            assert(0 <= d as int - 1 < self.spec_total() && r == spec_selected(
                self.spec_entries(),
                d as int - 1,
            ));
        }
        r
    }
}

} // verus!
