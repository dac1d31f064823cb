use vstd::prelude::*;
use vstd::relations::{sorted_by, total_ordering};

verus! {

/// The order in which readings are sorted.
pub open spec fn reading_le() -> spec_fn(u16, u16) -> bool {
    |a: u16, b: u16| a <= b
}

/// The middle value of five readings: the third of them in ascending order.
pub open spec fn median_of(readings: Seq<u16>) -> u16 {
    readings.sort_by(reading_le())[2]
}

proof fn lemma_reading_le_total()
    ensures
        total_ordering(reading_le()),
{
}

proof fn lemma_swap_keeps_multiset(s: Seq<u16>, i: int, j: int)
    requires
        0 <= i < s.len(),
        0 <= j < s.len(),
    ensures
        s.update(i, s[j]).update(j, s[i]).to_multiset() == s.to_multiset(),
{
    broadcast use vstd::seq_lib::to_multiset_update;
    broadcast use vstd::seq_lib::to_multiset_contains;
    broadcast use vstd::multiset::group_multiset_properties;
    broadcast use vstd::multiset::group_multiset_axioms;

    let t = s.update(i, s[j]);
    assert(t.to_multiset() == s.to_multiset().insert(s[j]).remove(s[i]));
    assert(t.update(j, s[i]).to_multiset() == t.to_multiset().insert(s[i]).remove(t[j]));
    if i == j {
        assert(s.update(i, s[j]).update(j, s[i]) =~= s);
    } else {
        assert(t[j] == s[j]);
        assert(s.contains(s[i]));
        assert(s.to_multiset().count(s[i]) > 0);
        assert(s.to_multiset().insert(s[j]).remove(s[i]).insert(s[i]).remove(s[j]) =~= s.to_multiset());
    }
}

/// The middle value of five readings of the plate's thermistor, which the firmware takes
/// as the reading: one stray sample on either side does not move it.
pub fn median_reading(readings: [u16; 5]) -> (m: u16)
    ensures
        m == median_of(readings@),
{
    let mut v: Vec<u16> = Vec::new();
    let mut k: usize = 0;
    while k < 5
        invariant
            k <= 5,
            v@ == readings@.subrange(0, k as int),
        decreases 5 - k,
    {
        v.push(readings[k]);
        k = k + 1;
    }
    assert(v@ =~= readings@);
    let mut i: usize = 1;
    while i < 5
        invariant
            1 <= i <= 5,
            v@.len() == 5,
            v@.to_multiset() == readings@.to_multiset(),
            forall|a: int, b: int| 0 <= a < b < i ==> v@[a] <= v@[b],
        decreases 5 - i,
    {
        let mut j: usize = i;
        while j > 0 && v[j - 1] > v[j]
            invariant
                1 <= i < 5,
                0 <= j <= i,
                v@.len() == 5,
                v@.to_multiset() == readings@.to_multiset(),
                forall|a: int, b: int| 0 <= a < b <= i && a != j && b != j ==> v@[a] <= v@[b],
                forall|b: int| j < b <= i ==> v@[j as int] < v@[b],
            decreases j,
        {
            let x = v[j - 1];
            let y = v[j];
            proof {
                lemma_swap_keeps_multiset(v@, j - 1, j as int);
            }
            v.set(j - 1, y);
            v.set(j, x);
            j = j - 1;
        }
        i = i + 1;
    }
    proof {
        lemma_reading_le_total();
        readings@.lemma_sort_by_ensures(reading_le());
        assert(sorted_by(v@, reading_le()));
        vstd::seq_lib::lemma_sorted_unique(v@, readings@.sort_by(reading_le()), reading_le());
    }
    v[2]
}

/// The middle value does not depend on the order in which the readings were taken.
pub proof fn law_median_ignores_order(a: Seq<u16>, b: Seq<u16>)
    requires
        a.to_multiset() == b.to_multiset(),
    ensures
        a.sort_by(reading_le()) == b.sort_by(reading_le()),
        median_of(a) == median_of(b),
{
    lemma_reading_le_total();
    a.lemma_sort_by_ensures(reading_le());
    b.lemma_sort_by_ensures(reading_le());
    vstd::seq_lib::lemma_sorted_unique(a.sort_by(reading_le()), b.sort_by(reading_le()), reading_le());
}

/// At least three of the five readings are at most the middle value, and at least three
/// are at least it.
pub proof fn law_median_is_in_the_middle(readings: Seq<u16>)
    requires
        readings.len() == 5,
    ensures
        ({
            let s = readings.sort_by(reading_le());
            &&& s.to_multiset() == readings.to_multiset()
            &&& s.len() == 5
            &&& forall|i: int| 0 <= i <= 2 ==> #[trigger] s[i] <= median_of(readings)
            &&& forall|i: int| 2 <= i < 5 ==> #[trigger] s[i] >= median_of(readings)
        }),
{
    lemma_reading_le_total();
    readings.lemma_sort_by_ensures(reading_le());
    let s = readings.sort_by(reading_le());
    vstd::seq_lib::to_multiset_len(s);
    vstd::seq_lib::to_multiset_len(readings);
    assert forall|i: int| 0 <= i <= 2 implies #[trigger] s[i] <= median_of(readings) by {
        if i < 2 {
            assert((reading_le())(s[i], s[2]));
        }
    }
    assert forall|i: int| 2 <= i < 5 implies #[trigger] s[i] >= median_of(readings) by {
        if i > 2 {
            assert((reading_le())(s[2], s[i]));
        }
    }
}

} // verus!
