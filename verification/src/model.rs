use vstd::prelude::*;

use crate::data::{CenterV, SessionV, SlotV};

verus! {

/// The inclusion rule for one session. All active conditions must hold:
/// with `only_18plus`, the minimum age limit must be no stricter than 18;
/// with `only_first_dose`, at least 5 first doses must be offered;
/// and in every case some capacity must be available.
pub open spec fn session_viable(s: SessionV, only_18plus: bool, only_first_dose: bool) -> bool {
    &&& (only_18plus ==> s.min_age_limit <= 18)
    &&& (only_first_dose ==> s.available_capacity_dose1 >= 5)
    &&& s.available_capacity > 0
}

/// The same inclusion rule, read off the flattened slot (which carries every
/// field the rule inspects).
pub open spec fn slot_viable(t: SlotV, only_18plus: bool, only_first_dose: bool) -> bool {
    &&& (only_18plus ==> t.min_age_limit <= 18)
    &&& (only_first_dose ==> t.available_capacity_dose1 >= 5)
    &&& t.available_capacity > 0
}

/// The flattening of one session under a center with the given name and
/// address.
pub open spec fn mk_slot(name: Seq<char>, address: Seq<char>, s: SessionV) -> SlotV {
    SlotV {
        center: name,
        address: address,
        date: s.date,
        available_capacity: s.available_capacity,
        available_capacity_dose1: s.available_capacity_dose1,
        available_capacity_dose2: s.available_capacity_dose2,
        min_age_limit: s.min_age_limit,
        vaccine: s.vaccine,
    }
}

/// The sessions of one center, flattened in order under that center's name
/// and address.
pub open spec fn sessions_slots(
    name: Seq<char>,
    address: Seq<char>,
    ss: Seq<SessionV>,
) -> Seq<SlotV> {
    ss.map_values(|s: SessionV| mk_slot(name, address, s))
}

/// All slots of one center, in session order.
pub open spec fn center_slots(c: CenterV) -> Seq<SlotV> {
    sessions_slots(c.name, c.address, c.sessions)
}

/// Every slot of the response, centers in response order, sessions within a
/// center in their order, with no filtering applied.
pub open spec fn all_slots(centers: Seq<CenterV>) -> Seq<SlotV>
    decreases centers.len(),
{
    if centers.len() == 0 {
        Seq::empty()
    } else {
        all_slots(centers.drop_last()) + center_slots(centers.last())
    }
}

/// The slots of `ts` that pass the inclusion rule, in unchanged order.
pub open spec fn viable_of(ts: Seq<SlotV>, only_18plus: bool, only_first_dose: bool) -> Seq<SlotV>
    decreases ts.len(),
{
    if ts.len() == 0 {
        Seq::empty()
    } else {
        let rest = viable_of(ts.drop_last(), only_18plus, only_first_dose);
        if slot_viable(ts.last(), only_18plus, only_first_dose) {
            rest.push(ts.last())
        } else {
            rest
        }
    }
}

/// What the filter stage returns: the in-order flattening of the response,
/// restricted to the sessions that pass the inclusion rule.
pub open spec fn viable_slots(
    centers: Seq<CenterV>,
    only_18plus: bool,
    only_first_dose: bool,
) -> Seq<SlotV> {
    viable_of(all_slots(centers), only_18plus, only_first_dose)
}

/// Extending the candidate list by one slot extends the filtered list by that
/// slot exactly when the slot passes the inclusion rule.
pub proof fn lemma_viable_of_push(ts: Seq<SlotV>, t: SlotV, only_18plus: bool, only_first_dose: bool)
    ensures
        viable_of(ts.push(t), only_18plus, only_first_dose) == if slot_viable(
            t,
            only_18plus,
            only_first_dose,
        ) {
            viable_of(ts, only_18plus, only_first_dose).push(t)
        } else {
            viable_of(ts, only_18plus, only_first_dose)
        },
{
    assert(ts.push(t).drop_last() =~= ts);
    assert(ts.push(t).last() == t);
}

/// Filtering a concatenation filters each part in place.
pub proof fn lemma_viable_of_add(a: Seq<SlotV>, b: Seq<SlotV>, only_18plus: bool, only_first_dose: bool)
    ensures
        viable_of(a + b, only_18plus, only_first_dose) == viable_of(a, only_18plus, only_first_dose)
            + viable_of(b, only_18plus, only_first_dose),
    decreases b.len(),
{
    if b.len() == 0 {
        assert(a + b =~= a);
        assert(viable_of(b, only_18plus, only_first_dose) == Seq::<SlotV>::empty());
        assert(viable_of(a, only_18plus, only_first_dose) + viable_of(
            b,
            only_18plus,
            only_first_dose,
        ) =~= viable_of(a, only_18plus, only_first_dose));
    } else {
        lemma_viable_of_add(a, b.drop_last(), only_18plus, only_first_dose);
        assert((a + b).drop_last() =~= a + b.drop_last());
        assert((a + b).last() == b.last());
        if slot_viable(b.last(), only_18plus, only_first_dose) {
            assert((viable_of(a, only_18plus, only_first_dose) + viable_of(
                b.drop_last(),
                only_18plus,
                only_first_dose,
            )).push(b.last()) =~= viable_of(a, only_18plus, only_first_dose) + viable_of(
                b.drop_last(),
                only_18plus,
                only_first_dose,
            ).push(b.last()));
        }
    }
}

/// Every slot the filter lets through passes the inclusion rule; in
/// particular it has available capacity, and it meets whichever of the two
/// optional conditions was switched on.
pub proof fn lemma_viable_of_all_viable(
    ts: Seq<SlotV>,
    only_18plus: bool,
    only_first_dose: bool,
    k: int,
)
    requires
        0 <= k < viable_of(ts, only_18plus, only_first_dose).len(),
    ensures
        slot_viable(viable_of(ts, only_18plus, only_first_dose)[k], only_18plus, only_first_dose),
    decreases ts.len(),
{
    if ts.len() > 0 {
        let rest = viable_of(ts.drop_last(), only_18plus, only_first_dose);
        if k < rest.len() {
            lemma_viable_of_all_viable(ts.drop_last(), only_18plus, only_first_dose, k);
            assert(viable_of(ts, only_18plus, only_first_dose)[k] == rest[k]);
        } else {
            assert(viable_of(ts, only_18plus, only_first_dose)[k] == ts.last());
        }
    }
}

/// Every candidate slot that passes the inclusion rule is kept by the filter.
pub proof fn lemma_viable_of_keeps(
    ts: Seq<SlotV>,
    only_18plus: bool,
    only_first_dose: bool,
    k: int,
)
    requires
        0 <= k < ts.len(),
        slot_viable(ts[k], only_18plus, only_first_dose),
    ensures
        viable_of(ts, only_18plus, only_first_dose).contains(ts[k]),
    decreases ts.len(),
{
    let out = viable_of(ts, only_18plus, only_first_dose);
    let rest = viable_of(ts.drop_last(), only_18plus, only_first_dose);
    if k == ts.len() - 1 {
        assert(out[rest.len() as int] == ts.last());
    } else {
        lemma_viable_of_keeps(ts.drop_last(), only_18plus, only_first_dose, k);
        assert(ts.drop_last()[k] == ts[k]);
        let i = choose|i: int| 0 <= i < rest.len() && rest[i] == ts[k];
        assert(out[i] == ts[k]);
    }
}

/// An index map witnessing that `a` occurs inside `b` in order: it sends each
/// position of `a` to a strictly increasing position of `b` holding the same
/// value.
pub open spec fn subseq_map<A>(m: Seq<int>, a: Seq<A>, b: Seq<A>) -> bool {
    &&& m.len() == a.len()
    &&& (forall|i: int| 0 <= i < m.len() ==> 0 <= #[trigger] m[i] < b.len() && a[i] == b[m[i]])
    &&& (forall|i: int, j: int| 0 <= i < j < m.len() ==> #[trigger] m[i] < #[trigger] m[j])
}

/// `a` is a subsequence of `b`: it can be obtained from `b` by deleting
/// elements, never by reordering them.
pub open spec fn is_subseq_of<A>(a: Seq<A>, b: Seq<A>) -> bool {
    exists|m: Seq<int>| subseq_map(m, a, b)
}

/// The filter only deletes: its output is a subsequence of its input.
pub proof fn lemma_viable_of_subseq(ts: Seq<SlotV>, only_18plus: bool, only_first_dose: bool)
    ensures
        is_subseq_of(viable_of(ts, only_18plus, only_first_dose), ts),
    decreases ts.len(),
{
    let out = viable_of(ts, only_18plus, only_first_dose);
    if ts.len() == 0 {
        assert(subseq_map(Seq::<int>::empty(), out, ts));
    } else {
        let d = ts.drop_last();
        let rest = viable_of(d, only_18plus, only_first_dose);
        lemma_viable_of_subseq(d, only_18plus, only_first_dose);
        let m0 = choose|m: Seq<int>| subseq_map(m, rest, d);
        if slot_viable(ts.last(), only_18plus, only_first_dose) {
            let m1 = m0.push(ts.len() - 1);
            assert forall|i: int|
                0 <= i < m1.len() implies 0 <= #[trigger] m1[i] < ts.len() && out[i] == ts[m1[i]] by {
                if i < m0.len() {
                    assert(0 <= m0[i] < d.len() && rest[i] == d[m0[i]]);
                    assert(out[i] == rest[i]);
                    assert(ts[m0[i]] == d[m0[i]]);
                } else {
                    assert(out[i] == ts.last());
                }
            }
            assert forall|i: int, j: int|
                0 <= i < j < m1.len() implies #[trigger] m1[i] < #[trigger] m1[j] by {
                if j < m0.len() {
                    assert(m0[i] < m0[j]);
                } else {
                    assert(0 <= m0[i] < d.len());
                }
            }
            assert(subseq_map(m1, out, ts));
        } else {
            assert forall|i: int|
                0 <= i < m0.len() implies 0 <= #[trigger] m0[i] < ts.len() && out[i] == ts[m0[i]] by {
                assert(0 <= m0[i] < d.len() && rest[i] == d[m0[i]]);
                assert(ts[m0[i]] == d[m0[i]]);
            }
            assert(subseq_map(m0, out, ts));
        }
    }
}

/// The filter stage never reorders: what it returns is the in-order
/// flattening of the response (centers outer, sessions inner) with some
/// slots deleted.
pub proof fn lemma_filter_preserves_order(
    centers: Seq<CenterV>,
    only_18plus: bool,
    only_first_dose: bool,
)
    ensures
        is_subseq_of(
            viable_slots(centers, only_18plus, only_first_dose),
            all_slots(centers),
        ),
{
    lemma_viable_of_subseq(all_slots(centers), only_18plus, only_first_dose);
}

/// A session without available capacity never appears in the filter output,
/// whatever the flags say.
pub proof fn lemma_no_slot_without_capacity(
    centers: Seq<CenterV>,
    only_18plus: bool,
    only_first_dose: bool,
    k: int,
)
    requires
        0 <= k < viable_slots(centers, only_18plus, only_first_dose).len(),
    ensures
        viable_slots(centers, only_18plus, only_first_dose)[k].available_capacity > 0,
{
    lemma_viable_of_all_viable(all_slots(centers), only_18plus, only_first_dose, k);
}

/// With the 18-plus flag set, a session whose minimum age limit is stricter
/// than 18 never appears in the filter output.
pub proof fn lemma_age_limit_respected(
    centers: Seq<CenterV>,
    only_first_dose: bool,
    k: int,
)
    requires
        0 <= k < viable_slots(centers, true, only_first_dose).len(),
    ensures
        viable_slots(centers, true, only_first_dose)[k].min_age_limit <= 18,
{
    lemma_viable_of_all_viable(all_slots(centers), true, only_first_dose, k);
}

/// With the first-dose flag set, a session offering fewer than 5 first doses
/// never appears in the filter output.
pub proof fn lemma_first_dose_respected(
    centers: Seq<CenterV>,
    only_18plus: bool,
    k: int,
)
    requires
        0 <= k < viable_slots(centers, only_18plus, true).len(),
    ensures
        viable_slots(centers, only_18plus, true)[k].available_capacity_dose1 >= 5,
{
    lemma_viable_of_all_viable(all_slots(centers), only_18plus, true, k);
}

/// With the 18-plus flag off, the age limit is never consulted: changing it
/// alone cannot change whether a session passes the inclusion rule.
pub proof fn lemma_age_limit_ignored_without_flag(s: SessionV, age: int, only_first_dose: bool)
    ensures
        session_viable((SessionV { min_age_limit: age, ..s }), false, only_first_dose)
            == session_viable(s, false, only_first_dose),
{
}

/// With the first-dose flag off, the dose-1 capacity is never consulted:
/// changing it alone cannot change whether a session passes the inclusion
/// rule.
pub proof fn lemma_first_dose_ignored_without_flag(s: SessionV, dose1: int, only_18plus: bool)
    ensures
        session_viable((SessionV { available_capacity_dose1: dose1, ..s }), only_18plus, false)
            == session_viable(s, only_18plus, false),
{
}

} // verus!
