use vstd::prelude::*;

use crate::data::{CenterV, Resp, SessionV, Slot, SlotV};
use crate::model::{
    center_slots, lemma_viable_of_add, lemma_viable_of_push, mk_slot, session_viable,
    sessions_slots, viable_of, viable_slots,
};

verus! {

/// The mathematical image of a list of slots.
pub open spec fn slots_view(v: Seq<Slot>) -> Seq<SlotV> {
    v.map_values(|t: Slot| t@)
}

/// Flattens the fetched response into the list of slots that pass the
/// inclusion rule: centers are walked in response order, sessions within a
/// center in their order, and a session is kept exactly when it satisfies
/// every active condition.
pub fn check_viable_slots(api_resp: Resp, only_18plus: bool, only_first_dose: bool) -> (slots: Vec<
    Slot,
>)
    ensures
        slots_view(slots@) == viable_slots(api_resp@, only_18plus, only_first_dose),
{
    let ghost v: Seq<CenterV> = api_resp@;
    let mut slots: Vec<Slot> = Vec::new();
    proof {
        assert(v.take(0) =~= Seq::<CenterV>::empty());
        assert(slots_view(slots@) =~= Seq::<SlotV>::empty());
    }
    let n = api_resp.centers.len();
    let mut i: usize = 0;
    while i < n
        invariant
            n == api_resp.centers.len(),
            v == api_resp@,
            i <= n,
            slots_view(slots@) == viable_slots(v.take(i as int), only_18plus, only_first_dose),
        decreases n - i,
    {
        let center = &api_resp.centers[i];
        let ghost cv: CenterV = v[i as int];
        proof {
            assert(cv == center@);
            assert(sessions_slots(cv.name, cv.address, cv.sessions.take(0)) =~= Seq::<
                SlotV,
            >::empty());
        }
        let m = center.sessions.len();
        let mut j: usize = 0;
        while j < m
            invariant
                n == api_resp.centers.len(),
                v == api_resp@,
                i < n,
                cv == v[i as int],
                cv == api_resp.centers[i as int]@,
                m == api_resp.centers[i as int].sessions.len(),
                j <= m,
                slots_view(slots@) == viable_slots(v.take(i as int), only_18plus, only_first_dose)
                    + viable_of(
                    sessions_slots(cv.name, cv.address, cv.sessions.take(j as int)),
                    only_18plus,
                    only_first_dose,
                ),
            decreases m - j,
        {
            let center = &api_resp.centers[i];
            let session = &center.sessions[j];
            let ghost sv: SessionV = cv.sessions[j as int];
            let ghost tv: SlotV = mk_slot(cv.name, cv.address, sv);
            let ghost pre = sessions_slots(cv.name, cv.address, cv.sessions.take(j as int));
            let ghost slots0 = slots@;
            proof {
                assert(sv == session@);
                assert(cv.sessions.take(j as int + 1) =~= cv.sessions.take(j as int).push(sv));
                assert(sessions_slots(cv.name, cv.address, cv.sessions.take(j as int + 1)) =~= pre
                    .push(tv));
                lemma_viable_of_push(pre, tv, only_18plus, only_first_dose);
            }
            let keep = (!only_18plus || session.min_age_limit <= 18) && (!only_first_dose
                || session.available_capacity_dose1 >= 5) && session.available_capacity > 0;
            proof {
                assert(keep == session_viable(sv, only_18plus, only_first_dose));
            }
            if keep {
                let slot = Slot {
                    center: center.name.clone(),
                    address: center.address.clone(),
                    date: session.date.clone(),
                    vaccine: session.vaccine.clone(),
                    available_capacity: session.available_capacity,
                    available_capacity_dose1: session.available_capacity_dose1,
                    available_capacity_dose2: session.available_capacity_dose2,
                    min_age_limit: session.min_age_limit,
                };
                proof {
                    assert(slot@ == tv);
                }
                slots.push(slot);
                proof {
                    assert(slots@ == slots0.push(slot));
                    assert(slots_view(slots0.push(slot)) =~= slots_view(slots0).push(tv));
                    assert((viable_slots(v.take(i as int), only_18plus, only_first_dose)
                        + viable_of(pre, only_18plus, only_first_dose)).push(tv) =~= viable_slots(
                        v.take(i as int),
                        only_18plus,
                        only_first_dose,
                    ) + viable_of(pre, only_18plus, only_first_dose).push(tv));
                }
            }
            j += 1;
        }
        proof {
            assert(cv.sessions.take(m as int) =~= cv.sessions);
            lemma_viable_of_add(
                crate::model::all_slots(v.take(i as int)),
                center_slots(cv),
                only_18plus,
                only_first_dose,
            );
            assert(v.take(i as int + 1).drop_last() =~= v.take(i as int));
            assert(v.take(i as int + 1).last() == cv);
            assert(crate::model::all_slots(v.take(i as int + 1)) == crate::model::all_slots(
                v.take(i as int),
            ) + center_slots(cv));
        }
        i += 1;
    }
    proof {
        assert(v.take(n as int) =~= v);
    }
    slots
}

} // verus!
