//! What holds of every run of a session, proved over the transitions that
//! the session's operations are specified by.

use vstd::prelude::*;
use crate::driver::stop_at;
use crate::executor::{ResponseView, after_retrieval, after_submission, batch_is_final};
use crate::response::carries_final;

verus! {

/// The live identities after a run of retrievals for `id`, one batch each.
pub open spec fn live_after(live: Set<u64>, id: u64, batches: Seq<Seq<ResponseView>>) -> Set<u64>
    decreases batches.len(),
{
    if batches.len() == 0 {
        live
    } else {
        after_retrieval(live_after(live, id, batches.drop_last()), id, batches.last())
    }
}

/// Whether every retrieval of the run found `id` live, which is when the
/// session hands its batch on.
pub open spec fn all_served(live: Set<u64>, id: u64, batches: Seq<Seq<ResponseView>>) -> bool
    decreases batches.len(),
{
    batches.len() == 0 || (all_served(live, id, batches.drop_last()) && live_after(
        live,
        id,
        batches.drop_last(),
    ).contains(id))
}

/// All responses of the run, in the order in which they were handed on.
pub open spec fn delivered(batches: Seq<Seq<ResponseView>>) -> Seq<ResponseView>
    decreases batches.len(),
{
    if batches.len() == 0 {
        Seq::empty()
    } else {
        delivered(batches.drop_last()) + batches.last()
    }
}

/// Whether a last result, if the batch holds one, stands at its end.
pub open spec fn final_closes_batch(batch: Seq<ResponseView>) -> bool {
    forall|i: int| 0 <= i < batch.len() && carries_final(#[trigger] batch[i]) ==> i == batch.len() - 1
}

/// While an identity stays live through a run of retrievals, nothing that
/// was handed on for it was a last result; and an identity that was live
/// before the run and is not after it has been handed one.
pub proof fn lemma_live_means_no_final_yet(live: Set<u64>, id: u64, batches: Seq<Seq<ResponseView>>)
    requires
        live.contains(id),
    ensures
        live_after(live, id, batches).contains(id) <==> forall|k: int|
            0 <= k < delivered(batches).len() ==> !carries_final(#[trigger] delivered(batches)[k]),
    decreases batches.len(),
{
    if batches.len() > 0 {
        let earlier = batches.drop_last();
        let last = batches.last();
        lemma_live_means_no_final_yet(live, id, earlier);
        let before = delivered(earlier);
        let all = delivered(batches);
        assert(all == before + last);
        if live_after(live, id, batches).contains(id) {
            assert(!batch_is_final(last));
            assert(live_after(live, id, earlier).contains(id));
            assert forall|k: int| 0 <= k < all.len() implies !carries_final(#[trigger] all[k]) by {
                if k < before.len() {
                    assert(all[k] == before[k]);
                } else {
                    assert(all[k] == last[k - before.len()]);
                }
            }
        } else if live_after(live, id, earlier).contains(id) {
            assert(batch_is_final(last));
            let i = choose|i: int| 0 <= i < last.len() && carries_final(#[trigger] last[i]);
            assert(all[before.len() + i] == last[i]);
        } else {
            let k = choose|k: int| 0 <= k < before.len() && carries_final(#[trigger] before[k]);
            assert(all[k] == before[k]);
        }
    }
}

/// In a run of retrievals that were all served, every batch but the last is
/// free of last results: the batch that holds one retires the identity, and
/// the next retrieval is refused.
pub proof fn lemma_final_only_in_last_batch(
    live: Set<u64>,
    id: u64,
    batches: Seq<Seq<ResponseView>>,
    i: int,
)
    requires
        all_served(live, id, batches),
        0 <= i < batches.len() - 1,
    ensures
        !batch_is_final(batches[i]),
    decreases batches.len(),
{
    let earlier = batches.drop_last();
    if i == earlier.len() - 1 {
        assert(earlier.last() == batches[i]);
    } else {
        lemma_final_only_in_last_batch(live, id, earlier, i);
    }
}

/// Of all the responses handed on for one identity in a run of retrievals
/// that were all served, only the very last can carry a last result,
/// provided that the last batch holds one at its end or not at all.
pub proof fn lemma_final_is_last_delivered(live: Set<u64>, id: u64, batches: Seq<Seq<ResponseView>>)
    requires
        live.contains(id),
        all_served(live, id, batches),
        batches.len() > 0 ==> final_closes_batch(batches.last()),
    ensures
        forall|k: int|
            0 <= k < delivered(batches).len() && carries_final(#[trigger] delivered(batches)[k]) ==> k
                == delivered(batches).len() - 1,
{
    if batches.len() > 0 {
        let earlier = batches.drop_last();
        let last = batches.last();
        let before = delivered(earlier);
        let all = delivered(batches);
        lemma_live_means_no_final_yet(live, id, earlier);
        assert forall|k: int| 0 <= k < all.len() && carries_final(#[trigger] all[k]) implies k
            == all.len() - 1 by {
            if k < before.len() {
                assert(all[k] == before[k]);
            } else {
                assert(all[k] == last[k - before.len()]);
            }
        }
    }
}

/// Reading stops within the batch; every response before the stop holds a
/// result that is not the last; and the response at the stop, if there is
/// one, is malformed or carries a last result.
pub proof fn lemma_stop_at(batch: Seq<ResponseView>)
    ensures
        0 <= stop_at(batch) <= batch.len(),
        forall|i: int|
            0 <= i < stop_at(batch) ==> (#[trigger] batch[i]) is Ok && !carries_final(batch[i]),
        stop_at(batch) < batch.len() ==> batch[stop_at(batch)] is Err || carries_final(
            batch[stop_at(batch)],
        ),
    decreases batch.len(),
{
    if batch.len() > 0 && !(batch[0] is Err || carries_final(batch[0])) {
        let rest = batch.drop_first();
        lemma_stop_at(rest);
        assert forall|i: int| 0 <= i < stop_at(batch) implies (#[trigger] batch[i]) is Ok
            && !carries_final(batch[i]) by {
            if i > 0 {
                assert(batch[i] == rest[i - 1]);
            }
        }
        if stop_at(batch) < batch.len() {
            assert(batch[stop_at(batch)] == rest[stop_at(rest)]);
        }
    }
}

/// Reading a batch and retiring its identity agree: where reading stops
/// behind a last result, the batch has retired the identity, and a further
/// retrieval for it would be refused; where the batch was read to its end,
/// the identity is still live.
pub proof fn lemma_reading_agrees_with_retirement(
    live: Set<u64>,
    id: u64,
    batch: Seq<ResponseView>,
)
    requires
        live.contains(id),
    ensures
        stop_at(batch) < batch.len() && batch[stop_at(batch)] is Ok ==> !after_retrieval(
            live,
            id,
            batch,
        ).contains(id),
        stop_at(batch) == batch.len() ==> after_retrieval(live, id, batch).contains(id),
{
    lemma_stop_at(batch);
    if stop_at(batch) < batch.len() && batch[stop_at(batch)] is Ok {
        assert(carries_final(batch[stop_at(batch)]));
    }
}

/// What a session sees of the engine that moves its live identities.
pub enum Event {
    /// The engine issued this identity for a submission.
    Issued(u64),
    /// This batch was retrieved for this identity.
    Retrieved(u64, Seq<ResponseView>),
}

/// The live identities after one event. A retrieval for an identity that
/// is not live is refused and changes nothing.
pub open spec fn step(live: Set<u64>, event: Event) -> Set<u64> {
    match event {
        Event::Issued(id) => after_submission(live, id),
        Event::Retrieved(id, batch) => if live.contains(id) {
            after_retrieval(live, id, batch)
        } else {
            live
        },
    }
}

/// The live identities of a session that has seen `events` since it was opened.
pub open spec fn replay(events: Seq<Event>) -> Set<u64>
    decreases events.len(),
{
    if events.len() == 0 {
        Set::empty()
    } else {
        step(replay(events.drop_last()), events.last())
    }
}

/// An identity that the engine never issued to a session is not live in it,
/// whatever else the session has seen: a query or a retrieval for it is refused.
pub proof fn lemma_unissued_id_is_not_live(events: Seq<Event>, id: u64)
    requires
        forall|i: int| 0 <= i < events.len() ==> #[trigger] events[i] != Event::Issued(id),
    ensures
        !replay(events).contains(id),
    decreases events.len(),
{
    if events.len() > 0 {
        let earlier = events.drop_last();
        assert forall|i: int| 0 <= i < earlier.len() implies #[trigger] earlier[i] != Event::Issued(
            id,
        ) by {
            assert(earlier[i] == events[i]);
        }
        lemma_unissued_id_is_not_live(earlier, id);
        assert(events.last() == events[events.len() - 1]);
    }
}

/// What happens to one identity leaves every other one as it was.
pub proof fn lemma_other_ids_untouched(live: Set<u64>, event: Event, other: u64)
    requires
        match event {
            Event::Issued(id) => id != other,
            Event::Retrieved(id, _) => id != other,
        },
    ensures
        step(live, event).contains(other) == live.contains(other),
{
}

} // verus!
