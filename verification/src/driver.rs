//! The caller's side of one request: when to retrieve, and how far to read a batch.

use vstd::prelude::*;
use crate::error::{Error, ErrorKind, wrapped};
use crate::executor::{ResponseIterator, ResponseView};
use crate::response::{VecTokens, carries_final};

verus! {

/// What to do for a request once the engine has said how many responses are ready.
#[derive(Clone, Copy, Debug, PartialEq, Eq, Structural)]
pub enum Action {
    /// Nothing is ready: give way for a moment, then ask again.
    Wait,
    /// Something is ready: a retrieval will not block.
    Retrieve,
}

/// Decides between waiting and retrieving from the number of ready responses.
pub fn next_action(ready: usize) -> (a: Action)
    ensures
        a == (if ready == 0 {
            Action::Wait
        } else {
            Action::Retrieve
        }),
{
    if ready == 0 {
        Action::Wait
    } else {
        Action::Retrieve
    }
}

/// Where reading a batch stops: at the first response that is malformed or
/// carries a last result; at the batch's length if there is no such response.
pub open spec fn stop_at(batch: Seq<ResponseView>) -> int
    decreases batch.len(),
{
    if batch.len() == 0 {
        0
    } else if batch[0] is Err || carries_final(batch[0]) {
        0
    } else {
        1 + stop_at(batch.drop_first())
    }
}

/// The output slots of the results among the first `n` responses, in order.
pub open spec fn slots_of(batch: Seq<ResponseView>, n: int) -> Seq<Seq<u32>>
    decreases n,
{
    if n <= 0 {
        Seq::empty()
    } else {
        slots_of(batch, n - 1) + (match batch[n - 1] {
            Ok(result) => result.output_token_ids,
            Err(_) => Seq::empty(),
        })
    }
}

/// Token sequences as mathematical values.
pub open spec fn slot_views(slots: Seq<VecTokens>) -> Seq<Seq<u32>> {
    slots.map_values(|t: VecTokens| t@)
}

/// Reads results off a batch, front to back, and appends their output slots
/// to `collected`. Reading stops behind the first last result, with `true`;
/// at a response that cannot be read, with its error; or at the end of the
/// batch, with `false`. What was not read stays in the batch.
pub fn collect_batch(batch: &mut ResponseIterator, collected: &mut Vec<VecTokens>) -> (r: Result<
    bool,
    Error,
>)
    ensures
        ({
            let b = old(batch)@;
            let k = stop_at(b);
            &&& 0 <= k <= b.len()
            &&& k == b.len() ==> r == Ok::<bool, Error>(false) && final(batch)@ == Seq::<
                ResponseView,
            >::empty() && slot_views(final(collected)@) == slot_views(old(collected)@) + slots_of(
                b,
                k,
            )
            &&& k < b.len() ==> final(batch)@ == b.skip(k + 1) && match b[k] {
                Ok(result) => r == Ok::<bool, Error>(true) && slot_views(final(collected)@)
                    == slot_views(old(collected)@) + slots_of(b, k + 1),
                Err(reason) => r is Err && r->Err_0.kind == ErrorKind::ExtractionError
                    && r->Err_0.message@ == wrapped("Failed to get result from response"@, reason)
                    && slot_views(final(collected)@) == slot_views(old(collected)@) + slots_of(
                    b,
                    k,
                ),
            }
        }),
{
    let ghost b = batch@;
    let ghost before = slot_views(collected@);
    let ghost mut read: int = 0;
    assert(b.skip(0) =~= b);
    assert(before + slots_of(b, 0) =~= before);
    loop
        invariant
            b == old(batch)@,
            before == slot_views(old(collected)@),
            0 <= read <= b.len(),
            batch@ == b.skip(read),
            stop_at(b) == read + stop_at(b.skip(read)),
            slot_views(collected@) == before + slots_of(b, read),
        decreases b.len() - read,
    {
        let ghost rest = batch@;
        match batch.next() {
            None => {
                assert(batch@ =~= Seq::<ResponseView>::empty());
                return Ok(false);
            },
            Some(response) => {
                assert(rest[0] == b[read]);
                assert(rest.drop_first() =~= b.skip(read + 1));
                let ghost earlier = slot_views(collected@);
                match response.get_result() {
                    Err(e) => {
                        return Err(e);
                    },
                    Ok(result) => {
                        let mut result = result;
                        let last: bool = result.is_final;
                        let ghost slots = result.output_token_ids@;
                        assert(slot_views(slots) =~= result@.output_token_ids);
                        collected.append(&mut result.output_token_ids);
                        assert(slot_views(collected@) =~= earlier + slot_views(slots));
                        if last {
                            return Ok(true);
                        }
                        proof {
                            read = read + 1;
                        }
                    },
                }
            },
        }
    }
}

} // verus!
