//! One cycle of the poll loop: compute the next offset, fetch the
//! updates since it, and feed each to the handler in received order,
//! stopping at the first transport failure. The enclosing loop — fetch,
//! handle, sleep, repeat — is driven from outside the library.

use crate::client::TelegramClient;
use crate::client_types::RawUpdate;
use crate::config::Config;
use crate::handler::Handler;
use crate::handler::StateView;
use crate::handler::TelegramState;
use crate::handler::spec_repeat_map_after;
use crate::update_converter::spec_convert;
use vstd::prelude::*;

verus! {

/// The offset the next fetch requests: one past the stored
/// low-watermark, or 0 when nothing was handled yet. Updates with a
/// smaller id are considered acknowledged and are never redelivered.
pub open spec fn spec_next_offset(last: Option<u64>) -> u64 {
    match last {
        Some(v) => (v + 1) as u64,
        None => 0,
    }
}

pub fn next_offset(state: &TelegramState) -> (r: u64)
    requires
        state@.last_update_id matches Some(v) ==> v < u64::MAX,
    ensures
        r == spec_next_offset(state@.last_update_id),
{
    match state.last_update_id {
        Some(v) => v + 1,
        None => 0,
    }
}

/// The conversation state after one update is handled: the offset
/// stands at the update's id and the overrides change as the converted
/// event dictates.
pub open spec fn spec_state_after(s: StateView, u: RawUpdate) -> StateView {
    StateView {
        last_update_id: Some(u.update_id),
        repeat_numbers: spec_repeat_map_after(s.repeat_numbers, spec_convert(u)),
    }
}

/// The conversation state after a batch of updates, handled front to
/// back.
pub open spec fn spec_batch_state(s: StateView, ups: Seq<RawUpdate>) -> StateView
    decreases ups.len(),
{
    if ups.len() == 0 {
        s
    } else {
        spec_batch_state(spec_state_after(s, ups[0]), ups.drop_first())
    }
}

proof fn lemma_batch_snoc(s: StateView, ps: Seq<RawUpdate>, u: RawUpdate)
    ensures
        spec_batch_state(s, ps.push(u)) == spec_state_after(spec_batch_state(s, ps), u),
    decreases ps.len(),
{
    if ps.len() == 0 {
        assert(ps.push(u)[0] == u);
        assert(ps.push(u).drop_first() =~= Seq::<RawUpdate>::empty());
        assert(spec_batch_state(spec_state_after(s, u), Seq::<RawUpdate>::empty())
            == spec_state_after(s, u));
        assert(spec_batch_state(s, ps) == s);
    } else {
        assert(ps.push(u)[0] == ps[0]);
        assert(ps.push(u).drop_first() =~= ps.drop_first().push(u));
        lemma_batch_snoc(spec_state_after(s, ps[0]), ps.drop_first(), u);
        assert(spec_batch_state(s, ps) == spec_batch_state(
            spec_state_after(s, ps[0]),
            ps.drop_first(),
        ));
    }
}

/// Offset monotonicity over a batch: after handling updates whose ids
/// increase front to back, the stored offset equals the last id, and
/// the next fetch requests one past it. An already-handled id therefore
/// falls below every later request and is never refetched.
pub proof fn lemma_batch_offset(s: StateView, ups: Seq<RawUpdate>)
    requires
        ups.len() > 0,
        forall|i: int, j: int|
            0 <= i < j < ups.len() ==> ups[i].update_id < ups[j].update_id,
    ensures
        spec_batch_state(s, ups).last_update_id == Some(ups.last().update_id),
        ups.last().update_id < u64::MAX ==> spec_next_offset(
            spec_batch_state(s, ups).last_update_id,
        ) == ups.last().update_id + 1,
    decreases ups.len(),
{
    if ups.len() == 1 {
        assert(ups.drop_first() =~= Seq::<RawUpdate>::empty());
        assert(spec_batch_state(s, ups) == spec_batch_state(
            spec_state_after(s, ups[0]),
            ups.drop_first(),
        ));
        assert(spec_batch_state(spec_state_after(s, ups[0]), Seq::<RawUpdate>::empty())
            == spec_state_after(s, ups[0]));
        assert(ups.last() == ups[0]);
    } else {
        let rest = ups.drop_first();
        assert forall|i: int, j: int|
            0 <= i < j < rest.len() implies rest[i].update_id < rest[j].update_id by {
            assert(rest[i] == ups[i + 1]);
            assert(rest[j] == ups[j + 1]);
        }
        lemma_batch_offset(spec_state_after(s, ups[0]), rest);
        assert(rest.last() == ups.last());
    }
}

/// Fetches the pending updates and feeds each to the handler in the
/// order received, propagating the first failure without touching the
/// rest of the batch. Whatever the outcome, the final state is the
/// fold of the handled prefix over the starting state.
pub fn communicate<T: TelegramClient, H: Handler<T>>(
    state: &mut TelegramState,
    client: &T,
    handler: &H,
    config: &Config,
) -> (r: Result<(), T::E>)
    requires
        old(state)@.last_update_id matches Some(v) ==> v < u64::MAX,
    ensures
        old(state).wf() ==> final(state).wf(),
        exists|ups: Seq<RawUpdate>| final(state)@ == spec_batch_state(old(state)@, ups),
{
    let offset = next_offset(state);
    let mut updates = match client.get_updates(offset) {
        Ok(u) => u,
        Err(e) => {
            proof {
                assert(state@ == spec_batch_state(old(state)@, Seq::<RawUpdate>::empty()));
            }
            return Err(e);
        },
    };
    let ghost mut processed: Seq<RawUpdate> = Seq::empty();
    proof {
        assert(state@ == spec_batch_state(old(state)@, processed));
    }
    while updates.len() > 0
        invariant
            old(state).wf() ==> state.wf(),
            state@ == spec_batch_state(old(state)@, processed),
        decreases updates@.len(),
    {
        let u = updates.remove(0);
        let ghost uv = u;
        let ghost prev = processed;
        match handler.handle(config, state, u) {
            Ok(()) => {},
            Err(e) => {
                proof {
                    lemma_batch_snoc(old(state)@, prev, uv);
                    processed = prev.push(uv);
                }
                return Err(e);
            },
        }
        proof {
            lemma_batch_snoc(old(state)@, prev, uv);
            processed = prev.push(uv);
        }
    }
    Ok(())
}

} // verus!
