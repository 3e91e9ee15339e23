use vstd::prelude::*;
use crate::connection::{ClosePlan, app_error, close_plan};
use crate::datagram::{RawDatagramFlow, flow_after_error};
use crate::error::Error;
use crate::state::{
    ConnState, ConnectionId, Path, Phase, closed_by, closing_wait, confirmed, drained_by, max_pto,
    phase_rank, remaining_wait, without_path,
};

verus! {

/// `b` is what one operation of a connection can leave after `a`: nothing
/// changed, a closing or draining procedure started, the close confirmation
/// came, every path failed, the connection terminated (never from the active
/// state), or an active connection stayed active.
pub open spec fn lifecycle_step(a: ConnState, b: ConnState) -> bool {
    ||| b == a
    ||| exists|e: Error| b == closed_by(a, e)
    ||| exists|e: Error| b == drained_by(a, e)
    ||| b == confirmed(a)
    ||| b == without_path(a)
    ||| (!(a is Raw) && b == ConnState::Closed)
    ||| (a is Raw && b is Raw)
}

/// No operation moves a connection back: every step keeps or raises the
/// phase in the order active, closing, draining, terminated.
pub proof fn lemma_step_monotonic(a: ConnState, b: ConnState)
    requires
        lifecycle_step(a, b),
    ensures
        phase_rank(a.phase()) <= phase_rank(b.phase()),
        a.phase() != Phase::Active ==> b.phase() != Phase::Active,
{
    if exists|e: Error| b == closed_by(a, e) {
        let e = choose|e: Error| b == closed_by(a, e);
        assert(b == closed_by(a, e));
    } else if exists|e: Error| b == drained_by(a, e) {
        let e = choose|e: Error| b == drained_by(a, e);
        assert(b == drained_by(a, e));
    }
}

/// Along any run of operations the phase never goes down, so a connection
/// that has left the active state never becomes active again.
pub proof fn lemma_never_reactivated(trace: Seq<ConnState>, i: int, j: int)
    requires
        forall|k: int| 0 <= k < trace.len() - 1 ==> lifecycle_step(#[trigger] trace[k], trace[k + 1]),
        0 <= i <= j < trace.len(),
    ensures
        phase_rank(trace[i].phase()) <= phase_rank(trace[j].phase()),
        trace[i].phase() != Phase::Active ==> trace[j].phase() != Phase::Active,
    decreases j - i,
{
    if i < j {
        lemma_never_reactivated(trace, i, j - 1);
        lemma_step_monotonic(trace[j - 1], trace[j]);
    }
}

/// The steps that release nothing keep the connection IDs that the state
/// holds: they move intact from the active state to closing or draining.
pub proof fn lemma_steps_keep_cids(s: ConnState, e: Error)
    ensures
        closed_by(s, e).owned_cids() == s.owned_cids(),
        drained_by(s, e).owned_cids() == s.owned_cids(),
        confirmed(s).owned_cids() == s.owned_cids(),
{
}

/// Each connection ID is released exactly once: when every step of a run
/// hands back what it took from the state's IDs (`released[k]`) and the run
/// ends terminated, the releases put together are the IDs held at its start,
/// each as often as it was held, however the terminal events raced.
pub proof fn lemma_released_exactly_once(
    trace: Seq<ConnState>,
    released: Seq<Seq<ConnectionId>>,
)
    requires
        trace.len() == released.len() + 1,
        forall|k: int|
            0 <= k < released.len() ==> (#[trigger] trace[k]).owned_cids() == released[k] + trace[k
                + 1].owned_cids(),
        trace.last() is Closed,
    ensures
        released.flatten() == trace[0].owned_cids(),
{
    lemma_released_from(trace, released, 0);
    assert(released.subrange(0, released.len() as int) == released);
}

proof fn lemma_released_from(trace: Seq<ConnState>, released: Seq<Seq<ConnectionId>>, k: int)
    requires
        trace.len() == released.len() + 1,
        forall|k: int|
            0 <= k < released.len() ==> (#[trigger] trace[k]).owned_cids() == released[k] + trace[k
                + 1].owned_cids(),
        trace.last() is Closed,
        0 <= k <= released.len(),
    ensures
        released.subrange(k, released.len() as int).flatten() == trace[k].owned_cids(),
    decreases released.len() - k,
{
    let rest = released.subrange(k, released.len() as int);
    if k == released.len() {
        assert(rest.len() == 0);
        assert(trace[k].owned_cids() == Seq::<ConnectionId>::empty());
    } else {
        lemma_released_from(trace, released, k + 1);
        assert(rest.drop_first() == released.subrange(k + 1, released.len() as int));
        assert(rest.first() == released[k]);
    }
}

/// Closing is idempotent: once a close has started, a second close or a
/// transport error changes nothing and the first error stays the one stored.
pub proof fn lemma_close_idempotent(s: ConnState, first: String, second: String, transport: Error)
    ensures
        closed_by(closed_by(s, app_error(first)), app_error(second)) == closed_by(
            s,
            app_error(first),
        ),
        closed_by(closed_by(s, app_error(first)), transport) == closed_by(s, app_error(first)),
        s is Raw ==> closed_by(s, app_error(first)).stored_error() == Some(app_error(first)),
{
}

/// The closing wait is three times the largest probe timeout of the paths,
/// that largest timeout being one of them and at least every other; after a
/// confirmation at `elapsed` within the wait, what is left is the wait less
/// `elapsed`.
pub proof fn lemma_timeout_arithmetic(paths: Seq<Path>, elapsed: u64)
    requires
        paths.len() > 0,
    ensures
        forall|i: int| 0 <= i < paths.len() ==> (#[trigger] paths[i]).pto_micros <= max_pto(paths),
        exists|i: int| 0 <= i < paths.len() && (#[trigger] paths[i]).pto_micros == max_pto(paths),
        max_pto(paths) <= u64::MAX / 3 ==> closing_wait(max_pto(paths)) == 3 * max_pto(paths),
        elapsed < closing_wait(max_pto(paths)) ==> remaining_wait(
            closing_wait(max_pto(paths)),
            elapsed,
        ) + elapsed == closing_wait(max_pto(paths)),
    decreases paths.len(),
{
    let rest = paths.drop_last();
    if rest.len() > 0 {
        lemma_timeout_arithmetic(rest, elapsed);
        assert forall|i: int| 0 <= i < paths.len() implies (#[trigger] paths[i]).pto_micros
            <= max_pto(paths) by {
            if i < rest.len() {
                assert(paths[i] == rest[i]);
            }
        }
        if paths.last().pto_micros > max_pto(rest) {
            assert(paths[paths.len() - 1].pto_micros == max_pto(paths));
        } else {
            let j = choose|j: int| 0 <= j < rest.len() && (#[trigger] rest[j]).pto_micros == max_pto(rest);
            assert(paths[j] == rest[j]);
        }
    } else {
        assert(max_pto(rest) == 0);
        assert(paths[0] == paths.last());
        assert(paths[0].pto_micros == max_pto(paths));
    }
}

/// The first connection error wins: a second one leaves the flow as the
/// first left it, and the flow then holds the first error.
pub proof fn lemma_first_error_wins(f: RawDatagramFlow, first: Error, second: Error)
    ensures
        flow_after_error(flow_after_error(f, first), second) == flow_after_error(f, first),
        f.error is None ==> flow_after_error(f, first).error == Some(first),
        flow_after_error(f, first).error is Some,
{
}

/// A closing procedure started on an active connection whose largest probe
/// timeout is `m` waits exactly `3 * m`: closing when some keys are left,
/// straight to draining (for the full `3 * m`) when none are. A close
/// confirmation at `elapsed < 3 * m` turns closing into draining with the
/// same error and connection IDs, for the remaining `3 * m - elapsed`.
pub proof fn lemma_closing_timeline(s: ConnState, error: Error, elapsed: u64)
    requires
        s is Raw,
        s.has_path(),
        max_pto(s->Raw_0.paths@) <= u64::MAX / 3,
    ensures
        ({
            let m = max_pto(s->Raw_0.paths@);
            let c = closed_by(s, error);
            &&& (s->Raw_0.handshake_keys || s->Raw_0.one_rtt_keys) ==> {
                &&& c is Closing
                &&& close_plan(c, m) == (ClosePlan::Closing { wait_micros: (3 * m) as u64 })
                &&& c.stored_error() == Some(error)
                &&& elapsed < 3 * m ==> {
                    &&& confirmed(c) is Draining
                    &&& confirmed(c).stored_error() == Some(error)
                    &&& confirmed(c).owned_cids() == s.owned_cids()
                    &&& remaining_wait((3 * m) as u64, elapsed) == 3 * m - elapsed
                }
            }
            &&& !(s->Raw_0.handshake_keys || s->Raw_0.one_rtt_keys) ==> {
                &&& c is Draining
                &&& close_plan(c, m) == (ClosePlan::Draining { wait_micros: (3 * m) as u64 })
                &&& c.stored_error() == Some(error)
            }
            &&& c.owned_cids() == s.owned_cids()
        }),
{
}

/// A draining procedure started on an active connection whose largest probe
/// timeout is `m` moves it to draining with `error` and its connection IDs,
/// for exactly `3 * m`; terminating then releases every one of those IDs.
pub proof fn lemma_draining_timeline(s: ConnState, error: Error)
    requires
        s is Raw,
        s.has_path(),
        max_pto(s->Raw_0.paths@) <= u64::MAX / 3,
    ensures
        drained_by(s, error) is Draining,
        drained_by(s, error).stored_error() == Some(error),
        drained_by(s, error).owned_cids() == s.owned_cids(),
        closing_wait(max_pto(s->Raw_0.paths@)) == 3 * max_pto(s->Raw_0.paths@),
{
}

} // verus!
