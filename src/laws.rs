//! What holds of every run of the engine: the actions that a sequence of
//! events produces from a well-formed state.
use vstd::prelude::*;
use crate::bid::bumped_tip;
use crate::engine::{
    next, resume, sat_add, template_with, ChainContext, Engine, EngineAction, EngineEvent, Stage,
};
use crate::outcome::{ErrorKind, RejectReason, SubmissionOutcome};

verus! {

/// The actions, one per event, that `events` produce from `s`.
pub open spec fn run(s: Engine, events: Seq<EngineEvent>) -> Seq<EngineAction>
    decreases events.len(),
{
    if events.len() == 0 {
        Seq::empty()
    } else {
        let (s1, a) = next(s, events[0]);
        seq![a] + run(s1, events.subrange(1, events.len() as int))
    }
}

pub open spec fn is_broadcast(a: EngineAction) -> bool {
    a is Broadcast
}

pub open spec fn broadcast_tip(a: EngineAction) -> u128 {
    match a {
        EngineAction::Broadcast { template, .. } => template.tip,
        _ => 0,
    }
}

pub open spec fn broadcast_nonce(a: EngineAction) -> u64 {
    match a {
        EngineAction::Broadcast { template, .. } => template.nonce,
        _ => 0,
    }
}

pub open spec fn is_reactive_broadcast(a: EngineAction) -> bool {
    match a {
        EngineAction::Broadcast { reactive, .. } => reactive,
        _ => false,
    }
}

pub open spec fn is_success(a: EngineAction) -> bool {
    a matches EngineAction::Finish(SubmissionOutcome::Included(_))
}

/// Nothing is broadcast yet and the chain state has not been taken in.
pub open spec fn before_chain_state(s: Engine) -> bool {
    !s.sent && !(s.stage is PreWatch) && !(s.stage is Racing)
}

/// A chain context that shows the hotkey free to register.
pub open spec fn unregistered_context(e: EngineEvent) -> bool {
    e matches EngineEvent::Prepared(c) && !c.already_registered
}

proof fn lemma_step(s: Engine, e: EngineEvent)
    requires
        s.wf(),
    ensures
        ({
            let (s1, a) = next(s, e);
            &&& s1.wf()
            &&& s1.policy == s.policy
            &&& s.stage is Done ==> s1 == s && a is Wait
            &&& a is Finish ==> s1.stage is Done
            &&& s.sent ==> s1.sent && s1.base.nonce == s.base.nonce && s1.bid.current_tip
                >= s.bid.current_tip && s1.bid.round >= s.bid.round
            &&& is_broadcast(a) ==> s1.sent && s1.bid.current_tip == broadcast_tip(a)
                && s1.base.nonce == broadcast_nonce(a)
            &&& s.sent && is_broadcast(a) ==> broadcast_tip(a) > s.bid.current_tip
                && broadcast_nonce(a) == s.base.nonce && s.bid.round < s.bid.round_limit
            &&& !s.policy.watch_mempool ==> !(a is StartWatcher) && !is_reactive_broadcast(a)
            &&& !is_broadcast(a) ==> s1.sent == s.sent
            &&& s.sent && !is_broadcast(a) ==> s1.bid.current_tip == s.bid.current_tip
            &&& s.sent && !s.policy.watch_mempool && is_broadcast(a) ==> broadcast_tip(a)
                == bumped_tip(
                s.bid.current_tip as int,
                s.policy.bump_bps as int,
                s.policy.min_rbf_tip as int,
            ) as u128
            &&& !s.sent && !s.policy.watch_mempool ==> s1.bid.current_tip == s.bid.current_tip
            &&& !s.sent && !s.policy.watch_mempool && is_broadcast(a) ==> broadcast_tip(a)
                == s.bid.current_tip
            &&& before_chain_state(s) && !unregistered_context(e) ==> before_chain_state(s1)
                && !is_broadcast(a) && !is_success(a)
        }),
{
}

proof fn lemma_run_len(s: Engine, events: Seq<EngineEvent>)
    ensures
        run(s, events).len() == events.len(),
    decreases events.len(),
{
    if events.len() > 0 {
        lemma_run_len(next(s, events[0]).0, events.subrange(1, events.len() as int));
    }
}

proof fn lemma_unfold(s: Engine, events: Seq<EngineEvent>, i: int)
    requires
        0 < i < events.len(),
    ensures
        run(s, events)[i] == run(next(s, events[0]).0, events.subrange(1, events.len() as int))[i
            - 1],
{
    lemma_run_len(next(s, events[0]).0, events.subrange(1, events.len() as int));
}

/// After a broadcast, every later one keeps the nonce and offers a higher tip.
proof fn lemma_after_sent(s: Engine, events: Seq<EngineEvent>)
    requires
        s.wf(),
        s.sent,
    ensures
        forall|i: int|
            0 <= i < run(s, events).len() && is_broadcast(#[trigger] run(s, events)[i])
                ==> broadcast_tip(run(s, events)[i]) > s.bid.current_tip && broadcast_nonce(
                run(s, events)[i],
            ) == s.base.nonce,
    decreases events.len(),
{
    lemma_run_len(s, events);
    if events.len() > 0 {
        let s1 = next(s, events[0]).0;
        let rest = events.subrange(1, events.len() as int);
        lemma_step(s, events[0]);
        lemma_after_sent(s1, rest);
        assert forall|i: int|
            0 <= i < run(s, events).len() && is_broadcast(#[trigger] run(s, events)[i])
                implies broadcast_tip(run(s, events)[i]) > s.bid.current_tip && broadcast_nonce(
                run(s, events)[i],
            ) == s.base.nonce by {
            if i > 0 {
                lemma_unfold(s, events, i);
            }
        }
    }
}

/// Once the last round is used after a broadcast, nothing more is broadcast.
proof fn lemma_rounds_spent(s: Engine, events: Seq<EngineEvent>)
    requires
        s.wf(),
        s.sent,
        s.bid.round == s.bid.round_limit,
    ensures
        forall|i: int| 0 <= i < run(s, events).len() ==> !is_broadcast(#[trigger] run(s, events)[i]),
    decreases events.len(),
{
    lemma_run_len(s, events);
    if events.len() > 0 {
        let s1 = next(s, events[0]).0;
        lemma_step(s, events[0]);
        lemma_rounds_spent(s1, events.subrange(1, events.len() as int));
        assert forall|i: int| 0 <= i < run(s, events).len() implies !is_broadcast(
            #[trigger] run(s, events)[i],
        ) by {
            if i > 0 {
                lemma_unfold(s, events, i);
            }
        }
    }
}

/// Once the outcome is produced, every later event is answered with `Wait`.
proof fn lemma_done_waits(s: Engine, events: Seq<EngineEvent>)
    requires
        s.wf(),
        s.stage is Done,
    ensures
        forall|i: int| 0 <= i < run(s, events).len() ==> (#[trigger] run(s, events)[i]) is Wait,
    decreases events.len(),
{
    lemma_run_len(s, events);
    if events.len() > 0 {
        lemma_step(s, events[0]);
        lemma_done_waits(next(s, events[0]).0, events.subrange(1, events.len() as int));
        assert forall|i: int| 0 <= i < run(s, events).len() implies (#[trigger] run(
            s,
            events,
        )[i]) is Wait by {
            if i > 0 {
                lemma_unfold(s, events, i);
            }
        }
    }
}

/// Across the broadcasts of one attempt the nonce stays the same and each tip
/// is higher than the one before, so no (nonce, tip) pair is sent twice.
pub proof fn law_tips_rise_nonce_fixed(s: Engine, events: Seq<EngineEvent>)
    requires
        s.wf(),
    ensures
        forall|i: int, j: int|
            0 <= i < j < run(s, events).len() && is_broadcast(#[trigger] run(s, events)[i])
                && is_broadcast(#[trigger] run(s, events)[j]) ==> broadcast_tip(run(s, events)[i])
                < broadcast_tip(run(s, events)[j]) && broadcast_nonce(run(s, events)[i])
                == broadcast_nonce(run(s, events)[j]),
    decreases events.len(),
{
    lemma_run_len(s, events);
    if events.len() > 0 {
        let s1 = next(s, events[0]).0;
        let rest = events.subrange(1, events.len() as int);
        lemma_step(s, events[0]);
        law_tips_rise_nonce_fixed(s1, rest);
        if s1.sent {
            lemma_after_sent(s1, rest);
        }
        assert forall|i: int, j: int|
            0 <= i < j < run(s, events).len() && is_broadcast(#[trigger] run(s, events)[i])
                && is_broadcast(#[trigger] run(s, events)[j]) implies broadcast_tip(
                run(s, events)[i],
            ) < broadcast_tip(run(s, events)[j]) && broadcast_nonce(run(s, events)[i])
                == broadcast_nonce(run(s, events)[j]) by {
            lemma_unfold(s, events, j);
            if i > 0 {
                lemma_unfold(s, events, i);
            }
        }
    }
}

/// With no replacement rounds allowed, at most one template is ever broadcast,
/// whatever competitors are seen.
pub proof fn law_single_broadcast_without_rounds(s: Engine, events: Seq<EngineEvent>)
    requires
        s.wf(),
        s.policy.rbf_rounds == 0,
    ensures
        forall|i: int, j: int|
            0 <= i < j < run(s, events).len() ==> !(is_broadcast(#[trigger] run(s, events)[i])
                && is_broadcast(#[trigger] run(s, events)[j])),
    decreases events.len(),
{
    lemma_run_len(s, events);
    if events.len() > 0 {
        let s1 = next(s, events[0]).0;
        let rest = events.subrange(1, events.len() as int);
        lemma_step(s, events[0]);
        law_single_broadcast_without_rounds(s1, rest);
        if s1.sent {
            lemma_rounds_spent(s1, rest);
        }
        assert forall|i: int, j: int| 0 <= i < j < run(s, events).len() implies !(is_broadcast(
            #[trigger] run(s, events)[i],
        ) && is_broadcast(#[trigger] run(s, events)[j])) by {
            lemma_unfold(s, events, j);
            if i > 0 {
                lemma_unfold(s, events, i);
            }
        }
    }
}

/// With mempool watching off, the watcher is never started and no round is
/// reactive, even with reactive watching on.
pub proof fn law_no_watch_no_reaction(s: Engine, events: Seq<EngineEvent>)
    requires
        s.wf(),
        !s.policy.watch_mempool,
    ensures
        forall|i: int|
            0 <= i < run(s, events).len() ==> !((#[trigger] run(s, events)[i]) is StartWatcher)
                && !is_reactive_broadcast(run(s, events)[i]),
    decreases events.len(),
{
    lemma_run_len(s, events);
    if events.len() > 0 {
        lemma_step(s, events[0]);
        law_no_watch_no_reaction(next(s, events[0]).0, events.subrange(1, events.len() as int));
        assert forall|i: int| 0 <= i < run(s, events).len() implies !((#[trigger] run(
            s,
            events,
        )[i]) is StartWatcher) && !is_reactive_broadcast(run(s, events)[i]) by {
            if i > 0 {
                lemma_unfold(s, events, i);
            }
        }
    }
}

/// An attempt produces its outcome at most once.
pub proof fn law_single_outcome(s: Engine, events: Seq<EngineEvent>)
    requires
        s.wf(),
    ensures
        forall|i: int, j: int|
            0 <= i < j < run(s, events).len() ==> !((#[trigger] run(s, events)[i]) is Finish && (
            #[trigger] run(s, events)[j]) is Finish),
    decreases events.len(),
{
    lemma_run_len(s, events);
    if events.len() > 0 {
        let s1 = next(s, events[0]).0;
        let rest = events.subrange(1, events.len() as int);
        lemma_step(s, events[0]);
        law_single_outcome(s1, rest);
        if s1.stage is Done {
            lemma_done_waits(s1, rest);
        }
        assert forall|i: int, j: int| 0 <= i < j < run(s, events).len() implies !((#[trigger] run(
            s,
            events,
        )[i]) is Finish && (#[trigger] run(s, events)[j]) is Finish) by {
            lemma_unfold(s, events, j);
            if i > 0 {
                lemma_unfold(s, events, i);
            }
        }
    }
}

/// A competitor that matches or beats the current tip during the race, with
/// reactive watching on, triggers a round at once whose tip is the current tip
/// raised by the reactive factor, not the scheduled one.
pub proof fn law_reactive_round(s: Engine, tip: u128, seen_ms: u64)
    requires
        s.wf(),
        s.stage is Racing,
        s.policy.watch_mempool,
        s.policy.watch_reactive,
        tip >= s.bid.current_tip,
        s.bid.round < s.bid.round_limit,
        s.bid.current_tip < u128::MAX,
    ensures
        next(s, EngineEvent::Competitor { tip, seen_ms }).1 == (EngineAction::Broadcast {
            template: template_with(
                s,
                bumped_tip(
                    s.bid.current_tip as int,
                    s.bid.reactive_bump_bps as int,
                    s.bid.min_tip as int,
                ) as u128,
            ),
            round: (s.bid.round + 1) as u32,
            reactive: true,
        }),
{
}

/// When the chain shows the hotkey already registered, the attempt is
/// rejected as such: nothing is broadcast and no success is reported,
/// whatever events follow.
pub proof fn law_registered_is_rejected(s: Engine, c: ChainContext, later: Seq<EngineEvent>)
    requires
        s.wf(),
        s.stage is Preparing,
        c.already_registered,
    ensures
        ({
            let acts = run(s, seq![EngineEvent::Prepared(c)] + later);
            &&& acts[0] == EngineAction::Finish(
                SubmissionOutcome::Error(ErrorKind::SubmissionRejected(RejectReason::AlreadyRegistered)),
            )
            &&& forall|i: int| 0 < i < acts.len() ==> (#[trigger] acts[i]) is Wait
        }),
{
    let events = seq![EngineEvent::Prepared(c)] + later;
    assert(events[0] == EngineEvent::Prepared(c));
    assert(events.subrange(1, events.len() as int) =~= later);
    let s1 = next(s, events[0]).0;
    lemma_step(s, events[0]);
    lemma_done_waits(s1, later);
    lemma_run_len(s, events);
    assert forall|i: int| 0 < i < run(s, events).len() implies (#[trigger] run(s, events)[i]) is Wait by {
        lemma_unfold(s, events, i);
    }
}

/// Submitting on a new head: the head starts a delay of `head_delay_ms`, and
/// while it runs the engine neither fetches the chain context nor broadcasts,
/// unless a tick at or after its end arrives.
pub proof fn law_head_delay_respected(s: Engine, e: EngineEvent)
    requires
        s.wf(),
    ensures
        s.stage is AwaitingHead ==> (e matches EngineEvent::NewHead { at_ms, .. } ==> next(
            s,
            e,
        ).0.stage == (Stage::HeadDelay { until_ms: sat_add(at_ms, s.policy.head_delay_ms) })),
        s.stage matches Stage::HeadDelay { until_ms } ==> ((next(s, e).1 is FetchChainState
            || is_broadcast(next(s, e).1)) ==> (e matches EngineEvent::Tick { now_ms } && now_ms
            >= until_ms)),
{
}

/// After a chain failure that is the first of the attempt, the session is
/// re-acquired, and the fresh session redoes what was interrupted: it waits
/// for the head, fetches the chain state, or watches the latest template's
/// status (without sending it again). A second failure ends the attempt.
pub proof fn law_retry_resumes(s: Engine)
    requires
        s.wf(),
        !(s.stage is Done),
        !s.retry_used,
    ensures
        ({
            let (s1, a1) = next(s, EngineEvent::ChainFailure);
            let (s2, a2) = next(s1, EngineEvent::SessionReady);
            &&& a1 == EngineAction::ReacquireSession
            &&& s1 == (Engine { retry_used: true, ..s })
            &&& (s2, a2) == resume(s1)
            &&& s.stage is AwaitingHead ==> a2 == EngineAction::WaitForHead
            &&& s.stage is Preparing ==> a2 == EngineAction::FetchChainState
            &&& s.stage is Racing ==> a2 == (EngineAction::WatchStatus {
                template: template_with(s, s.bid.current_tip),
            })
            &&& next(s2, EngineEvent::ChainFailure).1 == EngineAction::Finish(
                SubmissionOutcome::Error(ErrorKind::Chain),
            )
        }),
{
}

/// The tip of the next broadcast in a run with mempool watching off: the
/// current tip raised by the scheduled factor once a template is out, else the
/// planned first tip.
proof fn lemma_next_tip(s: Engine, events: Seq<EngineEvent>)
    requires
        s.wf(),
        !s.policy.watch_mempool,
    ensures
        forall|j: int|
            0 <= j < run(s, events).len() && is_broadcast(#[trigger] run(s, events)[j]) && (forall|
                k: int,
            | 0 <= k < j ==> !is_broadcast(#[trigger] run(s, events)[k])) ==> broadcast_tip(
                run(s, events)[j],
            ) == if s.sent {
                bumped_tip(
                    s.bid.current_tip as int,
                    s.policy.bump_bps as int,
                    s.policy.min_rbf_tip as int,
                ) as u128
            } else {
                s.bid.current_tip
            },
    decreases events.len(),
{
    lemma_run_len(s, events);
    if events.len() > 0 {
        let s1 = next(s, events[0]).0;
        let rest = events.subrange(1, events.len() as int);
        lemma_step(s, events[0]);
        lemma_next_tip(s1, rest);
        lemma_run_len(s1, rest);
        assert forall|j: int|
            0 <= j < run(s, events).len() && is_broadcast(#[trigger] run(s, events)[j]) && (forall|
                k: int,
            | 0 <= k < j ==> !is_broadcast(#[trigger] run(s, events)[k])) implies broadcast_tip(
            run(s, events)[j]) == if s.sent {
            bumped_tip(
                s.bid.current_tip as int,
                s.policy.bump_bps as int,
                s.policy.min_rbf_tip as int,
            ) as u128
        } else {
            s.bid.current_tip
        } by {
            if j > 0 {
                lemma_unfold(s, events, j);
                assert(!is_broadcast(run(s, events)[0]));
                assert forall|k: int| 0 <= k < j - 1 implies !is_broadcast(
                    #[trigger] run(s1, rest)[k],
                ) by {
                    lemma_unfold(s, events, k + 1);
                    assert(!is_broadcast(run(s, events)[k + 1]));
                }
            }
        }
    }
}

proof fn lemma_ladder_pair(s: Engine, events: Seq<EngineEvent>, i: int, j: int)
    requires
        s.wf(),
        !s.policy.watch_mempool,
        0 <= i < j < events.len(),
        is_broadcast(run(s, events)[i]),
        is_broadcast(run(s, events)[j]),
        forall|k: int| i < k < j ==> !is_broadcast(#[trigger] run(s, events)[k]),
    ensures
        broadcast_tip(run(s, events)[j]) == bumped_tip(
            broadcast_tip(run(s, events)[i]) as int,
            s.policy.bump_bps as int,
            s.policy.min_rbf_tip as int,
        ) as u128,
    decreases events.len(),
{
    lemma_run_len(s, events);
    let s1 = next(s, events[0]).0;
    let rest = events.subrange(1, events.len() as int);
    lemma_step(s, events[0]);
    lemma_run_len(s1, rest);
    lemma_unfold(s, events, j);
    assert forall|k: int| i - 1 < k < j - 1 implies !is_broadcast(#[trigger] run(s1, rest)[k]) by {
        lemma_unfold(s, events, k + 1);
        assert(!is_broadcast(run(s, events)[k + 1]));
    }
    if i == 0 {
        lemma_next_tip(s1, rest);
        assert(is_broadcast(run(s1, rest)[j - 1]));
    } else {
        lemma_unfold(s, events, i);
        lemma_ladder_pair(s1, rest, i - 1, j - 1);
    }
}

/// With mempool watching off, the first broadcast offers the planned first
/// tip, and each later broadcast offers the previous broadcast's tip raised
/// by the scheduled factor (`bumped_tip`: from a zero tip, the minimum).
pub proof fn law_scheduled_tip_ladder(s: Engine, events: Seq<EngineEvent>)
    requires
        s.wf(),
        !s.policy.watch_mempool,
    ensures
        !s.sent ==> forall|j: int|
            0 <= j < run(s, events).len() && is_broadcast(#[trigger] run(s, events)[j]) && (forall|
                k: int,
            | 0 <= k < j ==> !is_broadcast(#[trigger] run(s, events)[k])) ==> broadcast_tip(
                run(s, events)[j],
            ) == s.bid.current_tip,
        forall|i: int, j: int|
            0 <= i < j < run(s, events).len() && is_broadcast(#[trigger] run(s, events)[i])
                && is_broadcast(#[trigger] run(s, events)[j]) && (forall|k: int|
                i < k < j ==> !is_broadcast(#[trigger] run(s, events)[k])) ==> broadcast_tip(
                run(s, events)[j],
            ) == bumped_tip(
                broadcast_tip(run(s, events)[i]) as int,
                s.policy.bump_bps as int,
                s.policy.min_rbf_tip as int,
            ) as u128,
{
    lemma_next_tip(s, events);
    lemma_run_len(s, events);
    assert forall|i: int, j: int|
        0 <= i < j < run(s, events).len() && is_broadcast(#[trigger] run(s, events)[i])
            && is_broadcast(#[trigger] run(s, events)[j]) && (forall|k: int|
            i < k < j ==> !is_broadcast(#[trigger] run(s, events)[k])) implies broadcast_tip(
        run(s, events)[j]) == bumped_tip(
        broadcast_tip(run(s, events)[i]) as int,
        s.policy.bump_bps as int,
        s.policy.min_rbf_tip as int,
    ) as u128 by {
        lemma_ladder_pair(s, events, i, j);
    }
}

/// Before the chain state is taken in, if every chain context that arrives
/// shows the hotkey already registered, nothing is ever broadcast and no
/// success is ever reported: a second attempt for a registration that is
/// already on chain cannot succeed again.
pub proof fn law_registered_never_succeeds(s: Engine, events: Seq<EngineEvent>)
    requires
        s.wf(),
        before_chain_state(s),
        forall|i: int| 0 <= i < events.len() ==> !unregistered_context(#[trigger] events[i]),
    ensures
        forall|i: int|
            0 <= i < run(s, events).len() ==> !is_broadcast(#[trigger] run(s, events)[i])
                && !is_success(run(s, events)[i]),
    decreases events.len(),
{
    lemma_run_len(s, events);
    if events.len() > 0 {
        let s1 = next(s, events[0]).0;
        let rest = events.subrange(1, events.len() as int);
        lemma_step(s, events[0]);
        assert forall|i: int| 0 <= i < rest.len() implies !unregistered_context(#[trigger] rest[i]) by {
            assert(rest[i] == events[i + 1]);
        }
        law_registered_never_succeeds(s1, rest);
        assert forall|i: int| 0 <= i < run(s, events).len() implies !is_broadcast(
            #[trigger] run(s, events)[i],
        ) && !is_success(run(s, events)[i]) by {
            if i > 0 {
                lemma_unfold(s, events, i);
            }
        }
    }
}

} // verus!
