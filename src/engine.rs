//! The submission orchestrator. It sequences the attempt as a state machine:
//! each event that the caller reports (a session is up, a head arrived, a
//! timer fired, a competitor was seen, a status came in) yields the next state
//! and one action for the caller to perform.
//!
//! Choices this engine makes:
//! - A competitor seen while watching before the first submission, with
//!   reactive watching on and a tip at least the planned one, both ends the
//!   wait and raises the first tip by the reactive factor.
//! - When the rounds are used up, the engine waits one more round interval for
//!   a status, then ends with `NotIncluded(RoundsExhausted)`.
//! - Status events concern the latest broadcast template.
//! - After a chain failure the session is re-acquired once; the fresh session
//!   is told to redo what was interrupted: wait for the head, sleep out the
//!   delay, fetch the chain state, start the watcher, or, once a template is
//!   out, watch the status of the latest template (it is not sent again, so no
//!   (nonce, tip) pair is broadcast twice).
use vstd::prelude::*;
use crate::bid::{bumped_tip, BidDecision, BidPhase, BidState};
use crate::extrinsic::{build, burn_of, ExtrinsicTemplate, RegistrationIntent};
use crate::outcome::{BlockRef, ErrorKind, NotIncludedReason, RejectReason, SubmissionOutcome, TxStatus};

verus! {

/// How the attempt bids. Factors are in basis points (`10_000` is one).
#[derive(Clone, Copy, Debug, PartialEq, Eq, Structural)]
pub struct BidPolicy {
    /// Wait for a new head before the first submission.
    pub submit_on_new_head: bool,
    /// Delay after that head, in milliseconds.
    pub head_delay_ms: u64,
    /// Blocks for which a template stays valid.
    pub era_period: u64,
    /// Watch the pending pool for competitors.
    pub watch_mempool: bool,
    /// How long to watch before the first submission, in seconds.
    pub watch_duration_secs: u64,
    /// Poll interval of the watcher, in milliseconds.
    pub watch_interval_ms: u64,
    /// Raise the tip at once when a competitor matches or beats it.
    pub watch_reactive: bool,
    /// The raise factor for that case.
    pub watch_bump_bps: u32,
    /// An explicit first tip.
    pub tip: Option<u128>,
    /// The first tip when none is given.
    pub tip_floor: u128,
    /// The tip of the first replacement when the first tip is zero.
    pub min_rbf_tip: u128,
    /// Replacement rounds allowed after the first broadcast.
    pub rbf_rounds: u32,
    /// The scheduled raise factor.
    pub bump_bps: u32,
    /// Seconds between scheduled rounds.
    pub rbf_wait_secs: u64,
}

/// What the caller learnt from the chain and the keystore once the session
/// was up.
#[derive(Clone, Copy, Debug, PartialEq, Eq, Structural)]
pub struct ChainContext {
    /// The wallet's next nonce.
    pub nonce: u64,
    /// The block the mortality window starts at.
    pub reference_block: u64,
    /// The subnet's current registration cost.
    pub registration_cost: u64,
    /// The hotkey already holds a slot on the subnet.
    pub already_registered: bool,
    pub wallet_resolved: bool,
    pub hotkey_resolved: bool,
    pub now_ms: u64,
}

/// Where the attempt stands.
#[derive(Clone, Copy, Debug, PartialEq, Eq, Structural)]
pub enum Stage {
    /// Waiting for a session.
    Acquiring,
    /// Waiting for the next head.
    AwaitingHead,
    /// Waiting out the delay after a head.
    HeadDelay { until_ms: u64 },
    /// Waiting for the chain context.
    Preparing,
    /// Watching the pending pool before the first submission.
    PreWatch { until_ms: u64 },
    /// The first template is out; bidding and status watching run.
    Racing,
    /// The outcome was produced.
    Done,
}

/// What the caller reports.
#[derive(Clone, Copy, Debug, PartialEq, Eq, Structural)]
pub enum EngineEvent {
    /// A session was acquired, first or after `ReacquireSession`.
    SessionReady,
    /// Every endpoint was unreachable.
    NoEndpointAvailable,
    /// A new head arrived at `at_ms`.
    NewHead { block: BlockRef, at_ms: u64 },
    /// Time passed: it is now `now_ms`.
    Tick { now_ms: u64 },
    /// The chain context was fetched.
    Prepared(ChainContext),
    /// The watcher saw a competitor with this tip at `seen_ms`.
    Competitor { tip: u128, seen_ms: u64 },
    /// The latest template's status changed.
    Status(TxStatus),
    /// A chain call failed; the session is gone.
    ChainFailure,
    /// The attempt's overall deadline passed.
    DeadlineExpired,
    /// The caller gives up.
    Cancel,
}

/// What the caller is to do next.
#[derive(Clone, Copy, Debug, PartialEq, Eq, Structural)]
pub enum EngineAction {
    /// Nothing: wait for the next event.
    Wait,
    /// Subscribe to heads and report the next one.
    WaitForHead,
    /// Report a tick at or after `at_ms`.
    SleepUntil { at_ms: u64 },
    /// Fetch the chain context and report it.
    FetchChainState,
    /// Start polling the pending pool every `interval_ms`; report a tick at or
    /// after `until_ms`.
    StartWatcher { interval_ms: u64, until_ms: u64 },
    /// Sign and broadcast this template; round 0 is the first submission.
    Broadcast { template: ExtrinsicTemplate, round: u32, reactive: bool },
    /// Discard the session and acquire a fresh one, then report `SessionReady`
    /// or `NoEndpointAvailable`.
    ReacquireSession,
    /// On the fresh session, watch the status of this template, already
    /// broadcast.
    WatchStatus { template: ExtrinsicTemplate },
    /// The attempt is over: stop the watchers and release the session.
    Finish(SubmissionOutcome),
}

pub open spec fn sat_add(a: u64, b: u64) -> u64 {
    if a + b > u64::MAX {
        u64::MAX
    } else {
        (a + b) as u64
    }
}

/// Seconds as milliseconds, held at `u64::MAX`.
pub open spec fn ms_of_secs(secs: u64) -> u64 {
    if secs * 1000 > u64::MAX {
        u64::MAX
    } else {
        (secs * 1000) as u64
    }
}

fn add_ms(a: u64, b: u64) -> (r: u64)
    ensures
        r == sat_add(a, b),
{
    a.saturating_add(b)
}

fn secs_to_ms(secs: u64) -> (r: u64)
    ensures
        r == ms_of_secs(secs),
{
    match secs.checked_mul(1000) {
        Some(v) => v,
        None => u64::MAX,
    }
}

/// The first tip: the explicit one, else the floor.
pub open spec fn first_tip(p: BidPolicy) -> u128 {
    match p.tip {
        Some(t) => t,
        None => p.tip_floor,
    }
}

pub struct Engine {
    pub intent: RegistrationIntent,
    pub policy: BidPolicy,
    pub stage: Stage,
    pub bid: BidState,
    /// The template built from the chain context; replacements change only its tip.
    pub base: ExtrinsicTemplate,
    /// A template was broadcast.
    pub sent: bool,
    /// The one session re-acquisition was used.
    pub retry_used: bool,
}

pub open spec fn initial_bid(p: BidPolicy) -> BidState {
    BidState {
        current_tip: first_tip(p),
        round: 0,
        round_limit: p.rbf_rounds,
        bump_bps: p.bump_bps,
        reactive_bump_bps: p.watch_bump_bps,
        min_tip: p.min_rbf_tip,
        wait_ms: ms_of_secs(p.rbf_wait_secs),
        last_submit_ms: 0,
        phase: BidPhase::Idle,
    }
}

pub open spec fn empty_template() -> ExtrinsicTemplate {
    ExtrinsicTemplate {
        subnet: 0,
        burn_amount: 0,
        nonce: 0,
        tip: 0,
        era_period: 0,
        reference_block: 0,
    }
}

/// The template broadcast with tip `tip`.
pub open spec fn template_with(s: Engine, tip: u128) -> ExtrinsicTemplate {
    ExtrinsicTemplate { tip, ..s.base }
}

pub open spec fn finish(s: Engine, o: SubmissionOutcome, phase: BidPhase) -> (Engine, EngineAction) {
    (
        Engine { stage: Stage::Done, bid: BidState { phase, ..s.bid }, ..s },
        EngineAction::Finish(o),
    )
}

/// The first broadcast, at `now_ms`, with the planned tip.
pub open spec fn first_broadcast(s: Engine, now_ms: u64, reactive: bool) -> (Engine, EngineAction) {
    (
        Engine { stage: Stage::Racing, sent: true, bid: s.bid.started(now_ms), ..s },
        EngineAction::Broadcast {
            template: template_with(s, s.bid.current_tip),
            round: 0,
            reactive,
        },
    )
}

/// The engine after the bid controller answered with `b` and `d`.
pub open spec fn apply_bid(s: Engine, b: BidState, d: BidDecision) -> (Engine, EngineAction) {
    let s2 = Engine { bid: b, ..s };
    match d {
        BidDecision::Hold => (s2, EngineAction::Wait),
        BidDecision::Raise { tip, round, reactive } => (
            s2,
            EngineAction::Broadcast { template: template_with(s2, tip), round, reactive },
        ),
        BidDecision::Exhausted => finish(
            s2,
            SubmissionOutcome::NotIncluded(NotIncludedReason::RoundsExhausted),
            BidPhase::Exhausted,
        ),
    }
}

pub open spec fn after_session(s: Engine) -> (Engine, EngineAction) {
    if s.policy.submit_on_new_head {
        (Engine { stage: Stage::AwaitingHead, ..s }, EngineAction::WaitForHead)
    } else {
        (Engine { stage: Stage::Preparing, ..s }, EngineAction::FetchChainState)
    }
}

/// What a fresh session is asked to redo after a re-acquisition.
pub open spec fn resume(s: Engine) -> (Engine, EngineAction) {
    match s.stage {
        Stage::Acquiring => after_session(s),
        Stage::AwaitingHead => (s, EngineAction::WaitForHead),
        Stage::HeadDelay { until_ms } => (s, EngineAction::SleepUntil { at_ms: until_ms }),
        Stage::Preparing => (s, EngineAction::FetchChainState),
        Stage::PreWatch { until_ms } => (
            s,
            EngineAction::StartWatcher { interval_ms: s.policy.watch_interval_ms, until_ms },
        ),
        Stage::Racing => (s, EngineAction::WatchStatus { template: template_with(s, s.bid.current_tip) }),
        Stage::Done => (s, EngineAction::Wait),
    }
}

pub open spec fn on_tick(s: Engine, now_ms: u64) -> (Engine, EngineAction) {
    match s.stage {
        Stage::HeadDelay { until_ms } => if now_ms >= until_ms {
            (Engine { stage: Stage::Preparing, ..s }, EngineAction::FetchChainState)
        } else {
            (s, EngineAction::SleepUntil { at_ms: until_ms })
        },
        Stage::PreWatch { until_ms } => if now_ms >= until_ms {
            first_broadcast(s, now_ms, false)
        } else {
            (s, EngineAction::Wait)
        },
        Stage::Racing => apply_bid(s, s.bid.on_timer(now_ms).0, s.bid.on_timer(now_ms).1),
        _ => (s, EngineAction::Wait),
    }
}

pub open spec fn on_prepared(s: Engine, c: ChainContext) -> (Engine, EngineAction) {
    if c.already_registered {
        finish(
            s,
            SubmissionOutcome::Error(ErrorKind::SubmissionRejected(RejectReason::AlreadyRegistered)),
            BidPhase::Abandoned,
        )
    } else if !(c.wallet_resolved && c.hotkey_resolved) {
        finish(s, SubmissionOutcome::Error(ErrorKind::InvalidIdentity), BidPhase::Abandoned)
    } else {
        let base = ExtrinsicTemplate {
            subnet: s.intent.subnet,
            burn_amount: burn_of(s.intent.burn_amount, c.registration_cost),
            nonce: c.nonce,
            tip: s.bid.current_tip,
            era_period: s.policy.era_period,
            reference_block: c.reference_block,
        };
        let s2 = Engine { base, ..s };
        if s.policy.watch_mempool {
            let until = sat_add(c.now_ms, ms_of_secs(s.policy.watch_duration_secs));
            (
                Engine { stage: Stage::PreWatch { until_ms: until }, ..s2 },
                EngineAction::StartWatcher {
                    interval_ms: s.policy.watch_interval_ms,
                    until_ms: until,
                },
            )
        } else {
            first_broadcast(s2, c.now_ms, false)
        }
    }
}

/// The planned first tip raised by the reactive factor, where it can rise.
pub open spec fn seeded_tip(b: BidState) -> u128 {
    if b.current_tip < u128::MAX {
        bumped_tip(b.current_tip as int, b.reactive_bump_bps as int, b.min_tip as int) as u128
    } else {
        b.current_tip
    }
}

pub open spec fn on_competitor(s: Engine, tip: u128, seen_ms: u64) -> (Engine, EngineAction) {
    match s.stage {
        Stage::PreWatch { .. } => if s.policy.watch_reactive && tip >= s.bid.current_tip {
            let s2 = Engine { bid: BidState { current_tip: seeded_tip(s.bid), ..s.bid }, ..s };
            first_broadcast(s2, seen_ms, true)
        } else {
            (s, EngineAction::Wait)
        },
        Stage::Racing => {
            let r = s.bid.on_competitor(tip, seen_ms, s.policy.watch_mempool && s.policy.watch_reactive);
            apply_bid(s, r.0, r.1)
        },
        _ => (s, EngineAction::Wait),
    }
}

pub open spec fn on_status(s: Engine, st: TxStatus) -> (Engine, EngineAction) {
    match st {
        TxStatus::InBlock(b) => finish(s, SubmissionOutcome::Included(b), BidPhase::Won),
        TxStatus::Finalized(b) => finish(s, SubmissionOutcome::Included(b), BidPhase::Won),
        TxStatus::Dropped => finish(
            s,
            SubmissionOutcome::NotIncluded(NotIncludedReason::Dropped),
            BidPhase::Abandoned,
        ),
        TxStatus::Invalid(r) => finish(
            s,
            SubmissionOutcome::Error(ErrorKind::SubmissionRejected(r)),
            BidPhase::Abandoned,
        ),
    }
}

/// The engine's transition: the state and the action that follow event `e`.
pub open spec fn next(s: Engine, e: EngineEvent) -> (Engine, EngineAction) {
    if s.stage is Done {
        (s, EngineAction::Wait)
    } else {
        match e {
            EngineEvent::Cancel => finish(
                s,
                SubmissionOutcome::NotIncluded(NotIncludedReason::Cancelled),
                BidPhase::Abandoned,
            ),
            EngineEvent::DeadlineExpired => finish(
                s,
                SubmissionOutcome::NotIncluded(NotIncludedReason::Timeout),
                BidPhase::Abandoned,
            ),
            EngineEvent::ChainFailure => if s.retry_used {
                finish(s, SubmissionOutcome::Error(ErrorKind::Chain), BidPhase::Abandoned)
            } else {
                (Engine { retry_used: true, ..s }, EngineAction::ReacquireSession)
            },
            EngineEvent::SessionReady => resume(s),
            EngineEvent::NoEndpointAvailable => finish(
                s,
                SubmissionOutcome::Error(ErrorKind::EndpointUnavailable),
                BidPhase::Abandoned,
            ),
            EngineEvent::NewHead { block, at_ms } => if s.stage is AwaitingHead {
                let until = sat_add(at_ms, s.policy.head_delay_ms);
                (
                    Engine { stage: Stage::HeadDelay { until_ms: until }, ..s },
                    EngineAction::SleepUntil { at_ms: until },
                )
            } else {
                (s, EngineAction::Wait)
            },
            EngineEvent::Tick { now_ms } => on_tick(s, now_ms),
            EngineEvent::Prepared(c) => if s.stage is Preparing {
                on_prepared(s, c)
            } else {
                (s, EngineAction::Wait)
            },
            EngineEvent::Competitor { tip, seen_ms } => on_competitor(s, tip, seen_ms),
            EngineEvent::Status(st) => if s.stage is Racing {
                on_status(s, st)
            } else {
                (s, EngineAction::Wait)
            },
        }
    }
}

impl Engine {
    /// The invariant that every reachable state keeps.
    pub open spec fn wf(self) -> bool {
        &&& self.bid.round_limit == self.policy.rbf_rounds
        &&& self.bid.bump_bps == self.policy.bump_bps
        &&& self.bid.reactive_bump_bps == self.policy.watch_bump_bps
        &&& self.bid.min_tip == self.policy.min_rbf_tip
        &&& self.bid.round <= self.bid.round_limit
        &&& self.stage is PreWatch ==> self.policy.watch_mempool
        &&& self.stage is Racing ==> self.sent && self.bid.is_active()
        &&& self.sent ==> (self.stage is Racing || self.stage is Done)
    }

    /// A fresh attempt for `intent` under `policy`, waiting for a session.
    pub fn new(intent: RegistrationIntent, policy: BidPolicy) -> (r: Engine)
        ensures
            r.wf(),
            r.intent == intent,
            r.policy == policy,
            r.stage == Stage::Acquiring,
            r.bid == initial_bid(policy),
            r.base == empty_template(),
            !r.sent,
            !r.retry_used,
    {
        let first = match policy.tip {
            Some(t) => t,
            None => policy.tip_floor,
        };
        let bid = BidState::new(
            first,
            policy.rbf_rounds,
            policy.bump_bps,
            policy.watch_bump_bps,
            policy.min_rbf_tip,
            secs_to_ms(policy.rbf_wait_secs),
        );
        Engine {
            intent,
            policy,
            stage: Stage::Acquiring,
            bid,
            base: ExtrinsicTemplate {
                subnet: 0,
                burn_amount: 0,
                nonce: 0,
                tip: 0,
                era_period: 0,
                reference_block: 0,
            },
            sent: false,
            retry_used: false,
        }
    }

    fn finish_with(&mut self, o: SubmissionOutcome, phase: BidPhase) -> (a: EngineAction)
        ensures
            (*final(self), a) == finish(*old(self), o, phase),
    {
        self.stage = Stage::Done;
        self.bid.phase = phase;
        EngineAction::Finish(o)
    }

    fn broadcast_first(&mut self, now_ms: u64, reactive: bool) -> (a: EngineAction)
        ensures
            (*final(self), a) == first_broadcast(*old(self), now_ms, reactive),
    {
        let template = self.base.with_tip(self.bid.current_tip);
        self.stage = Stage::Racing;
        self.sent = true;
        self.bid.start(now_ms);
        EngineAction::Broadcast { template, round: 0, reactive }
    }

    fn apply_decision(&mut self, d: BidDecision) -> (a: EngineAction)
        ensures
            (*final(self), a) == apply_bid(*old(self), old(self).bid, d),
    {
        match d {
            BidDecision::Hold => EngineAction::Wait,
            BidDecision::Raise { tip, round, reactive } => EngineAction::Broadcast {
                template: self.base.with_tip(tip),
                round,
                reactive,
            },
            BidDecision::Exhausted => self.finish_with(
                SubmissionOutcome::NotIncluded(NotIncludedReason::RoundsExhausted),
                BidPhase::Exhausted,
            ),
        }
    }

    fn handle_session(&mut self) -> (a: EngineAction)
        ensures
            (*final(self), a) == resume(*old(self)),
    {
        match self.stage {
            Stage::Acquiring => {
                if self.policy.submit_on_new_head {
                    self.stage = Stage::AwaitingHead;
                    EngineAction::WaitForHead
                } else {
                    self.stage = Stage::Preparing;
                    EngineAction::FetchChainState
                }
            },
            Stage::AwaitingHead => EngineAction::WaitForHead,
            Stage::HeadDelay { until_ms } => EngineAction::SleepUntil { at_ms: until_ms },
            Stage::Preparing => EngineAction::FetchChainState,
            Stage::PreWatch { until_ms } => EngineAction::StartWatcher {
                interval_ms: self.policy.watch_interval_ms,
                until_ms,
            },
            Stage::Racing => EngineAction::WatchStatus { template: self.base.with_tip(self.bid.current_tip) },
            Stage::Done => EngineAction::Wait,
        }
    }

    fn handle_tick(&mut self, now_ms: u64) -> (a: EngineAction)
        ensures
            (*final(self), a) == on_tick(*old(self), now_ms),
    {
        match self.stage {
            Stage::HeadDelay { until_ms } => {
                if now_ms >= until_ms {
                    self.stage = Stage::Preparing;
                    EngineAction::FetchChainState
                } else {
                    EngineAction::SleepUntil { at_ms: until_ms }
                }
            },
            Stage::PreWatch { until_ms } => {
                if now_ms >= until_ms {
                    self.broadcast_first(now_ms, false)
                } else {
                    EngineAction::Wait
                }
            },
            Stage::Racing => {
                let d = self.bid.handle_timer(now_ms);
                self.apply_decision(d)
            },
            _ => EngineAction::Wait,
        }
    }

    fn handle_prepared(&mut self, c: ChainContext) -> (a: EngineAction)
        ensures
            (*final(self), a) == on_prepared(*old(self), c),
    {
        if c.already_registered {
            return self.finish_with(
                SubmissionOutcome::Error(ErrorKind::SubmissionRejected(RejectReason::AlreadyRegistered)),
                BidPhase::Abandoned,
            );
        }
        let built = build(
            &self.intent,
            c.nonce,
            self.bid.current_tip,
            self.policy.era_period,
            c.reference_block,
            c.registration_cost,
            c.wallet_resolved,
            c.hotkey_resolved,
        );
        match built {
            Err(k) => self.finish_with(SubmissionOutcome::Error(k), BidPhase::Abandoned),
            Ok(base) => {
                self.base = base;
                if self.policy.watch_mempool {
                    let until = add_ms(c.now_ms, secs_to_ms(self.policy.watch_duration_secs));
                    self.stage = Stage::PreWatch { until_ms: until };
                    EngineAction::StartWatcher {
                        interval_ms: self.policy.watch_interval_ms,
                        until_ms: until,
                    }
                } else {
                    self.broadcast_first(c.now_ms, false)
                }
            },
        }
    }

    fn handle_competitor(&mut self, tip: u128, seen_ms: u64) -> (a: EngineAction)
        ensures
            (*final(self), a) == on_competitor(*old(self), tip, seen_ms),
    {
        match self.stage {
            Stage::PreWatch { .. } => {
                if self.policy.watch_reactive && tip >= self.bid.current_tip {
                    if self.bid.current_tip < u128::MAX {
                        let t = crate::bid::bump_tip(
                            self.bid.current_tip,
                            self.bid.reactive_bump_bps,
                            self.bid.min_tip,
                        );
                        self.bid.current_tip = t.unwrap();
                    }
                    self.broadcast_first(seen_ms, true)
                } else {
                    EngineAction::Wait
                }
            },
            Stage::Racing => {
                let reactive = self.policy.watch_mempool && self.policy.watch_reactive;
                let d = self.bid.handle_competitor(tip, seen_ms, reactive);
                self.apply_decision(d)
            },
            _ => EngineAction::Wait,
        }
    }

    fn handle_status(&mut self, st: TxStatus) -> (a: EngineAction)
        ensures
            (*final(self), a) == on_status(*old(self), st),
    {
        match st {
            TxStatus::InBlock(b) => self.finish_with(SubmissionOutcome::Included(b), BidPhase::Won),
            TxStatus::Finalized(b) => self.finish_with(SubmissionOutcome::Included(b), BidPhase::Won),
            TxStatus::Dropped => self.finish_with(
                SubmissionOutcome::NotIncluded(NotIncludedReason::Dropped),
                BidPhase::Abandoned,
            ),
            TxStatus::Invalid(r) => self.finish_with(
                SubmissionOutcome::Error(ErrorKind::SubmissionRejected(r)),
                BidPhase::Abandoned,
            ),
        }
    }

    /// Takes event `e` and returns the action for the caller to perform.
    pub fn step(&mut self, e: EngineEvent) -> (a: EngineAction)
        ensures
            (*final(self), a) == next(*old(self), e),
    {
        if self.stage == Stage::Done {
            return EngineAction::Wait;
        }
        match e {
            EngineEvent::Cancel => self.finish_with(
                SubmissionOutcome::NotIncluded(NotIncludedReason::Cancelled),
                BidPhase::Abandoned,
            ),
            EngineEvent::DeadlineExpired => self.finish_with(
                SubmissionOutcome::NotIncluded(NotIncludedReason::Timeout),
                BidPhase::Abandoned,
            ),
            EngineEvent::ChainFailure => {
                if self.retry_used {
                    self.finish_with(SubmissionOutcome::Error(ErrorKind::Chain), BidPhase::Abandoned)
                } else {
                    self.retry_used = true;
                    EngineAction::ReacquireSession
                }
            },
            EngineEvent::SessionReady => self.handle_session(),
            EngineEvent::NoEndpointAvailable => self.finish_with(
                SubmissionOutcome::Error(ErrorKind::EndpointUnavailable),
                BidPhase::Abandoned,
            ),
            EngineEvent::NewHead { block, at_ms } => {
                if self.stage == Stage::AwaitingHead {
                    let until = add_ms(at_ms, self.policy.head_delay_ms);
                    self.stage = Stage::HeadDelay { until_ms: until };
                    EngineAction::SleepUntil { at_ms: until }
                } else {
                    EngineAction::Wait
                }
            },
            EngineEvent::Tick { now_ms } => self.handle_tick(now_ms),
            EngineEvent::Prepared(c) => {
                if self.stage == Stage::Preparing {
                    self.handle_prepared(c)
                } else {
                    EngineAction::Wait
                }
            },
            EngineEvent::Competitor { tip, seen_ms } => self.handle_competitor(tip, seen_ms),
            EngineEvent::Status(st) => {
                if self.stage == Stage::Racing {
                    self.handle_status(st)
                } else {
                    EngineAction::Wait
                }
            },
        }
    }
}

} // verus!
