use quick_register::bid::BidPhase;
use quick_register::engine::{BidPolicy, ChainContext, Engine, EngineAction, EngineEvent, Stage};
use quick_register::extrinsic::{ExtrinsicTemplate, RegistrationIntent};
use quick_register::outcome::{
    BlockRef, ErrorKind, NotIncludedReason, RejectReason, SubmissionOutcome, TxStatus,
};

fn intent() -> RegistrationIntent {
    RegistrationIntent {
        subnet: 7,
        wallet: String::from("default"),
        hotkey: String::from("miner1"),
        burn_amount: None,
    }
}

fn policy() -> BidPolicy {
    BidPolicy {
        submit_on_new_head: false,
        head_delay_ms: 250,
        era_period: 64,
        watch_mempool: false,
        watch_duration_secs: 0,
        watch_interval_ms: 500,
        watch_reactive: false,
        watch_bump_bps: 12_500,
        tip: None,
        tip_floor: 0,
        min_rbf_tip: 1_000_000,
        rbf_rounds: 3,
        bump_bps: 15_000,
        rbf_wait_secs: 6,
    }
}

fn context(now_ms: u64) -> ChainContext {
    ChainContext {
        nonce: 42,
        reference_block: 1000,
        registration_cost: 500_000_000,
        already_registered: false,
        wallet_resolved: true,
        hotkey_resolved: true,
        now_ms,
    }
}

fn tip_of(a: EngineAction) -> (u128, u64, u32, bool) {
    match a {
        EngineAction::Broadcast { template, round, reactive } => {
            (template.tip, template.nonce, round, reactive)
        }
        other => panic!("expected a broadcast, got {:?}", other),
    }
}

/// Runs the engine up to its first broadcast, at `now_ms`.
fn racing(p: BidPolicy, now_ms: u64) -> (Engine, EngineAction) {
    let mut e = Engine::new(intent(), p);
    assert_eq!(e.step(EngineEvent::SessionReady), EngineAction::FetchChainState);
    let a = e.step(EngineEvent::Prepared(context(now_ms)));
    (e, a)
}

#[test]
fn scheduled_rounds_then_not_included() {
    let (mut e, first) = racing(policy(), 1000);
    assert_eq!(tip_of(first), (0, 42, 0, false));
    assert_eq!(e.step(EngineEvent::Tick { now_ms: 6999 }), EngineAction::Wait);
    assert_eq!(tip_of(e.step(EngineEvent::Tick { now_ms: 7000 })), (1_000_000, 42, 1, false));
    assert_eq!(tip_of(e.step(EngineEvent::Tick { now_ms: 13_000 })), (1_500_000, 42, 2, false));
    assert_eq!(tip_of(e.step(EngineEvent::Tick { now_ms: 19_000 })), (2_250_000, 42, 3, false));
    assert_eq!(
        e.step(EngineEvent::Tick { now_ms: 25_000 }),
        EngineAction::Finish(SubmissionOutcome::NotIncluded(NotIncludedReason::RoundsExhausted))
    );
    assert_eq!(e.bid.phase, BidPhase::Exhausted);
    assert_eq!(e.step(EngineEvent::Tick { now_ms: 31_000 }), EngineAction::Wait);
}

#[test]
fn explicit_tip_is_the_first_tip() {
    let mut p = policy();
    p.tip = Some(3_000_000);
    let (mut e, first) = racing(p, 0);
    assert_eq!(tip_of(first), (3_000_000, 42, 0, false));
    assert_eq!(tip_of(e.step(EngineEvent::Tick { now_ms: 6000 })), (4_500_000, 42, 1, false));
}

#[test]
fn no_rounds_means_one_broadcast() {
    let mut p = policy();
    p.rbf_rounds = 0;
    p.watch_mempool = true;
    p.watch_reactive = true;
    let mut e = Engine::new(intent(), p);
    e.step(EngineEvent::SessionReady);
    let a = e.step(EngineEvent::Prepared(context(0)));
    assert_eq!(a, EngineAction::StartWatcher { interval_ms: 500, until_ms: 0 });
    assert_eq!(tip_of(e.step(EngineEvent::Tick { now_ms: 0 })), (0, 42, 0, false));
    assert_eq!(e.bid.phase, BidPhase::FirstBid);
    assert_eq!(e.step(EngineEvent::Competitor { tip: 5, seen_ms: 100 }), EngineAction::Wait);
    assert_eq!(e.step(EngineEvent::Competitor { tip: 9_000_000, seen_ms: 200 }), EngineAction::Wait);
    assert_eq!(
        e.step(EngineEvent::Tick { now_ms: 6000 }),
        EngineAction::Finish(SubmissionOutcome::NotIncluded(NotIncludedReason::RoundsExhausted))
    );
}

#[test]
fn competitor_triggers_reactive_bump() {
    let mut p = policy();
    p.tip = Some(2_000_000);
    p.watch_mempool = true;
    p.watch_reactive = true;
    let mut e = Engine::new(intent(), p);
    e.step(EngineEvent::SessionReady);
    e.step(EngineEvent::Prepared(context(0)));
    assert_eq!(tip_of(e.step(EngineEvent::Tick { now_ms: 0 })), (2_000_000, 42, 0, false));
    // a weaker competitor changes nothing
    assert_eq!(e.step(EngineEvent::Competitor { tip: 1_999_999, seen_ms: 100 }), EngineAction::Wait);
    // an equal one triggers a round with the reactive factor, before the timer
    assert_eq!(
        tip_of(e.step(EngineEvent::Competitor { tip: 2_000_000, seen_ms: 200 })),
        (2_500_000, 42, 1, true)
    );
    assert_eq!(e.bid.last_submit_ms, 200);
    // the scheduled round that follows uses the scheduled factor
    assert_eq!(tip_of(e.step(EngineEvent::Tick { now_ms: 6200 })), (3_750_000, 42, 2, false));
}

#[test]
fn no_watch_means_no_reaction() {
    let mut p = policy();
    p.tip = Some(10);
    p.watch_reactive = true;
    let (mut e, first) = racing(p, 0);
    assert_eq!(tip_of(first), (10, 42, 0, false));
    assert_eq!(e.step(EngineEvent::Competitor { tip: 1000, seen_ms: 1 }), EngineAction::Wait);
    assert_eq!(e.bid.round, 0);
}

#[test]
fn prewatch_competitor_raises_first_tip_early() {
    let mut p = policy();
    p.tip = Some(100);
    p.min_rbf_tip = 0;
    p.watch_mempool = true;
    p.watch_reactive = true;
    p.watch_duration_secs = 2;
    let mut e = Engine::new(intent(), p);
    e.step(EngineEvent::SessionReady);
    assert_eq!(
        e.step(EngineEvent::Prepared(context(1000))),
        EngineAction::StartWatcher { interval_ms: 500, until_ms: 3000 }
    );
    assert_eq!(e.step(EngineEvent::Competitor { tip: 50, seen_ms: 1500 }), EngineAction::Wait);
    assert_eq!(e.step(EngineEvent::Tick { now_ms: 2000 }), EngineAction::Wait);
    assert_eq!(tip_of(e.step(EngineEvent::Competitor { tip: 100, seen_ms: 2100 })), (125, 42, 0, true));
    assert_eq!(e.stage, Stage::Racing);
}

#[test]
fn prewatch_without_reaction_waits_full_duration() {
    let mut p = policy();
    p.tip = Some(100);
    p.watch_mempool = true;
    p.watch_duration_secs = 2;
    let mut e = Engine::new(intent(), p);
    e.step(EngineEvent::SessionReady);
    e.step(EngineEvent::Prepared(context(1000)));
    assert_eq!(e.step(EngineEvent::Competitor { tip: 500, seen_ms: 1500 }), EngineAction::Wait);
    assert_eq!(tip_of(e.step(EngineEvent::Tick { now_ms: 3000 })), (100, 42, 0, false));
}

#[test]
fn already_registered_is_rejected() {
    for _ in 0..2 {
        let mut e = Engine::new(intent(), policy());
        e.step(EngineEvent::SessionReady);
        let mut c = context(0);
        c.already_registered = true;
        assert_eq!(
            e.step(EngineEvent::Prepared(c)),
            EngineAction::Finish(SubmissionOutcome::Error(ErrorKind::SubmissionRejected(
                RejectReason::AlreadyRegistered
            )))
        );
        assert_eq!(
            e.step(EngineEvent::Status(TxStatus::Finalized(BlockRef { number: 5 }))),
            EngineAction::Wait
        );
        assert!(!e.sent);
    }
}

#[test]
fn head_delay_before_first_broadcast() {
    let mut p = policy();
    p.submit_on_new_head = true;
    p.head_delay_ms = 250;
    let mut e = Engine::new(intent(), p);
    assert_eq!(e.step(EngineEvent::SessionReady), EngineAction::WaitForHead);
    assert_eq!(
        e.step(EngineEvent::NewHead { block: BlockRef { number: 999 }, at_ms: 10_000 }),
        EngineAction::SleepUntil { at_ms: 10_250 }
    );
    assert_eq!(e.step(EngineEvent::Tick { now_ms: 10_100 }), EngineAction::SleepUntil { at_ms: 10_250 });
    assert_eq!(e.step(EngineEvent::Tick { now_ms: 10_250 }), EngineAction::FetchChainState);
    let a = e.step(EngineEvent::Prepared(context(10_260)));
    assert_eq!(tip_of(a).2, 0);
    assert!(e.bid.last_submit_ms >= 10_000 + 250);
    assert!(e.bid.last_submit_ms < 10_000 + 12_000);
}

#[test]
fn inclusion_wins() {
    let (mut e, _) = racing(policy(), 0);
    assert_eq!(
        e.step(EngineEvent::Status(TxStatus::InBlock(BlockRef { number: 1001 }))),
        EngineAction::Finish(SubmissionOutcome::Included(BlockRef { number: 1001 }))
    );
    assert_eq!(e.bid.phase, BidPhase::Won);
    let (mut e2, _) = racing(policy(), 0);
    assert_eq!(
        e2.step(EngineEvent::Status(TxStatus::Finalized(BlockRef { number: 1002 }))),
        EngineAction::Finish(SubmissionOutcome::Included(BlockRef { number: 1002 }))
    );
}

#[test]
fn dropped_and_invalid_statuses() {
    let (mut e, _) = racing(policy(), 0);
    assert_eq!(
        e.step(EngineEvent::Status(TxStatus::Dropped)),
        EngineAction::Finish(SubmissionOutcome::NotIncluded(NotIncludedReason::Dropped))
    );
    let (mut e2, _) = racing(policy(), 0);
    assert_eq!(
        e2.step(EngineEvent::Status(TxStatus::Invalid(RejectReason::StaleNonce))),
        EngineAction::Finish(SubmissionOutcome::Error(ErrorKind::SubmissionRejected(
            RejectReason::StaleNonce
        )))
    );
}

#[test]
fn chain_failure_retried_once() {
    let (mut e, _) = racing(policy(), 0);
    assert_eq!(e.step(EngineEvent::ChainFailure), EngineAction::ReacquireSession);
    assert_eq!(tip_of(e.step(EngineEvent::Tick { now_ms: 6000 })), (1_000_000, 42, 1, false));
    assert_eq!(
        e.step(EngineEvent::ChainFailure),
        EngineAction::Finish(SubmissionOutcome::Error(ErrorKind::Chain))
    );
}

#[test]
fn invalid_identity_is_fatal() {
    let mut e = Engine::new(intent(), policy());
    e.step(EngineEvent::SessionReady);
    let mut c = context(0);
    c.hotkey_resolved = false;
    assert_eq!(
        e.step(EngineEvent::Prepared(c)),
        EngineAction::Finish(SubmissionOutcome::Error(ErrorKind::InvalidIdentity))
    );
}

#[test]
fn no_endpoint_is_fatal() {
    let mut e = Engine::new(intent(), policy());
    assert_eq!(
        e.step(EngineEvent::NoEndpointAvailable),
        EngineAction::Finish(SubmissionOutcome::Error(ErrorKind::EndpointUnavailable))
    );
    assert_eq!(e.step(EngineEvent::SessionReady), EngineAction::Wait);
}

#[test]
fn deadline_and_cancel() {
    let (mut e, _) = racing(policy(), 0);
    assert_eq!(
        e.step(EngineEvent::DeadlineExpired),
        EngineAction::Finish(SubmissionOutcome::NotIncluded(NotIncludedReason::Timeout))
    );
    let mut e2 = Engine::new(intent(), policy());
    assert_eq!(
        e2.step(EngineEvent::Cancel),
        EngineAction::Finish(SubmissionOutcome::NotIncluded(NotIncludedReason::Cancelled))
    );
    assert_eq!(e2.bid.phase, BidPhase::Abandoned);
}

#[test]
fn template_carries_intent_and_context() {
    let (_, first) = racing(policy(), 0);
    match first {
        EngineAction::Broadcast { template, .. } => assert_eq!(
            template,
            ExtrinsicTemplate {
                subnet: 7,
                burn_amount: 500_000_000,
                nonce: 42,
                tip: 0,
                era_period: 64,
                reference_block: 1000,
            }
        ),
        other => panic!("expected a broadcast, got {:?}", other),
    }
}

#[test]
fn reactive_bump_ignores_minimum_above_zero() {
    let mut p = policy();
    p.tip = Some(100);
    p.watch_mempool = true;
    p.watch_reactive = true;
    let mut e = Engine::new(intent(), p);
    e.step(EngineEvent::SessionReady);
    e.step(EngineEvent::Prepared(context(0)));
    assert_eq!(tip_of(e.step(EngineEvent::Tick { now_ms: 0 })), (100, 42, 0, false));
    assert_eq!(tip_of(e.step(EngineEvent::Competitor { tip: 100, seen_ms: 10 })), (125, 42, 1, true));
}

#[test]
fn scheduled_bump_ignores_minimum_above_zero() {
    let mut p = policy();
    p.tip = Some(100);
    let (mut e, first) = racing(p, 0);
    assert_eq!(tip_of(first), (100, 42, 0, false));
    assert_eq!(tip_of(e.step(EngineEvent::Tick { now_ms: 6000 })), (150, 42, 1, false));
    assert_eq!(tip_of(e.step(EngineEvent::Tick { now_ms: 12_000 })), (225, 42, 2, false));
}

#[test]
fn retry_while_awaiting_head() {
    let mut p = policy();
    p.submit_on_new_head = true;
    let mut e = Engine::new(intent(), p);
    assert_eq!(e.step(EngineEvent::SessionReady), EngineAction::WaitForHead);
    assert_eq!(e.step(EngineEvent::ChainFailure), EngineAction::ReacquireSession);
    assert_eq!(e.step(EngineEvent::SessionReady), EngineAction::WaitForHead);
    assert_eq!(
        e.step(EngineEvent::NewHead { block: BlockRef { number: 3 }, at_ms: 100 }),
        EngineAction::SleepUntil { at_ms: 350 }
    );
}

#[test]
fn retry_during_head_delay() {
    let mut p = policy();
    p.submit_on_new_head = true;
    let mut e = Engine::new(intent(), p);
    e.step(EngineEvent::SessionReady);
    e.step(EngineEvent::NewHead { block: BlockRef { number: 3 }, at_ms: 100 });
    assert_eq!(e.step(EngineEvent::ChainFailure), EngineAction::ReacquireSession);
    assert_eq!(e.step(EngineEvent::SessionReady), EngineAction::SleepUntil { at_ms: 350 });
}

#[test]
fn retry_while_preparing() {
    let mut e = Engine::new(intent(), policy());
    assert_eq!(e.step(EngineEvent::SessionReady), EngineAction::FetchChainState);
    assert_eq!(e.step(EngineEvent::ChainFailure), EngineAction::ReacquireSession);
    assert_eq!(e.step(EngineEvent::SessionReady), EngineAction::FetchChainState);
    assert_eq!(tip_of(e.step(EngineEvent::Prepared(context(0)))), (0, 42, 0, false));
    assert_eq!(
        e.step(EngineEvent::ChainFailure),
        EngineAction::Finish(SubmissionOutcome::Error(ErrorKind::Chain))
    );
}

#[test]
fn retry_while_watching_before_submit() {
    let mut p = policy();
    p.watch_mempool = true;
    p.watch_duration_secs = 3;
    let mut e = Engine::new(intent(), p);
    e.step(EngineEvent::SessionReady);
    e.step(EngineEvent::Prepared(context(1000)));
    assert_eq!(e.step(EngineEvent::ChainFailure), EngineAction::ReacquireSession);
    assert_eq!(
        e.step(EngineEvent::SessionReady),
        EngineAction::StartWatcher { interval_ms: 500, until_ms: 4000 }
    );
}

#[test]
fn retry_while_racing_watches_status_again() {
    let mut p = policy();
    p.tip = Some(100);
    let (mut e, _) = racing(p, 0);
    e.step(EngineEvent::Tick { now_ms: 6000 });
    assert_eq!(e.step(EngineEvent::ChainFailure), EngineAction::ReacquireSession);
    match e.step(EngineEvent::SessionReady) {
        EngineAction::WatchStatus { template } => assert_eq!((template.nonce, template.tip), (42, 150)),
        other => panic!("expected a status watch, got {:?}", other),
    }
    assert_eq!(
        e.step(EngineEvent::Status(TxStatus::InBlock(BlockRef { number: 9 }))),
        EngineAction::Finish(SubmissionOutcome::Included(BlockRef { number: 9 }))
    );
}

#[test]
fn no_endpoint_on_reacquire_is_fatal() {
    let (mut e, _) = racing(policy(), 0);
    assert_eq!(e.step(EngineEvent::ChainFailure), EngineAction::ReacquireSession);
    assert_eq!(
        e.step(EngineEvent::NoEndpointAvailable),
        EngineAction::Finish(SubmissionOutcome::Error(ErrorKind::EndpointUnavailable))
    );
}
