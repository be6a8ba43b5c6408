use quick_register::bid::{bump_tip, BidDecision, BidPhase, BidState};
use quick_register::endpoint::{AcquireStep, EndpointPool, Health};
use quick_register::extrinsic::{build, RegistrationIntent};
use quick_register::mempool::{observe, strongest_tip, CallKind, CompetitorObservation, PendingEntry};
use quick_register::outcome::{BlockRef, ErrorKind, NotIncludedReason, SubmissionOutcome};

#[test]
fn bump_scales_by_factor() {
    assert_eq!(bump_tip(1_000_000, 15_000, 1), Some(1_500_000));
    assert_eq!(bump_tip(1_500_000, 15_000, 1), Some(2_250_000));
    assert_eq!(bump_tip(1_000_000, 12_500, 0), Some(1_250_000));
    assert_eq!(bump_tip(3, 15_000, 0), Some(4));
}

#[test]
fn bump_from_zero_reaches_minimum() {
    assert_eq!(bump_tip(0, 15_000, 1_000_000), Some(1_000_000));
    assert_eq!(bump_tip(0, 15_000, 0), Some(1));
}

#[test]
fn bump_minimum_only_from_zero() {
    assert_eq!(bump_tip(100, 15_000, 1_000_000), Some(150));
    assert_eq!(bump_tip(100, 12_500, 1_000_000), Some(125));
    assert_eq!(bump_tip(1, 15_000, 1_000_000), Some(2));
}

#[test]
fn bump_always_rises() {
    assert_eq!(bump_tip(10, 10_000, 0), Some(11));
    assert_eq!(bump_tip(10, 5_000, 0), Some(11));
}

#[test]
fn bump_saturates_at_max() {
    assert_eq!(bump_tip(u128::MAX, 15_000, 0), None);
    assert_eq!(bump_tip(u128::MAX - 1, 20_000, 0), Some(u128::MAX));
    assert_eq!(bump_tip(u128::MAX / 2, 30_000, 0), Some(u128::MAX));
}

#[test]
fn bid_controller_rounds() {
    let mut b = BidState::new(100, 1, 20_000, 15_000, 0, 1000);
    assert_eq!(b.phase, BidPhase::Idle);
    assert_eq!(b.handle_timer(5000), BidDecision::Hold);
    b.start(0);
    assert_eq!(b.phase, BidPhase::Racing);
    assert_eq!(b.handle_timer(999), BidDecision::Hold);
    assert_eq!(b.handle_competitor(99, 500, true), BidDecision::Hold);
    assert_eq!(
        b.handle_timer(1000),
        BidDecision::Raise { tip: 200, round: 1, reactive: false }
    );
    assert_eq!(b.handle_competitor(300, 1500, true), BidDecision::Hold);
    assert_eq!(b.handle_timer(2000), BidDecision::Exhausted);
    assert_eq!(b.phase, BidPhase::Exhausted);
}

#[test]
fn failover_to_second_endpoint() {
    let mut pool = EndpointPool::new(vec![
        String::from("wss://one.example:443"),
        String::from("wss://two.example:443"),
    ]);
    assert_eq!(pool.health(0), Health::Unknown);
    assert_eq!(pool.begin_acquire(), AcquireStep::Connect(0));
    assert_eq!(pool.report(0, false), AcquireStep::Connect(1));
    assert_eq!(pool.report(1, true), AcquireStep::Use(1));
    assert_eq!(pool.health(0), Health::Unreachable);
    assert_eq!(pool.health(1), Health::Healthy);
    assert_eq!(pool.address(1), "wss://two.example:443");
}

#[test]
fn all_endpoints_unreachable() {
    let mut pool = EndpointPool::new(vec![String::from("a"), String::from("b")]);
    assert_eq!(pool.report(0, false), AcquireStep::Connect(1));
    assert_eq!(pool.report(1, false), AcquireStep::Exhausted);
    let empty = EndpointPool::new(Vec::new());
    assert_eq!(empty.len(), 0);
    assert_eq!(empty.begin_acquire(), AcquireStep::Exhausted);
}

fn intent(burn: Option<u64>) -> RegistrationIntent {
    RegistrationIntent {
        subnet: 3,
        wallet: String::from("w"),
        hotkey: String::from("h"),
        burn_amount: burn,
    }
}

#[test]
fn build_uses_explicit_burn_or_cost() {
    let t = build(&intent(Some(77)), 5, 9, 64, 100, 1000, true, true).unwrap();
    assert_eq!(t.burn_amount, 77);
    assert_eq!((t.subnet, t.nonce, t.tip, t.era_period, t.reference_block), (3, 5, 9, 64, 100));
    let u = build(&intent(None), 5, 9, 64, 100, 1000, true, true).unwrap();
    assert_eq!(u.burn_amount, 1000);
}

#[test]
fn build_needs_both_identities() {
    assert_eq!(build(&intent(None), 5, 9, 64, 100, 1000, false, true), Err(ErrorKind::InvalidIdentity));
    assert_eq!(build(&intent(None), 5, 9, 64, 100, 1000, true, false), Err(ErrorKind::InvalidIdentity));
}

#[test]
fn mortality_window() {
    let t = build(&intent(None), 5, 9, 64, 100, 1000, true, true).unwrap();
    assert!(!t.is_live_at(99));
    assert!(t.is_live_at(100));
    assert!(t.is_live_at(163));
    assert!(!t.is_live_at(164));
    let r = t.with_tip(50);
    assert_eq!((r.nonce, r.tip, r.reference_block), (5, 50, 100));
}

fn entry(sender: u8, subnet: u16, call: CallKind, tip: u128) -> PendingEntry {
    PendingEntry { sender: vec![sender; 32], subnet, call, tip }
}

#[test]
fn observe_keeps_only_competitors() {
    let pool = vec![
        entry(1, 3, CallKind::BurnedRegister, 10),
        entry(2, 4, CallKind::BurnedRegister, 20),
        entry(9, 3, CallKind::BurnedRegister, 30),
        entry(3, 3, CallKind::Other, 40),
        entry(4, 3, CallKind::BurnedRegister, 50),
    ];
    let obs = observe(&pool, 3, &vec![9u8; 32], 777);
    assert_eq!(obs.len(), 2);
    assert_eq!(obs[0].sender, vec![1u8; 32]);
    assert_eq!((obs[0].tip, obs[0].first_seen_ms), (10, 777));
    assert_eq!(obs[1].sender, vec![4u8; 32]);
    assert_eq!(obs[1].tip, 50);
    assert!(observe(&Vec::new(), 3, &vec![9u8; 32], 0).is_empty());
}

#[test]
fn strongest_competitor_tip() {
    let o = |tip: u128| CompetitorObservation { sender: vec![1], tip, first_seen_ms: 0 };
    assert_eq!(strongest_tip(&Vec::new()), None);
    assert_eq!(strongest_tip(&vec![o(5), o(40), o(7)]), Some(40));
}

#[test]
fn outcome_inclusion() {
    assert!(SubmissionOutcome::Included(BlockRef { number: 1 }).is_included());
    assert!(!SubmissionOutcome::NotIncluded(NotIncludedReason::Dropped).is_included());
}
