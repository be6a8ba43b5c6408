//! The bid controller: the current tip, the replace-by-fee round counter and
//! the rule that raises the tip.
use vstd::prelude::*;

verus! {

/// A factor in basis points: this value stands for a factor of one.
pub const BPS_ONE: u128 = 10_000;

/// `tip` multiplied by `bps / 10_000`, rounded down, and held at `u128::MAX`.
pub open spec fn scaled_tip(tip: int, bps: int) -> int {
    let s = tip * bps / (BPS_ONE as int);
    if s > u128::MAX {
        u128::MAX as int
    } else {
        s
    }
}

/// The tip that replaces `tip` when it is raised by the factor `bps`: from a
/// zero tip, `min_tip` (and at least one); otherwise the scaled tip, but
/// always above `tip`.
pub open spec fn bumped_tip(tip: int, bps: int, min_tip: int) -> int {
    if tip == 0 {
        if min_tip > 1 {
            min_tip
        } else {
            1
        }
    } else {
        let s = scaled_tip(tip, bps);
        if s > tip + 1 {
            s
        } else {
            tip + 1
        }
    }
}

/// Raises `tip` by the factor `bps` (in basis points), to at least one more
/// than `tip`; a zero tip rises to `min_tip` (at least one). There is no tip
/// above `u128::MAX`.
pub fn bump_tip(tip: u128, bps: u32, min_tip: u128) -> (r: Option<u128>)
    ensures
        tip == u128::MAX ==> r is None,
        tip < u128::MAX ==> r == Some(bumped_tip(tip as int, bps as int, min_tip as int) as u128),
{
    if tip == u128::MAX {
        return None;
    }
    if tip == 0 {
        return if min_tip > 1 {
            Some(min_tip)
        } else {
            Some(1)
        };
    }
    let q: u128 = tip / BPS_ONE;
    let rem: u128 = tip % BPS_ONE;
    let b: u128 = bps as u128;
    assert(rem * b <= 10_000 * 0xffff_ffffu128) by (nonlinear_arith)
        requires
            rem < 10_000,
            b <= 0xffff_ffff,
    ;
    let low: u128 = rem * b / BPS_ONE;
    proof {
        let ti = tip as int;
        let bi = b as int;
        assert(ti * bi == (rem as int) * bi + (q as int) * bi * 10_000) by (nonlinear_arith)
            requires
                ti == (q as int) * 10_000 + (rem as int),
        ;
        vstd::arithmetic::div_mod::lemma_hoist_over_denominator(
            (rem as int) * bi,
            (q as int) * bi,
            10_000,
        );
    }
    let s: u128 = match q.checked_mul(b) {
        Some(high) => match high.checked_add(low) {
            Some(v) => v,
            None => u128::MAX,
        },
        None => {
            assert((q as int) * (b as int) + (low as int) >= (q as int) * (b as int));
            u128::MAX
        },
    };
    if s > tip + 1 {
        Some(s)
    } else {
        Some(tip + 1)
    }
}

/// Where the bid controller stands.
#[derive(Clone, Copy, Debug, PartialEq, Eq, Structural)]
pub enum BidPhase {
    /// No tip has been broadcast yet.
    Idle,
    /// The first tip is out and no replacement rounds are allowed.
    FirstBid,
    /// The first tip is out and replacement rounds may follow.
    Racing,
    /// Every round was used, or the tip cannot rise any further.
    Exhausted,
    /// A broadcast template was included.
    Won,
    /// The attempt was given up.
    Abandoned,
}

/// What the controller asks for after an event.
#[derive(Clone, Copy, Debug, PartialEq, Eq, Structural)]
pub enum BidDecision {
    /// Nothing to do.
    Hold,
    /// Broadcast a replacement with this tip, as round `round`.
    Raise { tip: u128, round: u32, reactive: bool },
    /// No round is left: bidding is over.
    Exhausted,
}

/// The state owned by the bid controller.
#[derive(Clone, Copy, Debug, PartialEq, Eq, Structural)]
pub struct BidState {
    /// The tip of the latest broadcast, or the tip planned for the first one.
    pub current_tip: u128,
    /// Replacement rounds used so far.
    pub round: u32,
    /// Replacement rounds allowed.
    pub round_limit: u32,
    /// Scheduled raise factor, in basis points.
    pub bump_bps: u32,
    /// Raise factor when a competitor is seen, in basis points.
    pub reactive_bump_bps: u32,
    /// The replacement tip when the current tip is zero.
    pub min_tip: u128,
    /// Time between scheduled rounds, in milliseconds.
    pub wait_ms: u64,
    /// When the latest template was broadcast, in milliseconds.
    pub last_submit_ms: u64,
    pub phase: BidPhase,
}

impl BidState {
    pub open spec fn is_active(self) -> bool {
        self.phase is FirstBid || self.phase is Racing
    }

    /// Another replacement round may be broadcast.
    pub open spec fn can_raise(self) -> bool {
        self.round < self.round_limit && self.current_tip < u128::MAX
    }

    /// The scheduled wait since the latest broadcast has elapsed at `now`.
    pub open spec fn timer_due(self, now_ms: int) -> bool {
        now_ms >= self.last_submit_ms + self.wait_ms
    }

    /// Records the first broadcast, with tip `self.current_tip`, made at `now_ms`.
    pub open spec fn started(self, now_ms: u64) -> BidState {
        BidState {
            last_submit_ms: now_ms,
            phase: if self.round_limit > 0 {
                BidPhase::Racing
            } else {
                BidPhase::FirstBid
            },
            ..self
        }
    }

    /// A round broadcast at `now_ms` with the tip raised by `bps`.
    pub open spec fn raised(self, bps: u32, now_ms: u64) -> BidState {
        BidState {
            current_tip: bumped_tip(self.current_tip as int, bps as int, self.min_tip as int) as u128,
            round: (self.round + 1) as u32,
            last_submit_ms: now_ms,
            phase: BidPhase::Racing,
            ..self
        }
    }

    /// The controller's answer to the round timer at `now_ms`.
    pub open spec fn on_timer(self, now_ms: u64) -> (BidState, BidDecision) {
        if !self.is_active() || !self.timer_due(now_ms as int) {
            (self, BidDecision::Hold)
        } else if self.can_raise() {
            let n = self.raised(self.bump_bps, now_ms);
            (n, BidDecision::Raise { tip: n.current_tip, round: n.round, reactive: false })
        } else {
            (BidState { phase: BidPhase::Exhausted, ..self }, BidDecision::Exhausted)
        }
    }

    /// The controller's answer to a competitor's tip seen at `now_ms`; `reactive`
    /// says whether competitors may trigger rounds at all.
    pub open spec fn on_competitor(self, tip: u128, now_ms: u64, reactive: bool) -> (
        BidState,
        BidDecision,
    ) {
        if self.is_active() && reactive && tip >= self.current_tip && self.can_raise() {
            let n = self.raised(self.reactive_bump_bps, now_ms);
            (n, BidDecision::Raise { tip: n.current_tip, round: n.round, reactive: true })
        } else {
            (self, BidDecision::Hold)
        }
    }

    /// A controller with `first_tip` planned and no broadcast yet.
    pub fn new(
        first_tip: u128,
        round_limit: u32,
        bump_bps: u32,
        reactive_bump_bps: u32,
        min_tip: u128,
        wait_ms: u64,
    ) -> (r: BidState)
        ensures
            r == (BidState {
                current_tip: first_tip,
                round: 0,
                round_limit,
                bump_bps,
                reactive_bump_bps,
                min_tip,
                wait_ms,
                last_submit_ms: 0,
                phase: BidPhase::Idle,
            }),
    {
        BidState {
            current_tip: first_tip,
            round: 0,
            round_limit,
            bump_bps,
            reactive_bump_bps,
            min_tip,
            wait_ms,
            last_submit_ms: 0,
            phase: BidPhase::Idle,
        }
    }

    /// Records the first broadcast, made at `now_ms` with the planned tip.
    pub fn start(&mut self, now_ms: u64)
        ensures
            *final(self) == old(self).started(now_ms),
    {
        self.last_submit_ms = now_ms;
        self.phase = if self.round_limit > 0 {
            BidPhase::Racing
        } else {
            BidPhase::FirstBid
        };
    }

    fn raise(&mut self, bps: u32, now_ms: u64)
        requires
            old(self).can_raise(),
        ensures
            *final(self) == old(self).raised(bps, now_ms),
    {
        let t = bump_tip(self.current_tip, bps, self.min_tip);
        self.current_tip = t.unwrap();
        self.round = self.round + 1;
        self.last_submit_ms = now_ms;
        self.phase = BidPhase::Racing;
    }

    /// Handles the round timer firing at `now_ms`: a scheduled round when the
    /// wait has elapsed and a round is left, exhaustion when none is.
    pub fn handle_timer(&mut self, now_ms: u64) -> (d: BidDecision)
        ensures
            (*final(self), d) == old(self).on_timer(now_ms),
    {
        let active = match self.phase {
            BidPhase::FirstBid | BidPhase::Racing => true,
            _ => false,
        };
        let due = now_ms as u128 >= self.last_submit_ms as u128 + self.wait_ms as u128;
        if !active || !due {
            BidDecision::Hold
        } else if self.round < self.round_limit && self.current_tip < u128::MAX {
            self.raise(self.bump_bps, now_ms);
            BidDecision::Raise { tip: self.current_tip, round: self.round, reactive: false }
        } else {
            self.phase = BidPhase::Exhausted;
            BidDecision::Exhausted
        }
    }

    /// Handles a competitor's tip seen at `now_ms`: when `reactive` and the
    /// competitor matches or beats the current tip, an immediate round raised by
    /// the reactive factor.
    pub fn handle_competitor(&mut self, tip: u128, now_ms: u64, reactive: bool) -> (d: BidDecision)
        ensures
            (*final(self), d) == old(self).on_competitor(tip, now_ms, reactive),
    {
        let active = match self.phase {
            BidPhase::FirstBid | BidPhase::Racing => true,
            _ => false,
        };
        if active && reactive && tip >= self.current_tip && self.round < self.round_limit
            && self.current_tip < u128::MAX {
            self.raise(self.reactive_bump_bps, now_ms);
            BidDecision::Raise { tip: self.current_tip, round: self.round, reactive: true }
        } else {
            BidDecision::Hold
        }
    }
}

} // verus!
