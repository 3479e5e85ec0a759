//! The stages of a cinematic camera transition.
//!
//! A transition runs through four stages in a fixed order. Each stage carries
//! its progress, a fixed-point scalar that starts at zero and grows by the
//! stage's step on every animation tick; the stage ends on the tick that
//! brings the progress to `ONE` or beyond.

use vstd::prelude::*;
use crate::fixed::ONE;

verus! {

/// Progress gained per tick while the portal opens or closes.
pub const PORTAL_STEP: i32 = 5_000;

/// Progress gained per tick while the camera rises to the overview.
pub const OVERVIEW_STEP: i32 = 2_000;

/// Progress gained per tick while the camera approaches its final place.
pub const APPROACH_STEP: i32 = 1_500;

/// Where a transition stands.
#[derive(Clone, Copy, Debug, PartialEq, Eq, Structural)]
pub enum WarpState {
    /// No transition is in progress.
    Idle,
    /// The portal overlay fades in.
    PortalOpening(i32),
    /// The camera eases toward the overview waypoint.
    Overview(i32),
    /// The camera eases toward the final waypoint.
    Approaching(i32),
    /// The portal overlay fades out.
    PortalClosing(i32),
}

impl WarpState {
    /// The position of the stage in the cycle, with `Idle` at zero.
    pub open spec fn stage(self) -> int {
        match self {
            WarpState::Idle => 0,
            WarpState::PortalOpening(_) => 1,
            WarpState::Overview(_) => 2,
            WarpState::Approaching(_) => 3,
            WarpState::PortalClosing(_) => 4,
        }
    }

    /// The progress the stage carries; zero when idle.
    pub open spec fn progress(self) -> int {
        match self {
            WarpState::Idle => 0,
            WarpState::PortalOpening(p) => p as int,
            WarpState::Overview(p) => p as int,
            WarpState::Approaching(p) => p as int,
            WarpState::PortalClosing(p) => p as int,
        }
    }

    /// The progress one tick adds in this stage; zero when idle.
    pub open spec fn step(self) -> int {
        match self {
            WarpState::Idle => 0,
            WarpState::PortalOpening(_) => PORTAL_STEP as int,
            WarpState::Overview(_) => OVERVIEW_STEP as int,
            WarpState::Approaching(_) => APPROACH_STEP as int,
            WarpState::PortalClosing(_) => PORTAL_STEP as int,
        }
    }

    /// The progress this stage reaches on the next tick.
    pub open spec fn advanced(self) -> int {
        self.progress() + self.step()
    }

    /// Whether the next tick ends this stage.
    pub open spec fn finishing(self) -> bool {
        self !is Idle && self.advanced() >= ONE
    }

    /// The stage that follows this one, at progress zero.
    pub open spec fn successor(self) -> WarpState {
        match self {
            WarpState::Idle => WarpState::Idle,
            WarpState::PortalOpening(_) => WarpState::Overview(0),
            WarpState::Overview(_) => WarpState::Approaching(0),
            WarpState::Approaching(_) => WarpState::PortalClosing(0),
            WarpState::PortalClosing(_) => WarpState::Idle,
        }
    }

    /// This stage with its progress replaced.
    pub open spec fn with_progress(self, p: i32) -> WarpState {
        match self {
            WarpState::Idle => WarpState::Idle,
            WarpState::PortalOpening(_) => WarpState::PortalOpening(p),
            WarpState::Overview(_) => WarpState::Overview(p),
            WarpState::Approaching(_) => WarpState::Approaching(p),
            WarpState::PortalClosing(_) => WarpState::PortalClosing(p),
        }
    }

    /// The state after one tick: the same stage with its progress advanced,
    /// or the following stage once the progress has reached `ONE`.
    pub open spec fn next(self) -> WarpState {
        if self is Idle {
            WarpState::Idle
        } else if self.finishing() {
            self.successor()
        } else {
            self.with_progress(self.advanced() as i32)
        }
    }

    /// The state after `n` ticks.
    pub open spec fn after(self, n: nat) -> WarpState
        decreases n,
    {
        if n == 0 {
            self
        } else {
            self.next().after((n - 1) as nat)
        }
    }

    /// Whether the progress is a value that a running transition can carry:
    /// a whole number of steps, below `ONE`.
    pub open spec fn well_formed(self) -> bool {
        self is Idle || (0 <= self.progress() < ONE && self.progress() % self.step() == 0)
    }

    /// Whether no transition is in progress.
    pub fn is_idle(&self) -> (idle: bool)
        ensures
            idle == (*self is Idle),
    {
        match self {
            WarpState::Idle => true,
            _ => false,
        }
    }

    /// Advances the state by one tick.
    pub fn tick(self) -> (s: WarpState)
        ensures
            s == self.next(),
    {
        match self {
            WarpState::Idle => WarpState::Idle,
            WarpState::PortalOpening(p) => {
                let q: i64 = p as i64 + PORTAL_STEP as i64;
                if q >= ONE as i64 {
                    WarpState::Overview(0)
                } else {
                    WarpState::PortalOpening(q as i32)
                }
            },
            WarpState::Overview(p) => {
                let q: i64 = p as i64 + OVERVIEW_STEP as i64;
                if q >= ONE as i64 {
                    WarpState::Approaching(0)
                } else {
                    WarpState::Overview(q as i32)
                }
            },
            WarpState::Approaching(p) => {
                let q: i64 = p as i64 + APPROACH_STEP as i64;
                if q >= ONE as i64 {
                    WarpState::PortalClosing(0)
                } else {
                    WarpState::Approaching(q as i32)
                }
            },
            WarpState::PortalClosing(p) => {
                let q: i64 = p as i64 + PORTAL_STEP as i64;
                if q >= ONE as i64 {
                    WarpState::Idle
                } else {
                    WarpState::PortalClosing(q as i32)
                }
            },
        }
    }
}

/// A tick keeps the stage or moves to the one that follows it in the cycle
/// `Idle`, `PortalOpening`, `Overview`, `Approaching`, `PortalClosing`,
/// `Idle`; it never skips a stage, never goes back, and never leaves `Idle`.
pub proof fn law_tick_follows_the_cycle(s: WarpState)
    ensures
        s is Idle ==> s.next() is Idle,
        s.next().stage() == s.stage() || s.next().stage() == (s.stage() + 1) % 5,
        s.next().stage() != s.stage() ==> s.next().progress() == 0,
        s.well_formed() ==> s.next().well_formed(),
{
    if s.well_formed() && !(s is Idle) && !s.finishing() {
        let p = s.progress();
        let d = s.step();
        assert((p + d) % d == 0) by (nonlinear_arith)
            requires
                p % d == 0,
                d > 0,
        ;
    }
}

/// However many ticks pass, a transition never goes back to an earlier
/// stage: it is in the stage it was in, in a later one, or over. An idle
/// state stays idle.
pub proof fn law_stages_never_go_back(s: WarpState, n: nat)
    ensures
        s is Idle ==> s.after(n) is Idle,
        s.after(n) is Idle || s.after(n).stage() >= s.stage(),
    decreases n,
{
    if n > 0 {
        law_tick_follows_the_cycle(s);
        law_stages_never_go_back(s.next(), (n - 1) as nat);
    }
}

/// While a stage has not finished, `n` ticks add `n` steps to its progress.
pub proof fn law_ticks_accumulate(s: WarpState, n: nat)
    requires
        !(s is Idle),
        s.progress() + n * s.step() < ONE,
        s.progress() >= i32::MIN,
    ensures
        s.after(n) == s.with_progress((s.progress() + n * s.step()) as i32),
    decreases n,
{
    let d = s.step();
    if n == 0 {
        assert(n * d == 0) by (nonlinear_arith)
            requires
                n == 0,
        ;
    } else {
        assert(n * d == d + (n - 1) * d) by (nonlinear_arith);
        assert((n - 1) * d >= 0) by (nonlinear_arith)
            requires
                n >= 1,
                d > 0,
        ;
        let t = s.next();
        assert(t == s.with_progress((s.progress() + d) as i32));
        assert(t.progress() + (n - 1) * t.step() == s.progress() + n * d);
        law_ticks_accumulate(t, (n - 1) as nat);
        assert(s.after(n) == t.after((n - 1) as nat));
    }
}

/// A transition that has just started runs through its stages in exactly
/// 20, 50, 67 and 20 ticks, and is idle again after 157.
pub proof fn law_stage_lengths()
    ensures
        WarpState::PortalOpening(0).after(19) == WarpState::PortalOpening(95_000),
        WarpState::PortalOpening(0).after(20) == WarpState::Overview(0),
        WarpState::Overview(0).after(49) == WarpState::Overview(98_000),
        WarpState::Overview(0).after(50) == WarpState::Approaching(0),
        WarpState::Approaching(0).after(66) == WarpState::Approaching(99_000),
        WarpState::Approaching(0).after(67) == WarpState::PortalClosing(0),
        WarpState::PortalClosing(0).after(19) == WarpState::PortalClosing(95_000),
        WarpState::PortalClosing(0).after(20) == WarpState::Idle,
        WarpState::PortalOpening(0).after(157) == WarpState::Idle,
{
    let a = WarpState::PortalOpening(0);
    let b = WarpState::Overview(0);
    let c = WarpState::Approaching(0);
    let d = WarpState::PortalClosing(0);
    law_ticks_accumulate(a, 19);
    law_ticks_accumulate(b, 49);
    law_ticks_accumulate(c, 66);
    law_ticks_accumulate(d, 19);
    lemma_after_splits(a, 19, 1);
    lemma_after_splits(b, 49, 1);
    lemma_after_splits(c, 66, 1);
    lemma_after_splits(d, 19, 1);
    assert(WarpState::PortalOpening(95_000).after(1) == WarpState::PortalOpening(95_000).next().after(0));
    assert(WarpState::Overview(98_000).after(1) == WarpState::Overview(98_000).next().after(0));
    assert(WarpState::Approaching(99_000).after(1) == WarpState::Approaching(99_000).next().after(0));
    assert(WarpState::PortalClosing(95_000).after(1) == WarpState::PortalClosing(95_000).next().after(0));
    lemma_after_splits(a, 20, 137);
    lemma_after_splits(b, 50, 87);
    lemma_after_splits(c, 67, 20);
}

/// The progress of a portal stage is at least one step short of `ONE`.
pub proof fn lemma_portal_progress(s: WarpState)
    requires
        s.well_formed(),
        s is PortalOpening || s is PortalClosing,
    ensures
        0 <= s.progress() <= ONE - PORTAL_STEP,
        s.step() == PORTAL_STEP,
{
    let p = s.progress();
    assert(s.step() == 5_000);
    assert(p % 5_000 == 0);
    let k = p / 5_000;
    assert(p == 5_000 * k);
    assert(k < 20);
}

/// Running `m + n` ticks is running `m` ticks and then `n` more.
pub proof fn lemma_after_splits(s: WarpState, m: nat, n: nat)
    ensures
        s.after(m + n) == s.after(m).after(n),
    decreases m,
{
    if m > 0 {
        lemma_after_splits(s.next(), (m - 1) as nat, n);
        assert(s.after(m + n) == s.next().after((m + n - 1) as nat));
    }
}

} // verus!
