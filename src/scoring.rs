use vstd::prelude::*;

use vstd::arithmetic::div_mod::{lemma_div_is_ordered, lemma_div_multiples_vanish};

use crate::exp::{additive_text, ExpSource};

verus! {

/// Solve time, in milliseconds, before the time bonus starts to decay.
pub const GRACE_MILLIS: u128 = 10_000;

/// Excess solve time, in milliseconds, beyond which no rule that decays at all
/// leaves a bonus.
const EXCESS_CAP_MILLIS: u128 = 0x400_0000_0000;

/// How a solve is rewarded: the base reward, and how fast the time bonus
/// decays, as `decay_num / decay_den` points per second past the grace window.
#[derive(Clone, Copy, Debug, PartialEq, Eq)]
pub struct ScoringRule {
    pub base_reward: u16,
    pub decay_num: u16,
    pub decay_den: u16,
}

impl ScoringRule {
    pub open spec fn wf(self) -> bool {
        self.decay_den > 0
    }
}

/// Solve time past the grace window, in milliseconds.
pub open spec fn excess_millis(elapsed: int) -> int {
    if elapsed > GRACE_MILLIS {
        elapsed - GRACE_MILLIS
    } else {
        0
    }
}

/// The time bonus: `max(0, floor(base − decay × excess seconds))`, with the
/// excess counted exactly in milliseconds.
pub open spec fn time_bonus_of(elapsed: int, rule: ScoringRule) -> int {
    let scale = 1000 * rule.decay_den;
    let left = rule.base_reward * scale - excess_millis(elapsed) * rule.decay_num;
    if left <= 0 {
        0
    } else {
        left / scale
    }
}

/// Time between issue and submission, clamped to zero when the clock went back.
pub fn elapsed_millis(issued_at: u128, now: u128) -> (r: u128)
    ensures
        r == if now >= issued_at { now - issued_at } else { 0 },
{
    if now >= issued_at {
        now - issued_at
    } else {
        0
    }
}

/// The time bonus earned for a solve that took `elapsed` milliseconds.
pub fn time_bonus(elapsed: u128, rule: ScoringRule) -> (r: u16)
    requires
        rule.wf(),
    ensures
        r as int == time_bonus_of(elapsed as int, rule),
{
    let excess: u128 = if elapsed > GRACE_MILLIS {
        elapsed - GRACE_MILLIS
    } else {
        0
    };
    let scale: u64 = 1000 * rule.decay_den as u64;
    assert(rule.base_reward as u64 * scale < EXCESS_CAP_MILLIS) by (nonlinear_arith)
        requires
            scale <= 1000 * 0xffff,
            rule.base_reward <= 0xffff,
    ;
    let budget: u64 = rule.base_reward as u64 * scale;
    proof {
        lemma_div_multiples_vanish(rule.base_reward as int, scale as int);
        assert(scale as int * rule.base_reward as int == budget as int) by (nonlinear_arith)
            requires
                budget == rule.base_reward as u64 * scale,
        ;
    }
    if rule.decay_num == 0 {
        assert(excess_millis(elapsed as int) * rule.decay_num == 0);
        return rule.base_reward;
    }
    if excess >= EXCESS_CAP_MILLIS {
        assert(excess * rule.decay_num >= excess) by (nonlinear_arith)
            requires
                rule.decay_num >= 1,
        ;
        return 0;
    }
    let excess64: u64 = excess as u64;
    assert(excess64 * rule.decay_num < EXCESS_CAP_MILLIS * 0x10000) by (nonlinear_arith)
        requires
            excess64 < EXCESS_CAP_MILLIS,
            rule.decay_num <= 0xffff,
    ;
    let drain: u64 = excess64 * rule.decay_num as u64;
    if drain >= budget {
        0
    } else {
        let r: u64 = (budget - drain) / scale;
        proof {
            lemma_div_is_ordered((budget - drain) as int, budget as int, scale as int);
        }
        r as u16
    }
}

/// A slower solve never earns a larger time bonus.
pub proof fn lemma_time_bonus_monotonic(t1: int, t2: int, rule: ScoringRule)
    requires
        rule.wf(),
        0 <= t1 <= t2,
    ensures
        time_bonus_of(t1, rule) >= time_bonus_of(t2, rule),
{
    let scale = 1000 * rule.decay_den;
    let e1 = excess_millis(t1);
    let e2 = excess_millis(t2);
    assert(e1 * rule.decay_num <= e2 * rule.decay_num) by (nonlinear_arith)
        requires
            0 <= e1 <= e2,
            rule.decay_num >= 0,
    ;
    let left1 = rule.base_reward * scale - e1 * rule.decay_num;
    let left2 = rule.base_reward * scale - e2 * rule.decay_num;
    if left2 > 0 {
        lemma_div_is_ordered(left2, left1, scale);
    } else if left1 > 0 {
        lemma_div_is_ordered(0, left1, scale);
    }
}

/// Once the decay has used up the whole base reward (decay rate times excess
/// seconds at least the base reward), the time bonus is zero.
pub proof fn lemma_time_bonus_exhausted(t: int, rule: ScoringRule)
    requires
        rule.wf(),
        excess_millis(t) * rule.decay_num >= rule.base_reward * 1000 * rule.decay_den,
    ensures
        time_bonus_of(t, rule) == 0,
{
    assert(rule.base_reward * (1000 * rule.decay_den) == rule.base_reward * 1000 * rule.decay_den)
        by (nonlinear_arith);
}

/// What a solve earns: its parts in display order, and their sum.
pub struct ExpAward {
    pub sources: Vec<ExpSource>,
    pub total: i32,
}

/// `a` is the award for a solve that took `elapsed` milliseconds under `rule`.
pub open spec fn is_award_for(a: ExpAward, elapsed: int, rule: ScoringRule) -> bool {
    let bonus = time_bonus_of(elapsed, rule);
    &&& a.total == rule.base_reward + bonus
    &&& a.sources@.len() == if bonus > 0 { 2int } else { 1int }
    &&& a.sources@[0].name@ == "Solve"@
    &&& a.sources@[0].amount@ == additive_text(rule.base_reward as int)
    &&& !a.sources@[0].special
    &&& bonus > 0 ==> {
        &&& a.sources@[1].name@ == "Time Bonus"@
        &&& a.sources@[1].amount@ == additive_text(bonus)
        &&& !a.sources@[1].special
    }
}

/// The award for an authenticated solve that took `elapsed` milliseconds:
/// always a `Solve` part worth the base reward, then a `Time Bonus` part
/// only when the bonus is positive.
pub fn reward(elapsed: u128, rule: ScoringRule) -> (r: ExpAward)
    requires
        rule.wf(),
    ensures
        is_award_for(r, elapsed as int, rule),
{
    let bonus: u16 = time_bonus(elapsed, rule);
    let mut sources: Vec<ExpSource> = Vec::new();
    sources.push(ExpSource::additive("Solve", rule.base_reward as i32));
    if bonus > 0 {
        sources.push(ExpSource::additive("Time Bonus", bonus as i32));
    }
    ExpAward { sources, total: rule.base_reward as i32 + bonus as i32 }
}

} // verus!
