use cryptopuz::api::PuzzleType;
use cryptopuz::exp::{exp_through, exp_to_level, ExpSource};
use cryptopuz::scoring::{elapsed_millis, reward, time_bonus, ScoringRule};

fn aristocrat() -> ScoringRule {
    PuzzleType::Aristocrat.scoring_rule()
}

#[test]
fn fast_solve_keeps_full_bonus() {
    assert_eq!(time_bonus(5_000, aristocrat()), 100);
    let award = reward(5_000, aristocrat());
    assert_eq!(award.total, 200);
    assert_eq!(award.sources.len(), 2);
    assert_eq!(award.sources[0].name, "Solve");
    assert_eq!(award.sources[0].amount, "+100");
    assert_eq!(award.sources[1].name, "Time Bonus");
    assert_eq!(award.sources[1].amount, "+100");
    assert!(!award.sources[0].special);
    assert!(!award.sources[1].special);
}

#[test]
fn slow_solve_halves_bonus() {
    assert_eq!(time_bonus(40_000, aristocrat()), 50);
    let award = reward(40_000, aristocrat());
    assert_eq!(award.total, 150);
    assert_eq!(award.sources.len(), 2);
    assert_eq!(award.sources[1].amount, "+50");
}

#[test]
fn very_slow_solve_has_only_solve_part() {
    assert_eq!(time_bonus(100_000, aristocrat()), 0);
    let award = reward(100_000, aristocrat());
    assert_eq!(award.total, 100);
    assert_eq!(award.sources.len(), 1);
    assert_eq!(award.sources[0].name, "Solve");
}

#[test]
fn bonus_is_floored() {
    // 1 ms past the grace window leaves 99.998 points.
    assert_eq!(time_bonus(10_001, aristocrat()), 99);
    assert_eq!(time_bonus(10_000, aristocrat()), 100);
    // 11 s past: 100 - 55/3 = 81.67.
    assert_eq!(time_bonus(21_000, aristocrat()), 81);
}

#[test]
fn bonus_runs_out_where_decay_uses_up_base() {
    // 5/3 points a second use up 100 points after 60 s past the grace window.
    assert_eq!(time_bonus(69_999, aristocrat()), 0);
    assert_eq!(time_bonus(69_400, aristocrat()), 1);
    assert_eq!(time_bonus(70_000, aristocrat()), 0);
    assert_eq!(time_bonus(u128::MAX, aristocrat()), 0);
}

#[test]
fn bonus_never_grows_with_time() {
    let rule = aristocrat();
    let mut last = time_bonus(0, rule);
    let mut t: u128 = 0;
    while t < 120_000 {
        let b = time_bonus(t, rule);
        assert!(b <= last);
        last = b;
        t += 250;
    }
}

#[test]
fn baconian_rule_decays_slower() {
    let rule = PuzzleType::Baconian.scoring_rule();
    assert_eq!(rule.base_reward, 75);
    // 30 s past the grace window at 2.5/3 points a second.
    assert_eq!(time_bonus(40_000, rule), 50);
    let award = reward(40_000, rule);
    assert_eq!(award.total, 125);
    assert_eq!(award.sources[0].amount, "+75");
}

#[test]
fn no_decay_keeps_base() {
    let rule = ScoringRule { base_reward: 30, decay_num: 0, decay_den: 1 };
    assert_eq!(time_bonus(u128::MAX, rule), 30);
}

#[test]
fn elapsed_time_is_clamped() {
    assert_eq!(elapsed_millis(1_000, 4_500), 3_500);
    assert_eq!(elapsed_millis(5_000, 4_000), 0);
}

#[test]
fn levels_follow_experience() {
    assert_eq!(exp_to_level(0), 1);
    assert_eq!(exp_to_level(999), 1);
    assert_eq!(exp_to_level(1000), 2);
    assert_eq!(exp_to_level(2500), 3);
    assert_eq!(exp_through(2500), 500);
    assert_eq!(exp_to_level(-1500), 0);
    assert_eq!(exp_through(-1500), -500);
}

#[test]
fn additive_amount_text() {
    let s = ExpSource::additive("Solve", 100);
    assert_eq!(s.name, "Solve");
    assert_eq!(s.amount, "+100");
    assert_eq!(ExpSource::additive("x", 0).amount, "+0");
    assert_eq!(ExpSource::additive("x", -7).amount, "+-7");
    assert_eq!(ExpSource::additive("x", i32::MIN).amount, "+-2147483648");
    assert_eq!(ExpSource::additive("x", i32::MAX).amount, "+2147483647");
}
