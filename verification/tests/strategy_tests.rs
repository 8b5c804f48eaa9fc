use predictive_rolls::sites::BetResult;
use predictive_rolls::strategies::{
    chance_for, clamp_stake, multiplier_for, shift_balance, shift_profit, Martingale, NoStrat,
    Strategy,
};

fn settled(win_amount: i64, result: bool) -> BetResult {
    BetResult {
        hash_previous_roll: String::new(),
        hash_next_roll: String::new(),
        client_seed: String::new(),
        nonce: 0,
        symbol: "BTC".to_string(),
        result,
        is_high: false,
        number: 0,
        threshold: 0,
        chance: 0,
        payout: 0,
        bet_amount: 0,
        win_amount,
    }
}

#[test]
fn martingale_doubles_after_losses_and_resets_on_win() {
    // Bankroll 0.001, base stake 0.00000010, in atomic units of 1e-8.
    let mut m = Martingale::new(100_000, 1, 10);

    let first = m.get_next_bet(6000, 50);
    assert_eq!(first.stake, 10);

    m.on_lose(&settled(10, false));
    assert_eq!(m.get_next_bet(6000, 50).stake, 20);
    m.on_lose(&settled(20, false));
    assert_eq!(m.get_next_bet(6000, 50).stake, 40);
    m.on_lose(&settled(40, false));
    // After three consecutive losses the stake has doubled three times.
    assert_eq!(m.get_next_bet(6000, 50).stake, 80);

    m.on_win(&settled(80, true));
    // A win returns the progression to the base stake at once.
    assert_eq!(m.get_next_bet(6000, 50).stake, 10);
}

#[test]
fn stake_never_exceeds_bankroll_nor_falls_below_minimum() {
    let mut m = Martingale::new(50, 5, 10);
    for _ in 0..20 {
        let d = m.get_next_bet(7000, 80);
        let balance = m.get_balance();
        assert!(d.stake <= balance);
        assert!(d.stake >= 5);
        m.on_lose(&settled(d.stake as i64, false));
        if m.get_balance() < 5 {
            break;
        }
    }
}

#[test]
fn flat_policy_keeps_its_base_stake() {
    let mut s = NoStrat::new(1_000, 2, 7);
    assert_eq!(s.get_next_bet(100, 10).stake, 7);
    s.on_lose(&settled(7, false));
    assert_eq!(s.get_next_bet(100, 10).stake, 7);
    s.on_win(&settled(7, true));
    assert_eq!(s.get_next_bet(100, 10).stake, 7);
}

#[test]
fn direction_follows_the_midpoint() {
    let mut m = Martingale::new(1_000, 1, 10);
    assert!(m.get_next_bet(5001, 50).is_high);
    assert!(!m.get_next_bet(5000, 50).is_high);
    assert!(!m.get_next_bet(0, 50).is_high);
}

#[test]
fn chance_mapping_is_monotonic_and_bounded() {
    let mut last = 0u32;
    for c in 0..=100u32 {
        let chance = chance_for(c);
        assert!((1..=5000).contains(&chance));
        assert!(chance >= last);
        last = chance;
    }
    assert_eq!(chance_for(0), 1);
    assert_eq!(chance_for(100), 5000);
}

#[test]
fn multiplier_is_implied_by_chance() {
    // 50% chance gives a 2.00x multiplier.
    assert_eq!(multiplier_for(5000), 200);
    // Tiny chances clamp at the highest legal multiplier.
    assert_eq!(multiplier_for(1), 1_000_000);
    // Chances that would fall below the floor clamp at 1.01x.
    assert_eq!(multiplier_for(1_000_000), 101);
}

#[test]
fn bookkeeping_clamps_at_type_bounds() {
    assert_eq!(shift_balance(10, -25), 0);
    assert_eq!(shift_balance(u64::MAX, 1), u64::MAX);
    assert_eq!(shift_balance(10, 5), 15);
    assert_eq!(shift_profit(i64::MAX, 1), i64::MAX);
    assert_eq!(shift_profit(i64::MIN, -1), i64::MIN);
    assert_eq!(shift_profit(-5, 3), -2);
}

#[test]
fn stake_clamp_matches_the_rule() {
    // max(min_bet, min(stake, balance))
    assert_eq!(clamp_stake(100, 5, 50), 50);
    assert_eq!(clamp_stake(3, 5, 50), 5);
    assert_eq!(clamp_stake(30, 5, 50), 30);
    assert_eq!(clamp_stake(100, 5, 2), 5);
}

#[test]
fn streak_tracks_consecutive_outcomes() {
    let mut m = Martingale::new(1_000, 1, 10);
    m.on_win(&settled(10, true));
    m.on_win(&settled(10, true));
    assert_eq!(m.streak, 2);
    m.on_lose(&settled(10, false));
    assert_eq!(m.streak, -1);
    m.on_lose(&settled(10, false));
    assert_eq!(m.streak, -2);
    m.on_win(&settled(10, true));
    assert_eq!(m.streak, 1);
}
