use predictive_rolls::dataset::{
    BetResultsDataset, FakeServerStorage as CsvStorage,
};
use predictive_rolls::orchestrator::{
    step, OrchestratorAction, OrchestratorEvent, OrchestratorState, ITERATION_DELAY_MS,
};
use predictive_rolls::parse::{amount_to_string, parse_amount, parse_signed_amount, u64_to_string};
use predictive_rolls::sites::fake_test::{
    duckdice_fake_bet, free_bitcoin_fake_bet, gen_fake_bet, reset_server_seed, FakeServerStorage,
};
use predictive_rolls::sites::BetError;

#[test]
fn fake_bet_commits_before_it_reveals() {
    let mut storage = FakeServerStorage::default();
    let (number, hash, nonce) = gen_fake_bet(&mut storage, "clientseed");
    assert!(number < 10000);
    assert_eq!(hash.len(), 64);
    assert_eq!(nonce, 0);
    // At a nonzero nonce the seed is kept, so the same roll comes back.
    storage.current_nonce = 5;
    let (a, ha, _) = gen_fake_bet(&mut storage, "clientseed");
    let (b, hb, _) = gen_fake_bet(&mut storage, "clientseed");
    assert_eq!(a, b);
    assert_eq!(ha, hb);
}

#[test]
fn reset_returns_the_nonce_to_zero() {
    let mut storage = FakeServerStorage::default();
    storage.current_nonce = 17;
    reset_server_seed(&mut storage);
    assert_eq!(storage.current_nonce, 0);
}

#[test]
fn simulated_freebitcoin_bet_rotates_the_chain() {
    let mut storage = FakeServerStorage::default();
    let r1 = free_bitcoin_fake_bet(&mut storage, true, "cs", 10, 200);
    assert_eq!(storage.current_nonce, 1);
    assert_eq!(r1.nonce_next_roll, 1);
    assert_eq!(r1.success_code, "1");
    assert_eq!(r1.max_bet, 2_000_000_000);
    // The first reported roll is the delayed zero: the chain runs one
    // roll ahead, and the fresh digest commits to the new seed.
    assert_eq!(r1.rolled_number, 0);
    assert_eq!(r1.server_seed_hash_next_roll.len(), 64);
    assert_eq!(r1.server_seed_hash_next_roll, storage.server_seed_hash_next_roll);

    let next_digest = storage.server_seed_hash_next_roll.clone();
    let current_digest = storage.current_seed_hash.clone();
    let r2 = free_bitcoin_fake_bet(&mut storage, true, "cs", 10, 200);
    assert_eq!(storage.current_nonce, 2);
    // One rotation step: the old current digest becomes the previous
    // one, the digest published last time becomes current.
    assert_eq!(storage.server_seed_hash_previous_roll, current_digest);
    assert_eq!(storage.current_seed_hash, next_digest);
    assert_eq!(r2.server_seed_hash_previous_roll, current_digest);
    // A bet at 2x reports stake * (multiplier - 1) on a win and the
    // stake on a loss; both are 10 here.
    assert_eq!(r2.amount_won, 10);
}

#[test]
fn simulated_duckdice_bet_reports_decimal_amounts() {
    let mut storage = FakeServerStorage::default();
    let r = duckdice_fake_bet(&mut storage, true, "cs", 25, 400);
    assert_eq!(r.bet.payout, 400);
    assert_eq!(r.bet.chance, 2500);
    assert_eq!(r.bet.bet_amount, "0.00000025");
    if r.bet.result {
        // 25 * (4.00 - 1) = 75
        assert_eq!(r.bet.profit, "0.00000075");
    } else {
        assert_eq!(r.bet.profit, "-0.00000025");
    }
    assert_eq!(
        r.bet.choice.starts_with('>'),
        r.bet.number > 5000
    );
}

#[test]
fn dataset_generates_records_on_the_fly() {
    let train = BetResultsDataset::train().unwrap();
    assert_eq!(train.len(), 1_000_000);
    let test = BetResultsDataset::test().unwrap();
    assert_eq!(test.len(), 1_000);

    let mut storage = CsvStorage::default();
    let rec = test.get(&mut storage, 42).unwrap();
    assert_eq!(rec.nonce, 42);
    assert_eq!(rec.nonce_next_roll, 43);
    assert!(rec.rolled_number < 10000);
    assert!(rec.next_number < 10000);
    assert_eq!(rec.server_seed_hash_next_roll.len(), 64);
    assert!(rec.client_seed.len() < 64);
}

#[test]
fn amounts_round_trip_through_their_strings() {
    assert_eq!(amount_to_string(10), "0.00000010");
    assert_eq!(amount_to_string(250_000_000), "2.50000000");
    assert_eq!(parse_amount(b"2.50000000"), Some(250_000_000));
    assert_eq!(parse_amount(b"0.00000010"), Some(10));
    assert_eq!(parse_amount(b"20"), Some(2_000_000_000));
    assert_eq!(parse_amount(b"1.2.3"), None);
    assert_eq!(parse_amount(b"1.123456789"), None);
    assert_eq!(parse_signed_amount(b"-0.00000025"), Some(-25));
    assert_eq!(parse_signed_amount(b"0.00000025"), Some(25));
    assert_eq!(u64_to_string(12345), "12345");
}

#[test]
fn orchestrator_walks_the_states() {
    let (s, a) = step(OrchestratorState::Init, OrchestratorEvent::Start);
    assert!(matches!(s, OrchestratorState::Init));
    assert!(matches!(a, OrchestratorAction::Login));

    let (s, a) = step(s, OrchestratorEvent::LoginSucceeded);
    assert!(matches!(s, OrchestratorState::Betting));
    assert!(matches!(a, OrchestratorAction::PlaceBet));

    let settled = predictive_rolls::sites::BetResult {
        hash_previous_roll: String::new(),
        hash_next_roll: String::new(),
        client_seed: String::new(),
        nonce: 0,
        symbol: "BTC".to_string(),
        result: true,
        is_high: true,
        number: 7000,
        threshold: 0,
        chance: 0,
        payout: 0,
        bet_amount: 1,
        win_amount: 1,
    };
    let (s, a) = step(s, OrchestratorEvent::BetSettled(settled));
    assert!(matches!(s, OrchestratorState::Settling));
    assert!(matches!(a, OrchestratorAction::SettleWin(_)));

    let (s, a) = step(s, OrchestratorEvent::SettlingDone);
    assert!(matches!(s, OrchestratorState::Betting));
    assert!(matches!(a, OrchestratorAction::Sleep(ms) if ms == ITERATION_DELAY_MS));
}

#[test]
fn orchestrator_handles_errors_per_policy() {
    // A rate limit with 45 advertised seconds sleeps 45000 ms.
    let (s, a) = step(
        OrchestratorState::Betting,
        OrchestratorEvent::BetFailed(BetError::RateLimited(45)),
    );
    assert!(matches!(s, OrchestratorState::Betting));
    assert!(matches!(a, OrchestratorAction::Sleep(45_000)));

    // An empty reply skips the iteration.
    let (s, a) = step(
        OrchestratorState::Betting,
        OrchestratorEvent::BetFailed(BetError::EmptyReply),
    );
    assert!(matches!(s, OrchestratorState::Betting));
    assert!(matches!(a, OrchestratorAction::Sleep(ms) if ms == ITERATION_DELAY_MS));

    // Anything else halts gracefully.
    let (s, a) = step(
        OrchestratorState::Betting,
        OrchestratorEvent::BetFailed(BetError::InsufficientBalance),
    );
    assert!(matches!(
        s,
        OrchestratorState::Halted(Some(BetError::InsufficientBalance))
    ));
    assert!(matches!(a, OrchestratorAction::Halt));

    // A rejected login halts before any bet.
    let (s, a) = step(
        OrchestratorState::Init,
        OrchestratorEvent::LoginRejected(BetError::LoginFailed),
    );
    assert!(matches!(s, OrchestratorState::Halted(Some(BetError::LoginFailed))));
    assert!(matches!(a, OrchestratorAction::Halt));

    // A halted loop stays halted.
    let (s, a) = step(s, OrchestratorEvent::Start);
    assert!(matches!(s, OrchestratorState::Halted(_)));
    assert!(matches!(a, OrchestratorAction::Halt));
}
