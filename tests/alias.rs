use pachislo_wasm::alias::{BallsConfig, Lose, LotteryResult, SlotProbability, Win};
use pachislo_wasm::{GameError, PROBABILITY_SCALE};
use pachislo_wasm::ledger::{credit, debit};

#[test]
fn test_lottery_result_is_win() {
    let win_result = LotteryResult::Win(Win::Default);
    assert!(win_result.is_win());

    let fake_win_result = LotteryResult::Win(Win::FakeWin);
    assert!(fake_win_result.is_win());

    let lose_result = LotteryResult::Lose(Lose::Default);
    assert!(!lose_result.is_win());

    let fake_lose_result = LotteryResult::Lose(Lose::FakeLose);
    assert!(!fake_lose_result.is_win());
}

#[test]
fn test_balls_config_creation() {
    let config = BallsConfig::new(100, 15, 50);
    assert_eq!(config.init_balls, 100);
    assert_eq!(config.incremental_balls, 15);
    assert_eq!(config.incremental_rush, 50);
}

#[test]
fn test_balls_config_edge_cases() {
    // Test with zero balls
    let zero_config = BallsConfig::new(0, 0, 0);
    assert_eq!(zero_config.init_balls, 0);
    assert_eq!(zero_config.incremental_balls, 0);
    assert_eq!(zero_config.incremental_rush, 0);

    // Test with large numbers
    let large_config = BallsConfig::new(usize::MAX, usize::MAX, usize::MAX);
    assert_eq!(large_config.init_balls, usize::MAX);
    assert_eq!(large_config.incremental_balls, usize::MAX);
    assert_eq!(large_config.incremental_rush, usize::MAX);
}

#[test]
fn test_win_lose_enum_variants() {
    // Test Win variants
    let default_win = Win::Default;
    let fake_win = Win::FakeWin;

    // Test Lose variants
    let default_lose = Lose::Default;
    let fake_lose = Lose::FakeLose;

    // Test that they can be used in match statements
    match default_win {
        Win::Default => assert!(true),
        Win::FakeWin => panic!("Should be Default"),
    }

    match fake_win {
        Win::Default => panic!("Should be FakeWin"),
        Win::FakeWin => assert!(true),
    }

    match default_lose {
        Lose::Default => assert!(true),
        Lose::FakeLose => panic!("Should be Default"),
    }

    match fake_lose {
        Lose::Default => panic!("Should be FakeLose"),
        Lose::FakeLose => assert!(true),
    }
}

#[test]
fn test_slot_probability_creation() {
    let prob = SlotProbability::new(100_000, 50_000, 20_000);
    assert_eq!(prob.win, 100_000);
    assert_eq!(prob.fake_win, 50_000);
    assert_eq!(prob.fake_lose, 20_000);
}

#[test]
fn test_probability_edge_cases() {
    // Test with zero probabilities
    let zero_prob = SlotProbability::new(0, 0, 0);
    assert_eq!(zero_prob.win, 0);
    assert_eq!(zero_prob.fake_win, 0);
    assert_eq!(zero_prob.fake_lose, 0);

    // Test with maximum probabilities
    let max_prob = SlotProbability::new(PROBABILITY_SCALE, PROBABILITY_SCALE, PROBABILITY_SCALE);
    assert_eq!(max_prob.win, PROBABILITY_SCALE);
    assert_eq!(max_prob.fake_win, PROBABILITY_SCALE);
    assert_eq!(max_prob.fake_lose, PROBABILITY_SCALE);
}

#[test]
fn credit_adds_and_saturates() {
    assert_eq!(credit(100, 15), 115);
    assert_eq!(credit(0, 0), 0);
    assert_eq!(credit(usize::MAX - 1, 5), usize::MAX);
}

#[test]
fn debit_refuses_overdraft() {
    assert_eq!(debit(100, 1), Ok(99));
    assert_eq!(debit(1, 1), Ok(0));
    assert_eq!(debit(0, 1), Err(GameError::InsufficientBalls));
    assert_eq!(debit(3, 4), Err(GameError::InsufficientBalls));
}
