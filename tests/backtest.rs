use coin_notifier::backtest::{
    check_candle_count, check_history, check_model_inputs, find_model, PositionBook, StepPlan,
};
use coin_notifier::signal_model::{build_default_model, build_model};
use coin_notifier::config::{RiskPolicyConfig, TradingModelConfig};
use coin_notifier::signal_input::build_default_inputs;
use coin_notifier::signal_model::SignalAction;

fn policy(max: usize, cooldown: usize) -> RiskPolicyConfig {
    RiskPolicyConfig { max_entries_per_position: max, cooldown_bars: cooldown }
}

#[test]
fn cooldown_blocks_adjacent_buys() {
    let p = policy(0, 3);
    let mut book: PositionBook<u32> = PositionBook::new();
    assert!(book.open_lot(&p, 0, 10, 1));
    assert_eq!(book.last_entry_fill_index(), Some(1));
    assert!(!book.open_lot(&p, 1, 10, 2));
    assert!(!book.open_lot(&p, 2, 10, 2));
    assert_eq!(book.open_count(), 1);
    assert!(book.open_lot(&p, 3, 10, 3));
    assert_eq!(book.last_entry_fill_index(), Some(4));
    assert_eq!(book.open_count(), 2);
}

#[test]
fn max_entries_caps_open_lots() {
    let p = policy(1, 0);
    let mut book: PositionBook<u32> = PositionBook::new();
    for index in 0..8 {
        book.open_lot(&p, index, 10, index as u32);
        assert!(book.open_count() <= 1);
    }
    assert!(book.hit_max_entries(&p));
    let closed = book.close_all();
    assert_eq!(closed, vec![0]);
    assert!(book.open_lot(&p, 8, 10, 9));
}

#[test]
fn unlimited_entries_when_max_is_zero() {
    let p = policy(0, 0);
    let mut book: PositionBook<u32> = PositionBook::new();
    for index in 0..5 {
        assert!(book.open_lot(&p, index, 10, index as u32));
    }
    assert_eq!(book.open_count(), 5);
    assert!(!book.hit_max_entries(&p));
}

#[test]
fn close_all_takes_every_lot_in_order() {
    let p = policy(3, 0);
    let mut book: PositionBook<&str> = PositionBook::new();
    book.open_lot(&p, 0, 10, "first");
    book.open_lot(&p, 1, 10, "second");
    assert_eq!(book.lots(), &vec!["first", "second"]);
    assert_eq!(book.close_all(), vec!["first", "second"]);
    assert_eq!(book.open_count(), 0);
    assert_eq!(book.close_all(), Vec::<&str>::new());
}

#[test]
fn plan_follows_the_action() {
    let p = policy(3, 3);
    let mut book: PositionBook<u32> = PositionBook::new();
    assert_eq!(book.plan(&p, 2, 10, SignalAction::Buy), StepPlan::Enter { fill_index: 3 });
    assert_eq!(book.plan(&p, 2, 10, SignalAction::Sell), StepPlan::Stay);
    assert_eq!(book.plan(&p, 2, 10, SignalAction::Hold), StepPlan::Stay);
    assert_eq!(book.plan(&p, 9, 10, SignalAction::Buy), StepPlan::Stay);
    book.open_lot(&p, 2, 10, 1);
    assert_eq!(book.plan(&p, 3, 10, SignalAction::Buy), StepPlan::Stay);
    assert_eq!(book.plan(&p, 3, 10, SignalAction::Sell), StepPlan::Exit { fill_index: 4 });
    assert_eq!(book.plan(&p, 9, 10, SignalAction::Sell), StepPlan::Stay);
}

#[test]
fn cooldown_counts_bars_between_fills() {
    let p = policy(0, 3);
    let mut book: PositionBook<u32> = PositionBook::new();
    assert!(book.cooldown_elapsed(&p, 0));
    book.open_lot(&p, 0, 10, 1);
    assert!(!book.cooldown_elapsed(&p, 3));
    assert!(book.cooldown_elapsed(&p, 4));
    assert!(book.cooldown_elapsed(&p, 5));
}

#[test]
fn candle_count_rules() {
    assert_eq!(check_candle_count(1), Err("backtest requires at least 2 candles".to_string()));
    assert_eq!(check_candle_count(2), Ok(()));
    let inputs = build_default_inputs().unwrap();
    assert_eq!(
        check_history(10, &inputs),
        Err("insufficient candles: need at least 15, got 10".to_string())
    );
    assert_eq!(check_history(15, &inputs), Ok(()));
}

#[test]
fn model_lookup() {
    let none: Vec<TradingModelConfig> = vec![];
    assert_eq!(find_model(&none, "anything").unwrap().name(), "rsi_reversion_default");
    let models = vec![
        TradingModelConfig {
            name: "a".to_string(),
            kind: "sma_cross".to_string(),
            inputs: vec![],
            params: vec![],
        },
        TradingModelConfig {
            name: "b".to_string(),
            kind: "rsi_reversion".to_string(),
            inputs: vec![],
            params: vec![],
        },
    ];
    assert_eq!(find_model(&models, "b").unwrap().name(), "b");
    assert_eq!(find_model(&models, "c").err().unwrap(), "model not found: c");
}

#[test]
fn zero_cooldown_allows_every_bar() {
    let p = policy(0, 0);
    let mut book: PositionBook<u32> = PositionBook::new();
    assert!(book.open_lot(&p, 0, 10, 1));
    assert!(book.open_lot(&p, 1, 10, 2));
}

#[test]
fn model_inputs_must_be_built() {
    let inputs = build_default_inputs().unwrap();
    assert_eq!(check_model_inputs(&build_default_model(), &inputs), Ok(()));
    let cross = build_model(&TradingModelConfig {
        name: "cross".to_string(),
        kind: "sma_cross".to_string(),
        inputs: vec![],
        params: vec![],
    })
    .unwrap();
    assert_eq!(
        check_model_inputs(&cross, &inputs),
        Err("model cross reads unknown input \"sma_short\"".to_string())
    );
}
