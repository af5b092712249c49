use coin_notifier::config::{
    default_cooldown_bars, default_backtest_max_entries, validate, validate_alert_conditions,
    validate_backtest_model, validate_backtest_schedule, AlertEntry, BacktestSchedule,
    CoinConfig, ConfigOutline, ExchangeConfig, GeneralConfig, InputConfig, RiskPolicyConfig,
    TradingModelConfig,
};
use coin_notifier::error::ConfigError;
use coin_notifier::model::UtcInstant;

fn field(text: &str) -> ConfigError {
    ConfigError::Validation { field: text.to_string() }
}

fn outline() -> ConfigOutline {
    ConfigOutline {
        exchanges: vec![],
        coins: vec![],
        alerts: vec![],
        inputs: vec![],
        models: vec![],
        backtest: None,
    }
}

fn upbit() -> ExchangeConfig {
    ExchangeConfig {
        name: "upbit".to_string(),
        enabled: true,
        base_url: "https://api.upbit.com".to_string(),
        ws_url: "wss://api.upbit.com/websocket/v1".to_string(),
    }
}

fn coin(timeframes: &[&str]) -> CoinConfig {
    CoinConfig {
        exchange: "upbit".to_string(),
        symbol: "KRW-BTC".to_string(),
        timeframes: timeframes.iter().map(|s| s.to_string()).collect(),
    }
}

fn alert(name: &str, condition: &str, has_threshold: bool) -> AlertEntry {
    AlertEntry {
        name: name.to_string(),
        exchange: "upbit".to_string(),
        symbol: "KRW-BTC".to_string(),
        condition: condition.to_string(),
        has_threshold,
    }
}

fn rsi_input(name: &str) -> InputConfig {
    InputConfig { name: name.to_string(), kind: "rsi".to_string(), params: vec![] }
}

fn schedule(timeframe: &str, model: &str, start: i64, end: i64) -> BacktestSchedule {
    BacktestSchedule {
        timeframe: timeframe.to_string(),
        model: model.to_string(),
        start_time: UtcInstant { secs: start, nanos: 0 },
        end_time: UtcInstant { secs: end, nanos: 0 },
    }
}

#[test]
fn defaults_applied_when_fields_omitted() {
    let general = GeneralConfig::default();
    assert_eq!(general.log_level, "info");
    assert_eq!(general.log_format, "text");
    assert_eq!(general.data_dir, "./data");
    assert_eq!(general.historical_candles, 500);
    assert_eq!(general.default_cooldown_minutes, 5);
    let risk = RiskPolicyConfig::default();
    assert_eq!(risk.max_entries_per_position, 3);
    assert_eq!(risk.cooldown_bars, 3);
    assert_eq!(default_cooldown_bars(), 3);
    assert_eq!(default_backtest_max_entries(), 3);
}

#[test]
fn invalid_timeframe_string_rejected() {
    let mut config = outline();
    config.exchanges.push(upbit());
    config.coins.push(coin(&["2m"]));
    assert_eq!(
        validate(&config),
        Err(field("coins[exchange=upbit, symbol=KRW-BTC].timeframes: unknown timeframe \"2m\""))
    );
}

#[test]
fn duplicate_input_name_rejected() {
    let mut config = outline();
    config.inputs.push(rsi_input("rsi_14"));
    config.inputs.push(rsi_input("rsi_14"));
    assert_eq!(validate(&config), Err(field("inputs: duplicate name \"rsi_14\"")));
}

#[test]
fn valid_configuration_passes() {
    let mut config = outline();
    config.exchanges.push(upbit());
    config.coins.push(coin(&["1m", "1h"]));
    config.alerts.push(alert("a", "below", true));
    config.alerts.push(alert("b", "between", false));
    config.inputs.push(rsi_input("rsi_14"));
    config.models.push(TradingModelConfig {
        name: "rev".to_string(),
        kind: "rsi_reversion".to_string(),
        inputs: vec!["rsi_14".to_string()],
        params: vec![],
    });
    config.backtest = Some(schedule("1m", "rev", 0, 86_400));
    assert_eq!(validate(&config), Ok(()));
}

#[test]
fn coin_exchange_must_be_configured() {
    let mut config = outline();
    config.coins.push(coin(&["1m"]));
    assert_eq!(
        validate(&config),
        Err(field("coins[symbol=KRW-BTC].exchange \"upbit\" does not match any exchange name"))
    );
}

#[test]
fn alert_must_match_a_coin() {
    let mut config = outline();
    config.alerts.push(alert("lonely", "above", true));
    assert_eq!(
        validate(&config),
        Err(field("alerts[\"lonely\"].exchange+symbol (upbit, KRW-BTC) does not match any coin entry"))
    );
}

#[test]
fn alert_names_must_be_unique() {
    let mut config = outline();
    config.exchanges.push(upbit());
    config.coins.push(coin(&["1m"]));
    config.alerts.push(alert("x", "above", true));
    config.alerts.push(alert("x", "below", true));
    assert_eq!(validate(&config), Err(field("alerts: duplicate name \"x\"")));
}

#[test]
fn alert_conditions_checked() {
    assert_eq!(
        validate_alert_conditions(&vec![alert("a", "sideways", true)]),
        Err(field("alerts[\"a\"].condition \"sideways\" is not valid"))
    );
    assert_eq!(
        validate_alert_conditions(&vec![alert("a", "cross_above", false)]),
        Err(field("alerts[\"a\"].threshold is required for condition \"cross_above\""))
    );
    assert_eq!(validate_alert_conditions(&vec![alert("a", "between", false)]), Ok(()));
}

#[test]
fn model_names_must_be_unique() {
    let mut config = outline();
    let m = TradingModelConfig {
        name: "m".to_string(),
        kind: "sma_cross".to_string(),
        inputs: vec![],
        params: vec![],
    };
    config.models.push(m.clone());
    config.models.push(m);
    assert_eq!(validate(&config), Err(field("models: duplicate name \"m\"")));
}

#[test]
fn model_inputs_must_exist() {
    let mut config = outline();
    config.inputs.push(rsi_input("rsi_14"));
    config.models.push(TradingModelConfig {
        name: "cross".to_string(),
        kind: "sma_cross".to_string(),
        inputs: vec!["rsi_14".to_string(), "sma_long".to_string()],
        params: vec![],
    });
    assert_eq!(
        validate(&config),
        Err(field("models[\"cross\"].inputs contains unknown input \"sma_long\""))
    );
}

#[test]
fn backtest_schedule_checked() {
    assert_eq!(
        validate_backtest_schedule(&schedule("7m", "m", 0, 10)),
        Err(field("backtest.timeframe \"7m\" is not valid"))
    );
    assert_eq!(
        validate_backtest_schedule(&schedule("1m", "m", 10, 10)),
        Err(field("backtest.start_time must be before backtest.end_time"))
    );
    assert_eq!(validate_backtest_schedule(&schedule("1d", "m", 0, 10)), Ok(()));
}

#[test]
fn backtest_model_must_be_defined() {
    let models = vec![TradingModelConfig {
        name: "rev".to_string(),
        kind: "rsi_reversion".to_string(),
        inputs: vec![],
        params: vec![],
    }];
    assert_eq!(validate_backtest_model(&models, &schedule("1m", "rev", 0, 1)), Ok(()));
    assert_eq!(
        validate_backtest_model(&models, &schedule("1m", "other", 0, 1)),
        Err(field("backtest.model \"other\" is not defined"))
    );
    assert_eq!(validate_backtest_model(&vec![], &schedule("1m", "other", 0, 1)), Ok(()));
}

#[test]
fn model_inputs_checked_against_default_input() {
    let mut config = outline();
    config.models.push(TradingModelConfig {
        name: "rev".to_string(),
        kind: "rsi_reversion".to_string(),
        inputs: vec!["rsi_14".to_string()],
        params: vec![],
    });
    assert_eq!(validate(&config), Ok(()));
    config.models.push(TradingModelConfig {
        name: "cross".to_string(),
        kind: "sma_cross".to_string(),
        inputs: vec!["sma_short".to_string()],
        params: vec![],
    });
    assert_eq!(
        validate(&config),
        Err(field("models[\"cross\"].inputs contains unknown input \"sma_short\""))
    );
}
