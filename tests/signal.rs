use coin_notifier::config::{InputConfig, TradingModelConfig};
use coin_notifier::params::{get_string, get_usize, ParamValue};
use coin_notifier::signal_input::{
    align_series, build_default_inputs, build_input, build_inputs, max_required_candles,
    InputSource,
};
use coin_notifier::signal_model::{
    build_default_model, build_model, collect_feature_values, FeatureTable, ModelKind,
    SmaCrossModel,
};

fn input(name: &str, kind: &str, params: Vec<(String, ParamValue)>) -> InputConfig {
    InputConfig { name: name.to_string(), kind: kind.to_string(), params }
}

fn int_param(key: &str, v: i64) -> (String, ParamValue) {
    (key.to_string(), ParamValue::Integer(v))
}

fn text_param(key: &str, v: &str) -> (String, ParamValue) {
    (key.to_string(), ParamValue::Text(v.to_string()))
}

fn model(name: &str, kind: &str, params: Vec<(String, ParamValue)>) -> TradingModelConfig {
    TradingModelConfig { name: name.to_string(), kind: kind.to_string(), inputs: vec![], params }
}

#[test]
fn align_series_right_aligns() {
    let out = align_series(5, vec![7, 8]);
    assert_eq!(out, vec![None, None, None, Some(7), Some(8)]);
    let full = align_series(2, vec![1, 2]);
    assert_eq!(full, vec![Some(1), Some(2)]);
    let empty: Vec<Option<i32>> = align_series(3, vec![]);
    assert_eq!(empty, vec![None, None, None]);
}

#[test]
fn params_fall_back_to_defaults() {
    let params = vec![int_param("period", 9), text_param("input", "rsi_7"), int_param("period", 4)];
    assert_eq!(get_usize(&params, "period", 14), 9);
    assert_eq!(get_usize(&params, "missing", 14), 14);
    assert_eq!(get_usize(&params, "input", 14), 14);
    assert_eq!(get_string(&params, "input", "rsi_14"), "rsi_7");
    assert_eq!(get_string(&params, "period", "x"), "x");
}

#[test]
fn inputs_use_documented_defaults() {
    let rsi = build_input(&input("r", "rsi", vec![])).unwrap();
    assert_eq!(rsi.required_candles(), 15);
    let sma = build_input(&input("s", "sma", vec![])).unwrap();
    assert_eq!(sma.required_candles(), 20);
    let macd = build_input(&input("m", "macd", vec![])).unwrap();
    assert_eq!(macd.required_candles(), 35);
    let close = build_input(&input("c", "close", vec![])).unwrap();
    assert_eq!(close.required_candles(), 1);
    assert!(matches!(close.source, InputSource::Close));
    assert_eq!(close.name(), "c");
    let boll = build_input(&input("b", "bollinger", vec![int_param("period", 5)])).unwrap();
    assert!(matches!(boll.source, InputSource::Bollinger(_)));
    assert_eq!(boll.required_candles(), 5);
}

#[test]
fn unknown_input_kind_rejected() {
    let err = build_input(&input("x", "stochastic", vec![])).err().unwrap();
    assert_eq!(err, "unknown input kind: stochastic");
}

#[test]
fn invalid_input_parameters_rejected() {
    let err = build_input(&input("s", "sma", vec![int_param("period", 0)])).err().unwrap();
    assert_eq!(err, "invalid SMA input: period must be > 0");
    let err = build_input(&input(
        "m",
        "macd",
        vec![int_param("fast_period", 30), int_param("slow_period", 26)],
    ))
    .err()
    .unwrap();
    assert_eq!(err, "invalid MACD input: fast_period must be < slow_period");
    let err = build_input(&input("r", "rsi", vec![int_param("period", -1)])).err().unwrap();
    assert_eq!(err, "invalid RSI input: period is too large");
}

#[test]
fn build_inputs_stops_at_first_error() {
    let configs = vec![input("a", "close", vec![]), input("b", "nope", vec![]), input("c", "zzz", vec![])];
    assert_eq!(build_inputs(&configs).err().unwrap(), "unknown input kind: nope");
    let ok = build_inputs(&vec![input("a", "close", vec![]), input("b", "ema", vec![])]).unwrap();
    assert_eq!(ok.len(), 2);
    assert_eq!(max_required_candles(&ok), 20);
}

#[test]
fn default_input_is_rsi_14() {
    let inputs = build_default_inputs().unwrap();
    assert_eq!(inputs.len(), 1);
    assert_eq!(inputs[0].name(), "rsi_14");
    assert_eq!(inputs[0].required_candles(), 15);
    assert_eq!(max_required_candles(&vec![]), 1);
}

#[test]
fn models_from_configuration() {
    let m = build_model(&model("rev", "rsi_reversion", vec![])).unwrap();
    assert_eq!(m.name(), "rev");
    assert_eq!(m.required_inputs(), vec!["rsi_14".to_string()]);
    let m = build_model(&model("x", "sma_cross", vec![text_param("short_input", "fast")])).unwrap();
    assert_eq!(m.required_inputs(), vec!["fast".to_string(), "sma_long".to_string()]);
    match &m.kind {
        ModelKind::SmaCross(cross) => assert_eq!(cross.name(), "x"),
        ModelKind::RsiReversion { .. } => panic!("expected an SMA cross model"),
    }
    assert_eq!(build_model(&model("y", "magic", vec![])).err().unwrap(), "unknown model kind: magic");
}

#[test]
fn default_model_reads_rsi_14() {
    let m = build_default_model();
    assert_eq!(m.name(), "rsi_reversion_default");
    assert_eq!(m.required_inputs(), vec!["rsi_14".to_string()]);
}

#[test]
fn sma_cross_requires_both_inputs() {
    let m = SmaCrossModel::new("c".to_string(), "short".to_string(), "long".to_string());
    assert_eq!(m.name(), "c");
    assert_eq!(m.short_input(), "short");
    assert_eq!(m.long_input(), "long");
    assert_eq!(m.required_inputs(), &vec!["short".to_string(), "long".to_string()]);
}

#[test]
fn feature_snapshot_skips_unknown_values() {
    let mut series = FeatureTable::new();
    series.insert("a".to_string(), vec![None, Some(1), Some(2)]);
    series.insert("b".to_string(), vec![None, None, Some(5)]);
    let required = vec!["a".to_string(), "b".to_string()];
    assert_eq!(collect_feature_values(&required, &series, 0), None);
    assert_eq!(collect_feature_values(&required, &series, 1), None);
    assert_eq!(
        collect_feature_values(&required, &series, 2),
        Some(vec![("a".to_string(), 2), ("b".to_string(), 5)])
    );
    assert_eq!(collect_feature_values(&vec!["a".to_string()], &series, 1), Some(vec![("a".to_string(), 1)]));
    assert_eq!(collect_feature_values(&vec!["c".to_string()], &series, 2), None);
    assert_eq!(collect_feature_values(&required, &series, 9), None);
}

#[test]
fn feature_table_insert_replaces() {
    let mut table = FeatureTable::new();
    table.insert("a".to_string(), vec![Some(1)]);
    table.insert("b".to_string(), vec![Some(2)]);
    table.insert("a".to_string(), vec![Some(3), None]);
    assert_eq!(table.get("a"), Some(&vec![Some(3), None]));
    assert_eq!(table.get("b"), Some(&vec![Some(2)]));
    assert_eq!(table.get("c"), None);
}
