use coin_notifier::model::{parse_exchange, parse_exchange_kind, ExchangeKind, TimeFrame, UtcInstant};

#[test]
fn timeframe_round_trip() {
    let frames = [
        ("1m", TimeFrame::Min1),
        ("3m", TimeFrame::Min3),
        ("5m", TimeFrame::Min5),
        ("15m", TimeFrame::Min15),
        ("30m", TimeFrame::Min30),
        ("1h", TimeFrame::Hour1),
        ("4h", TimeFrame::Hour4),
        ("1d", TimeFrame::Day1),
    ];
    for (s, tf) in frames {
        assert_eq!(TimeFrame::from_str(s), Some(tf));
        assert_eq!(tf.as_str(), s);
    }
}

#[test]
fn timeframe_invalid_string_returns_none() {
    assert_eq!(TimeFrame::from_str("2m"), None);
    assert_eq!(TimeFrame::from_str(""), None);
}

#[test]
fn exchange_kind_display() {
    assert_eq!(ExchangeKind::Upbit.to_string(), "upbit");
    assert_eq!(ExchangeKind::Binance.to_string(), "binance");
}

#[test]
fn timeframe_endpoints_and_intervals() {
    assert_eq!(TimeFrame::Min1.upbit_endpoint(), "/v1/candles/minutes/1");
    assert_eq!(TimeFrame::Hour1.upbit_endpoint(), "/v1/candles/minutes/60");
    assert_eq!(TimeFrame::Hour4.upbit_endpoint(), "/v1/candles/minutes/240");
    assert_eq!(TimeFrame::Day1.upbit_endpoint(), "/v1/candles/days");
    assert_eq!(TimeFrame::Min15.binance_interval(), "15m");
    assert_eq!(TimeFrame::Day1.binance_interval(), "1d");
}

#[test]
fn timeframe_parse_is_exact() {
    assert_eq!(TimeFrame::from_str("1M"), None);
    assert_eq!(TimeFrame::from_str("1m "), None);
    assert_eq!(TimeFrame::from_str("15"), None);
}

#[test]
fn exchange_names_parse() {
    assert_eq!(parse_exchange("upbit"), Ok(ExchangeKind::Upbit));
    assert_eq!(parse_exchange("binance"), Ok(ExchangeKind::Binance));
    assert_eq!(parse_exchange("kraken"), Err("unknown exchange: kraken".to_string()));
    assert_eq!(ExchangeKind::from_name("Upbit"), None);
}

#[test]
fn stored_exchange_names_default_to_binance() {
    assert_eq!(parse_exchange_kind("upbit"), ExchangeKind::Upbit);
    assert_eq!(parse_exchange_kind("binance"), ExchangeKind::Binance);
    assert_eq!(parse_exchange_kind("other"), ExchangeKind::Binance);
}

#[test]
fn instants_order_by_seconds_then_nanos() {
    let a = UtcInstant { secs: 10, nanos: 5 };
    let b = UtcInstant { secs: 10, nanos: 6 };
    let c = UtcInstant { secs: 11, nanos: 0 };
    assert!(a.is_before(&b));
    assert!(b.is_before(&c));
    assert!(!b.is_before(&a));
    assert!(!a.is_before(&a));
}
