use coin_notifier::error::IndicatorError;
use coin_notifier::indicator::{Ema, Macd, Rsi, Sma, VolumeMA};

fn invalid(name: &str) -> IndicatorError {
    IndicatorError::InvalidParameter { name: name.to_string() }
}

#[test]
fn sma_period_zero_invalid() {
    assert!(Sma::new(0).is_err());
}

#[test]
fn ema_period_zero_invalid() {
    assert!(Ema::new(0).is_err());
}

#[test]
fn macd_invalid_fast_ge_slow() {
    assert!(Macd::new(26, 12, 9).is_err());
}

#[test]
fn macd_period_zero_invalid() {
    assert!(Macd::new(0, 26, 9).is_err());
}

#[test]
fn rsi_period_zero_invalid() {
    assert!(Rsi::new(0).is_err());
}

#[test]
fn volume_ma_period_zero_invalid() {
    assert!(VolumeMA::new(0).is_err());
}

#[test]
fn invalid_parameter_messages() {
    assert_eq!(Sma::new(0).err(), Some(invalid("period must be > 0")));
    assert_eq!(Rsi::new(usize::MAX).err(), Some(invalid("period is too large")));
    assert_eq!(Macd::new(0, 26, 9).err(), Some(invalid("all periods must be > 0")));
    assert_eq!(Macd::new(12, 12, 9).err(), Some(invalid("fast_period must be < slow_period")));
    assert_eq!(Macd::new(2, usize::MAX, 1).err(), Some(invalid("periods are too large")));
}

#[test]
fn required_candles_per_indicator() {
    assert_eq!(Sma::new(5).unwrap().required_candles(), 5);
    assert_eq!(Ema::new(7).unwrap().required_candles(), 7);
    assert_eq!(Rsi::new(14).unwrap().required_candles(), 15);
    assert_eq!(Macd::new(12, 26, 9).unwrap().required_candles(), 35);
    assert_eq!(VolumeMA::new(20).unwrap().required_candles(), 20);
}

#[test]
fn sma_insufficient_data() {
    let sma = Sma::new(5).unwrap();
    assert_eq!(
        sma.output_len(4),
        Err(IndicatorError::InsufficientData { required: 5, available: 4 })
    );
}

#[test]
fn ema_insufficient_data() {
    let ema = Ema::new(5).unwrap();
    assert!(ema.output_len(4).is_err());
}

#[test]
fn rsi_insufficient_data() {
    let rsi = Rsi::new(14).unwrap();
    assert_eq!(
        rsi.output_len(10),
        Err(IndicatorError::InsufficientData { required: 15, available: 10 })
    );
}

#[test]
fn macd_insufficient_data() {
    let macd = Macd::new(12, 26, 9).unwrap();
    assert!(macd.output_len(30).is_err());
}

#[test]
fn volume_ma_insufficient_data() {
    let vma = VolumeMA::new(5).unwrap();
    assert!(vma.output_len(4).is_err());
}

#[test]
fn rsi_output_length() {
    let rsi = Rsi::new(14).unwrap();
    assert_eq!(rsi.output_len(20), Ok(20 - 14));
}

#[test]
fn shortest_input_yields_minimum_count() {
    assert_eq!(Sma::new(3).unwrap().output_len(3), Ok(1));
    assert_eq!(Ema::new(3).unwrap().output_len(3), Ok(1));
    assert_eq!(Rsi::new(3).unwrap().output_len(4), Ok(1));
    assert_eq!(VolumeMA::new(3).unwrap().output_len(3), Ok(1));
    assert_eq!(Macd::new(3, 5, 3).unwrap().output_len(8), Ok(2));
    assert!(Macd::new(3, 5, 3).unwrap().output_len(7).is_err());
}

#[test]
fn window_counts() {
    assert_eq!(Sma::new(3).unwrap().output_len(5), Ok(3));
    assert_eq!(Sma::new(3).unwrap().output_len(4), Ok(2));
    assert_eq!(Macd::new(3, 5, 3).unwrap().output_len(10), Ok(4));
    assert_eq!(Macd::new(3, 5, 3).unwrap().output_len(12), Ok(6));
}

#[test]
fn macd_periods_are_kept() {
    let macd = Macd::new(12, 26, 9).unwrap();
    assert_eq!(macd.fast_period(), 12);
    assert_eq!(macd.slow_period(), 26);
    assert_eq!(macd.signal_period(), 9);
}
