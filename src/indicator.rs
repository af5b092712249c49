use vstd::prelude::*;

use crate::error::{is_invalid_parameter, IndicatorError};

verus! {

/// How many values a moving window of `required` points yields over `available` points,
/// or `None` when there are too few points for one window.
pub open spec fn window_count(required: int, available: int, first: int) -> Option<int> {
    if available >= required {
        Some(available - required + first)
    } else {
        None
    }
}

/// Checks that `available` points meet the `required` minimum.
fn require_len(required: usize, available: usize) -> (r: Result<(), IndicatorError>)
    ensures
        r is Ok <==> available >= required,
        r is Err ==> r == Err::<(), IndicatorError>(
            IndicatorError::InsufficientData { required, available },
        ),
{
    if available < required {
        Err(IndicatorError::InsufficientData { required, available })
    } else {
        Ok(())
    }
}

fn period_must_be_positive() -> (e: IndicatorError)
    ensures
        is_invalid_parameter(e, "period must be > 0"@),
{
    IndicatorError::InvalidParameter { name: String::from_str("period must be > 0") }
}

/// Simple moving average over close prices.
pub struct Sma {
    period: usize,
}

impl Sma {
    #[verifier::type_invariant]
    spec fn inv(&self) -> bool {
        self.period > 0
    }

    /// The window length.
    pub closed spec fn spec_period(&self) -> int {
        self.period as int
    }

    /// Fewest closes that give one value.
    pub open spec fn spec_required(&self) -> int {
        self.spec_period()
    }

    /// Number of values produced from `available` closes.
    pub open spec fn spec_output_len(&self, available: int) -> Option<int> {
        window_count(self.spec_required(), available, 1)
    }

    pub fn new(period: usize) -> (r: Result<Sma, IndicatorError>)
        ensures
            r is Err <==> period == 0,
            r matches Ok(s) ==> s.spec_period() == period,
            r matches Err(e) ==> is_invalid_parameter(e, "period must be > 0"@),
    {
        if period == 0 {
            return Err(period_must_be_positive());
        }
        Ok(Sma { period })
    }

    pub fn period(&self) -> (r: usize)
        ensures
            r == self.spec_period(),
            r > 0,
    {
        proof {
            use_type_invariant(self);
        }
        self.period
    }

    /// Minimum number of candles required to produce one value.
    pub fn required_candles(&self) -> (r: usize)
        ensures
            r == self.spec_required(),
    {
        self.period
    }

    /// Number of values that `available` closes produce, or the insufficient-data error.
    pub fn output_len(&self, available: usize) -> (r: Result<usize, IndicatorError>)
        ensures
            r is Ok <==> self.spec_output_len(available as int) is Some,
            r matches Ok(c) ==> self.spec_output_len(available as int) == Some(c as int),
            r is Err ==> r == Err::<usize, IndicatorError>(
                IndicatorError::InsufficientData { required: self.spec_required() as usize, available },
            ),
    {
        proof {
            use_type_invariant(self);
        }
        require_len(self.period, available)?;
        Ok(available - self.period + 1)
    }
}

/// Exponential moving average over close prices, seeded with the simple mean of the
/// first window.
pub struct Ema {
    period: usize,
}

impl Ema {
    #[verifier::type_invariant]
    spec fn inv(&self) -> bool {
        self.period > 0
    }

    /// The window length.
    pub closed spec fn spec_period(&self) -> int {
        self.period as int
    }

    /// Fewest closes that give one value.
    pub open spec fn spec_required(&self) -> int {
        self.spec_period()
    }

    /// Number of values produced from `available` closes.
    pub open spec fn spec_output_len(&self, available: int) -> Option<int> {
        window_count(self.spec_required(), available, 1)
    }

    pub fn new(period: usize) -> (r: Result<Ema, IndicatorError>)
        ensures
            r is Err <==> period == 0,
            r matches Ok(s) ==> s.spec_period() == period,
            r matches Err(e) ==> is_invalid_parameter(e, "period must be > 0"@),
    {
        if period == 0 {
            return Err(period_must_be_positive());
        }
        Ok(Ema { period })
    }

    pub fn period(&self) -> (r: usize)
        ensures
            r == self.spec_period(),
            r > 0,
    {
        proof {
            use_type_invariant(self);
        }
        self.period
    }

    /// Minimum number of candles required to produce one value.
    pub fn required_candles(&self) -> (r: usize)
        ensures
            r == self.spec_required(),
    {
        self.period
    }

    /// Number of values that `available` closes produce, or the insufficient-data error.
    pub fn output_len(&self, available: usize) -> (r: Result<usize, IndicatorError>)
        ensures
            r is Ok <==> self.spec_output_len(available as int) is Some,
            r matches Ok(c) ==> self.spec_output_len(available as int) == Some(c as int),
            r is Err ==> r == Err::<usize, IndicatorError>(
                IndicatorError::InsufficientData { required: self.spec_required() as usize, available },
            ),
    {
        proof {
            use_type_invariant(self);
        }
        require_len(self.period, available)?;
        Ok(available - self.period + 1)
    }
}

/// Simple moving average over traded volume.
pub struct VolumeMA {
    period: usize,
}

impl VolumeMA {
    #[verifier::type_invariant]
    spec fn inv(&self) -> bool {
        self.period > 0
    }

    /// The window length.
    pub closed spec fn spec_period(&self) -> int {
        self.period as int
    }

    /// Fewest volumes that give one value.
    pub open spec fn spec_required(&self) -> int {
        self.spec_period()
    }

    /// Number of values produced from `available` volumes.
    pub open spec fn spec_output_len(&self, available: int) -> Option<int> {
        window_count(self.spec_required(), available, 1)
    }

    pub fn new(period: usize) -> (r: Result<VolumeMA, IndicatorError>)
        ensures
            r is Err <==> period == 0,
            r matches Ok(s) ==> s.spec_period() == period,
            r matches Err(e) ==> is_invalid_parameter(e, "period must be > 0"@),
    {
        if period == 0 {
            return Err(period_must_be_positive());
        }
        Ok(VolumeMA { period })
    }

    pub fn period(&self) -> (r: usize)
        ensures
            r == self.spec_period(),
            r > 0,
    {
        proof {
            use_type_invariant(self);
        }
        self.period
    }

    /// Minimum number of candles required to produce one value.
    pub fn required_candles(&self) -> (r: usize)
        ensures
            r == self.spec_required(),
    {
        self.period
    }

    /// Number of values that `available` volumes produce, or the insufficient-data error.
    pub fn output_len(&self, available: usize) -> (r: Result<usize, IndicatorError>)
        ensures
            r is Ok <==> self.spec_output_len(available as int) is Some,
            r matches Ok(c) ==> self.spec_output_len(available as int) == Some(c as int),
            r is Err ==> r == Err::<usize, IndicatorError>(
                IndicatorError::InsufficientData { required: self.spec_required() as usize, available },
            ),
    {
        proof {
            use_type_invariant(self);
        }
        require_len(self.period, available)?;
        Ok(available - self.period + 1)
    }
}

} // verus!

verus! {

/// Relative strength index with Wilder smoothing.
pub struct Rsi {
    period: usize,
}

impl Rsi {
    #[verifier::type_invariant]
    spec fn inv(&self) -> bool {
        0 < self.period < usize::MAX
    }

    /// The smoothing period.
    pub closed spec fn spec_period(&self) -> int {
        self.period as int
    }

    /// Fewest closes that give one value: one delta per period, plus the first close.
    pub open spec fn spec_required(&self) -> int {
        self.spec_period() + 1
    }

    /// Number of values produced from `available` closes.
    pub open spec fn spec_output_len(&self, available: int) -> Option<int> {
        window_count(self.spec_required(), available, 1)
    }

    /// A period of zero is rejected, and so is one whose candle requirement
    /// does not fit in `usize`.
    pub fn new(period: usize) -> (r: Result<Rsi, IndicatorError>)
        ensures
            r is Err <==> (period == 0 || period == usize::MAX),
            r matches Ok(s) ==> s.spec_period() == period,
            period == 0 ==> (r matches Err(e) && is_invalid_parameter(e, "period must be > 0"@)),
            period == usize::MAX ==> (r matches Err(e) && is_invalid_parameter(
                e,
                "period is too large"@,
            )),
    {
        if period == 0 {
            return Err(period_must_be_positive());
        }
        if period == usize::MAX {
            return Err(
                IndicatorError::InvalidParameter { name: String::from_str("period is too large") },
            );
        }
        Ok(Rsi { period })
    }

    pub fn period(&self) -> (r: usize)
        ensures
            r == self.spec_period(),
            r > 0,
    {
        proof {
            use_type_invariant(self);
        }
        self.period
    }

    /// Minimum number of candles required to produce one value.
    pub fn required_candles(&self) -> (r: usize)
        ensures
            r == self.spec_required(),
    {
        proof {
            use_type_invariant(self);
        }
        self.period + 1
    }

    /// Number of values that `available` closes produce, or the insufficient-data error.
    pub fn output_len(&self, available: usize) -> (r: Result<usize, IndicatorError>)
        ensures
            r is Ok <==> self.spec_output_len(available as int) is Some,
            r matches Ok(c) ==> self.spec_output_len(available as int) == Some(c as int),
            r is Err ==> r == Err::<usize, IndicatorError>(
                IndicatorError::InsufficientData { required: self.spec_required() as usize, available },
            ),
    {
        let required = self.required_candles();
        require_len(required, available)?;
        Ok(available - required + 1)
    }
}

/// Moving average convergence/divergence: the fast EMA minus the slow EMA, with an EMA
/// of that difference as its signal line.
pub struct Macd {
    fast_period: usize,
    slow_period: usize,
    signal_period: usize,
}

impl Macd {
    #[verifier::type_invariant]
    spec fn inv(&self) -> bool {
        &&& 0 < self.fast_period < self.slow_period
        &&& 0 < self.signal_period
        &&& self.slow_period + self.signal_period <= usize::MAX
    }

    pub closed spec fn spec_fast(&self) -> int {
        self.fast_period as int
    }

    pub closed spec fn spec_slow(&self) -> int {
        self.slow_period as int
    }

    pub closed spec fn spec_signal(&self) -> int {
        self.signal_period as int
    }

    /// Fewest closes that the indicator accepts.
    pub open spec fn spec_required(&self) -> int {
        self.spec_slow() + self.spec_signal()
    }

    /// Number of values produced from `available` closes: the slow EMA yields
    /// `available - slow + 1` MACD values, and the signal EMA drops `signal - 1` of them.
    pub open spec fn spec_output_len(&self, available: int) -> Option<int> {
        window_count(self.spec_required(), available, 2)
    }

    pub fn new(fast_period: usize, slow_period: usize, signal_period: usize) -> (r: Result<
        Macd,
        IndicatorError,
    >)
        ensures
            r is Ok <==> (0 < fast_period < slow_period && 0 < signal_period && slow_period
                + signal_period <= usize::MAX),
            r matches Ok(m) ==> m.spec_fast() == fast_period && m.spec_slow() == slow_period
                && m.spec_signal() == signal_period,
            (fast_period == 0 || slow_period == 0 || signal_period == 0) ==> (r matches Err(e)
                && is_invalid_parameter(e, "all periods must be > 0"@)),
            (fast_period > 0 && slow_period > 0 && signal_period > 0 && fast_period
                >= slow_period) ==> (r matches Err(e) && is_invalid_parameter(
                e,
                "fast_period must be < slow_period"@,
            )),
            (0 < fast_period < slow_period && 0 < signal_period && slow_period + signal_period
                > usize::MAX) ==> (r matches Err(e) && is_invalid_parameter(
                e,
                "periods are too large"@,
            )),
    {
        if fast_period == 0 || slow_period == 0 || signal_period == 0 {
            return Err(
                IndicatorError::InvalidParameter {
                    name: String::from_str("all periods must be > 0"),
                },
            );
        }
        if fast_period >= slow_period {
            return Err(
                IndicatorError::InvalidParameter {
                    name: String::from_str("fast_period must be < slow_period"),
                },
            );
        }
        if signal_period > usize::MAX - slow_period {
            return Err(
                IndicatorError::InvalidParameter { name: String::from_str("periods are too large") },
            );
        }
        Ok(Macd { fast_period, slow_period, signal_period })
    }

    pub fn fast_period(&self) -> (r: usize)
        ensures
            r == self.spec_fast(),
            0 < r < self.spec_slow(),
    {
        proof {
            use_type_invariant(self);
        }
        self.fast_period
    }

    pub fn slow_period(&self) -> (r: usize)
        ensures
            r == self.spec_slow(),
            self.spec_fast() < r,
    {
        proof {
            use_type_invariant(self);
        }
        self.slow_period
    }

    pub fn signal_period(&self) -> (r: usize)
        ensures
            r == self.spec_signal(),
            r > 0,
    {
        proof {
            use_type_invariant(self);
        }
        self.signal_period
    }

    /// Minimum number of candles that the indicator accepts.
    pub fn required_candles(&self) -> (r: usize)
        ensures
            r == self.spec_required(),
    {
        proof {
            use_type_invariant(self);
        }
        self.slow_period + self.signal_period
    }

    /// Number of values that `available` closes produce, or the insufficient-data error.
    pub fn output_len(&self, available: usize) -> (r: Result<usize, IndicatorError>)
        ensures
            r is Ok <==> self.spec_output_len(available as int) is Some,
            r matches Ok(c) ==> self.spec_output_len(available as int) == Some(c as int),
            r is Err ==> r == Err::<usize, IndicatorError>(
                IndicatorError::InsufficientData { required: self.spec_required() as usize, available },
            ),
    {
        proof {
            use_type_invariant(self);
        }
        let required = self.required_candles();
        require_len(required, available)?;
        Ok(available - required + 2)
    }
}

} // verus!

verus! {

/// Each moving average rejects fewer closes than it requires, and yields exactly one
/// value from exactly that many.
pub proof fn lemma_sma_shortest_input(s: Sma, available: int)
    ensures
        available < s.spec_required() ==> s.spec_output_len(available) is None,
        s.spec_output_len(s.spec_required()) == Some(1int),
{
}

/// EMA rejects fewer closes than it requires, and yields exactly one value from exactly
/// that many.
pub proof fn lemma_ema_shortest_input(s: Ema, available: int)
    ensures
        available < s.spec_required() ==> s.spec_output_len(available) is None,
        s.spec_output_len(s.spec_required()) == Some(1int),
{
}

/// The volume average rejects fewer candles than it requires, and yields exactly one
/// value from exactly that many.
pub proof fn lemma_volume_ma_shortest_input(s: VolumeMA, available: int)
    ensures
        available < s.spec_required() ==> s.spec_output_len(available) is None,
        s.spec_output_len(s.spec_required()) == Some(1int),
{
}

/// RSI rejects fewer closes than `period + 1`, and yields exactly one value from exactly
/// that many.
pub proof fn lemma_rsi_shortest_input(s: Rsi, available: int)
    ensures
        available < s.spec_required() ==> s.spec_output_len(available) is None,
        s.spec_output_len(s.spec_required()) == Some(1int),
{
}

/// MACD rejects fewer closes than `slow + signal`; from exactly that many it yields two
/// values, since the signal EMA needs only `slow + signal - 1` closes.
pub proof fn lemma_macd_shortest_input(s: Macd, available: int)
    ensures
        available < s.spec_required() ==> s.spec_output_len(available) is None,
        s.spec_output_len(s.spec_required()) == Some(2int),
{
}

} // verus!
