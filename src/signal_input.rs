use vstd::prelude::*;

use crate::config::InputConfig;
use crate::error::IndicatorError;
use crate::indicator::{Ema, Macd, Rsi, Sma, VolumeMA};
use crate::params::{get_usize, param_usize, ParamValue};
use crate::text::{joined, same_text};

verus! {

/// Where an input's values come from.
pub enum InputSource {
    /// The close price itself.
    Close,
    Rsi(Rsi),
    Sma(Sma),
    Ema(Ema),
    Macd(Macd),
    /// Bollinger middle band; the band width is carried by the caller.
    Bollinger(Sma),
    VolumeMa(VolumeMA),
}

/// The kind and integer parameters of an input, as plain values.
pub enum SourceShape {
    Close,
    Rsi(int),
    Sma(int),
    Ema(int),
    Macd(int, int, int),
    Bollinger(int),
    VolumeMa(int),
}

impl InputSource {
    pub open spec fn shape(&self) -> SourceShape {
        match self {
            InputSource::Close => SourceShape::Close,
            InputSource::Rsi(i) => SourceShape::Rsi(i.spec_period()),
            InputSource::Sma(i) => SourceShape::Sma(i.spec_period()),
            InputSource::Ema(i) => SourceShape::Ema(i.spec_period()),
            InputSource::Macd(i) => SourceShape::Macd(i.spec_fast(), i.spec_slow(), i.spec_signal()),
            InputSource::Bollinger(i) => SourceShape::Bollinger(i.spec_period()),
            InputSource::VolumeMa(i) => SourceShape::VolumeMa(i.spec_period()),
        }
    }

    pub open spec fn spec_required(&self) -> int {
        match self {
            InputSource::Close => 1,
            InputSource::Rsi(i) => i.spec_required(),
            InputSource::Sma(i) => i.spec_required(),
            InputSource::Ema(i) => i.spec_required(),
            InputSource::Macd(i) => i.spec_required(),
            InputSource::Bollinger(i) => i.spec_required(),
            InputSource::VolumeMa(i) => i.spec_required(),
        }
    }
}

/// The shape that a configuration entry asks for, with unset parameters defaulted:
/// `period` 14 for RSI, 20 for SMA, EMA, Bollinger and volume MA; MACD `fast_period` 12,
/// `slow_period` 26, `signal_period` 9. `None` for an unknown kind.
pub open spec fn requested_shape(kind: Seq<char>, params: Seq<(String, ParamValue)>) -> Option<SourceShape> {
    if kind == "close"@ {
        Some(SourceShape::Close)
    } else if kind == "rsi"@ {
        Some(SourceShape::Rsi(param_usize(params, "period"@, 14) as int))
    } else if kind == "sma"@ {
        Some(SourceShape::Sma(param_usize(params, "period"@, 20) as int))
    } else if kind == "ema"@ {
        Some(SourceShape::Ema(param_usize(params, "period"@, 20) as int))
    } else if kind == "macd"@ {
        Some(
            SourceShape::Macd(
                param_usize(params, "fast_period"@, 12) as int,
                param_usize(params, "slow_period"@, 26) as int,
                param_usize(params, "signal_period"@, 9) as int,
            ),
        )
    } else if kind == "bollinger"@ {
        Some(SourceShape::Bollinger(param_usize(params, "period"@, 20) as int))
    } else if kind == "volume_ma"@ {
        Some(SourceShape::VolumeMa(param_usize(params, "period"@, 20) as int))
    } else {
        None
    }
}

/// Whether the indicator constructors accept the parameters of `shape`.
pub open spec fn shape_accepted(shape: SourceShape) -> bool {
    match shape {
        SourceShape::Close => true,
        SourceShape::Rsi(p) => 0 < p < usize::MAX,
        SourceShape::Sma(p) => p > 0,
        SourceShape::Ema(p) => p > 0,
        SourceShape::Macd(f, s, g) => 0 < f < s && 0 < g && s + g <= usize::MAX,
        SourceShape::Bollinger(p) => p > 0,
        SourceShape::VolumeMa(p) => p > 0,
    }
}

/// The text that starts the error of a rejected parameter set.
pub open spec fn rejection_prefix(shape: SourceShape) -> Seq<char> {
    match shape {
        SourceShape::Close => Seq::empty(),
        SourceShape::Rsi(_) => "invalid RSI input: "@,
        SourceShape::Sma(_) => "invalid SMA input: "@,
        SourceShape::Ema(_) => "invalid EMA input: "@,
        SourceShape::Macd(_, _, _) => "invalid MACD input: "@,
        SourceShape::Bollinger(_) => "invalid bollinger input: "@,
        SourceShape::VolumeMa(_) => "invalid volume input: "@,
    }
}

/// Why the indicator constructors reject the parameters of `shape`.
pub open spec fn rejection_reason(shape: SourceShape) -> Seq<char> {
    match shape {
        SourceShape::Rsi(p) => if p == 0 {
            "period must be > 0"@
        } else {
            "period is too large"@
        },
        SourceShape::Macd(f, s, g) => if f == 0 || s == 0 || g == 0 {
            "all periods must be > 0"@
        } else if f >= s {
            "fast_period must be < slow_period"@
        } else {
            "periods are too large"@
        },
        _ => "period must be > 0"@,
    }
}

/// Whether a configuration entry builds into an input.
pub open spec fn input_accepted(c: InputConfig) -> bool {
    requested_shape(c.kind@, c.params@) matches Some(shape) && shape_accepted(shape)
}

/// A named, right-aligned series over the candle history.
pub struct SignalInput {
    pub name: String,
    pub source: InputSource,
}

impl SignalInput {
    pub fn name(&self) -> (r: &str)
        ensures
            r@ == self.name@,
    {
        self.name.as_str()
    }

    /// Minimum number of candles for the input to yield one value.
    pub fn required_candles(&self) -> (r: usize)
        ensures
            r == self.source.spec_required(),
    {
        match &self.source {
            InputSource::Close => 1,
            InputSource::Rsi(i) => i.required_candles(),
            InputSource::Sma(i) => i.required_candles(),
            InputSource::Ema(i) => i.required_candles(),
            InputSource::Macd(i) => i.required_candles(),
            InputSource::Bollinger(i) => i.required_candles(),
            InputSource::VolumeMa(i) => i.required_candles(),
        }
    }
}

/// Explains a rejected indicator parameter after `prefix`.
fn rejection(prefix: &str, e: IndicatorError) -> (r: String)
    ensures
        e matches IndicatorError::InvalidParameter { name } ==> r@ == prefix@ + name@,
{
    let reason = match e {
        IndicatorError::InvalidParameter { name } => name,
        IndicatorError::InsufficientData { .. } => String::new(),
    };
    joined(prefix, reason.as_str())
}

/// Builds one input from its configuration entry.
pub fn build_input(config: &InputConfig) -> (r: Result<SignalInput, String>)
    ensures
        r is Ok <==> input_accepted(*config),
        r matches Ok(i) ==> i.name@ == config.name@ && requested_shape(
            config.kind@,
            config.params@,
        ) == Some(i.source.shape()),
        r matches Err(m) ==> match requested_shape(config.kind@, config.params@) {
            None => m@ == "unknown input kind: "@ + config.kind@,
            Some(shape) => m@ == rejection_prefix(shape) + rejection_reason(shape),
        },
{
    let kind = config.kind.as_str();
    let source = if same_text(kind, "close") {
        InputSource::Close
    } else if same_text(kind, "rsi") {
        let period = get_usize(&config.params, "period", 14);
        match Rsi::new(period) {
            Ok(i) => InputSource::Rsi(i),
            Err(e) => return Err(rejection("invalid RSI input: ", e)),
        }
    } else if same_text(kind, "sma") {
        let period = get_usize(&config.params, "period", 20);
        match Sma::new(period) {
            Ok(i) => InputSource::Sma(i),
            Err(e) => return Err(rejection("invalid SMA input: ", e)),
        }
    } else if same_text(kind, "ema") {
        let period = get_usize(&config.params, "period", 20);
        match Ema::new(period) {
            Ok(i) => InputSource::Ema(i),
            Err(e) => return Err(rejection("invalid EMA input: ", e)),
        }
    } else if same_text(kind, "macd") {
        let fast = get_usize(&config.params, "fast_period", 12);
        let slow = get_usize(&config.params, "slow_period", 26);
        let signal = get_usize(&config.params, "signal_period", 9);
        match Macd::new(fast, slow, signal) {
            Ok(i) => InputSource::Macd(i),
            Err(e) => return Err(rejection("invalid MACD input: ", e)),
        }
    } else if same_text(kind, "bollinger") {
        let period = get_usize(&config.params, "period", 20);
        match Sma::new(period) {
            Ok(i) => InputSource::Bollinger(i),
            Err(e) => return Err(rejection("invalid bollinger input: ", e)),
        }
    } else if same_text(kind, "volume_ma") {
        let period = get_usize(&config.params, "period", 20);
        match VolumeMA::new(period) {
            Ok(i) => InputSource::VolumeMa(i),
            Err(e) => return Err(rejection("invalid volume input: ", e)),
        }
    } else {
        return Err(joined("unknown input kind: ", kind));
    };
    Ok(SignalInput { name: config.name.clone(), source })
}

/// Builds every configured input, stopping at the first that fails.
pub fn build_inputs(configs: &Vec<InputConfig>) -> (r: Result<Vec<SignalInput>, String>)
    ensures
        r is Ok <==> forall|k: int| 0 <= k < configs@.len() ==> input_accepted(#[trigger] configs@[k]),
        r matches Ok(v) ==> v@.len() == configs@.len() && forall|k: int|
            0 <= k < configs@.len() ==> (#[trigger] v@[k]).name@ == configs@[k].name@
                && requested_shape(configs@[k].kind@, configs@[k].params@) == Some(
                v@[k].source.shape(),
            ),
{
    let mut inputs: Vec<SignalInput> = Vec::new();
    let mut i: usize = 0;
    while i < configs.len()
        invariant
            i <= configs@.len(),
            inputs@.len() == i,
            forall|k: int| 0 <= k < i ==> input_accepted(#[trigger] configs@[k]),
            forall|k: int|
                0 <= k < i ==> (#[trigger] inputs@[k]).name@ == configs@[k].name@
                    && requested_shape(configs@[k].kind@, configs@[k].params@) == Some(
                    inputs@[k].source.shape(),
                ),
        decreases configs@.len() - i,
    {
        let input = build_input(&configs[i])?;
        inputs.push(input);
        i = i + 1;
    }
    Ok(inputs)
}

/// The input used when none is configured: RSI(14) named `rsi_14`.
pub fn build_default_inputs() -> (r: Result<Vec<SignalInput>, String>)
    ensures
        r matches Ok(v) && v@.len() == 1 && v@[0].name@ == "rsi_14"@ && v@[0].source.shape()
            == SourceShape::Rsi(14),
{
    let rsi = match Rsi::new(14) {
        Ok(i) => i,
        Err(e) => return Err(rejection("default RSI build failed: ", e)),
    };
    let mut v: Vec<SignalInput> = Vec::new();
    v.push(SignalInput { name: String::from_str("rsi_14"), source: InputSource::Rsi(rsi) });
    Ok(v)
}

/// The largest candle requirement among `inputs`, or 1 when there are none.
pub open spec fn max_required(inputs: Seq<SignalInput>) -> int
    decreases inputs.len(),
{
    if inputs.len() == 0 {
        1
    } else if inputs.len() == 1 {
        inputs[0].source.spec_required()
    } else {
        let rest = max_required(inputs.drop_last());
        let last = inputs.last().source.spec_required();
        if last > rest {
            last
        } else {
            rest
        }
    }
}

/// The largest requirement bounds every input's requirement, so a history that meets it
/// lets every input produce at least one value.
pub proof fn lemma_max_required_bounds_each(inputs: Seq<SignalInput>, k: int)
    requires
        0 <= k < inputs.len(),
    ensures
        inputs[k].source.spec_required() <= max_required(inputs),
    decreases inputs.len(),
{
    if inputs.len() > 1 && k < inputs.len() - 1 {
        lemma_max_required_bounds_each(inputs.drop_last(), k);
    }
}

/// The most candles that any input needs, or 1 when there are no inputs.
pub fn max_required_candles(inputs: &Vec<SignalInput>) -> (r: usize)
    ensures
        r == max_required(inputs@),
{
    if inputs.len() == 0 {
        return 1;
    }
    let mut best = inputs[0].required_candles();
    let mut i: usize = 1;
    while i < inputs.len()
        invariant
            1 <= i <= inputs@.len(),
            best == max_required(inputs@.subrange(0, i as int)),
        decreases inputs@.len() - i,
    {
        let need = inputs[i].required_candles();
        proof {
            let prefix = inputs@.subrange(0, i as int + 1);
            assert(prefix.drop_last() =~= inputs@.subrange(0, i as int));
        }
        if need > best {
            best = need;
        }
        i = i + 1;
    }
    assert(inputs@.subrange(0, inputs@.len() as int) =~= inputs@);
    best
}

/// Right-aligns `values` on `total_len` slots: the first `total_len - values.len()` are
/// unknown, the rest hold the values in order.
pub open spec fn aligned<T>(total_len: int, values: Seq<T>) -> Seq<Option<T>> {
    Seq::new(
        total_len as nat,
        |i: int|
            if i < total_len - values.len() {
                None
            } else {
                Some(values[i - (total_len - values.len())])
            },
    )
}

/// Places an indicator's output on the candle axis.
pub fn align_series<T: Copy>(total_len: usize, values: Vec<T>) -> (r: Vec<Option<T>>)
    requires
        values@.len() <= total_len,
    ensures
        r@ == aligned(total_len as int, values@),
{
    let offset = total_len - values.len();
    let mut output: Vec<Option<T>> = Vec::new();
    let mut i: usize = 0;
    while i < total_len
        invariant
            offset == total_len - values@.len(),
            i <= total_len,
            output@.len() == i,
            forall|k: int| 0 <= k < i ==> output@[k] == aligned(total_len as int, values@)[k],
        decreases total_len - i,
    {
        if i < offset {
            output.push(None);
        } else {
            output.push(Some(values[i - offset]));
        }
        i = i + 1;
    }
    assert(output@ =~= aligned(total_len as int, values@));
    output
}

} // verus!
