use vstd::prelude::*;

use crate::text::{joined, same_text};

verus! {

/// A supported exchange venue.
#[derive(Debug, Clone, Copy, PartialEq, Eq, Hash, Structural)]
pub enum ExchangeKind {
    Upbit,
    Binance,
}

/// The configuration name of each exchange.
pub open spec fn exchange_label(k: ExchangeKind) -> Seq<char> {
    match k {
        ExchangeKind::Upbit => "upbit"@,
        ExchangeKind::Binance => "binance"@,
    }
}

/// The exchange that a configuration name denotes, if any.
pub open spec fn exchange_named(s: Seq<char>) -> Option<ExchangeKind> {
    if s == "upbit"@ {
        Some(ExchangeKind::Upbit)
    } else if s == "binance"@ {
        Some(ExchangeKind::Binance)
    } else {
        None
    }
}

impl ExchangeKind {
    /// The lower-case name used in configuration and storage.
    pub fn as_str(self) -> (r: &'static str)
        ensures
            r@ == exchange_label(self),
    {
        match self {
            ExchangeKind::Upbit => "upbit",
            ExchangeKind::Binance => "binance",
        }
    }

    /// The lower-case name as an owned string.
    pub fn to_string(self) -> (r: String)
        ensures
            r@ == exchange_label(self),
    {
        String::from_str(self.as_str())
    }

    /// Looks an exchange up by its configuration name.
    pub fn from_name(name: &str) -> (r: Option<ExchangeKind>)
        ensures
            r == exchange_named(name@),
    {
        if same_text(name, "upbit") {
            Some(ExchangeKind::Upbit)
        } else if same_text(name, "binance") {
            Some(ExchangeKind::Binance)
        } else {
            None
        }
    }
}

/// Every exchange's name leads back to that exchange.
pub proof fn lemma_exchange_name_round_trip(k: ExchangeKind)
    ensures
        exchange_named(exchange_label(k)) == Some(k),
{
    reveal_strlit("upbit");
    reveal_strlit("binance");
    assert("binance"@.len() != "upbit"@.len());
}

/// Parses an exchange name, failing with a message that names it.
pub fn parse_exchange(name: &str) -> (r: Result<ExchangeKind, String>)
    ensures
        r is Ok <==> exchange_named(name@) is Some,
        r matches Ok(k) ==> exchange_named(name@) == Some(k),
        r matches Err(m) ==> m@ == "unknown exchange: "@ + name@,
{
    match ExchangeKind::from_name(name) {
        Some(k) => Ok(k),
        None => Err(joined("unknown exchange: ", name)),
    }
}

/// Reads an exchange name written by the store: `upbit` is Upbit, anything else Binance.
pub fn parse_exchange_kind(value: &str) -> (r: ExchangeKind)
    ensures
        r == if value@ == "upbit"@ {
            ExchangeKind::Upbit
        } else {
            ExchangeKind::Binance
        },
{
    if same_text(value, "upbit") {
        return ExchangeKind::Upbit;
    }
    ExchangeKind::Binance
}

/// Candle timeframe supported by the application.
#[derive(Debug, Clone, Copy, PartialEq, Eq, Hash, Structural)]
pub enum TimeFrame {
    Min1,
    Min3,
    Min5,
    Min15,
    Min30,
    Hour1,
    Hour4,
    Day1,
}

/// The configuration spelling of each timeframe.
pub open spec fn timeframe_label(tf: TimeFrame) -> Seq<char> {
    match tf {
        TimeFrame::Min1 => "1m"@,
        TimeFrame::Min3 => "3m"@,
        TimeFrame::Min5 => "5m"@,
        TimeFrame::Min15 => "15m"@,
        TimeFrame::Min30 => "30m"@,
        TimeFrame::Hour1 => "1h"@,
        TimeFrame::Hour4 => "4h"@,
        TimeFrame::Day1 => "1d"@,
    }
}

/// The timeframe that a configuration spelling denotes, if any.
pub open spec fn timeframe_named(s: Seq<char>) -> Option<TimeFrame> {
    if s == "1m"@ {
        Some(TimeFrame::Min1)
    } else if s == "3m"@ {
        Some(TimeFrame::Min3)
    } else if s == "5m"@ {
        Some(TimeFrame::Min5)
    } else if s == "15m"@ {
        Some(TimeFrame::Min15)
    } else if s == "30m"@ {
        Some(TimeFrame::Min30)
    } else if s == "1h"@ {
        Some(TimeFrame::Hour1)
    } else if s == "4h"@ {
        Some(TimeFrame::Hour4)
    } else if s == "1d"@ {
        Some(TimeFrame::Day1)
    } else {
        None
    }
}

/// The Upbit REST path segment of each timeframe.
pub open spec fn upbit_path(tf: TimeFrame) -> Seq<char> {
    match tf {
        TimeFrame::Min1 => "/v1/candles/minutes/1"@,
        TimeFrame::Min3 => "/v1/candles/minutes/3"@,
        TimeFrame::Min5 => "/v1/candles/minutes/5"@,
        TimeFrame::Min15 => "/v1/candles/minutes/15"@,
        TimeFrame::Min30 => "/v1/candles/minutes/30"@,
        TimeFrame::Hour1 => "/v1/candles/minutes/60"@,
        TimeFrame::Hour4 => "/v1/candles/minutes/240"@,
        TimeFrame::Day1 => "/v1/candles/days"@,
    }
}

impl TimeFrame {
    /// Parses a configuration spelling such as `"15m"` or `"1d"`.
    pub fn from_str(s: &str) -> (r: Option<TimeFrame>)
        ensures
            r == timeframe_named(s@),
    {
        if same_text(s, "1m") {
            Some(TimeFrame::Min1)
        } else if same_text(s, "3m") {
            Some(TimeFrame::Min3)
        } else if same_text(s, "5m") {
            Some(TimeFrame::Min5)
        } else if same_text(s, "15m") {
            Some(TimeFrame::Min15)
        } else if same_text(s, "30m") {
            Some(TimeFrame::Min30)
        } else if same_text(s, "1h") {
            Some(TimeFrame::Hour1)
        } else if same_text(s, "4h") {
            Some(TimeFrame::Hour4)
        } else if same_text(s, "1d") {
            Some(TimeFrame::Day1)
        } else {
            None
        }
    }

    /// The configuration spelling of this timeframe.
    pub fn as_str(self) -> (r: &'static str)
        ensures
            r@ == timeframe_label(self),
    {
        match self {
            TimeFrame::Min1 => "1m",
            TimeFrame::Min3 => "3m",
            TimeFrame::Min5 => "5m",
            TimeFrame::Min15 => "15m",
            TimeFrame::Min30 => "30m",
            TimeFrame::Hour1 => "1h",
            TimeFrame::Hour4 => "4h",
            TimeFrame::Day1 => "1d",
        }
    }

    /// The Upbit REST endpoint path segment for this timeframe.
    pub fn upbit_endpoint(self) -> (r: &'static str)
        ensures
            r@ == upbit_path(self),
    {
        match self {
            TimeFrame::Min1 => "/v1/candles/minutes/1",
            TimeFrame::Min3 => "/v1/candles/minutes/3",
            TimeFrame::Min5 => "/v1/candles/minutes/5",
            TimeFrame::Min15 => "/v1/candles/minutes/15",
            TimeFrame::Min30 => "/v1/candles/minutes/30",
            TimeFrame::Hour1 => "/v1/candles/minutes/60",
            TimeFrame::Hour4 => "/v1/candles/minutes/240",
            TimeFrame::Day1 => "/v1/candles/days",
        }
    }

    /// The Binance kline interval; Binance spells intervals as the configuration does.
    pub fn binance_interval(self) -> (r: &'static str)
        ensures
            r@ == timeframe_label(self),
    {
        match self {
            TimeFrame::Min1 => "1m",
            TimeFrame::Min3 => "3m",
            TimeFrame::Min5 => "5m",
            TimeFrame::Min15 => "15m",
            TimeFrame::Min30 => "30m",
            TimeFrame::Hour1 => "1h",
            TimeFrame::Hour4 => "4h",
            TimeFrame::Day1 => "1d",
        }
    }
}

/// Parsing the spelling of a timeframe gives that timeframe back.
pub proof fn lemma_timeframe_round_trip(tf: TimeFrame)
    ensures
        timeframe_named(timeframe_label(tf)) == Some(tf),
{
    reveal_strlit("1m");
    reveal_strlit("3m");
    reveal_strlit("5m");
    reveal_strlit("15m");
    reveal_strlit("30m");
    reveal_strlit("1h");
    reveal_strlit("4h");
    reveal_strlit("1d");
    let labels = seq!["1m"@, "3m"@, "5m"@, "15m"@, "30m"@, "1h"@, "4h"@, "1d"@];
    assert forall|i: int, j: int| 0 <= i < j < 8 implies labels[i] != labels[j] by {
        if labels[i].len() == labels[j].len() {
            assert(labels[i][0] != labels[j][0] || labels[i][1] != labels[j][1]);
        }
    }
    assert(labels[0] != labels[1]);
}

/// The aggressor side of an executed market trade.
#[derive(Debug, Clone, Copy, PartialEq, Eq, Structural)]
pub enum TradeSide {
    Buy,
    Sell,
}

/// A UTC instant as whole seconds since the Unix epoch plus nanoseconds.
#[derive(Debug, Clone, Copy, PartialEq, Eq, Structural)]
pub struct UtcInstant {
    pub secs: i64,
    pub nanos: u32,
}

impl UtcInstant {
    pub open spec fn spec_before(self, other: UtcInstant) -> bool {
        self.secs < other.secs || (self.secs == other.secs && self.nanos < other.nanos)
    }

    /// Whether `self` lies strictly before `other`.
    pub fn is_before(&self, other: &UtcInstant) -> (r: bool)
        ensures
            r == self.spec_before(*other),
    {
        self.secs < other.secs || (self.secs == other.secs && self.nanos < other.nanos)
    }
}

} // verus!
