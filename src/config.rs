use vstd::prelude::*;

use crate::error::{is_validation, ConfigError};
use crate::model::{timeframe_named, TimeFrame, UtcInstant};
use crate::params::ParamValue;
use crate::strategy::{condition_named, ConditionKind};
use crate::text::same_text;

verus! {

pub fn default_log_level() -> (r: String)
    ensures
        r@ == "info"@,
{
    String::from_str("info")
}

pub fn default_log_format() -> (r: String)
    ensures
        r@ == "text"@,
{
    String::from_str("text")
}

pub fn default_data_dir() -> (r: String)
    ensures
        r@ == "./data"@,
{
    String::from_str("./data")
}

pub fn default_historical_candles() -> (r: usize)
    ensures
        r == 500,
{
    500
}

pub fn default_cooldown_minutes() -> (r: u64)
    ensures
        r == 5,
{
    5
}

pub fn default_true() -> (r: bool)
    ensures
        r,
{
    true
}

/// Process-wide settings.
#[derive(Debug, Clone)]
pub struct GeneralConfig {
    pub log_level: String,
    pub log_format: String,
    pub data_dir: String,
    pub historical_candles: usize,
    pub default_cooldown_minutes: u64,
}

impl Default for GeneralConfig {
    fn default() -> (r: GeneralConfig)
        ensures
            r.log_level@ == "info"@,
            r.log_format@ == "text"@,
            r.data_dir@ == "./data"@,
            r.historical_candles == 500,
            r.default_cooldown_minutes == 5,
    {
        GeneralConfig {
            log_level: default_log_level(),
            log_format: default_log_format(),
            data_dir: default_data_dir(),
            historical_candles: default_historical_candles(),
            default_cooldown_minutes: default_cooldown_minutes(),
        }
    }
}

/// An exchange connection entry.
#[derive(Debug, Clone)]
pub struct ExchangeConfig {
    pub name: String,
    pub enabled: bool,
    pub base_url: String,
    pub ws_url: String,
}

/// A watched market and the timeframes kept for it.
#[derive(Debug, Clone)]
pub struct CoinConfig {
    pub exchange: String,
    pub symbol: String,
    pub timeframes: Vec<String>,
}

/// What validation reads of an alert entry; the threshold itself stays with the caller.
#[derive(Debug, Clone)]
pub struct AlertEntry {
    pub name: String,
    pub exchange: String,
    pub symbol: String,
    pub condition: String,
    pub has_threshold: bool,
}

/// A named signal input: `kind` selects the indicator, `params` tune it.
#[derive(Debug, Clone)]
pub struct InputConfig {
    pub name: String,
    pub kind: String,
    pub params: Vec<(String, ParamValue)>,
}

/// A named trading model over named inputs.
#[derive(Debug, Clone)]
pub struct TradingModelConfig {
    pub name: String,
    pub kind: String,
    pub inputs: Vec<String>,
    pub params: Vec<(String, ParamValue)>,
}

/// What validation reads of the backtest section; the money settings stay with the caller.
#[derive(Debug, Clone)]
pub struct BacktestSchedule {
    pub timeframe: String,
    pub model: String,
    pub start_time: UtcInstant,
    pub end_time: UtcInstant,
}

/// Limits on how positions are opened during a backtest.
#[derive(Debug, Clone, Copy, PartialEq, Eq, Structural)]
pub struct RiskPolicyConfig {
    /// Most lots open at once; 0 means unlimited.
    pub max_entries_per_position: usize,
    /// Bars that must pass between two entry fills.
    pub cooldown_bars: usize,
}

impl Default for RiskPolicyConfig {
    fn default() -> (r: RiskPolicyConfig)
        ensures
            r.max_entries_per_position == 3,
            r.cooldown_bars == 3,
    {
        RiskPolicyConfig {
            max_entries_per_position: default_backtest_max_entries(),
            cooldown_bars: default_cooldown_bars(),
        }
    }
}

pub fn default_backtest_max_entries() -> (r: usize)
    ensures
        r == 3,
{
    3
}

pub fn default_cooldown_bars() -> (r: usize)
    ensures
        r == 3,
{
    3
}

/// Risk settings of live mode.
#[derive(Debug, Clone, Copy, Default)]
pub struct LiveRiskConfig {
    pub max_entries_per_position: Option<usize>,
}

/// Live mode settings.
#[derive(Debug, Clone, Copy, Default)]
pub struct LiveConfig {
    pub risk: LiveRiskConfig,
}

/// The cross-referenced parts of the configuration that validation checks.
#[derive(Debug, Clone)]
pub struct ConfigOutline {
    pub exchanges: Vec<ExchangeConfig>,
    pub coins: Vec<CoinConfig>,
    pub alerts: Vec<AlertEntry>,
    pub inputs: Vec<InputConfig>,
    pub models: Vec<TradingModelConfig>,
    pub backtest: Option<BacktestSchedule>,
}

fn validation(field: String) -> (e: ConfigError)
    ensures
        is_validation(e, field@),
{
    ConfigError::Validation { field }
}

/// The spelling is a known timeframe.
pub open spec fn timeframe_ok(s: String) -> bool {
    timeframe_named(s@) is Some
}

/// Every timeframe of the coin is known.
pub open spec fn coin_timeframes_ok(c: CoinConfig) -> bool {
    forall|t: int| 0 <= t < c.timeframes@.len() ==> timeframe_ok(#[trigger] c.timeframes@[t])
}

pub open spec fn unknown_timeframe_field(c: CoinConfig, tf: Seq<char>) -> Seq<char> {
    "coins[exchange="@ + c.exchange@ + ", symbol="@ + c.symbol@
        + "].timeframes: unknown timeframe \""@ + tf + "\""@
}

/// Every coin lists only known timeframes; the first unknown one is reported.
/// Whether the check `validate_timeframes` passes.
pub open spec fn timeframes_ok(coins: Seq<CoinConfig>) -> bool {
    forall|k: int| 0 <= k < coins.len() ==> coin_timeframes_ok(#[trigger] coins[k])
}

/// `e` is the error that `validate_timeframes` reports.
pub open spec fn timeframes_error(coins: Seq<CoinConfig>, e: ConfigError) -> bool {
    exists|k: int, t: int|
            0 <= k < coins.len() && 0 <= t < coins[k].timeframes@.len() && (forall|j: int|
                0 <= j < k ==> coin_timeframes_ok(#[trigger] coins[j])) && (forall|u: int|
                0 <= u < t ==> timeframe_ok(#[trigger] coins[k].timeframes@[u])) && !timeframe_ok(
                coins[k].timeframes@[t],
            ) && is_validation(e, unknown_timeframe_field(coins[k], coins[k].timeframes@[t]@))
}

pub fn validate_timeframes(coins: &Vec<CoinConfig>) -> (r: Result<(), ConfigError>)
    ensures
        r is Ok <==> timeframes_ok(coins@),
        r matches Err(e) ==> timeframes_error(coins@, e),

{
    let mut k: usize = 0;
    while k < coins.len()
        invariant
            k <= coins@.len(),
            forall|j: int| 0 <= j < k ==> coin_timeframes_ok(#[trigger] coins@[j]),
        decreases coins@.len() - k,
    {
        let coin = &coins[k];
        let mut t: usize = 0;
        while t < coin.timeframes.len()
            invariant
                k < coins@.len(),
                *coin == coins@[k as int],
                t <= coin.timeframes@.len(),
                forall|j: int| 0 <= j < k ==> coin_timeframes_ok(#[trigger] coins@[j]),
                forall|u: int| 0 <= u < t ==> timeframe_ok(#[trigger] coin.timeframes@[u]),
            decreases coin.timeframes@.len() - t,
        {
            let tf = &coin.timeframes[t];
            if TimeFrame::from_str(tf.as_str()).is_none() {
                let mut field = String::from_str("coins[exchange=");
                field.append(coin.exchange.as_str());
                field.append(", symbol=");
                field.append(coin.symbol.as_str());
                field.append("].timeframes: unknown timeframe \"");
                field.append(tf.as_str());
                field.append("\"");
                let e = validation(field);
                assert(is_validation(e, unknown_timeframe_field(coins@[k as int], tf@)));
                return Err(e);
            }
            t = t + 1;
        }
        k = k + 1;
    }
    Ok(())
}

/// Some exchange entry is named `name`.
pub open spec fn exchange_listed(exchanges: Seq<ExchangeConfig>, name: Seq<char>) -> bool {
    exists|i: int| 0 <= i < exchanges.len() && (#[trigger] exchanges[i]).name@ == name
}

pub open spec fn unmatched_exchange_field(c: CoinConfig) -> Seq<char> {
    "coins[symbol="@ + c.symbol@ + "].exchange \""@ + c.exchange@
        + "\" does not match any exchange name"@
}

/// Every coin names a configured exchange; the first that does not is reported.
/// Whether the check `validate_coin_exchanges` passes.
pub open spec fn coin_exchanges_ok(exchanges: Seq<ExchangeConfig>, coins: Seq<CoinConfig>) -> bool {
    forall|k: int|
            0 <= k < coins.len() ==> exchange_listed(exchanges, (#[trigger] coins[k]).exchange@)
}

/// `e` is the error that `validate_coin_exchanges` reports.
pub open spec fn coin_exchanges_error(exchanges: Seq<ExchangeConfig>, coins: Seq<CoinConfig>, e: ConfigError) -> bool {
    exists|k: int|
            0 <= k < coins.len() && (forall|j: int|
                0 <= j < k ==> exchange_listed(exchanges, (#[trigger] coins[j]).exchange@))
                && !exchange_listed(exchanges, coins[k].exchange@) && is_validation(
                e,
                unmatched_exchange_field(coins[k]),
            )
}

pub fn validate_coin_exchanges(exchanges: &Vec<ExchangeConfig>, coins: &Vec<CoinConfig>) -> (r:
    Result<(), ConfigError>)
    ensures
        r is Ok <==> coin_exchanges_ok(exchanges@, coins@),
        r matches Err(e) ==> coin_exchanges_error(exchanges@, coins@, e),

{
    let mut k: usize = 0;
    while k < coins.len()
        invariant
            k <= coins@.len(),
            forall|j: int|
                0 <= j < k ==> exchange_listed(exchanges@, (#[trigger] coins@[j]).exchange@),
        decreases coins@.len() - k,
    {
        let coin = &coins[k];
        let mut found = false;
        let mut i: usize = 0;
        while i < exchanges.len()
            invariant
                i <= exchanges@.len(),
                found <==> exists|x: int|
                    0 <= x < i && (#[trigger] exchanges@[x]).name@ == coin.exchange@,
            decreases exchanges@.len() - i,
        {
            if same_text(exchanges[i].name.as_str(), coin.exchange.as_str()) {
                found = true;
            }
            i = i + 1;
        }
        if !found {
            let mut field = String::from_str("coins[symbol=");
            field.append(coin.symbol.as_str());
            field.append("].exchange \"");
            field.append(coin.exchange.as_str());
            field.append("\" does not match any exchange name");
            return Err(validation(field));
        }
        k = k + 1;
    }
    Ok(())
}

/// Some coin entry has the alert's exchange and symbol.
pub open spec fn alert_has_coin(coins: Seq<CoinConfig>, a: AlertEntry) -> bool {
    exists|i: int|
        0 <= i < coins.len() && (#[trigger] coins[i]).exchange@ == a.exchange@ && coins[i].symbol@
            == a.symbol@
}

pub open spec fn unmatched_alert_field(a: AlertEntry) -> Seq<char> {
    "alerts[\""@ + a.name@ + "\"].exchange+symbol ("@ + a.exchange@ + ", "@ + a.symbol@
        + ") does not match any coin entry"@
}

/// Every alert watches a configured coin; the first that does not is reported.
/// Whether the check `validate_alert_references` passes.
pub open spec fn alert_references_ok(alerts: Seq<AlertEntry>, coins: Seq<CoinConfig>) -> bool {
    forall|k: int| 0 <= k < alerts.len() ==> alert_has_coin(coins, #[trigger] alerts[k])
}

/// `e` is the error that `validate_alert_references` reports.
pub open spec fn alert_references_error(alerts: Seq<AlertEntry>, coins: Seq<CoinConfig>, e: ConfigError) -> bool {
    exists|k: int|
            0 <= k < alerts.len() && (forall|j: int|
                0 <= j < k ==> alert_has_coin(coins, #[trigger] alerts[j])) && !alert_has_coin(
                coins,
                alerts[k],
            ) && is_validation(e, unmatched_alert_field(alerts[k]))
}

pub fn validate_alert_references(alerts: &Vec<AlertEntry>, coins: &Vec<CoinConfig>) -> (r: Result<
    (),
    ConfigError,
>)
    ensures
        r is Ok <==> alert_references_ok(alerts@, coins@),
        r matches Err(e) ==> alert_references_error(alerts@, coins@, e),

{
    let mut k: usize = 0;
    while k < alerts.len()
        invariant
            k <= alerts@.len(),
            forall|j: int| 0 <= j < k ==> alert_has_coin(coins@, #[trigger] alerts@[j]),
        decreases alerts@.len() - k,
    {
        let alert = &alerts[k];
        let mut found = false;
        let mut i: usize = 0;
        while i < coins.len()
            invariant
                i <= coins@.len(),
                found <==> exists|x: int|
                    0 <= x < i && (#[trigger] coins@[x]).exchange@ == alert.exchange@
                        && coins@[x].symbol@ == alert.symbol@,
            decreases coins@.len() - i,
        {
            if same_text(coins[i].exchange.as_str(), alert.exchange.as_str()) && same_text(
                coins[i].symbol.as_str(),
                alert.symbol.as_str(),
            ) {
                found = true;
            }
            i = i + 1;
        }
        if !found {
            let mut field = String::from_str("alerts[\"");
            field.append(alert.name.as_str());
            field.append("\"].exchange+symbol (");
            field.append(alert.exchange.as_str());
            field.append(", ");
            field.append(alert.symbol.as_str());
            field.append(") does not match any coin entry");
            return Err(validation(field));
        }
        k = k + 1;
    }
    Ok(())
}

/// Entry `j` repeats a name that an earlier entry already has.
pub open spec fn repeats_earlier(names: Seq<Seq<char>>, j: int) -> bool {
    exists|i: int| 0 <= i < j && #[trigger] names[i] == names[j]
}

/// The text of each string.
pub open spec fn texts(v: Seq<String>) -> Seq<Seq<char>> {
    v.map_values(|s: String| s@)
}

pub open spec fn alert_names(v: Seq<AlertEntry>) -> Seq<Seq<char>> {
    v.map_values(|a: AlertEntry| a.name@)
}

pub open spec fn input_names(v: Seq<InputConfig>) -> Seq<Seq<char>> {
    v.map_values(|c: InputConfig| c.name@)
}

pub open spec fn model_names(v: Seq<TradingModelConfig>) -> Seq<Seq<char>> {
    v.map_values(|c: TradingModelConfig| c.name@)
}

/// The first entry whose name an earlier entry already has.
fn first_repeat(names: &Vec<String>) -> (r: Option<usize>)
    ensures
        r is None <==> forall|j: int| 0 <= j < names@.len() ==> !repeats_earlier(texts(names@), j),
        r matches Some(j) ==> j < names@.len() && repeats_earlier(texts(names@), j as int) && forall|
            u: int,
        | 0 <= u < j ==> !repeats_earlier(texts(names@), u),
{
    let ghost v = texts(names@);
    let mut j: usize = 0;
    while j < names.len()
        invariant
            v == texts(names@),
            j <= names@.len(),
            forall|u: int| 0 <= u < j ==> !repeats_earlier(v, u),
        decreases names@.len() - j,
    {
        let mut i: usize = 0;
        while i < j
            invariant
                v == texts(names@),
                j < names@.len(),
                i <= j,
                forall|u: int| 0 <= u < j ==> !repeats_earlier(v, u),
                forall|x: int| 0 <= x < i ==> v[x] != v[j as int],
            decreases j - i,
        {
            if same_text(names[i].as_str(), names[j].as_str()) {
                assert(v[i as int] == v[j as int]);
                assert(repeats_earlier(v, j as int));
                assert(forall|u: int| 0 <= u < j ==> !repeats_earlier(texts(names@), u));
                return Some(j);
            }
            i = i + 1;
        }
        j = j + 1;
    }
    None
}

fn alert_name_list(alerts: &Vec<AlertEntry>) -> (r: Vec<String>)
    ensures
        texts(r@) == alert_names(alerts@),
{
    let mut r: Vec<String> = Vec::new();
    let mut k: usize = 0;
    while k < alerts.len()
        invariant
            k <= alerts@.len(),
            r@.len() == k,
            forall|x: int| 0 <= x < k ==> (#[trigger] r@[x])@ == alerts@[x].name@,
        decreases alerts@.len() - k,
    {
        r.push(alerts[k].name.clone());
        k = k + 1;
    }
    assert(texts(r@) =~= alert_names(alerts@));
    r
}

fn input_name_list(inputs: &Vec<InputConfig>) -> (r: Vec<String>)
    ensures
        texts(r@) == input_names(inputs@),
{
    let mut r: Vec<String> = Vec::new();
    let mut k: usize = 0;
    while k < inputs.len()
        invariant
            k <= inputs@.len(),
            r@.len() == k,
            forall|x: int| 0 <= x < k ==> (#[trigger] r@[x])@ == inputs@[x].name@,
        decreases inputs@.len() - k,
    {
        r.push(inputs[k].name.clone());
        k = k + 1;
    }
    assert(texts(r@) =~= input_names(inputs@));
    r
}

fn model_name_list(models: &Vec<TradingModelConfig>) -> (r: Vec<String>)
    ensures
        texts(r@) == model_names(models@),
{
    let mut r: Vec<String> = Vec::new();
    let mut k: usize = 0;
    while k < models.len()
        invariant
            k <= models@.len(),
            r@.len() == k,
            forall|x: int| 0 <= x < k ==> (#[trigger] r@[x])@ == models@[x].name@,
        decreases models@.len() - k,
    {
        r.push(models[k].name.clone());
        k = k + 1;
    }
    assert(texts(r@) =~= model_names(models@));
    r
}

/// The field text that reports a repeated name in the section `section`.
pub open spec fn duplicate_field(section: Seq<char>, name: Seq<char>) -> Seq<char> {
    section + ": duplicate name \""@ + name + "\""@
}

/// Reports the first repeated name of `names`, if any, under `section`.
fn check_unique(section: &str, names: &Vec<String>) -> (r: Result<(), ConfigError>)
    ensures
        r is Ok <==> forall|j: int| 0 <= j < names@.len() ==> !repeats_earlier(texts(names@), j),
        r matches Err(e) ==> exists|j: int|
            0 <= j < names@.len() && repeats_earlier(texts(names@), j) && (forall|u: int|
                0 <= u < j ==> !repeats_earlier(texts(names@), u)) && is_validation(
                e,
                duplicate_field(section@, texts(names@)[j]),
            ),
{
    match first_repeat(names) {
        None => Ok(()),
        Some(j) => {
            let mut field = String::from_str(section);
            field.append(": duplicate name \"");
            field.append(names[j].as_str());
            field.append("\"");
            let e = validation(field);
            assert(is_validation(e, duplicate_field(section@, texts(names@)[j as int])));
            Err(e)
        },
    }
}

/// Alert names are unique; the first repeat is reported.
/// Whether the check `validate_alert_names_unique` passes.
pub open spec fn alert_names_unique_ok(alerts: Seq<AlertEntry>) -> bool {
    forall|j: int| 0 <= j < alerts.len() ==> !repeats_earlier(alert_names(alerts), j)
}

/// `e` is the error that `validate_alert_names_unique` reports.
pub open spec fn alert_names_unique_error(alerts: Seq<AlertEntry>, e: ConfigError) -> bool {
    exists|j: int|
            0 <= j < alerts.len() && repeats_earlier(alert_names(alerts), j) && (forall|u: int|
                0 <= u < j ==> !repeats_earlier(alert_names(alerts), u)) && is_validation(
                e,
                duplicate_field("alerts"@, alerts[j].name@),
            )
}

pub fn validate_alert_names_unique(alerts: &Vec<AlertEntry>) -> (r: Result<(), ConfigError>)
    ensures
        r is Ok <==> alert_names_unique_ok(alerts@),
        r matches Err(e) ==> alert_names_unique_error(alerts@, e),

{
    let names = alert_name_list(alerts);
    proof {
        assert(names@.len() == texts(names@).len());
        assert(alerts@.len() == alert_names(alerts@).len());
        assert(forall|j: int| 0 <= j < alerts@.len() ==> alert_names(alerts@)[j] == alerts@[j].name@);
    }
    check_unique("alerts", &names)
}

/// Input names are unique, and so are model names; inputs are checked first.
/// Whether the check `validate_input_and_model_names` passes.
pub open spec fn input_and_model_names_ok(inputs: Seq<InputConfig>, models: Seq<TradingModelConfig>) -> bool {
    (forall|j: int|
            0 <= j < inputs.len() ==> !repeats_earlier(input_names(inputs), j)) && (forall|j: int|
            0 <= j < models.len() ==> !repeats_earlier(model_names(models), j))
}

/// `e` is the error that `validate_input_and_model_names` reports.
pub open spec fn input_and_model_names_error(inputs: Seq<InputConfig>, models: Seq<TradingModelConfig>, e: ConfigError) -> bool {
    (exists|j: int|
            0 <= j < inputs.len() && repeats_earlier(input_names(inputs), j) && (forall|u: int|
                0 <= u < j ==> !repeats_earlier(input_names(inputs), u)) && is_validation(
                e,
                duplicate_field("inputs"@, inputs[j].name@),
            )) || ((forall|j: int|
            0 <= j < inputs.len() ==> !repeats_earlier(input_names(inputs), j)) && exists|j: int|
            0 <= j < models.len() && repeats_earlier(model_names(models), j) && (forall|u: int|
                0 <= u < j ==> !repeats_earlier(model_names(models), u)) && is_validation(
                e,
                duplicate_field("models"@, models[j].name@),
            ))
}

pub fn validate_input_and_model_names(
    inputs: &Vec<InputConfig>,
    models: &Vec<TradingModelConfig>,
) -> (r: Result<(), ConfigError>)
    ensures
        r is Ok <==> input_and_model_names_ok(inputs@, models@),
        r matches Err(e) ==> input_and_model_names_error(inputs@, models@, e),

{
    let names = input_name_list(inputs);
    proof {
        assert(names@.len() == texts(names@).len());
        assert(inputs@.len() == input_names(inputs@).len());
        assert(forall|j: int| 0 <= j < inputs@.len() ==> input_names(inputs@)[j] == inputs@[j].name@);
    }
    check_unique("inputs", &names)?;
    let names = model_name_list(models);
    proof {
        assert(names@.len() == texts(names@).len());
        assert(models@.len() == model_names(models@).len());
        assert(forall|j: int| 0 <= j < models@.len() ==> model_names(models@)[j] == models@[j].name@);
    }
    check_unique("models", &names)
}

/// The alert's condition is known and has the threshold it compares against.
pub open spec fn alert_condition_ok(a: AlertEntry) -> bool {
    condition_named(a.condition@) matches Some(c) && (c.spec_needs_threshold() ==> a.has_threshold)
}

/// The field text reported for an alert whose condition check fails.
pub open spec fn alert_condition_field(a: AlertEntry) -> Seq<char> {
    if condition_named(a.condition@) is None {
        "alerts[\""@ + a.name@ + "\"].condition \""@ + a.condition@ + "\" is not valid"@
    } else {
        "alerts[\""@ + a.name@ + "\"].threshold is required for condition \""@ + a.condition@
            + "\""@
    }
}

/// Whether the check `validate_alert_conditions` passes.
pub open spec fn alert_conditions_ok(alerts: Seq<AlertEntry>) -> bool {
    forall|k: int| 0 <= k < alerts.len() ==> alert_condition_ok(#[trigger] alerts[k])
}

/// `e` is the error that `validate_alert_conditions` reports.
pub open spec fn alert_conditions_error(alerts: Seq<AlertEntry>, e: ConfigError) -> bool {
    exists|k: int|
        0 <= k < alerts.len() && (forall|j: int| 0 <= j < k ==> alert_condition_ok(#[trigger] alerts[j]))
            && !alert_condition_ok(alerts[k]) && is_validation(e, alert_condition_field(alerts[k]))
}

/// Every alert has a known condition, and a threshold where the condition needs one.
pub fn validate_alert_conditions(alerts: &Vec<AlertEntry>) -> (r: Result<(), ConfigError>)
    ensures
        r is Ok <==> alert_conditions_ok(alerts@),
        r matches Err(e) ==> alert_conditions_error(alerts@, e),
{
    let mut k: usize = 0;
    while k < alerts.len()
        invariant
            k <= alerts@.len(),
            forall|j: int| 0 <= j < k ==> alert_condition_ok(#[trigger] alerts@[j]),
        decreases alerts@.len() - k,
    {
        let alert = &alerts[k];
        match ConditionKind::parse(alert.condition.as_str()) {
            None => {
                let mut field = String::from_str("alerts[\"");
                field.append(alert.name.as_str());
                field.append("\"].condition \"");
                field.append(alert.condition.as_str());
                field.append("\" is not valid");
                let e = validation(field);
                assert(is_validation(e, alert_condition_field(alerts@[k as int])));
                return Err(e);
            },
            Some(condition) => {
                if condition.needs_threshold() && !alert.has_threshold {
                    let mut field = String::from_str("alerts[\"");
                    field.append(alert.name.as_str());
                    field.append("\"].threshold is required for condition \"");
                    field.append(alert.condition.as_str());
                    field.append("\"");
                    let e = validation(field);
                    assert(is_validation(e, alert_condition_field(alerts@[k as int])));
                    return Err(e);
                }
            },
        }
        k = k + 1;
    }
    Ok(())
}

/// An input named `name` will exist: one is configured under it, or, when none is
/// configured, it is the default input `rsi_14`.
pub open spec fn input_defined(inputs: Seq<InputConfig>, name: Seq<char>) -> bool {
    if inputs.len() == 0 {
        name == "rsi_14"@
    } else {
        exists|i: int| 0 <= i < inputs.len() && (#[trigger] inputs[i]).name@ == name
    }
}

/// Every input that the model names will exist.
pub open spec fn model_refs_ok(inputs: Seq<InputConfig>, m: TradingModelConfig) -> bool {
    forall|t: int| 0 <= t < m.inputs@.len() ==> input_defined(inputs, (#[trigger] m.inputs@[t])@)
}

pub open spec fn unknown_input_field(m: TradingModelConfig, input: Seq<char>) -> Seq<char> {
    "models[\""@ + m.name@ + "\"].inputs contains unknown input \""@ + input + "\""@
}

/// Whether the check `validate_model_input_references` passes: it holds trivially when
/// no model is configured.
pub open spec fn model_input_references_ok(inputs: Seq<InputConfig>, models: Seq<TradingModelConfig>) -> bool {
    models.len() == 0 || forall|k: int|
        0 <= k < models.len() ==> model_refs_ok(inputs, #[trigger] models[k])
}

/// `e` is the error that `validate_model_input_references` reports.
pub open spec fn model_input_references_error(
    inputs: Seq<InputConfig>,
    models: Seq<TradingModelConfig>,
    e: ConfigError,
) -> bool {
    exists|k: int, t: int|
        0 <= k < models.len() && 0 <= t < models[k].inputs@.len() && (forall|j: int|
            0 <= j < k ==> model_refs_ok(inputs, #[trigger] models[j])) && (forall|u: int|
            0 <= u < t ==> input_defined(inputs, (#[trigger] models[k].inputs@[u])@)) && !input_defined(
            inputs,
            models[k].inputs@[t]@,
        ) && is_validation(e, unknown_input_field(models[k], models[k].inputs@[t]@))
}

/// Whether an input named `name` will exist.
fn input_listed(inputs: &Vec<InputConfig>, name: &str) -> (r: bool)
    ensures
        r == input_defined(inputs@, name@),
{
    if inputs.len() == 0 {
        return same_text(name, "rsi_14");
    }
    let mut i: usize = 0;
    while i < inputs.len()
        invariant
            i <= inputs@.len(),
            inputs@.len() > 0,
            forall|x: int| 0 <= x < i ==> (#[trigger] inputs@[x]).name@ != name@,
        decreases inputs@.len() - i,
    {
        if same_text(inputs[i].name.as_str(), name) {
            return true;
        }
        i = i + 1;
    }
    false
}

/// Every input that a model names is configured, or is the default `rsi_14` when no
/// input is configured; skipped when no model is configured.
pub fn validate_model_input_references(
    inputs: &Vec<InputConfig>,
    models: &Vec<TradingModelConfig>,
) -> (r: Result<(), ConfigError>)
    ensures
        r is Ok <==> model_input_references_ok(inputs@, models@),
        r matches Err(e) ==> model_input_references_error(inputs@, models@, e),
{
    if models.len() == 0 {
        return Ok(());
    }
    let mut k: usize = 0;
    while k < models.len()
        invariant
            k <= models@.len(),
            models@.len() > 0,
            forall|j: int| 0 <= j < k ==> model_refs_ok(inputs@, #[trigger] models@[j]),
        decreases models@.len() - k,
    {
        let model = &models[k];
        let mut t: usize = 0;
        while t < model.inputs.len()
            invariant
                k < models@.len(),
                *model == models@[k as int],
                t <= model.inputs@.len(),
                forall|j: int| 0 <= j < k ==> model_refs_ok(inputs@, #[trigger] models@[j]),
                forall|u: int| 0 <= u < t ==> input_defined(inputs@, (#[trigger] model.inputs@[u])@),
            decreases model.inputs@.len() - t,
        {
            let name = &model.inputs[t];
            if !input_listed(inputs, name.as_str()) {
                let mut field = String::from_str("models[\"");
                field.append(model.name.as_str());
                field.append("\"].inputs contains unknown input \"");
                field.append(name.as_str());
                field.append("\"");
                let e = validation(field);
                assert(is_validation(e, unknown_input_field(models@[k as int], name@)));
                assert(models@[k as int].inputs@[t as int]@ == name@);
                assert(!model_refs_ok(inputs@, models@[k as int]));
                assert(!model_input_references_ok(inputs@, models@));
                return Err(e);
            }
            t = t + 1;
        }
        k = k + 1;
    }
    Ok(())
}

/// Whether the backtest timeframe is known and its period is not empty.
pub open spec fn backtest_schedule_ok(b: BacktestSchedule) -> bool {
    timeframe_named(b.timeframe@) is Some && b.start_time.spec_before(b.end_time)
}

/// The field text reported for a failing backtest schedule.
pub open spec fn backtest_schedule_field(b: BacktestSchedule) -> Seq<char> {
    if timeframe_named(b.timeframe@) is None {
        "backtest.timeframe \""@ + b.timeframe@ + "\" is not valid"@
    } else {
        "backtest.start_time must be before backtest.end_time"@
    }
}

/// The backtest names a known timeframe and starts before it ends.
pub fn validate_backtest_schedule(b: &BacktestSchedule) -> (r: Result<(), ConfigError>)
    ensures
        r is Ok <==> backtest_schedule_ok(*b),
        r matches Err(e) ==> is_validation(e, backtest_schedule_field(*b)),
{
    if TimeFrame::from_str(b.timeframe.as_str()).is_none() {
        let mut field = String::from_str("backtest.timeframe \"");
        field.append(b.timeframe.as_str());
        field.append("\" is not valid");
        return Err(validation(field));
    }
    if !b.start_time.is_before(&b.end_time) {
        return Err(validation(String::from_str("backtest.start_time must be before backtest.end_time")));
    }
    Ok(())
}

/// Whether the backtest's model is configured (any name will do when none is).
pub open spec fn backtest_model_ok(models: Seq<TradingModelConfig>, b: BacktestSchedule) -> bool {
    models.len() == 0 || exists|i: int| 0 <= i < models.len() && (#[trigger] models[i]).name@ == b.model@
}

/// The backtest runs a configured model, unless no model is configured.
pub fn validate_backtest_model(models: &Vec<TradingModelConfig>, b: &BacktestSchedule) -> (r: Result<
    (),
    ConfigError,
>)
    ensures
        r is Ok <==> backtest_model_ok(models@, *b),
        r matches Err(e) ==> is_validation(
            e,
            "backtest.model \""@ + b.model@ + "\" is not defined"@,
        ),
{
    if models.len() == 0 {
        return Ok(());
    }
    let mut i: usize = 0;
    while i < models.len()
        invariant
            i <= models@.len(),
            forall|x: int| 0 <= x < i ==> (#[trigger] models@[x]).name@ != b.model@,
        decreases models@.len() - i,
    {
        if same_text(models[i].name.as_str(), b.model.as_str()) {
            return Ok(());
        }
        i = i + 1;
    }
    let mut field = String::from_str("backtest.model \"");
    field.append(b.model.as_str());
    field.append("\" is not defined");
    Err(validation(field))
}

/// Whether every check of `validate` passes.
pub open spec fn outline_ok(c: ConfigOutline) -> bool {
    &&& timeframes_ok(c.coins@)
    &&& coin_exchanges_ok(c.exchanges@, c.coins@)
    &&& alert_references_ok(c.alerts@, c.coins@)
    &&& alert_names_unique_ok(c.alerts@)
    &&& alert_conditions_ok(c.alerts@)
    &&& input_and_model_names_ok(c.inputs@, c.models@)
    &&& model_input_references_ok(c.inputs@, c.models@)
    &&& (c.backtest matches Some(b) ==> backtest_schedule_ok(b))
}

/// `e` is the error of the first check of `validate` that fails.
pub open spec fn outline_error(c: ConfigOutline, e: ConfigError) -> bool {
    if !timeframes_ok(c.coins@) {
        timeframes_error(c.coins@, e)
    } else if !coin_exchanges_ok(c.exchanges@, c.coins@) {
        coin_exchanges_error(c.exchanges@, c.coins@, e)
    } else if !alert_references_ok(c.alerts@, c.coins@) {
        alert_references_error(c.alerts@, c.coins@, e)
    } else if !alert_names_unique_ok(c.alerts@) {
        alert_names_unique_error(c.alerts@, e)
    } else if !alert_conditions_ok(c.alerts@) {
        alert_conditions_error(c.alerts@, e)
    } else if !input_and_model_names_ok(c.inputs@, c.models@) {
        input_and_model_names_error(c.inputs@, c.models@, e)
    } else if !model_input_references_ok(c.inputs@, c.models@) {
        model_input_references_error(c.inputs@, c.models@, e)
    } else {
        c.backtest matches Some(b) && is_validation(e, backtest_schedule_field(b))
    }
}

/// Checks the configuration's cross references in order: coin timeframes, coin
/// exchanges, alert coins, alert names, alert conditions, input and model names, model
/// inputs, and the backtest timeframe and period. The backtest's money settings and its
/// model are checked afterwards by `validate_backtest_model` and the caller.
pub fn validate(config: &ConfigOutline) -> (r: Result<(), ConfigError>)
    ensures
        r is Ok <==> outline_ok(*config),
        r matches Err(e) ==> outline_error(*config, e),
{
    validate_timeframes(&config.coins)?;
    validate_coin_exchanges(&config.exchanges, &config.coins)?;
    validate_alert_references(&config.alerts, &config.coins)?;
    validate_alert_names_unique(&config.alerts)?;
    validate_alert_conditions(&config.alerts)?;
    validate_input_and_model_names(&config.inputs, &config.models)?;
    validate_model_input_references(&config.inputs, &config.models)?;
    match &config.backtest {
        Some(b) => validate_backtest_schedule(b),
        None => Ok(()),
    }
}

} // verus!
