use vstd::prelude::*;

use crate::config::TradingModelConfig;
use crate::params::{get_string, param_text};
use crate::text::{joined, same_text};

verus! {

/// What a trading model asks for at one time step.
#[derive(Debug, Clone, Copy, PartialEq, Eq, Structural)]
pub enum SignalAction {
    Buy,
    Sell,
    Hold,
}

/// Buys while the short average is above the long one and sells while it is below.
pub struct SmaCrossModel {
    name: String,
    short_input: String,
    long_input: String,
    required_inputs: Vec<String>,
}

impl SmaCrossModel {
    pub closed spec fn spec_name(&self) -> Seq<char> {
        self.name@
    }

    pub closed spec fn spec_short_input(&self) -> Seq<char> {
        self.short_input@
    }

    pub closed spec fn spec_long_input(&self) -> Seq<char> {
        self.long_input@
    }

    /// The names of the inputs that must have values before the model is asked.
    pub closed spec fn spec_required_inputs(&self) -> Seq<String> {
        self.required_inputs@
    }

    pub fn new(name: String, short_input: String, long_input: String) -> (r: SmaCrossModel)
        ensures
            r.spec_name() == name@,
            r.spec_short_input() == short_input@,
            r.spec_long_input() == long_input@,
            r.spec_required_inputs().len() == 2,
            r.spec_required_inputs()[0]@ == short_input@,
            r.spec_required_inputs()[1]@ == long_input@,
    {
        let mut required_inputs: Vec<String> = Vec::new();
        required_inputs.push(short_input.clone());
        required_inputs.push(long_input.clone());
        SmaCrossModel { name, short_input, long_input, required_inputs }
    }

    pub fn name(&self) -> (r: &str)
        ensures
            r@ == self.spec_name(),
    {
        self.name.as_str()
    }

    pub fn short_input(&self) -> (r: &str)
        ensures
            r@ == self.spec_short_input(),
    {
        self.short_input.as_str()
    }

    pub fn long_input(&self) -> (r: &str)
        ensures
            r@ == self.spec_long_input(),
    {
        self.long_input.as_str()
    }

    pub fn required_inputs(&self) -> (r: &Vec<String>)
        ensures
            r@ == self.spec_required_inputs(),
    {
        &self.required_inputs
    }
}

/// The decision rule of a configured model. The RSI thresholds are carried by the caller.
pub enum ModelKind {
    /// Buys below the oversold level and sells above the overbought level of `input_name`.
    RsiReversion { input_name: String },
    SmaCross(SmaCrossModel),
}

/// A named model built from configuration.
pub struct ModelSpec {
    pub name: String,
    pub kind: ModelKind,
}

/// The names a model needs values for, in the order it reads them.
pub open spec fn model_inputs(m: ModelSpec) -> Seq<Seq<char>> {
    match m.kind {
        ModelKind::RsiReversion { input_name } => seq![input_name@],
        ModelKind::SmaCross(s) => seq![s.spec_short_input(), s.spec_long_input()],
    }
}

impl ModelSpec {
    pub fn name(&self) -> (r: &str)
        ensures
            r@ == self.name@,
    {
        self.name.as_str()
    }

    /// The inputs that must all have values at a step before the model is asked.
    pub fn required_inputs(&self) -> (r: Vec<String>)
        ensures
            r@.len() == model_inputs(*self).len(),
            forall|k: int| 0 <= k < r@.len() ==> (#[trigger] r@[k])@ == model_inputs(*self)[k],
    {
        match &self.kind {
            ModelKind::RsiReversion { input_name } => {
                let mut v: Vec<String> = Vec::new();
                v.push(input_name.clone());
                v
            },
            ModelKind::SmaCross(s) => {
                let mut v: Vec<String> = Vec::new();
                v.push(String::from_str(s.short_input()));
                v.push(String::from_str(s.long_input()));
                v
            },
        }
    }
}

/// What a configuration entry builds: for `rsi_reversion` the input named by `input`
/// (default `rsi_14`); for `sma_cross` those named by `short_input` and `long_input`
/// (defaults `sma_short`, `sma_long`). `None` for an unknown kind.
pub open spec fn requested_model_inputs(c: TradingModelConfig) -> Option<Seq<Seq<char>>> {
    if c.kind@ == "rsi_reversion"@ {
        Some(seq![param_text(c.params@, "input"@, "rsi_14"@)])
    } else if c.kind@ == "sma_cross"@ {
        Some(
            seq![
                param_text(c.params@, "short_input"@, "sma_short"@),
                param_text(c.params@, "long_input"@, "sma_long"@),
            ],
        )
    } else {
        None
    }
}

/// Builds a model from its configuration entry.
pub fn build_model(config: &TradingModelConfig) -> (r: Result<ModelSpec, String>)
    ensures
        r is Ok <==> requested_model_inputs(*config) is Some,
        r matches Ok(m) ==> m.name@ == config.name@ && requested_model_inputs(*config) == Some(
            model_inputs(m),
        ) && (m.kind is RsiReversion <==> config.kind@ == "rsi_reversion"@),
        r matches Ok(m) ==> (m.kind matches ModelKind::SmaCross(s) ==> s.spec_name()
            == config.name@),
        r matches Err(msg) ==> msg@ == "unknown model kind: "@ + config.kind@,
{
    let kind = config.kind.as_str();
    if same_text(kind, "rsi_reversion") {
        let input_name = get_string(&config.params, "input", "rsi_14");
        Ok(ModelSpec { name: config.name.clone(), kind: ModelKind::RsiReversion { input_name } })
    } else if same_text(kind, "sma_cross") {
        let short_input = get_string(&config.params, "short_input", "sma_short");
        let long_input = get_string(&config.params, "long_input", "sma_long");
        let model = SmaCrossModel::new(config.name.clone(), short_input, long_input);
        let r = ModelSpec { name: config.name.clone(), kind: ModelKind::SmaCross(model) };
        assert(model_inputs(r) =~= requested_model_inputs(*config)->Some_0);
        Ok(r)
    } else {
        Err(joined("unknown model kind: ", kind))
    }
}

/// The model used when none is configured: RSI reversion over `rsi_14`.
pub fn build_default_model() -> (r: ModelSpec)
    ensures
        r.name@ == "rsi_reversion_default"@,
        r.kind is RsiReversion,
        model_inputs(r) == seq!["rsi_14"@],
{
    ModelSpec {
        name: String::from_str("rsi_reversion_default"),
        kind: ModelKind::RsiReversion { input_name: String::from_str("rsi_14") },
    }
}

/// The series registered under `name`, looking from the last entry back.
pub open spec fn series_named<T>(series: Seq<(String, Vec<Option<T>>)>, name: Seq<char>) -> Option<
    Seq<Option<T>>,
>
    decreases series.len(),
{
    if series.len() == 0 {
        None
    } else if series.last().0@ == name {
        Some(series.last().1@)
    } else {
        series_named(series.drop_last(), name)
    }
}

/// No two entries share a name.
pub open spec fn names_unique<T>(series: Seq<(String, Vec<Option<T>>)>) -> bool {
    forall|i: int, j: int|
        0 <= i < j < series.len() ==> (#[trigger] series[i]).0@ != (#[trigger] series[j]).0@
}

proof fn lemma_series_named_at<T>(s: Seq<(String, Vec<Option<T>>)>, i: int, k: Seq<char>)
    requires
        names_unique(s),
        0 <= i < s.len(),
        s[i].0@ == k,
    ensures
        series_named(s, k) == Some(s[i].1@),
    decreases s.len(),
{
    if i < s.len() - 1 {
        assert(s[i].0@ != s[s.len() - 1].0@);
        let d = s.drop_last();
        assert(d[i] == s[i]);
        assert(names_unique(d)) by {
            assert forall|x: int, y: int| 0 <= x < y < d.len() implies (#[trigger] d[x]).0@ != (
            #[trigger] d[y]).0@ by {
                assert(d[x] == s[x] && d[y] == s[y]);
            }
        }
        lemma_series_named_at(d, i, k);
    }
}

proof fn lemma_series_named_absent<T>(s: Seq<(String, Vec<Option<T>>)>, k: Seq<char>)
    requires
        forall|i: int| 0 <= i < s.len() ==> (#[trigger] s[i]).0@ != k,
    ensures
        series_named(s, k) is None,
    decreases s.len(),
{
    if s.len() > 0 {
        let d = s.drop_last();
        assert forall|i: int| 0 <= i < d.len() implies (#[trigger] d[i]).0@ != k by {
            assert(d[i] == s[i]);
        }
        lemma_series_named_absent(d, k);
    }
}

/// The value of feature `name` at step `index`, when it is known.
pub open spec fn feature_at<T>(table: FeatureTable<T>, name: Seq<char>, index: int) -> Option<T> {
    match table.spec_series(name) {
        Some(values) => if 0 <= index < values.len() {
            values[index]
        } else {
            None
        },
        None => None,
    }
}

/// Feature series keyed by input name. Inserting a name that is present replaces its
/// series, so each name appears once.
pub struct FeatureTable<T> {
    entries: Vec<(String, Vec<Option<T>>)>,
}

impl<T> FeatureTable<T> {
    /// Each name is stored once.
    pub closed spec fn wf(&self) -> bool {
        names_unique(self.entries@)
    }

    /// The series stored under `name`, if any.
    pub closed spec fn spec_series(&self, name: Seq<char>) -> Option<Seq<Option<T>>> {
        series_named(self.entries@, name)
    }

    /// An empty table.
    pub fn new() -> (r: FeatureTable<T>)
        ensures
            r.wf(),
            forall|name: Seq<char>| (#[trigger] r.spec_series(name)) is None,
    {
        FeatureTable { entries: Vec::new() }
    }

    /// Stores `values` under `name`, replacing any series already stored there.
    pub fn insert(&mut self, name: String, values: Vec<Option<T>>)
        requires
            old(self).wf(),
        ensures
            final(self).wf(),
            forall|k: Seq<char>|
                (#[trigger] final(self).spec_series(k)) == if k == name@ {
                    Some(values@)
                } else {
                    old(self).spec_series(k)
                },
    {
        let ghost s = self.entries@;
        let ghost key = name@;
        let ghost vals = values@;
        let mut i: usize = 0;
        while i < self.entries.len()
            invariant
                s == self.entries@,
                s == old(self).entries@,
                names_unique(s),
                key == name@,
                vals == values@,
                i <= s.len(),
                forall|x: int| 0 <= x < i ==> (#[trigger] s[x]).0@ != key,
            decreases s.len() - i,
        {
            if same_text(self.entries[i].0.as_str(), name.as_str()) {
                self.entries.set(i, (name, values));
                proof {
                    let t = self.entries@;
                    assert(t == s.update(i as int, t[i as int]));
                    assert(names_unique(t)) by {
                        assert forall|x: int, y: int| 0 <= x < y < t.len() implies (
                        #[trigger] t[x]).0@ != (#[trigger] t[y]).0@ by {
                            if x != i && y != i {
                                assert(t[x] == s[x] && t[y] == s[y]);
                            } else if x == i {
                                assert(t[y] == s[y]);
                            } else {
                                assert(t[x] == s[x]);
                            }
                        }
                    }
                    assert forall|k: Seq<char>|
                        series_named(t, k) == if k == key {
                            Some(vals)
                        } else {
                            series_named(s, k)
                        } by {
                        if k == key {
                            assert(t[i as int].1@ == vals);
                            lemma_series_named_at(t, i as int, k);
                        } else if exists|j: int| 0 <= j < s.len() && (#[trigger] s[j]).0@ == k {
                            let j = choose|j: int| 0 <= j < s.len() && (#[trigger] s[j]).0@ == k;
                            assert(j != i);
                            assert(t[j] == s[j]);
                            lemma_series_named_at(t, j, k);
                            lemma_series_named_at(s, j, k);
                        } else {
                            assert forall|x: int| 0 <= x < s.len() implies (#[trigger] s[x]).0@
                                != k by {
                                if s[x].0@ == k {
                                    assert(exists|j: int| 0 <= j < s.len() && (#[trigger] s[j]).0@ == k);
                                }
                            }
                            assert forall|x: int| 0 <= x < t.len() implies (#[trigger] t[x]).0@
                                != k by {
                                if x != i {
                                    assert(t[x] == s[x]);
                                }
                            }
                            lemma_series_named_absent(t, k);
                            lemma_series_named_absent(s, k);
                        }
                    }
                }
                return;
            }
            i = i + 1;
        }
        self.entries.push((name, values));
        proof {
            let t = self.entries@;
            assert(t.drop_last() =~= s);
            assert(t.last().0@ == key && t.last().1@ == vals);
            assert forall|k: Seq<char>|
                series_named(t, k) == if k == key {
                    Some(vals)
                } else {
                    series_named(s, k)
                } by {}
            assert(names_unique(t)) by {
                assert forall|x: int, y: int| 0 <= x < y < t.len() implies (#[trigger] t[x]).0@
                    != (#[trigger] t[y]).0@ by {
                    assert(t[x] == s[x]);
                    if y < s.len() {
                        assert(t[y] == s[y]);
                    }
                }
            }
        }
    }

    /// The series stored under `name`.
    pub fn get(&self, name: &str) -> (r: Option<&Vec<Option<T>>>)
        ensures
            r matches Some(v) ==> self.spec_series(name@) == Some(v@),
            r is None ==> self.spec_series(name@) is None,
    {
        let series = &self.entries;
        let mut i: usize = series.len();
        assert(series@.subrange(0, i as int) =~= series@);
        while i > 0
            invariant
                series@ == self.entries@,
                i <= series@.len(),
                series_named(series@, name@) == series_named(series@.subrange(0, i as int), name@),
            decreases i,
        {
            let ghost prefix = series@.subrange(0, i as int);
            if same_text(series[i - 1].0.as_str(), name) {
                assert(prefix.last() == series@[i - 1]);
                return Some(&series[i - 1].1);
            }
            assert(prefix.drop_last() =~= series@.subrange(0, i - 1));
            i = i - 1;
        }
        None
    }
}

/// Gathers the values of `required` at step `index`; `None` when any of them is unknown
/// there, in which case the step makes no decision.
pub fn collect_feature_values<T: Copy>(
    required: &Vec<String>,
    series: &FeatureTable<T>,
    index: usize,
) -> (r: Option<Vec<(String, T)>>)
    ensures
        r is Some <==> forall|k: int|
            0 <= k < required@.len() ==> feature_at(*series, (#[trigger] required@[k])@, index as int) is Some,
        r matches Some(values) ==> values@.len() == required@.len() && forall|k: int|
            0 <= k < required@.len() ==> (#[trigger] values@[k]).0@ == required@[k]@ && feature_at(
                *series,
                required@[k]@,
                index as int,
            ) == Some(values@[k].1),
{
    let mut values: Vec<(String, T)> = Vec::new();
    let mut i: usize = 0;
    while i < required.len()
        invariant
            i <= required@.len(),
            values@.len() == i,
            forall|k: int|
                0 <= k < i ==> feature_at(*series, (#[trigger] required@[k])@, index as int) is Some,
            forall|k: int|
                0 <= k < i ==> (#[trigger] values@[k]).0@ == required@[k]@ && feature_at(
                    *series,
                    required@[k]@,
                    index as int,
                ) == Some(values@[k].1),
        decreases required@.len() - i,
    {
        let found = series.get(required[i].as_str());
        let value = match found {
            Some(column) => {
                if index < column.len() {
                    column[index]
                } else {
                    None
                }
            },
            None => None,
        };
        match value {
            Some(v) => {
                values.push((required[i].clone(), v));
            },
            None => {
                return None;
            },
        }
        i = i + 1;
    }
    Some(values)
}

} // verus!
