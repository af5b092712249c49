use vstd::prelude::*;

use crate::config::{RiskPolicyConfig, TradingModelConfig};
use crate::signal_input::{
    lemma_max_required_bounds_each, max_required, max_required_candles, SignalInput,
};
use crate::signal_model::{
    build_default_model, build_model, model_inputs, requested_model_inputs, ModelSpec,
    SignalAction,
};
use crate::text::{decimal, joined, push_decimal, same_text};

verus! {

/// Whether a Buy decided at step `index` may fill at the next candle, for a book with
/// `open` lots whose last entry filled at `last_fill`.
pub open spec fn entry_allowed(
    open: int,
    last_fill: Option<usize>,
    policy: RiskPolicyConfig,
    index: int,
    n_candles: int,
) -> bool {
    &&& index + 1 < n_candles
    &&& !(policy.max_entries_per_position > 0 && open >= policy.max_entries_per_position)
    &&& match last_fill {
        None => true,
        Some(f) => index + 1 >= f + policy.cooldown_bars,
    }
}

/// The open lot count respects the policy's maximum.
pub open spec fn within_entry_limit(open: int, policy: RiskPolicyConfig) -> bool {
    policy.max_entries_per_position == 0 || open <= policy.max_entries_per_position
}

/// What one simulation step does to the position.
#[derive(Debug, Clone, Copy, PartialEq, Eq, Structural)]
pub enum StepPlan {
    /// Open a lot filled at candle `fill_index`.
    Enter { fill_index: usize },
    /// Close every open lot, filled at candle `fill_index`.
    Exit { fill_index: usize },
    /// Leave the position as it is.
    Stay,
}

/// The lots held during a backtest, with the fill index of the latest entry.
/// A lot is opened whole and closed whole, together with every other open lot.
pub struct PositionBook<L> {
    lots: Vec<L>,
    last_entry_fill_index: Option<usize>,
}

impl<L> PositionBook<L> {
    pub closed spec fn spec_lots(&self) -> Seq<L> {
        self.lots@
    }

    pub closed spec fn spec_last_fill(&self) -> Option<usize> {
        self.last_entry_fill_index
    }

    /// Whether a Buy at `index` would be filled, as far as the book and policy decide.
    pub open spec fn spec_entry_allowed(
        &self,
        policy: RiskPolicyConfig,
        index: int,
        n_candles: int,
    ) -> bool {
        entry_allowed(self.spec_lots().len() as int, self.spec_last_fill(), policy, index, n_candles)
    }

    /// Whether a Sell at `index` closes the position.
    pub open spec fn spec_exit_allowed(&self, index: int, n_candles: int) -> bool {
        self.spec_lots().len() > 0 && index + 1 < n_candles
    }

    /// An empty book with no entry yet.
    pub fn new() -> (r: PositionBook<L>)
        ensures
            r.spec_lots().len() == 0,
            r.spec_last_fill() is None,
    {
        PositionBook { lots: Vec::new(), last_entry_fill_index: None }
    }

    pub fn lots(&self) -> (r: &Vec<L>)
        ensures
            r@ == self.spec_lots(),
    {
        &self.lots
    }

    pub fn open_count(&self) -> (r: usize)
        ensures
            r == self.spec_lots().len(),
    {
        self.lots.len()
    }

    pub fn last_entry_fill_index(&self) -> (r: Option<usize>)
        ensures
            r == self.spec_last_fill(),
    {
        self.last_entry_fill_index
    }

    /// True when the open lots already reach the maximum (0 means unlimited).
    pub fn hit_max_entries(&self, policy: &RiskPolicyConfig) -> (r: bool)
        ensures
            r == (policy.max_entries_per_position > 0 && self.spec_lots().len()
                >= policy.max_entries_per_position),
    {
        let max_entries = policy.max_entries_per_position;
        max_entries > 0 && self.lots.len() >= max_entries
    }

    /// True when at least `cooldown_bars` bars separate a fill at `fill_index` from the
    /// last entry fill.
    pub fn cooldown_elapsed(&self, policy: &RiskPolicyConfig, fill_index: usize) -> (r: bool)
        ensures
            r == match self.spec_last_fill() {
                None => true,
                Some(f) => fill_index >= f + policy.cooldown_bars,
            },
    {
        match self.last_entry_fill_index {
            None => true,
            Some(last_fill) => fill_index >= last_fill && fill_index - last_fill
                >= policy.cooldown_bars,
        }
    }

    /// Whether a Buy decided at step `index` may fill at the next candle.
    pub fn entry_allowed(&self, policy: &RiskPolicyConfig, index: usize, n_candles: usize) -> (r:
        bool)
        ensures
            r == self.spec_entry_allowed(*policy, index as int, n_candles as int),
    {
        if n_candles == 0 || index >= n_candles - 1 {
            return false;
        }
        !self.hit_max_entries(policy) && self.cooldown_elapsed(policy, index + 1)
    }

    /// Whether a Sell decided at step `index` closes the position at the next candle.
    pub fn exit_allowed(&self, index: usize, n_candles: usize) -> (r: bool)
        ensures
            r == self.spec_exit_allowed(index as int, n_candles as int),
    {
        self.lots.len() > 0 && n_candles > 0 && index < n_candles - 1
    }

    /// What the model's `action` at step `index` does to the position.
    pub fn plan(
        &self,
        policy: &RiskPolicyConfig,
        index: usize,
        n_candles: usize,
        action: SignalAction,
    ) -> (r: StepPlan)
        ensures
            action == SignalAction::Buy ==> r == if self.spec_entry_allowed(
                *policy,
                index as int,
                n_candles as int,
            ) {
                StepPlan::Enter { fill_index: (index + 1) as usize }
            } else {
                StepPlan::Stay
            },
            action == SignalAction::Sell ==> r == if self.spec_exit_allowed(
                index as int,
                n_candles as int,
            ) {
                StepPlan::Exit { fill_index: (index + 1) as usize }
            } else {
                StepPlan::Stay
            },
            action == SignalAction::Hold ==> r == StepPlan::Stay,
    {
        match action {
            SignalAction::Buy => {
                if self.entry_allowed(policy, index, n_candles) {
                    StepPlan::Enter { fill_index: index + 1 }
                } else {
                    StepPlan::Stay
                }
            },
            SignalAction::Sell => {
                if self.exit_allowed(index, n_candles) {
                    StepPlan::Exit { fill_index: index + 1 }
                } else {
                    StepPlan::Stay
                }
            },
            SignalAction::Hold => StepPlan::Stay,
        }
    }

    /// Records `lot` as filled at the candle after `index`, when the policy allows an
    /// entry there; otherwise leaves the book unchanged.
    pub fn open_lot(
        &mut self,
        policy: &RiskPolicyConfig,
        index: usize,
        n_candles: usize,
        lot: L,
    ) -> (r: bool)
        ensures
            r == old(self).spec_entry_allowed(*policy, index as int, n_candles as int),
            r ==> final(self).spec_lots() == old(self).spec_lots().push(lot)
                && final(self).spec_last_fill() == Some((index + 1) as usize),
            !r ==> final(self).spec_lots() == old(self).spec_lots()
                && final(self).spec_last_fill() == old(self).spec_last_fill(),
    {
        if !self.entry_allowed(policy, index, n_candles) {
            return false;
        }
        self.lots.push(lot);
        self.last_entry_fill_index = Some(index + 1);
        true
    }

    /// Takes every open lot out of the book, in the order they were opened.
    pub fn close_all(&mut self) -> (r: Vec<L>)
        ensures
            r@ == old(self).spec_lots(),
            final(self).spec_lots().len() == 0,
            final(self).spec_last_fill() == old(self).spec_last_fill(),
    {
        let mut taken: Vec<L> = Vec::new();
        std::mem::swap(&mut taken, &mut self.lots);
        taken
    }
}

/// Two Buy signals one bar apart never both fill when the cooldown is at least two bars:
/// after an entry decided at `index` (filled at `index + 1`), a Buy at `index + 1` is
/// refused whatever the number of open lots.
pub proof fn lemma_cooldown_blocks_next_bar(
    open: int,
    policy: RiskPolicyConfig,
    index: usize,
    n_candles: int,
)
    requires
        policy.cooldown_bars >= 2,
        index + 1 <= usize::MAX,
    ensures
        !entry_allowed(open, Some((index + 1) as usize), policy, index + 1, n_candles),
{
}

/// The cooldown refuses exactly the entries whose fill lies fewer than `cooldown_bars`
/// bars after the previous fill (other rules may still refuse the rest).
pub proof fn lemma_cooldown_window(
    open: int,
    last_fill: usize,
    policy: RiskPolicyConfig,
    index: int,
    n_candles: int,
)
    ensures
        index + 1 < last_fill + policy.cooldown_bars ==> !entry_allowed(
            open,
            Some(last_fill),
            policy,
            index,
            n_candles,
        ),
        index + 1 >= last_fill + policy.cooldown_bars ==> (entry_allowed(
            open,
            Some(last_fill),
            policy,
            index,
            n_candles,
        ) <==> entry_allowed(open, None, policy, index, n_candles)),
{
}

/// Opening a lot never takes the book past the maximum: a book within the limit stays
/// within it after any allowed entry, and an empty book is within it.
pub proof fn lemma_entries_stay_within_limit(
    open: int,
    last_fill: Option<usize>,
    policy: RiskPolicyConfig,
    index: int,
    n_candles: int,
)
    requires
        0 <= open,
        within_entry_limit(open, policy),
    ensures
        within_entry_limit(0, policy),
        entry_allowed(open, last_fill, policy, index, n_candles) ==> within_entry_limit(
            open + 1,
            policy,
        ),
        policy.max_entries_per_position == 1 && open == 1 ==> !entry_allowed(
            open,
            last_fill,
            policy,
            index,
            n_candles,
        ),
{
}

/// The book over a whole run: its open lot count, last entry fill and every entry fill
/// after the steps `events`, where `events[i]` is step `i`. A step is `None` when some
/// feature was unknown, else the model's action and whether an entry there could be
/// funded. Each step follows `PositionBook::plan`, `open_lot` and `close_all`.
pub open spec fn replay(
    policy: RiskPolicyConfig,
    n_candles: int,
    events: Seq<Option<(SignalAction, bool)>>,
) -> (int, Option<usize>, Seq<int>)
    decreases events.len(),
{
    if events.len() == 0 {
        (0, None, Seq::empty())
    } else {
        let prev = replay(policy, n_candles, events.drop_last());
        let index = events.len() - 1;
        match events.last() {
            Some((SignalAction::Buy, true)) => if entry_allowed(
                prev.0,
                prev.1,
                policy,
                index,
                n_candles,
            ) && index + 1 <= usize::MAX {
                (prev.0 + 1, Some((index + 1) as usize), prev.2.push(index + 1))
            } else {
                prev
            },
            Some((SignalAction::Sell, _)) => if prev.0 > 0 && index + 1 < n_candles {
                (0, prev.1, prev.2)
            } else {
                prev
            },
            _ => prev,
        }
    }
}

/// Over a whole run the policy holds at every step: the open lots never exceed the
/// maximum (so with a maximum of 1 at most one lot is ever open), entry fills come in
/// increasing order, and consecutive entry fills lie at least `cooldown_bars` bars apart
/// (so with a cooldown of 3, Buy signals one bar apart never both fill).
pub proof fn lemma_run_respects_policy(
    policy: RiskPolicyConfig,
    n_candles: int,
    events: Seq<Option<(SignalAction, bool)>>,
)
    ensures
        0 <= replay(policy, n_candles, events).0,
        within_entry_limit(replay(policy, n_candles, events).0, policy),
        replay(policy, n_candles, events).2.len() == 0 ==> replay(policy, n_candles, events).1 is None,
        replay(policy, n_candles, events).2.len() > 0 ==> replay(policy, n_candles, events).1 == Some(
            replay(policy, n_candles, events).2.last() as usize,
        ),
        forall|j: int|
            0 <= j < replay(policy, n_candles, events).2.len() ==> 1 <= #[trigger] replay(
                policy,
                n_candles,
                events,
            ).2[j] <= events.len(),
        forall|j: int|
            0 <= j < replay(policy, n_candles, events).2.len() - 1 ==> #[trigger] replay(
                policy,
                n_candles,
                events,
            ).2[j] + policy.cooldown_bars <= replay(policy, n_candles, events).2[j + 1]
                && replay(policy, n_candles, events).2[j] < replay(policy, n_candles, events).2[j
                + 1],
    decreases events.len(),
{
    if events.len() > 0 {
        lemma_run_respects_policy(policy, n_candles, events.drop_last());
        let prev = replay(policy, n_candles, events.drop_last());
        let now = replay(policy, n_candles, events);
        if now.2.len() > prev.2.len() {
            assert(now.2 == prev.2.push(events.len() as int));
            assert forall|j: int| 0 <= j < now.2.len() - 1 implies #[trigger] now.2[j]
                + policy.cooldown_bars <= now.2[j + 1] && now.2[j] < now.2[j + 1] by {
                if j < prev.2.len() - 1 {
                    assert(now.2[j] == prev.2[j] && now.2[j + 1] == prev.2[j + 1]);
                } else {
                    assert(now.2[j] == prev.2.last());
                }
            }
            assert forall|j: int| 0 <= j < now.2.len() implies 1 <= #[trigger] now.2[j]
                <= events.len() by {
                if j < prev.2.len() {
                    assert(now.2[j] == prev.2[j]);
                }
            }
        } else {
            assert(now.2 == prev.2);
        }
    }
}

/// The position of the first model configured under `name`, searching from `start`.
pub open spec fn model_index(models: Seq<TradingModelConfig>, name: Seq<char>, start: int) -> Option<int>
    decreases models.len() - start,
{
    if start < 0 || start >= models.len() {
        None
    } else if models[start].name@ == name {
        Some(start)
    } else {
        model_index(models, name, start + 1)
    }
}

/// Picks the model a backtest runs: the default model when none is configured, else the
/// first configured under `name`.
pub fn find_model(models: &Vec<TradingModelConfig>, name: &str) -> (r: Result<ModelSpec, String>)
    ensures
        models@.len() == 0 ==> (r matches Ok(m) && m.name@ == "rsi_reversion_default"@
            && m.kind is RsiReversion && model_inputs(m) == seq!["rsi_14"@]),
        models@.len() > 0 ==> match model_index(models@, name@, 0) {
            None => r matches Err(msg) && msg@ == "model not found: "@ + name@,
            Some(k) => (r is Ok <==> requested_model_inputs(models@[k]) is Some) && (r matches Ok(
                m,
            ) ==> m.name@ == models@[k].name@ && requested_model_inputs(models@[k]) == Some(
                model_inputs(m),
            )),
        },
{
    if models.len() == 0 {
        return Ok(build_default_model());
    }
    let mut i: usize = 0;
    while i < models.len()
        invariant
            i <= models@.len(),
            model_index(models@, name@, 0) == model_index(models@, name@, i as int),
        decreases models@.len() - i,
    {
        if same_text(models[i].name.as_str(), name) {
            return build_model(&models[i]);
        }
        i = i + 1;
    }
    Err(joined("model not found: ", name))
}

/// A history accepted by `check_history` is long enough for every input.
pub proof fn lemma_accepted_history_feeds_every_input(inputs: Seq<SignalInput>, n_candles: int)
    requires
        n_candles >= max_required(inputs),
    ensures
        forall|k: int|
            0 <= k < inputs.len() ==> (#[trigger] inputs[k]).source.spec_required() <= n_candles,
{
    assert forall|k: int| 0 <= k < inputs.len() implies (#[trigger] inputs[k]).source.spec_required()
        <= n_candles by {
        lemma_max_required_bounds_each(inputs, k);
    }
}

/// Some built input is named `name`.
pub open spec fn input_built(inputs: Seq<SignalInput>, name: Seq<char>) -> bool {
    exists|i: int| 0 <= i < inputs.len() && (#[trigger] inputs[i]).name@ == name
}

/// Every input that `model` reads has been built.
pub open spec fn model_inputs_built(model: ModelSpec, inputs: Seq<SignalInput>) -> bool {
    forall|k: int|
        0 <= k < model_inputs(model).len() ==> input_built(inputs, #[trigger] model_inputs(model)[k])
}

pub open spec fn missing_input_message(model: ModelSpec, input: Seq<char>) -> Seq<char> {
    "model "@ + model.name@ + " reads unknown input \""@ + input + "\""@
}

/// Checks, before any simulation work, that every input the model reads has been built;
/// the first missing one is reported.
pub fn check_model_inputs(model: &ModelSpec, inputs: &Vec<SignalInput>) -> (r: Result<(), String>)
    ensures
        r is Ok <==> model_inputs_built(*model, inputs@),
        r matches Err(m) ==> exists|k: int|
            0 <= k < model_inputs(*model).len() && (forall|j: int|
                0 <= j < k ==> input_built(inputs@, #[trigger] model_inputs(*model)[j]))
                && !input_built(inputs@, model_inputs(*model)[k]) && m@ == missing_input_message(
                *model,
                model_inputs(*model)[k],
            ),
{
    let required = model.required_inputs();
    let mut k: usize = 0;
    while k < required.len()
        invariant
            k <= required@.len(),
            required@.len() == model_inputs(*model).len(),
            forall|x: int| 0 <= x < required@.len() ==> (#[trigger] required@[x])@ == model_inputs(*model)[x],
            forall|j: int| 0 <= j < k ==> input_built(inputs@, #[trigger] model_inputs(*model)[j]),
        decreases required@.len() - k,
    {
        let name = required[k].as_str();
        let mut found = false;
        let mut i: usize = 0;
        while i < inputs.len()
            invariant
                i <= inputs@.len(),
                found <==> exists|x: int| 0 <= x < i && (#[trigger] inputs@[x]).name@ == name@,
            decreases inputs@.len() - i,
        {
            if same_text(inputs[i].name(), name) {
                found = true;
            }
            i = i + 1;
        }
        if !found {
            let mut message = String::from_str("model ");
            message.append(model.name());
            message.append(" reads unknown input \"");
            message.append(name);
            message.append("\"");
            assert(required@[k as int]@ == model_inputs(*model)[k as int]);
            return Err(message);
        }
        assert(required@[k as int]@ == model_inputs(*model)[k as int]);
        k = k + 1;
    }
    Ok(())
}

/// A backtest needs at least two candles: one to decide on and one to fill at.
pub fn check_candle_count(n_candles: usize) -> (r: Result<(), String>)
    ensures
        r is Ok <==> n_candles >= 2,
        r matches Err(m) ==> m@ == "backtest requires at least 2 candles"@,
{
    if n_candles < 2 {
        return Err(String::from_str("backtest requires at least 2 candles"));
    }
    Ok(())
}

/// The history must cover the largest requirement among the inputs.
pub fn check_history(n_candles: usize, inputs: &Vec<SignalInput>) -> (r: Result<(), String>)
    ensures
        r is Ok <==> n_candles >= max_required(inputs@),
        r matches Err(m) ==> m@ == "insufficient candles: need at least "@ + decimal(
            max_required(inputs@) as nat,
        ) + ", got "@ + decimal(n_candles as nat),
{
    let max_required = max_required_candles(inputs);
    if n_candles < max_required {
        let mut message = String::from_str("insufficient candles: need at least ");
        push_decimal(&mut message, max_required);
        message.append(", got ");
        push_decimal(&mut message, n_candles);
        return Err(message);
    }
    Ok(())
}

} // verus!
