//! Session usage counters: API and tool time, code changes, and tokens per
//! model. Money amounts are kept by the caller.

use vstd::prelude::*;
use crate::text::{decimal_seq, str_eq, u64_to_string};

verus! {

/// Tokens used with one model.
#[derive(Clone, Copy, Debug, PartialEq, Eq, Structural)]
pub struct ModelTokens {
    pub input_tokens: u64,
    pub output_tokens: u64,
}

/// The session's usage counters.
pub struct CostCounters {
    pub total_api_duration_ms: u64,
    pub total_tool_duration_ms: u64,
    pub total_lines_added: u64,
    pub total_lines_removed: u64,
    pub model_usage: Vec<(String, ModelTokens)>,
    pub session_id: String,
}

/// Index of `model` in the usage list, if present.
pub open spec fn model_index(u: Seq<(Seq<char>, ModelTokens)>, model: Seq<char>) -> Option<int> {
    if exists|i: int| 0 <= i < u.len() && #[trigger] u[i].0 == model {
        Some(choose|i: int| 0 <= i < u.len() && #[trigger] u[i].0 == model)
    } else {
        None
    }
}

/// The usage list after `input` and `output` more tokens with `model`; a
/// model seen for the first time is added at the end.
pub open spec fn usage_after(u: Seq<(Seq<char>, ModelTokens)>, model: Seq<char>, input: u64, output: u64) -> Seq<(Seq<char>, ModelTokens)> {
    match model_index(u, model) {
        Some(i) => u.update(i, (model, ModelTokens {
            input_tokens: (u[i].1.input_tokens + input) as u64,
            output_tokens: (u[i].1.output_tokens + output) as u64,
        })),
        None => u.push((model, ModelTokens { input_tokens: input, output_tokens: output })),
    }
}

/// No model is listed twice.
pub open spec fn distinct_models(u: Seq<(Seq<char>, ModelTokens)>) -> bool {
    forall|i: int, j: int| 0 <= i < u.len() && 0 <= j < u.len() && i != j ==> u[i].0 != u[j].0
}

/// The counts of one more API call with `model` fit in 64 bits.
pub open spec fn api_usage_fits(u: Seq<(Seq<char>, ModelTokens)>, model: Seq<char>, input: u64, output: u64) -> bool {
    match model_index(u, model) {
        Some(i) => u[i].1.input_tokens + input <= u64::MAX && u[i].1.output_tokens + output <= u64::MAX,
        None => true,
    }
}

/// The summary line of the code changes.
pub open spec fn code_changes_line(added: nat, removed: nat) -> Seq<char> {
    "Total code changes:    "@ + decimal_seq(added) + " lines added, "@ + decimal_seq(removed) + " lines removed\n"@
}

/// The summary line of one model; `cost` is the amount already written out.
pub open spec fn model_line(model: Seq<char>, t: ModelTokens, cost: Seq<char>) -> Seq<char> {
    "  "@ + model + ": "@ + decimal_seq(t.input_tokens as nat) + " input, "@ + decimal_seq(t.output_tokens as nat)
        + " output ($"@ + cost + ")\n"@
}

/// The summary line when no model was used.
pub const NO_MODEL_USAGE: &'static str = "  0 input, 0 output, 0 cache read, 0 cache write";

impl CostCounters {
    /// Tokens per model, in the order the models were first used.
    pub closed spec fn usage(&self) -> Seq<(Seq<char>, ModelTokens)> {
        self.model_usage@.map_values(|e: (String, ModelTokens)| (e.0@, e.1))
    }

    /// Well-formed: every model is listed once.
    pub open spec fn wf(&self) -> bool {
        distinct_models(self.usage())
    }

    /// Counters at zero for session `session_id`.
    pub fn new(session_id: String) -> (r: CostCounters)
        ensures
            r.wf(),
            r.session_id@ == session_id@,
            r.total_api_duration_ms == 0,
            r.total_tool_duration_ms == 0,
            r.total_lines_added == 0,
            r.total_lines_removed == 0,
            r.usage() == Seq::<(Seq<char>, ModelTokens)>::empty(),
    {
        let r = CostCounters {
            total_api_duration_ms: 0,
            total_tool_duration_ms: 0,
            total_lines_added: 0,
            total_lines_removed: 0,
            model_usage: Vec::new(),
            session_id,
        };
        assert(r.usage() =~= Seq::<(Seq<char>, ModelTokens)>::empty());
        r
    }

    /// Counts one API call with `model`: its tokens and its duration.
    pub fn add_api_usage(&mut self, model: &str, input_tokens: u64, output_tokens: u64, duration_ms: u64)
        requires
            old(self).wf(),
            old(self).total_api_duration_ms + duration_ms <= u64::MAX,
            api_usage_fits(old(self).usage(), model@, input_tokens, output_tokens),
        ensures
            final(self).wf(),
            final(self).total_api_duration_ms == old(self).total_api_duration_ms + duration_ms,
            final(self).total_tool_duration_ms == old(self).total_tool_duration_ms,
            final(self).total_lines_added == old(self).total_lines_added,
            final(self).total_lines_removed == old(self).total_lines_removed,
            final(self).session_id == old(self).session_id,
            final(self).usage() == usage_after(old(self).usage(), model@, input_tokens, output_tokens),
    {
        self.total_api_duration_ms = self.total_api_duration_ms + duration_ms;
        let ghost u = self.usage();
        let mut i: usize = 0;
        while i < self.model_usage.len()
            invariant
                i <= self.model_usage.len(),
                u == self.usage(),
                u == old(self).usage(),
                self.total_api_duration_ms == old(self).total_api_duration_ms + duration_ms,
                self.total_tool_duration_ms == old(self).total_tool_duration_ms,
                self.total_lines_added == old(self).total_lines_added,
                self.total_lines_removed == old(self).total_lines_removed,
                self.session_id == old(self).session_id,
                distinct_models(u),
                api_usage_fits(u, model@, input_tokens, output_tokens),
                forall|j: int| 0 <= j < i ==> u[j].0 != model@,
            decreases self.model_usage.len() - i,
        {
            if str_eq(self.model_usage[i].0.as_str(), model) {
                assert(u[i as int].0 == model@);
                assert(model_index(u, model@) == Some(i as int)) by {
                    let c = choose|j: int| 0 <= j < u.len() && #[trigger] u[j].0 == model@;
                    assert(c == i);
                }
                let t = self.model_usage[i].1;
                let name = self.model_usage[i].0.clone();
                let ghost old_vec = self.model_usage@;
                let nt = ModelTokens {
                    input_tokens: t.input_tokens + input_tokens,
                    output_tokens: t.output_tokens + output_tokens,
                };
                self.model_usage.set(i, (name, nt));
                assert forall|j: int| 0 <= j < u.len() implies #[trigger] self.usage()[j] == usage_after(u, model@, input_tokens, output_tokens)[j] by {
                    if j != i {
                        assert(self.model_usage@[j] == old_vec[j]);
                    }
                }
                assert(self.usage() =~= usage_after(u, model@, input_tokens, output_tokens));
                return;
            }
            i = i + 1;
        }
        assert(model_index(u, model@) is None);
        self.model_usage.push((String::from_str(model), ModelTokens { input_tokens, output_tokens }));
        assert(self.usage() =~= usage_after(u, model@, input_tokens, output_tokens));
    }

    /// Counts time spent running a tool.
    pub fn add_tool_duration(&mut self, duration_ms: u64)
        requires
            old(self).total_tool_duration_ms + duration_ms <= u64::MAX,
        ensures
            final(self).total_tool_duration_ms == old(self).total_tool_duration_ms + duration_ms,
            final(self).total_api_duration_ms == old(self).total_api_duration_ms,
            final(self).total_lines_added == old(self).total_lines_added,
            final(self).total_lines_removed == old(self).total_lines_removed,
            final(self).usage() == old(self).usage(),
            final(self).session_id == old(self).session_id,
    {
        self.total_tool_duration_ms = self.total_tool_duration_ms + duration_ms;
    }

    /// Counts lines added and removed by an edit.
    pub fn add_code_changes(&mut self, lines_added: u64, lines_removed: u64)
        requires
            old(self).total_lines_added + lines_added <= u64::MAX,
            old(self).total_lines_removed + lines_removed <= u64::MAX,
        ensures
            final(self).total_lines_added == old(self).total_lines_added + lines_added,
            final(self).total_lines_removed == old(self).total_lines_removed + lines_removed,
            final(self).total_api_duration_ms == old(self).total_api_duration_ms,
            final(self).total_tool_duration_ms == old(self).total_tool_duration_ms,
            final(self).usage() == old(self).usage(),
            final(self).session_id == old(self).session_id,
    {
        self.total_lines_added = self.total_lines_added + lines_added;
        self.total_lines_removed = self.total_lines_removed + lines_removed;
    }

    /// The tokens used with `model`, if it was used.
    pub fn model_tokens(&self, model: &str) -> (r: Option<ModelTokens>)
        requires
            self.wf(),
        ensures
            r == (match model_index(self.usage(), model@) {
                Some(i) => Some(self.usage()[i].1),
                None => None,
            }),
    {
        let ghost u = self.usage();
        let mut i: usize = 0;
        while i < self.model_usage.len()
            invariant
                i <= self.model_usage.len(),
                u == self.usage(),
                distinct_models(u),
                forall|j: int| 0 <= j < i ==> u[j].0 != model@,
            decreases self.model_usage.len() - i,
        {
            if str_eq(self.model_usage[i].0.as_str(), model) {
                assert(u[i as int].0 == model@);
                assert(model_index(u, model@) == Some(i as int)) by {
                    let c = choose|j: int| 0 <= j < u.len() && #[trigger] u[j].0 == model@;
                    assert(c == i);
                }
                return Some(self.model_usage[i].1);
            }
            i = i + 1;
        }
        None
    }

    /// The models used, in the order they were first used.
    pub fn models(&self) -> (r: Vec<String>)
        ensures
            r.deep_view() == self.usage().map_values(|e: (Seq<char>, ModelTokens)| e.0),
    {
        let ghost u = self.usage();
        let mut r: Vec<String> = Vec::new();
        let mut i: usize = 0;
        while i < self.model_usage.len()
            invariant
                i <= self.model_usage.len(),
                u == self.usage(),
                r.len() == i,
                r.deep_view() == u.take(i as int).map_values(|e: (Seq<char>, ModelTokens)| e.0),
            decreases self.model_usage.len() - i,
        {
            let name = self.model_usage[i].0.clone();
            let ghost before = r@;
            let ghost before_dv = r.deep_view();
            let ghost nv = name@;
            r.push(name);
            assert forall|j: int| 0 <= j < i + 1 implies #[trigger] r.deep_view()[j] == u.take(i + 1).map_values(|e: (Seq<char>, ModelTokens)| e.0)[j] by {
                if j < i {
                    assert(r@[j] == before[j]);
                    assert(before_dv[j] == u.take(i as int).map_values(|e: (Seq<char>, ModelTokens)| e.0)[j]);
                } else {
                    assert(r@[j]@ == nv);
                }
            }
            assert(r.deep_view() =~= u.take(i + 1).map_values(|e: (Seq<char>, ModelTokens)| e.0));
            i = i + 1;
        }
        assert(u.take(u.len() as int) =~= u);
        r
    }

    /// The summary line of the code changes.
    pub fn code_changes_summary(&self) -> (r: String)
        ensures
            r@ == code_changes_line(self.total_lines_added as nat, self.total_lines_removed as nat),
    {
        let mut s = String::from_str("Total code changes:    ");
        s.append(u64_to_string(self.total_lines_added).as_str());
        s.append(" lines added, ");
        s.append(u64_to_string(self.total_lines_removed).as_str());
        s.append(" lines removed\n");
        s
    }
}

/// The summary line of `model`; `cost` is its amount, already written out.
pub fn model_summary_line(model: &str, t: ModelTokens, cost: &str) -> (r: String)
    ensures
        r@ == model_line(model@, t, cost@),
{
    let mut s = String::from_str("  ");
    s.append(model);
    s.append(": ");
    s.append(u64_to_string(t.input_tokens).as_str());
    s.append(" input, ");
    s.append(u64_to_string(t.output_tokens).as_str());
    s.append(" output ($");
    s.append(cost);
    s.append(")\n");
    s
}

} // verus!
