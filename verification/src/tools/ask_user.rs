//! The tool that asks the user multiple-choice questions.

use vstd::prelude::*;
use crate::text::{join_seq, join_strings};

verus! {

/// One choice of a question.
pub struct QuestionOption {
    pub label: String,
    pub description: String,
    pub preview: Option<String>,
}

/// One question with its choices.
pub struct Question {
    pub question: String,
    pub header: String,
    pub options: Vec<QuestionOption>,
    pub multi_select: bool,
}

/// Arguments of the question tool.
pub struct AskUserQuestionArgs {
    pub questions: Vec<Question>,
}

/// The answer recorded for one question: its first choice is taken.
pub open spec fn answer_of(q: Question) -> Seq<char> {
    "\""@ + q.question@ + "\"=\""@
        + (if q.options@.len() > 0 { q.options@[0].label@ } else { "No options provided"@ })
        + "\""@
}

/// The reply to the questions.
pub open spec fn answers_reply(qs: Seq<Question>) -> Seq<char> {
    "User has answered your questions: "@ + join_seq(qs.map_values(|q: Question| answer_of(q)), ", "@)
        + ". You can now continue with the user's answers in mind."@
}

/// Schema of the question tool's arguments (JSON text).
pub const ASK_USER_SCHEMA: &'static str = "{\"type\":\"object\",\"properties\":{\"questions\":{\"type\":\"array\",\"description\":\"Questions to ask the user (1-4 questions)\",\"minItems\":1,\"maxItems\":4,\"items\":{\"type\":\"object\",\"properties\":{\"question\":{\"type\":\"string\",\"description\":\"The complete question to ask the user. Should be clear, specific, and end with a question mark.\"},\"header\":{\"type\":\"string\",\"description\":\"Very short label displayed as a chip/tag (max 12 chars). Examples: 'Auth method', 'Library'.\"},\"options\":{\"type\":\"array\",\"description\":\"The available choices for this question. Must have 2-4 options.\",\"minItems\":2,\"maxItems\":4,\"items\":{\"type\":\"object\",\"properties\":{\"label\":{\"type\":\"string\",\"description\":\"The display text for this option that the user will see and select.\"},\"description\":{\"type\":\"string\",\"description\":\"Explanation of what this option means or what will happen if chosen.\"},\"preview\":{\"type\":\"string\",\"description\":\"Optional preview content rendered when this option is focused.\"}},\"required\":[\"label\",\"description\"]}},\"multiSelect\":{\"type\":\"boolean\",\"description\":\"Set to true to allow the user to select multiple options instead of just one.\"}},\"required\":[\"question\",\"header\",\"options\"]}}},\"required\":[\"questions\"]}";

/// Asks the user multiple-choice questions (the first choice stands in for
/// the user's pick).
pub struct AskUserQuestionTool;

impl AskUserQuestionTool {
    pub fn new() -> Self {
        AskUserQuestionTool
    }

    pub fn name(&self) -> (r: &'static str)
        ensures
            r@ == "AskUserQuestion"@,
    {
        "AskUserQuestion"
    }

    pub fn description(&self) -> (r: &'static str)
        ensures
            r@ == "Asks the user multiple choice questions to gather information, clarify ambiguity, understand preferences, make decisions or offer them choices."@,
    {
        "Asks the user multiple choice questions to gather information, clarify ambiguity, understand preferences, make decisions or offer them choices."
    }

    pub fn input_schema(&self) -> (r: &'static str)
        ensures
            r@ == ASK_USER_SCHEMA@,
    {
        ASK_USER_SCHEMA
    }

    /// Answers every question with its first choice; no questions is an error.
    pub fn execute(&self, args: &AskUserQuestionArgs) -> (r: Result<String, String>)
        ensures
            args.questions@.len() == 0 ==> r is Err && r->Err_0@ == "At least one question must be provided"@,
            args.questions@.len() > 0 ==> r is Ok && r->Ok_0@ == answers_reply(args.questions@),
    {
        if args.questions.len() == 0 {
            return Err(String::from_str("At least one question must be provided"));
        }
        let ghost qs = args.questions@;
        let mut parts: Vec<String> = Vec::new();
        let mut i: usize = 0;
        while i < args.questions.len()
            invariant
                i <= args.questions.len(),
                qs == args.questions@,
                parts.len() == i,
                parts.deep_view() == qs.take(i as int).map_values(|q: Question| answer_of(q)),
            decreases args.questions.len() - i,
        {
            let q = &args.questions[i];
            let mut s = String::from_str("\"");
            s.append(q.question.as_str());
            s.append("\"=\"");
            if q.options.len() > 0 {
                s.append(q.options[0].label.as_str());
            } else {
                s.append("No options provided");
            }
            s.append("\"");
            assert(s@ == answer_of(qs[i as int]));
            let ghost before = parts@;
            let ghost before_dv = parts.deep_view();
            let ghost sv = s@;
            parts.push(s);
            assert forall|j: int| 0 <= j < i + 1 implies #[trigger] parts.deep_view()[j] == qs.take(i + 1).map_values(|q: Question| answer_of(q))[j] by {
                if j < i {
                    assert(parts@[j] == before[j]);
                    assert(before_dv[j] == qs.take(i as int).map_values(|q: Question| answer_of(q))[j]);
                } else {
                    assert(parts@[j]@ == sv);
                }
            }
            assert(parts.deep_view() =~= qs.take(i + 1).map_values(|q: Question| answer_of(q)));
            i = i + 1;
        }
        assert(qs.take(qs.len() as int) =~= qs);
        let joined = join_strings(&parts, ", ");
        let mut r = String::from_str("User has answered your questions: ");
        r.append(joined.as_str());
        r.append(". You can now continue with the user's answers in mind.");
        Ok(r)
    }
}

} // verus!
