//! The react loop: the model calls tools until it calls `finish`, answers in
//! plain text, or runs out of turns. The caller makes the model calls and
//! runs the tools that do input or output; the loop decides the rest.
use vstd::prelude::*;
use vstd::string::StringExecFns;

use crate::json::{json_str_field, str_field};
use crate::patterns::AgentOutput;
use crate::text::{decimal, decimal_text, join, join_strings};
use crate::tools::{build_active_tools, contains_str, spec_active_tool_names, truncate, utf8, views};

verus! {

/// Most bytes of a tool result that the model sees.
pub const MAX_TOOL_RESULT: usize = 12000;

/// What the loop does with one tool call of the model.
#[derive(Debug)]
pub enum ToolAction {
    /// `finish`: the loop ends with this output.
    Finish(AgentOutput),
    /// `start`: the answer is the task.
    Start,
    /// `read_skill`: the answer is the named skill's document, and its tools
    /// are unlocked.
    ReadSkill(String),
    /// Any other tool: it is executed.
    Execute,
}

/// A string argument of a call, or a default when it is missing.
pub open spec fn arg_or(args: serde_json::Value, field: Seq<char>, default: Seq<char>) -> Seq<char> {
    match json_str_field(args, field) {
        Some(s) => s,
        None => default,
    }
}

fn arg_or_exec(args: &serde_json::Value, field: &str, default: &str) -> (r: String)
    ensures
        r@ == arg_or(*args, field@, default@),
{
    match str_field(args, field) {
        Some(s) => s,
        None => default.to_owned(),
    }
}

/// Decides what a tool call does: `finish` ends the loop with its `key`
/// (default `done`) and `value` (default empty), `start` answers with the
/// task, `read_skill` loads the skill named by `name`, and every other tool
/// is executed.
pub fn classify_call(name: &str, args: &serde_json::Value) -> (a: ToolAction)
    ensures
        name@ == "finish"@ ==> (a matches ToolAction::Finish(o) && o.key@ == arg_or(
            *args,
            "key"@,
            "done"@,
        ) && o.value@ == arg_or(*args, "value"@, ""@) && o.span_id@ == Seq::<char>::empty()),
        name@ == "start"@ ==> a is Start,
        name@ == "read_skill"@ ==> (a matches ToolAction::ReadSkill(n) && n@ == arg_or(
            *args,
            "name"@,
            ""@,
        )),
        name@ != "finish"@ && name@ != "start"@ && name@ != "read_skill"@ ==> a is Execute,
{
    proof {
        reveal_strlit("finish");
        reveal_strlit("start");
        reveal_strlit("read_skill");
        assert("start"@.len() != "finish"@.len());
        assert("read_skill"@.len() != "finish"@.len());
        assert("read_skill"@.len() != "start"@.len());
    }
    if crate::text::str_eq(name, "finish") {
        let key = arg_or_exec(args, "key", "done");
        let value = arg_or_exec(args, "value", "");
        ToolAction::Finish(AgentOutput { key, value, span_id: String::new() })
    } else if crate::text::str_eq(name, "start") {
        ToolAction::Start
    } else if crate::text::str_eq(name, "read_skill") {
        ToolAction::ReadSkill(arg_or_exec(args, "name", ""))
    } else {
        ToolAction::Execute
    }
}

/// The answer a tool call gets when it fails.
pub fn error_result(message: &str) -> (r: String)
    ensures
        r@ == "[error: "@ + message@ + "]"@,
{
    let mut r = String::from_str("[error: ");
    r.append(message);
    r.append("]");
    r
}

/// The items of `tools` that are not in `unlocked` and not earlier in `tools`.
pub open spec fn newly_unlocked(unlocked: Seq<Seq<char>>, tools: Seq<Seq<char>>) -> Seq<Seq<char>>
    decreases tools.len(),
{
    if tools.len() == 0 {
        Seq::empty()
    } else {
        let before = newly_unlocked(unlocked, tools.drop_last());
        if unlocked.contains(tools.last()) || before.contains(tools.last()) {
            before
        } else {
            before.push(tools.last())
        }
    }
}

/// The state of a react loop.
#[derive(Debug)]
pub struct ReactLoop {
    pub max_iter: u32,
    /// Model calls made so far.
    pub iter: u32,
    /// The tools unlocked by reading skills, each once, in unlock order.
    pub unlocked: Vec<String>,
    /// What the tools answered in the last turn, shown before the next call.
    pub prev_tool_results: String,
    /// What the tools answered so far in this turn.
    pub turn_results: Vec<String>,
}

/// The record of one tool call in a turn's results.
pub open spec fn spec_call_record(name: Seq<char>, args: Seq<char>, result: Seq<char>) -> Seq<char> {
    name + "("@ + args + ") →\n"@ + result
}

/// The step name of a model call (counted from 1).
pub open spec fn spec_step_name(iter: u32) -> Seq<char> {
    "react_"@ + decimal(iter as nat + 1)
}

/// The error of a loop that ran out of turns.
pub open spec fn spec_exhausted_error(max_iter: u32) -> Seq<char> {
    "react agent reached max_iter ("@ + decimal(max_iter as nat)
        + ") without calling finish"@
}

impl ReactLoop {
    /// The loop makes at most `max_iter` model calls and unlocks each tool once.
    pub open spec fn wf(&self) -> bool {
        &&& self.iter <= self.max_iter
        &&& views(self.unlocked@).no_duplicates()
    }

    /// A loop that has made no call and unlocked no tool.
    pub fn new(max_iter: u32) -> (r: Self)
        ensures
            r.wf(),
            r.max_iter == max_iter,
            r.iter == 0,
            r.unlocked.len() == 0,
            r.prev_tool_results@ == Seq::<char>::empty(),
            r.turn_results.len() == 0,
    {
        let r = ReactLoop {
            max_iter,
            iter: 0,
            unlocked: Vec::new(),
            prev_tool_results: String::new(),
            turn_results: Vec::new(),
        };
        assert(views(r.unlocked@) =~= Seq::<Seq<char>>::empty());
        r
    }

    /// Whether another model call may be made.
    pub fn can_call(&self) -> (b: bool)
        ensures
            b == (self.iter < self.max_iter),
    {
        self.iter < self.max_iter
    }

    /// The step name of the next model call: `react_{n}`.
    pub fn step_name(&self) -> (s: String)
        ensures
            s@ == spec_step_name(self.iter),
    {
        let mut s = String::from_str("react_");
        let n = decimal_text(self.iter as u64 + 1);
        s.append(n.as_str());
        s
    }

    /// The error of a loop that ran out of turns without `finish`.
    pub fn exhausted_error(&self) -> (s: String)
        ensures
            s@ == spec_exhausted_error(self.max_iter),
    {
        let mut s = String::from_str("react agent reached max_iter (");
        let n = decimal_text(self.max_iter as u64);
        s.append(n.as_str());
        s.append(") without calling finish");
        s
    }

    /// The tools offered to the model in the next call.
    pub fn active_tools(&self, uses: &[String], extra: &[String]) -> (r: Vec<String>)
        ensures
            views(r@) == spec_active_tool_names(views(uses@), views(self.unlocked@), views(extra@)),
    {
        build_active_tools(uses, &self.unlocked, extra)
    }

    /// Unlocks the tools of a skill that was read; gives back the ones that
    /// were not unlocked before, in the skill's order.
    pub fn unlock(&mut self, tools: &Vec<String>) -> (newly: Vec<String>)
        requires
            old(self).wf(),
        ensures
            final(self).wf(),
            views(newly@) == newly_unlocked(views(old(self).unlocked@), views(tools@)),
            views(final(self).unlocked@) == views(old(self).unlocked@) + views(newly@),
            final(self).iter == old(self).iter,
            final(self).max_iter == old(self).max_iter,
            final(self).prev_tool_results == old(self).prev_tool_results,
            final(self).turn_results == old(self).turn_results,
    {
        let ghost base = views(self.unlocked@);
        let mut newly: Vec<String> = Vec::new();
        let mut i: usize = 0;
        while i < tools.len()
            invariant
                i <= tools.len(),
                self.iter <= self.max_iter,
                views(newly@) == newly_unlocked(base, views(tools@).take(i as int)),
                views(self.unlocked@) == base + views(newly@),
                views(self.unlocked@).no_duplicates(),
                self.iter == old(self).iter,
                self.max_iter == old(self).max_iter,
                self.prev_tool_results == old(self).prev_tool_results,
                self.turn_results == old(self).turn_results,
            decreases tools.len() - i,
        {
            let ghost t = views(tools@).take(i + 1);
            assert(t.drop_last() =~= views(tools@).take(i as int));
            assert(t.last() == tools@[i as int]@);
            let name = tools[i].as_str();
            let present = contains_str(&self.unlocked, name);
            proof {
                if !present {
                    assert(!base.contains(t.last()) && !views(newly@).contains(t.last())) by {
                        if base.contains(t.last()) {
                            let k = choose|k: int| 0 <= k < base.len() && base[k] == t.last();
                            assert(views(self.unlocked@)[k] == t.last());
                        }
                        if views(newly@).contains(t.last()) {
                            let k = choose|k: int|
                                0 <= k < views(newly@).len() && views(newly@)[k] == t.last();
                            assert(views(self.unlocked@)[base.len() + k] == t.last());
                        }
                    }
                } else {
                    let k = choose|k: int|
                        0 <= k < views(self.unlocked@).len() && views(self.unlocked@)[k] == t.last();
                    if k < base.len() {
                        assert(base[k] == t.last());
                    } else {
                        assert(views(newly@)[k - base.len()] == t.last());
                    }
                }
            }
            if !present {
                let ghost before_u = views(self.unlocked@);
                let ghost before_n = views(newly@);
                let n1 = tools[i].clone();
                let n2 = tools[i].clone();
                self.unlocked.push(n1);
                newly.push(n2);
                proof {
                    assert(views(self.unlocked@) =~= before_u.push(t.last()));
                    assert(views(newly@) =~= before_n.push(t.last()));
                    assert(views(self.unlocked@) =~= base + views(newly@));
                }
            }
            i += 1;
        }
        assert(views(tools@).take(tools.len() as int) =~= views(tools@));
        newly
    }

    /// Records what a tool answered, cut to `MAX_TOOL_RESULT` bytes; gives
    /// back the answer the model sees.
    pub fn record_result(&mut self, name: &str, args_text: &str, result: String) -> (seen: String)
        requires
            old(self).wf(),
            utf8(result@).len() <= usize::MAX,
            utf8(result@).len() <= MAX_TOOL_RESULT || vstd::utf8::is_char_boundary(
                utf8(result@),
                MAX_TOOL_RESULT as int,
            ),
        ensures
            final(self).wf(),
            utf8(result@).len() <= MAX_TOOL_RESULT ==> seen@ == result@,
            utf8(result@).len() > MAX_TOOL_RESULT ==> utf8(seen@) == utf8(result@).take(
                MAX_TOOL_RESULT as int,
            ),
            views(final(self).turn_results@) == views(old(self).turn_results@).push(
                spec_call_record(name@, args_text@, seen@),
            ),
            final(self).iter == old(self).iter,
            final(self).max_iter == old(self).max_iter,
            final(self).unlocked == old(self).unlocked,
            final(self).prev_tool_results == old(self).prev_tool_results,
    {
        let seen = truncate(result, MAX_TOOL_RESULT);
        let mut rec = name.to_owned();
        rec.append("(");
        rec.append(args_text);
        rec.append(") →\n");
        rec.append(seen.as_str());
        let ghost before = views(self.turn_results@);
        self.turn_results.push(rec);
        assert(views(self.turn_results@) =~= before.push(rec@));
        seen
    }

    /// Ends a turn of tool calls: the turn's results become what the next
    /// call shows, and the turn counts as one model call.
    pub fn end_turn(&mut self)
        requires
            old(self).wf(),
            old(self).iter < old(self).max_iter,
        ensures
            final(self).wf(),
            final(self).iter == old(self).iter + 1,
            final(self).max_iter == old(self).max_iter,
            final(self).unlocked == old(self).unlocked,
            final(self).prev_tool_results@ == join(views(old(self).turn_results@), "\n\n"@),
            final(self).turn_results.len() == 0,
    {
        self.prev_tool_results = join_strings(&self.turn_results, "\n\n");
        self.turn_results = Vec::new();
        self.iter = self.iter + 1;
    }
}

/// The output of a model that answered in plain text, without tool calls:
/// it counts as `finish(key="done", value=text)`.
pub fn plain_text_output(text: String) -> (o: AgentOutput)
    ensures
        o.key@ == "done"@,
        o.value == text,
        o.span_id@ == Seq::<char>::empty(),
{
    AgentOutput { key: String::from_str("done"), value: text, span_id: String::new() }
}

} // verus!
