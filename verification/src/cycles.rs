//! The loops of the reflexion and plan-execute patterns: what each round
//! reads, and when the loop stops.
use vstd::prelude::*;
use vstd::string::StringExecFns;

use crate::json::{json_parse_strings, parse_strings};
use crate::patterns::AgentOutput;
use crate::text::{
    chars_of, first_index, first_index_of, join, join_strings, last_index, last_index_of, lines,
    lines_of, starts_with, starts_with_str, string_from_range, trim, trim_start, trim_start_str,
    trim_str,
};
use crate::tools::views;

verus! {

// ── reflexion ────────────────────────────────────────────────────────────────

/// Where a reflexion loop stands.
#[derive(Debug, Clone, Copy, PartialEq, Eq)]
pub enum ReflexionPhase {
    /// The actor runs next.
    Act,
    /// The reflector judges the actor's last result next.
    Reflect,
    /// The loop is over; the last result is the answer.
    Finished,
}

/// The state of a reflexion loop: act → reflect → act … until the reflector
/// is satisfied or `max_iter` acts have run.
#[derive(Debug)]
pub struct Reflexion {
    pub max_iter: u32,
    /// Rounds done so far (the current act counts from 0).
    pub iter: u32,
    pub last_result: String,
    pub feedback: String,
    pub phase: ReflexionPhase,
}

/// What the actor reads: the task, or once there is feedback the task with
/// the previous attempt and the feedback on it.
pub open spec fn spec_actor_input(input: Seq<char>, last: Seq<char>, feedback: Seq<char>) -> Seq<
    char,
> {
    if feedback.len() == 0 {
        input
    } else {
        "Original task: "@ + input + "\n\nPrevious attempt:\n"@ + last + "\n\nFeedback:\n"@
            + feedback + "\n\nPlease improve your answer based on this feedback."@
    }
}

/// What the reflector reads: the task and the actor's last result.
pub open spec fn spec_reflect_input(input: Seq<char>, last: Seq<char>) -> Seq<char> {
    "Task: "@ + input + "\n\nResult:\n"@ + last
}

impl Reflexion {
    /// The loop never runs an act beyond its limit, and reflects only when
    /// another act may follow.
    pub open spec fn wf(&self) -> bool {
        &&& self.phase == ReflexionPhase::Act ==> self.iter < self.max_iter
        &&& self.phase == ReflexionPhase::Reflect ==> self.iter + 1 < self.max_iter
    }

    /// How many transitions the loop has left at most.
    pub open spec fn remaining(&self) -> nat {
        match self.phase {
            ReflexionPhase::Finished => 0,
            ReflexionPhase::Act => (2 * (self.max_iter - self.iter)) as nat,
            ReflexionPhase::Reflect => (2 * (self.max_iter - self.iter) - 1) as nat,
        }
    }

    /// A loop that has run nothing yet; with a limit of 0 it is over at once.
    pub fn new(max_iter: u32) -> (r: Self)
        ensures
            r.wf(),
            r.max_iter == max_iter,
            r.iter == 0,
            r.last_result@ == Seq::<char>::empty(),
            r.feedback@ == Seq::<char>::empty(),
            r.phase == if max_iter == 0 {
                ReflexionPhase::Finished
            } else {
                ReflexionPhase::Act
            },
    {
        Reflexion {
            max_iter,
            iter: 0,
            last_result: String::new(),
            feedback: String::new(),
            phase: if max_iter == 0 {
                ReflexionPhase::Finished
            } else {
                ReflexionPhase::Act
            },
        }
    }

    /// What the actor reads in this round.
    pub fn actor_input(&self, input: &str) -> (r: String)
        ensures
            r@ == spec_actor_input(input@, self.last_result@, self.feedback@),
    {
        if self.feedback.unicode_len() == 0 {
            input.to_owned()
        } else {
            let mut r = String::from_str("Original task: ");
            r.append(input);
            r.append("\n\nPrevious attempt:\n");
            r.append(self.last_result.as_str());
            r.append("\n\nFeedback:\n");
            r.append(self.feedback.as_str());
            r.append("\n\nPlease improve your answer based on this feedback.");
            r
        }
    }

    /// Takes the actor's result. The last round ends the loop; otherwise the
    /// reflector judges the result next.
    pub fn on_act(&mut self, value: String)
        requires
            old(self).wf(),
            old(self).phase == ReflexionPhase::Act,
        ensures
            final(self).wf(),
            final(self).remaining() < old(self).remaining(),
            final(self).last_result == value,
            final(self).feedback == old(self).feedback,
            final(self).iter == old(self).iter,
            final(self).max_iter == old(self).max_iter,
            final(self).phase == if old(self).iter + 1 >= old(self).max_iter {
                ReflexionPhase::Finished
            } else {
                ReflexionPhase::Reflect
            },
    {
        self.last_result = value;
        if self.iter + 1 >= self.max_iter {
            self.phase = ReflexionPhase::Finished;
        } else {
            self.phase = ReflexionPhase::Reflect;
        }
    }

    /// What the reflector reads in this round.
    pub fn reflect_input(&self, input: &str) -> (r: String)
        ensures
            r@ == spec_reflect_input(input@, self.last_result@),
    {
        let mut r = String::from_str("Task: ");
        r.append(input);
        r.append("\n\nResult:\n");
        r.append(self.last_result.as_str());
        r
    }

    /// Takes the judgement of the reflection step: when it is satisfied the
    /// loop ends; otherwise its answer is the feedback for the next round.
    pub fn on_reflect(&mut self, satisfied: bool, value: String)
        requires
            old(self).wf(),
            old(self).phase == ReflexionPhase::Reflect,
        ensures
            final(self).wf(),
            final(self).remaining() < old(self).remaining(),
            final(self).last_result == old(self).last_result,
            final(self).max_iter == old(self).max_iter,
            satisfied ==> final(self).phase == ReflexionPhase::Finished && final(self).iter == old(
                self,
            ).iter && final(self).feedback == old(self).feedback,
            !satisfied ==> final(self).phase == ReflexionPhase::Act && final(self).iter == old(
                self,
            ).iter + 1 && final(self).feedback == value,
    {
        if satisfied {
            self.phase = ReflexionPhase::Finished;
        } else {
            self.feedback = value;
            self.iter = self.iter + 1;
            self.phase = ReflexionPhase::Act;
        }
    }

    /// The answer of the loop: the actor's last result, with key `done`.
    pub fn output(&self) -> (o: AgentOutput)
        ensures
            o.key@ == "done"@,
            o.value@ == self.last_result@,
            o.span_id@ == Seq::<char>::empty(),
    {
        AgentOutput {
            key: String::from_str("done"),
            value: self.last_result.clone(),
            span_id: String::new(),
        }
    }
}

// ── plan-execute ─────────────────────────────────────────────────────────────

/// Number of plan → execute → verify cycles before a plan-execute agent gives up.
pub const MAX_PLAN_CYCLES: u32 = 3;

/// What the planner reads: the task, and the feedback of the last cycle once
/// there is some.
pub open spec fn spec_plan_input(input: Seq<char>, feedback: Seq<char>) -> Seq<char> {
    if feedback.len() == 0 {
        "Task: "@ + input + "\n\nRespond with a JSON array of step strings only."@
    } else {
        "Task: "@ + input + "\n\nFeedback from previous attempt:\n"@ + feedback
            + "\n\nRevise your plan. Respond with a JSON array of step strings only."@
    }
}

/// What the planner reads.
pub fn plan_input(input: &str, feedback: &str) -> (r: String)
    ensures
        r@ == spec_plan_input(input@, feedback@),
{
    let mut r = String::from_str("Task: ");
    r.append(input);
    if feedback.unicode_len() == 0 {
        r.append("\n\nRespond with a JSON array of step strings only.");
    } else {
        r.append("\n\nFeedback from previous attempt:\n");
        r.append(feedback);
        r.append("\n\nRevise your plan. Respond with a JSON array of step strings only.");
    }
    r
}

/// Whether a line of a plan is a code fence.
pub open spec fn is_fence(l: Seq<char>) -> bool {
    starts_with(trim_start(l), "```"@)
}

/// A plan without its code-fence lines.
pub open spec fn plan_cleaned(text: Seq<char>) -> Seq<char> {
    join(lines(text).filter(|l: Seq<char>| !is_fence(l)), "\n"@)
}

/// The bracketed part of a cleaned plan: from its first `[` to its last `]`.
pub open spec fn plan_brackets(cleaned: Seq<char>) -> Option<(int, int)> {
    match (first_index(cleaned, '['), last_index(cleaned, ']')) {
        (Some(s), Some(e)) => Some((s, e)),
        _ => None,
    }
}

/// The plans on which the parse would slice backwards: the whole is no JSON
/// array of strings, and the last `]` stands more than one character before
/// the first `[`.
pub open spec fn plan_slice_inverted(text: Seq<char>) -> bool {
    let cleaned = plan_cleaned(text);
    &&& json_parse_strings(trim(cleaned)) is None
    &&& plan_brackets(cleaned) matches Some((s, e)) && s > e + 1
}

/// The steps of a plan: the JSON array of strings in it (after dropping
/// code-fence lines), else the JSON array between its first `[` and last
/// `]`, else the whole plan, trimmed, as a single step.
pub open spec fn spec_parse_json_array(text: Seq<char>) -> Seq<Seq<char>> {
    let cleaned = plan_cleaned(text);
    match json_parse_strings(trim(cleaned)) {
        Some(arr) => arr,
        None => match plan_brackets(cleaned) {
            Some((s, e)) => match json_parse_strings(cleaned.subrange(s, e + 1)) {
                Some(arr) => arr,
                None => seq![trim(text)],
            },
            None => seq![trim(text)],
        },
    }
}

/// A plan without its code-fence lines.
fn clean_plan(text: &str) -> (r: String)
    ensures
        r@ == plan_cleaned(text@),
{
    let ls = lines_of(text);
    let ghost all = lines(text@);
    let ghost pred = |l: Seq<char>| !is_fence(l);
    let mut kept: Vec<String> = Vec::new();
    let mut i: usize = 0;
    assert(all.take(0).filter(pred) =~= Seq::<Seq<char>>::empty()) by {
        reveal_with_fuel(Seq::<_>::filter, 1);
    }
    while i < ls.len()
        invariant
            i <= ls.len(),
            views(ls@) == all,
            all == lines(text@),
            pred == (|l: Seq<char>| !is_fence(l)),
            views(kept@) == all.take(i as int).filter(pred),
        decreases ls.len() - i,
    {
        let ghost t = all.take(i + 1);
        assert(t.drop_last() =~= all.take(i as int));
        assert(t.last() == ls@[i as int]@);
        assert(t.filter(pred) == if pred(t.last()) {
            t.drop_last().filter(pred).push(t.last())
        } else {
            t.drop_last().filter(pred)
        }) by {
            reveal_with_fuel(Seq::<_>::filter, 1);
        }
        let head = trim_start_str(ls[i].as_str());
        let fence = starts_with_str(head.as_str(), "```");
        let ghost before = views(kept@);
        if !fence {
            kept.push(ls[i].clone());
            assert(views(kept@) =~= before.push(t.last()));
        }
        i += 1;
    }
    assert(all.take(ls.len() as int) =~= all);
    join_strings(&kept, "\n")
}

/// Reads the steps of a plan (see `spec_parse_json_array`).
pub fn parse_json_array(text: &str) -> (r: Vec<String>)
    requires
        !plan_slice_inverted(text@),
    ensures
        views(r@) == spec_parse_json_array(text@),
{
    let cleaned = clean_plan(text);
    let whole = trim_str(cleaned.as_str());
    if let Some(arr) = parse_strings(whole.as_str()) {
        assert(views(arr@) =~= arr@.map_values(|s: String| s@));
        return arr;
    }
    let v = chars_of(cleaned.as_str());
    if let Some(start) = first_index_of(&v, '[') {
        if let Some(end) = last_index_of(&v, ']') {
            let slice = if start <= end {
                string_from_range(&v, start, end + 1)
            } else {
                String::new()
            };
            proof {
                if start > end {
                    assert(start == end + 1);
                    assert(v@.subrange(start as int, end + 1) =~= Seq::<char>::empty());
                }
            }
            if let Some(arr) = parse_strings(slice.as_str()) {
                assert(views(arr@) =~= arr@.map_values(|s: String| s@));
                return arr;
            }
        }
    }
    let t = trim_str(text);
    let mut r: Vec<String> = Vec::new();
    r.push(t);
    assert(views(r@) =~= seq![trim(text@)]);
    r
}

/// Whether reading the plan would slice it backwards (see
/// `plan_slice_inverted`): such a plan cannot be read.
pub fn plan_slices_backwards(text: &str) -> (r: bool)
    ensures
        r == plan_slice_inverted(text@),
{
    let cleaned = clean_plan(text);
    let whole = trim_str(cleaned.as_str());
    if parse_strings(whole.as_str()).is_some() {
        return false;
    }
    let v = chars_of(cleaned.as_str());
    match (first_index_of(&v, '['), last_index_of(&v, ']')) {
        (Some(start), Some(end)) => start > end + 1,
        _ => false,
    }
}

/// The context a plan's steps build up: the task, then each step's record.
pub open spec fn spec_plan_context(head: Seq<char>, records: Seq<Seq<char>>) -> Seq<char>
    decreases records.len(),
{
    if records.len() == 0 {
        head
    } else {
        spec_plan_context(head, records.drop_last()) + "\n\n"@ + records.last()
    }
}

/// The record of an executed step.
pub open spec fn spec_step_record(step: Seq<char>, result: Seq<char>) -> Seq<char> {
    "Step: "@ + step + "\nResult: "@ + result
}

/// One cycle of a plan-execute agent: the steps of its plan, the records of
/// the steps executed so far and the context they build up.
#[derive(Debug)]
pub struct PlanCycle {
    pub head: String,
    pub steps: Vec<String>,
    pub records: Vec<String>,
    pub context: String,
}

impl PlanCycle {
    /// The records come in step order and make up the context.
    pub open spec fn wf(&self) -> bool {
        &&& self.records.len() <= self.steps.len()
        &&& self.context@ == spec_plan_context(self.head@, views(self.records@))
    }

    /// Starts a cycle on the planner's answer; the context starts as the task.
    pub fn new(input: &str, plan_text: &str) -> (c: Self)
        requires
            !plan_slice_inverted(plan_text@),
        ensures
            c.wf(),
            c.head@ == "Task: "@ + input@,
            views(c.steps@) == spec_parse_json_array(plan_text@),
            c.records.len() == 0,
    {
        let steps = parse_json_array(plan_text);
        let mut head = String::from_str("Task: ");
        head.append(input);
        let context = head.clone();
        let c = PlanCycle { head, steps, records: Vec::new(), context };
        assert(views(c.records@) =~= Seq::<Seq<char>>::empty());
        c
    }

    /// Starts a cycle on the planner's answer, or gives `None` for a plan
    /// that cannot be read (one that `plan_slices_backwards`).
    pub fn try_new(input: &str, plan_text: &str) -> (c: Option<Self>)
        ensures
            c is None <==> plan_slice_inverted(plan_text@),
            c matches Some(p) ==> p.wf() && p.head@ == "Task: "@ + input@ && views(p.steps@)
                == spec_parse_json_array(plan_text@) && p.records.len() == 0,
    {
        if plan_slices_backwards(plan_text) {
            None
        } else {
            Some(PlanCycle::new(input, plan_text))
        }
    }

    /// What the executor reads for the next step.
    pub fn step_input(&self) -> (r: String)
        requires
            self.wf(),
            self.records.len() < self.steps.len(),
        ensures
            r@ == self.context@ + "\n\nCurrent step: "@ + self.steps@[self.records.len() as int]@,
    {
        let mut r = self.context.clone();
        r.append("\n\nCurrent step: ");
        r.append(self.steps[self.records.len()].as_str());
        r
    }

    /// Records the result of the next step and adds it to the context.
    pub fn record(&mut self, result: &str)
        requires
            old(self).wf(),
            old(self).records.len() < old(self).steps.len(),
        ensures
            final(self).wf(),
            final(self).head == old(self).head,
            final(self).steps == old(self).steps,
            views(final(self).records@) == views(old(self).records@).push(
                spec_step_record(old(self).steps@[old(self).records.len() as int]@, result@),
            ),
    {
        let i = self.records.len();
        let mut rec = String::from_str("Step: ");
        rec.append(self.steps[i].as_str());
        rec.append("\nResult: ");
        rec.append(result);
        self.context.append("\n\n");
        self.context.append(rec.as_str());
        let ghost before = views(self.records@);
        self.records.push(rec);
        assert(views(self.records@) =~= before.push(rec@));
        assert(views(self.records@).drop_last() =~= before);
    }

    /// What the verifier reads: the task and the records of all steps.
    pub fn verify_input(&self, input: &str) -> (r: String)
        ensures
            r@ == "Task: "@ + input@ + "\n\nExecution summary:\n"@ + join(
                views(self.records@),
                "\n\n"@,
            ),
    {
        let mut r = String::from_str("Task: ");
        r.append(input);
        r.append("\n\nExecution summary:\n");
        let j = join_strings(&self.records, "\n\n");
        r.append(j.as_str());
        r
    }
}

/// What follows the verdict of a cycle.
#[derive(Debug)]
pub enum PlanVerdict {
    /// The verifier is satisfied: the context is the answer.
    Done(AgentOutput),
    /// The verifier's answer is the feedback for the next plan.
    Replan(String),
    /// The last cycle ended without a DONE verdict; the error message.
    GiveUp(String),
}

/// Decides what follows the verdict of cycle `cycle` (counted from 0).
pub fn plan_verdict(cycle: u32, done: bool, verdict: String, context: String) -> (r: PlanVerdict)
    ensures
        done ==> (r matches PlanVerdict::Done(o) && o.key@ == "done"@ && o.value == context
            && o.span_id@ == Seq::<char>::empty()),
        !done && cycle + 1 < MAX_PLAN_CYCLES ==> (r matches PlanVerdict::Replan(f) && f
            == verdict),
        !done && cycle + 1 >= MAX_PLAN_CYCLES ==> (r matches PlanVerdict::GiveUp(m) && m@
            == "plan_execute reached 3 cycles without DONE verdict"@),
{
    if done {
        PlanVerdict::Done(
            AgentOutput { key: String::from_str("done"), value: context, span_id: String::new() },
        )
    } else if cycle < MAX_PLAN_CYCLES - 1 {
        PlanVerdict::Replan(verdict)
    } else {
        PlanVerdict::GiveUp(String::from_str("plan_execute reached 3 cycles without DONE verdict"))
    }
}

} // verus!
