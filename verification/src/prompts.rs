//! The texts that the patterns hand from one phase to the next: prompts,
//! inputs of steps and the ways results are combined.
use vstd::prelude::*;
use vstd::string::StringExecFns;

use crate::json::{json_object_text, json_parse_strings, object_to_text, parse_strings};
use crate::patterns::AgentOutput;
use crate::text::{
    decimal, decimal_text, join, join_strings, lines, lines_of, starts_with, starts_with_str, trim,
    trim_str,
};
use crate::tools::views;

verus! {

/// What a sub-agent's run gives the text built from it: its value, or the
/// error it failed with.
pub open spec fn outcome_view(r: Result<AgentOutput, String>) -> Seq<char> {
    match r {
        Ok(o) => o.value@,
        Err(e) => "[error: "@ + e@ + "]"@,
    }
}

/// The text of a sub-agent's run: its value, or `[error: …]`.
pub fn outcome_text(r: &Result<AgentOutput, String>) -> (t: String)
    ensures
        t@ == outcome_view(*r),
{
    match r {
        Ok(o) => o.value.clone(),
        Err(e) => {
            let mut t = String::from_str("[error: ");
            t.append(e.as_str());
            t.append("]");
            t
        },
    }
}

// ── scatter ──────────────────────────────────────────────────────────────────

/// The instructions put before the map prompt of a scatter agent.
pub open spec fn map_instruction() -> Seq<char> {
    "When you have determined the full list of items to process in parallel, call finish(key=\"parallel\", value='[\"item1\",\"item2\",...]') with a JSON array of strings.\nIf no fan-out is needed, call finish(key=\"done\", value=\"...\") as usual.\n\n"@
}

/// Prepends the scatter-specific instructions to the map system prompt.
pub fn build_map_system(body: &str, uses: &[String]) -> (r: String)
    ensures
        r@ == map_instruction() + body@,
{
    let mut r = String::from_str(
        "When you have determined the full list of items to process in parallel, call finish(key=\"parallel\", value='[\"item1\",\"item2\",...]') with a JSON array of strings.\nIf no fan-out is needed, call finish(key=\"done\", value=\"...\") as usual.\n\n",
    );
    r.append(body);
    r
}

/// What follows the map phase of a scatter agent.
#[derive(Debug)]
pub enum ScatterPlan {
    /// The map phase finished without asking for fan-out: its result is the answer.
    Direct(AgentOutput),
    /// The items to hand to the worker, one each.
    FanOut(Vec<String>),
    /// The map phase asked for fan-out with a value that is not a JSON array
    /// of strings; the error message.
    Invalid(String),
}

/// The error of a fan-out request whose value is not a JSON array of strings.
pub open spec fn scatter_error(value: Seq<char>) -> Seq<char> {
    "scatter map phase must finish(key='parallel', value='[\"item1\",...]') — got: "@ + value
}

/// Decides what follows the map phase: fan out over the items when the map
/// finished with key `parallel` and a JSON array of strings; otherwise return
/// the map result, or fail when the array cannot be read.
pub fn scatter_plan(map_result: AgentOutput) -> (r: ScatterPlan)
    ensures
        map_result.key@ != "parallel"@ ==> (r matches ScatterPlan::Direct(o) && o == map_result),
        map_result.key@ == "parallel"@ ==> match json_parse_strings(map_result.value@) {
            Some(items) => (r matches ScatterPlan::FanOut(v) && views(v@) == items),
            None => (r matches ScatterPlan::Invalid(m) && m@ == scatter_error(map_result.value@)),
        },
{
    if !crate::text::str_eq(map_result.key.as_str(), "parallel") {
        return ScatterPlan::Direct(map_result);
    }
    match parse_strings(map_result.value.as_str()) {
        Some(items) => {
            assert(views(items@) =~= items@.map_values(|s: String| s@));
            ScatterPlan::FanOut(items)
        },
        None => {
            let mut m = String::from_str(
                "scatter map phase must finish(key='parallel', value='[\"item1\",...]') — got: ",
            );
            m.append(map_result.value.as_str());
            ScatterPlan::Invalid(m)
        },
    }
}

/// The block of one worker's result in the reduce input.
pub open spec fn worker_block(item: Seq<char>, r: Result<AgentOutput, String>) -> Seq<char> {
    match r {
        Ok(o) => "[Item: "@ + item + "]\n"@ + o.value@ + "\n\n"@,
        Err(e) => "[Item: "@ + item + "]\n[error: "@ + e@ + "]\n\n"@,
    }
}

/// The blocks of all workers' results, in item order.
pub open spec fn worker_blocks(items: Seq<String>, results: Seq<Result<AgentOutput, String>>) -> Seq<
    Seq<char>,
> {
    Seq::new(items.len(), |i: int| worker_block(items[i]@, results[i]))
}

/// The span of the last worker that succeeded.
pub open spec fn last_ok_span(results: Seq<Result<AgentOutput, String>>) -> Option<Seq<char>>
    decreases results.len(),
{
    if results.len() == 0 {
        None
    } else {
        match results.last() {
            Ok(o) => Some(o.span_id@),
            Err(_) => last_ok_span(results.drop_last()),
        }
    }
}

/// Combines the workers' results into the text the reduce phase reads, and
/// finds the span of the last worker that succeeded.
pub fn combine_worker_results(items: &Vec<String>, results: &Vec<Result<AgentOutput, String>>) -> (r: (
    String,
    Option<String>,
))
    requires
        items.len() == results.len(),
    ensures
        r.0@ == join(worker_blocks(items@, results@), ""@),
        match r.1 {
            Some(s) => last_ok_span(results@) == Some(s@),
            None => last_ok_span(results@) is None,
        },
{
    let mut blocks: Vec<String> = Vec::new();
    let mut last: Option<String> = None;
    let mut i: usize = 0;
    while i < items.len()
        invariant
            i <= items.len(),
            items.len() == results.len(),
            views(blocks@) =~= worker_blocks(items@, results@).take(i as int),
            match last {
                Some(s) => last_ok_span(results@.take(i as int)) == Some(s@),
                None => last_ok_span(results@.take(i as int)) is None,
            },
        decreases items.len() - i,
    {
        let mut b = String::from_str("[Item: ");
        b.append(items[i].as_str());
        match &results[i] {
            Ok(o) => {
                b.append("]\n");
                b.append(o.value.as_str());
                b.append("\n\n");
                last = Some(o.span_id.clone());
            },
            Err(e) => {
                b.append("]\n[error: ");
                b.append(e.as_str());
                b.append("]\n\n");
            },
        }
        let ghost before = views(blocks@);
        blocks.push(b);
        proof {
            assert(views(blocks@) =~= before.push(b@));
            assert(results@.take(i + 1).drop_last() =~= results@.take(i as int));
            assert(results@.take(i + 1).last() == results@[i as int]);
        }
        i += 1;
    }
    assert(worker_blocks(items@, results@).take(items.len() as int) =~= worker_blocks(
        items@,
        results@,
    ));
    assert(results@.take(results.len() as int) =~= results@);
    (join_strings(&blocks, ""), last)
}

/// The input of the reduce phase of a scatter agent.
pub open spec fn spec_reduce_input(input: Seq<char>, combined: Seq<char>) -> Seq<char> {
    "Original task: "@ + input + "\n\nWorker results:\n"@ + combined
}

/// The input of the reduce phase of a scatter agent.
pub fn reduce_input(input: &str, combined: &str) -> (r: String)
    ensures
        r@ == spec_reduce_input(input@, combined@),
{
    let mut r = String::from_str("Original task: ");
    r.append(input);
    r.append("\n\nWorker results:\n");
    r.append(combined);
    r
}

// ── parallel ─────────────────────────────────────────────────────────────────

/// The members of the JSON object a parallel agent answers with: each
/// worker's name with its value or error.
pub open spec fn parallel_members(workers: Seq<String>, results: Seq<Result<AgentOutput, String>>) -> Seq<
    (Seq<char>, Seq<char>),
> {
    Seq::new(workers.len(), |i: int| (workers[i]@, outcome_view(results[i])))
}

/// The output of a parallel agent: key `parallel`, and a JSON object that
/// maps each worker's name to its value (or error).
pub fn parallel_output(workers: &[String], results: &Vec<Result<AgentOutput, String>>) -> (r:
    AgentOutput)
    requires
        workers.len() == results.len(),
    ensures
        r.key@ == "parallel"@,
        r.value@ == json_object_text(parallel_members(workers@, results@)),
        r.span_id@ == Seq::<char>::empty(),
{
    let mut members: Vec<(String, String)> = Vec::new();
    let mut i: usize = 0;
    while i < workers.len()
        invariant
            i <= workers.len(),
            workers.len() == results.len(),
            members@.map_values(|m: (String, String)| (m.0@, m.1@)) =~= parallel_members(
                workers@,
                results@,
            ).take(i as int),
        decreases workers.len() - i,
    {
        let v = outcome_text(&results[i]);
        let w = workers[i].clone();
        assert(w@ == workers@[i as int]@);
        let ghost before = members@;
        members.push((w, v));
        proof {
            assert(members@ == before.push((w, v)));
            assert(members@.map_values(|m: (String, String)| (m.0@, m.1@)) =~= before.map_values(
                |m: (String, String)| (m.0@, m.1@),
            ).push((w@, v@)));
        }
        i += 1;
    }
    assert(parallel_members(workers@, results@).take(workers.len() as int) =~= parallel_members(
        workers@,
        results@,
    ));
    let value = object_to_text(&members);
    AgentOutput { key: String::from_str("parallel"), value, span_id: String::new() }
}

// ── best of n ────────────────────────────────────────────────────────────────

/// Iteration limit of each variant of a best-of-n agent.
pub const VARIANT_MAX_ITER: u32 = 15;

/// The block of one variant in the judge input.
pub open spec fn variant_block(i: int, v: Seq<char>) -> Seq<char> {
    "## Variant "@ + decimal((i + 1) as nat) + "\n\n"@ + v
}

/// The blocks of all variants, numbered from 1.
pub open spec fn variant_blocks(variants: Seq<Seq<char>>) -> Seq<Seq<char>> {
    Seq::new(variants.len(), |i: int| variant_block(i, variants[i]))
}

/// The input of the judge of a best-of-n agent.
pub open spec fn spec_judge_input(input: Seq<char>, variants: Seq<Seq<char>>) -> Seq<char> {
    "Task: "@ + input + "\n\nVariants:\n\n"@ + join(variant_blocks(variants), "\n\n---\n\n"@)
        + "\n\nSelect the best variant and return it (or synthesize if appropriate)."@
}

/// The input of the judge of a best-of-n agent.
pub fn judge_input(input: &str, variants: &Vec<String>) -> (r: String)
    ensures
        r@ == spec_judge_input(input@, views(variants@)),
{
    let mut blocks: Vec<String> = Vec::new();
    let mut i: usize = 0;
    while i < variants.len()
        invariant
            i <= variants.len(),
            views(blocks@) =~= variant_blocks(views(variants@)).take(i as int),
        decreases variants.len() - i,
    {
        let mut b = String::from_str("## Variant ");
        let num = decimal_text(i as u64 + 1);
        b.append(num.as_str());
        b.append("\n\n");
        b.append(variants[i].as_str());
        let ghost before = views(blocks@);
        blocks.push(b);
        proof {
            assert(views(blocks@) =~= before.push(b@));
        }
        i += 1;
    }
    assert(variant_blocks(views(variants@)).take(variants.len() as int) =~= variant_blocks(
        views(variants@),
    ));
    let joined = join_strings(&blocks, "\n\n---\n\n");
    let mut r = String::from_str("Task: ");
    r.append(input);
    r.append("\n\nVariants:\n\n");
    r.append(joined.as_str());
    r.append("\n\nSelect the best variant and return it (or synthesize if appropriate).");
    r
}

// ── debate ───────────────────────────────────────────────────────────────────

/// What the debaters of a round read: the topic, and from the second round
/// on the transcripts of the rounds before.
pub open spec fn spec_round_context(input: Seq<char>, transcripts: Seq<Seq<char>>) -> Seq<char> {
    if transcripts.len() == 0 {
        "Topic: "@ + input
    } else {
        "Topic: "@ + input + "\n\nPrevious arguments:\n"@ + join(transcripts, "\n\n---\n\n"@)
    }
}

/// What the debaters of a round read.
pub fn round_context(input: &str, transcripts: &Vec<String>) -> (r: String)
    ensures
        r@ == spec_round_context(input@, views(transcripts@)),
{
    let mut r = String::from_str("Topic: ");
    r.append(input);
    if transcripts.len() > 0 {
        r.append("\n\nPrevious arguments:\n");
        let j = join_strings(transcripts, "\n\n---\n\n");
        r.append(j.as_str());
    }
    r
}

/// The line of one debater in a round's transcript.
pub open spec fn position_line(agent: Seq<char>, r: Result<AgentOutput, String>) -> Seq<char> {
    "**"@ + agent + "**: "@ + outcome_view(r) + "\n\n"@
}

/// The transcript of a round (numbered from 1): each debater's argument, in
/// the order of the agents.
pub open spec fn spec_round_text(
    round: nat,
    agents: Seq<String>,
    results: Seq<Result<AgentOutput, String>>,
) -> Seq<char> {
    "## Round "@ + decimal(round + 1) + "\n\n"@ + join(
        Seq::new(agents.len(), |i: int| position_line(agents[i]@, results[i])),
        ""@,
    )
}

/// The transcript of a round; `round` counts from 0.
pub fn round_text(round: u32, agents: &[String], results: &Vec<Result<AgentOutput, String>>) -> (r:
    String)
    requires
        agents.len() == results.len(),
    ensures
        r@ == spec_round_text(round as nat, agents@, results@),
{
    let ghost lines_spec = Seq::new(
        agents@.len(),
        |i: int| position_line(agents@[i]@, results@[i]),
    );
    let mut parts: Vec<String> = Vec::new();
    let mut i: usize = 0;
    while i < agents.len()
        invariant
            i <= agents.len(),
            agents.len() == results.len(),
            lines_spec == Seq::new(
                agents@.len(),
                |i: int| position_line(agents@[i]@, results@[i]),
            ),
            views(parts@) =~= lines_spec.take(i as int),
        decreases agents.len() - i,
    {
        let mut p = String::from_str("**");
        p.append(agents[i].as_str());
        p.append("**: ");
        let o = outcome_text(&results[i]);
        p.append(o.as_str());
        p.append("\n\n");
        let ghost before = views(parts@);
        parts.push(p);
        proof {
            assert(views(parts@) =~= before.push(p@));
        }
        i += 1;
    }
    assert(lines_spec.take(agents.len() as int) =~= lines_spec);
    let mut r = String::from_str("## Round ");
    let num = decimal_text(round as u64 + 1);
    r.append(num.as_str());
    r.append("\n\n");
    let body = join_strings(&parts, "");
    r.append(body.as_str());
    r
}

/// What the judge of a debate reads: the topic and every round.
pub open spec fn spec_debate_summary(input: Seq<char>, transcripts: Seq<Seq<char>>) -> Seq<char> {
    "Topic: "@ + input + "\n\n"@ + join(transcripts, "\n\n"@)
}

/// What the judge of a debate reads.
pub fn debate_summary(input: &str, transcripts: &Vec<String>) -> (r: String)
    ensures
        r@ == spec_debate_summary(input@, views(transcripts@)),
{
    let mut r = String::from_str("Topic: ");
    r.append(input);
    r.append("\n\n");
    let j = join_strings(transcripts, "\n\n");
    r.append(j.as_str());
    r
}

// ── chain of verification ────────────────────────────────────────────────────

/// A line of the claim list that names a claim: not empty, not a heading.
pub open spec fn is_claim(l: Seq<char>) -> bool {
    l.len() > 0 && !starts_with(l, "#"@)
}

/// The claims of a claim list: its lines, trimmed, without empty lines and
/// lines that start with `#`.
pub open spec fn spec_claims(text: Seq<char>) -> Seq<Seq<char>> {
    lines(text).map_values(|l: Seq<char>| trim(l)).filter(|l: Seq<char>| is_claim(l))
}

/// The claims of a claim list, one per line.
pub fn claims(text: &str) -> (r: Vec<String>)
    ensures
        views(r@) == spec_claims(text@),
{
    let ls = lines_of(text);
    let ghost trimmed = lines(text@).map_values(|l: Seq<char>| trim(l));
    let ghost pred = |l: Seq<char>| is_claim(l);
    let mut out: Vec<String> = Vec::new();
    let mut i: usize = 0;
    assert(trimmed.take(0).filter(pred) =~= Seq::<Seq<char>>::empty()) by {
        reveal_with_fuel(Seq::<_>::filter, 1);
    }
    while i < ls.len()
        invariant
            i <= ls.len(),
            views(ls@) == lines(text@),
            trimmed == lines(text@).map_values(|l: Seq<char>| trim(l)),
            pred == (|l: Seq<char>| is_claim(l)),
            views(out@) == trimmed.take(i as int).filter(pred),
        decreases ls.len() - i,
    {
        let ghost t = trimmed.take(i + 1);
        assert(t.drop_last() =~= trimmed.take(i as int));
        assert(t.last() == trim(ls@[i as int]@));
        assert(t.filter(pred) == if pred(t.last()) {
            t.drop_last().filter(pred).push(t.last())
        } else {
            t.drop_last().filter(pred)
        }) by {
            reveal_with_fuel(Seq::<_>::filter, 1);
        }
        let l = trim_str(ls[i].as_str());
        let keep = l.unicode_len() > 0 && !starts_with_str(l.as_str(), "#");
        let ghost before = views(out@);
        if keep {
            out.push(l);
            assert(views(out@) =~= before.push(t.last()));
        }
        i += 1;
    }
    assert(trimmed.take(ls.len() as int) =~= trimmed);
    out
}

/// The input of the claim extraction step.
pub fn extract_claims_input(initial: &str) -> (r: String)
    ensures
        r@ == "Answer to verify:\n"@ + initial@,
{
    let mut r = String::from_str("Answer to verify:\n");
    r.append(initial);
    r
}

/// The input of the step that checks one claim.
pub fn check_input(claim: &str, input: &str) -> (r: String)
    ensures
        r@ == "Claim: "@ + claim@ + "\n\nContext: "@ + input@,
{
    let mut r = String::from_str("Claim: ");
    r.append(claim);
    r.append("\n\nContext: ");
    r.append(input);
    r
}

/// The record of one checked claim.
pub fn verification_record(claim: &str, result: &str) -> (r: String)
    ensures
        r@ == "Claim: "@ + claim@ + "\nVerification: "@ + result@,
{
    let mut r = String::from_str("Claim: ");
    r.append(claim);
    r.append("\nVerification: ");
    r.append(result);
    r
}

/// The input of the revision step of chain-of-verification.
pub open spec fn spec_cov_revise_input(
    input: Seq<char>,
    initial: Seq<char>,
    verifications: Seq<Seq<char>>,
) -> Seq<char> {
    "Original question: "@ + input + "\n\nInitial answer:\n"@ + initial
        + "\n\nVerification results:\n"@ + join(verifications, "\n\n"@)
}

/// The input of the revision step of chain-of-verification.
pub fn cov_revise_input(input: &str, initial: &str, verifications: &Vec<String>) -> (r: String)
    ensures
        r@ == spec_cov_revise_input(input@, initial@, views(verifications@)),
{
    let mut r = String::from_str("Original question: ");
    r.append(input);
    r.append("\n\nInitial answer:\n");
    r.append(initial);
    r.append("\n\nVerification results:\n");
    let j = join_strings(verifications, "\n\n");
    r.append(j.as_str());
    r
}

// ── constitutional and critic ────────────────────────────────────────────────

/// The input of the revision step of a constitutional agent.
pub fn constitutional_revise_input(input: &str, draft: &str, critique: &str) -> (r: String)
    ensures
        r@ == "Original request: "@ + input@ + "\n\nInitial response:\n"@ + draft@
            + "\n\nConstitutional critique:\n"@ + critique@,
{
    let mut r = String::from_str("Original request: ");
    r.append(input);
    r.append("\n\nInitial response:\n");
    r.append(draft);
    r.append("\n\nConstitutional critique:\n");
    r.append(critique);
    r
}

/// The input of the refine step of a critic agent.
pub fn refine_input(input: &str, critique: &str) -> (r: String)
    ensures
        r@ == "Original task:\n"@ + input@ + "\n\nCritique:\n"@ + critique@,
{
    let mut r = String::from_str("Original task:\n");
    r.append(input);
    r.append("\n\nCritique:\n");
    r.append(critique);
    r
}

/// A step name with a number counted from 1: `name_{k + 1}`.
pub fn numbered(name: &str, k: u32) -> (r: String)
    ensures
        r@ == name@ + "_"@ + decimal(k as nat + 1),
{
    let mut r = name.to_owned();
    r.append("_");
    let num = decimal_text(k as u64 + 1);
    r.append(num.as_str());
    r
}

} // verus!
