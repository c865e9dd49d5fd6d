//! The bookkeeping of the trace store: span sequence numbers, the system
//! prompt stored once per agent span, and the names spans are stored under.
use vstd::prelude::*;
use vstd::string::StringExecFns;

use crate::tools::{contains_str, views};

verus! {

/// What the trace store has handed out so far.
#[derive(Debug)]
pub struct TraceLog {
    /// The last sequence number given to a span (0 before the first).
    pub seq: u64,
    /// The agent spans whose system prompt is already stored.
    pub prompted: Vec<String>,
}

impl TraceLog {
    /// The agent spans whose system prompt is stored.
    pub open spec fn prompted_spans(&self) -> Set<Seq<char>> {
        views(self.prompted@).to_set()
    }

    /// A log that has handed out nothing.
    pub fn new() -> (r: Self)
        ensures
            r.seq == 0,
            r.prompted_spans() == Set::<Seq<char>>::empty(),
    {
        let r = TraceLog { seq: 0, prompted: Vec::new() };
        assert(views(r.prompted@) =~= Seq::<Seq<char>>::empty());
        assert(r.prompted_spans() =~= Set::<Seq<char>>::empty());
        r
    }

    /// The sequence number of the next span: one more than the last.
    pub fn next_seq(&mut self) -> (n: u64)
        requires
            old(self).seq < u64::MAX,
        ensures
            n == old(self).seq + 1,
            final(self).seq == n,
            final(self).prompted == old(self).prompted,
    {
        self.seq = self.seq + 1;
        self.seq
    }

    /// Whether an LLM call under `agent_span` stores the system prompt: only
    /// the first call of each agent span does. The span counts as stored
    /// from then on.
    pub fn takes_prompt(&mut self, agent_span: &str) -> (first: bool)
        ensures
            first == !old(self).prompted_spans().contains(agent_span@),
            final(self).prompted_spans() == old(self).prompted_spans().insert(agent_span@),
            final(self).seq == old(self).seq,
    {
        let seen = contains_str(&self.prompted, agent_span);
        let ghost before = views(self.prompted@);
        if seen {
            assert(self.prompted_spans() =~= old(self).prompted_spans().insert(agent_span@));
            false
        } else {
            self.prompted.push(agent_span.to_owned());
            assert(views(self.prompted@) =~= before.push(agent_span@));
            assert(views(self.prompted@).to_set() =~= before.to_set().insert(agent_span@)) by {
                assert forall|x: Seq<char>| #[trigger]
                    views(self.prompted@).to_set().contains(x) <==> before.to_set().insert(
                        agent_span@,
                    ).contains(x) by {
                    if x == agent_span@ {
                        assert(views(self.prompted@)[before.len() as int] == x);
                    }
                    if before.contains(x) {
                        let k = choose|k: int| 0 <= k < before.len() && before[k] == x;
                        assert(views(self.prompted@)[k] == x);
                    }
                    if views(self.prompted@).contains(x) && x != agent_span@ {
                        let k = choose|k: int|
                            0 <= k < views(self.prompted@).len() && views(self.prompted@)[k] == x;
                        assert(k < before.len());
                        assert(before[k] == x);
                    }
                }
            }
            true
        }
    }
}

/// The name an agent span is stored under: `agent:{agent}:{pattern}`.
pub fn agent_span_name(agent: &str, pattern: &str) -> (r: String)
    ensures
        r@ == "agent:"@ + agent@ + ":"@ + pattern@,
{
    let mut r = String::from_str("agent:");
    r.append(agent);
    r.append(":");
    r.append(pattern);
    r
}

/// The name an LLM-call span is stored under: `llm:{step}`.
pub fn llm_span_name(step: &str) -> (r: String)
    ensures
        r@ == "llm:"@ + step@,
{
    let mut r = String::from_str("llm:");
    r.append(step);
    r
}

/// The name a tool-call span is stored under: `tool:{tool}`.
pub fn tool_span_name(tool: &str) -> (r: String)
    ensures
        r@ == "tool:"@ + tool@,
{
    let mut r = String::from_str("tool:");
    r.append(tool);
    r
}

} // verus!
