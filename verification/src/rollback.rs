//! Recording the side effects of tool calls so that a retried agent span can
//! be undone.
use vstd::prelude::*;

use crate::memory::Store;
use crate::text::str_eq;

verus! {

/// One entry of a rollbacker's action log: its sequence number, the span it
/// belongs to, the tool, the key, and the value the key held before the call.
pub struct LoggedAction {
    pub seq: nat,
    pub span: Seq<char>,
    pub tool: Seq<char>,
    pub key: Seq<char>,
    pub old: Option<Seq<char>>,
}

/// The mathematical value of an optional borrowed string.
pub open spec fn opt_str_view(o: Option<&str>) -> Option<Seq<char>> {
    match o {
        Some(v) => Some(v@),
        None => None,
    }
}

/// The entry that recording a tool call appends to the log.
pub open spec fn logged(
    seq: nat,
    span_id: &str,
    tool_name: &str,
    key: &str,
    old_value: Option<&str>,
) -> LoggedAction {
    LoggedAction {
        seq: seq,
        span: span_id@,
        tool: tool_name@,
        key: key@,
        old: opt_str_view(old_value),
    }
}

/// `after` is `before` with one call recorded: appended to the log with the
/// next sequence number when a log is kept, nothing otherwise.
pub open spec fn recorded<R: Rollbacker>(
    before: R,
    after: R,
    span: Seq<char>,
    tool: Seq<char>,
    key: Seq<char>,
    old: Option<Seq<char>>,
) -> bool {
    &&& after.keeps_log() == before.keeps_log()
    &&& before.keeps_log() ==> after.log() == before.log().push(
        LoggedAction { seq: before.next_seq(), span, tool, key, old },
    ) && after.next_seq() == before.next_seq() + 1
    &&& !before.keeps_log() ==> after.log() == before.log() && after.next_seq()
        == before.next_seq()
}

/// The log entries of one span, in recording order.
pub open spec fn span_entries(log: Seq<LoggedAction>, span: Seq<char>) -> Seq<LoggedAction> {
    log.filter(|a: LoggedAction| a.span == span)
}

/// The log with the entries of one span taken out.
pub open spec fn without_span(log: Seq<LoggedAction>, span: Seq<char>) -> Seq<LoggedAction> {
    log.filter(|a: LoggedAction| a.span != span)
}

/// `rows` are the entries of `span` in `log`, each once, newest (highest
/// sequence number) first.
pub open spec fn newest_first(
    rows: Seq<LoggedAction>,
    log: Seq<LoggedAction>,
    span: Seq<char>,
) -> bool {
    &&& rows.to_multiset() == span_entries(log, span).to_multiset()
    &&& forall|i: int, j: int| 0 <= i < j < rows.len() ==> rows[i].seq >= rows[j].seq
}

/// The undo rows of log entries: tool, key and old value.
pub open spec fn undo_rows(rows: Seq<LoggedAction>) -> Seq<(Seq<char>, Seq<char>, Option<Seq<char>>)> {
    rows.map_values(|a: LoggedAction| (a.tool, a.key, a.old))
}

/// Records side-effectful actions during an agent span so they can be undone on retry.
///
/// A rollbacker either keeps an ordered action log or keeps none (then its
/// log stays empty); each recorded call gets the next sequence number. Every
/// implementation describes its log by the three spec functions below.
pub trait Rollbacker {
    /// Whether this rollbacker keeps an action log.
    spec fn keeps_log(&self) -> bool;

    /// The action log, in recording order.
    spec fn log(&self) -> Seq<LoggedAction>;

    /// The sequence number that the next recorded call gets.
    spec fn next_seq(&self) -> nat;

    /// Appends the call to the log, when a log is kept.
    fn record_tool_call(
        &mut self,
        span_id: &str,
        tool_name: &str,
        key: &str,
        old_value: Option<&str>,
    )
        requires
            old(self).next_seq() < u64::MAX,
        ensures
            final(self).keeps_log() == old(self).keeps_log(),
            old(self).keeps_log() ==> final(self).log() == old(self).log().push(
                logged(old(self).next_seq(), span_id, tool_name, key, old_value),
            ) && final(self).next_seq() == old(self).next_seq() + 1,
            !old(self).keeps_log() ==> final(self).log() == old(self).log()
                && final(self).next_seq() == old(self).next_seq(),
    ;

    /// Undoes, on `store`, what was recorded for `span_id`, newest first, and
    /// drops those entries from the log.
    fn rollback(&mut self, span_id: &str, store: &mut Store)
        ensures
            final(self).keeps_log() == old(self).keeps_log(),
            final(self).next_seq() == old(self).next_seq(),
            final(self).log() == without_span(old(self).log(), span_id@),
            exists|rows: Seq<LoggedAction>|
                newest_first(rows, old(self).log(), span_id@) && final(store)@ == undo_all(
                    old(store)@,
                    undo_rows(rows),
                ),
    ;

    /// Restarts the sequence numbers at zero; the log is kept.
    fn clear(&mut self)
        ensures
            final(self).keeps_log() == old(self).keeps_log(),
            final(self).log() == old(self).log(),
            final(self).next_seq() == 0,
    ;
}

/// Records nothing and undoes nothing. Used in production, where retries never occur.
pub struct NoopRollbacker;

impl Rollbacker for NoopRollbacker {
    open spec fn keeps_log(&self) -> bool {
        false
    }

    open spec fn log(&self) -> Seq<LoggedAction> {
        Seq::empty()
    }

    open spec fn next_seq(&self) -> nat {
        0
    }

    fn record_tool_call(
        &mut self,
        span_id: &str,
        tool_name: &str,
        key: &str,
        old_value: Option<&str>,
    ) {
    }

    fn rollback(&mut self, span_id: &str, store: &mut Store) {
        proof {
            reveal(Seq::filter);
            let rows = Seq::<LoggedAction>::empty();
            assert(without_span(Seq::empty(), span_id@) =~= Seq::empty());
            assert(span_entries(Seq::empty(), span_id@) =~= Seq::empty());
            assert(rows.to_multiset() =~= span_entries(Seq::empty(), span_id@).to_multiset());
            assert(undo_rows(rows) =~= Seq::empty());
            assert(newest_first(rows, Seq::empty(), span_id@));
        }
    }

    fn clear(&mut self) {
    }
}

/// The mathematical value of an optional owned string.
pub open spec fn opt_string_view(o: Option<String>) -> Option<Seq<char>> {
    match o {
        Some(v) => Some(v@),
        None => None,
    }
}

/// One recorded tool call of an action log.
pub struct ActionEntry {
    pub seq: u64,
    pub span_id: String,
    pub tool_name: String,
    pub key: String,
    pub old_value: Option<String>,
}

impl View for ActionEntry {
    type V = LoggedAction;

    open spec fn view(&self) -> LoggedAction {
        LoggedAction {
            seq: self.seq as nat,
            span: self.span_id@,
            tool: self.tool_name@,
            key: self.key@,
            old: opt_string_view(self.old_value),
        }
    }
}

fn copy_opt(o: &Option<String>) -> (r: Option<String>)
    ensures
        opt_string_view(r) == opt_string_view(*o),
{
    match o {
        Some(v) => Some(v.clone()),
        None => None,
    }
}

fn copy_entry(e: &ActionEntry) -> (r: ActionEntry)
    ensures
        r@ == e@,
{
    ActionEntry {
        seq: e.seq,
        span_id: e.span_id.clone(),
        tool_name: e.tool_name.clone(),
        key: e.key.clone(),
        old_value: copy_opt(&e.old_value),
    }
}

/// The views of a sequence of entries.
pub open spec fn entries_view(entries: Seq<ActionEntry>) -> Seq<LoggedAction> {
    entries.map_values(|e: ActionEntry| e@)
}

/// The ordered action log of a run, kept in memory: each recorded call with
/// its sequence number, span, tool, key and the value the key held before.
pub struct ActionLog {
    entries: Vec<ActionEntry>,
    seq: u64,
}

impl ActionLog {
    /// An empty log whose first recorded call gets sequence number 0.
    pub fn new() -> (r: ActionLog)
        ensures
            r.keeps_log(),
            r.log() == Seq::<LoggedAction>::empty(),
            r.next_seq() == 0,
    {
        ActionLog { entries: Vec::new(), seq: 0 }
    }

    /// The entries of the log, in recording order.
    pub fn entries(&self) -> (r: &Vec<ActionEntry>)
        ensures
            entries_view(r@) == self.log(),
    {
        &self.entries
    }

    /// The sequence number that the next recorded call gets.
    pub fn seq(&self) -> (r: u64)
        ensures
            r == self.next_seq(),
    {
        self.seq
    }
}

impl Rollbacker for ActionLog {
    open spec fn keeps_log(&self) -> bool {
        true
    }

    closed spec fn log(&self) -> Seq<LoggedAction> {
        entries_view(self.entries@)
    }

    closed spec fn next_seq(&self) -> nat {
        self.seq as nat
    }

    fn record_tool_call(
        &mut self,
        span_id: &str,
        tool_name: &str,
        key: &str,
        old_value: Option<&str>,
    ) {
        let old = match old_value {
            Some(v) => Some(v.to_owned()),
            None => None,
        };
        let e = ActionEntry {
            seq: self.seq,
            span_id: span_id.to_owned(),
            tool_name: tool_name.to_owned(),
            key: key.to_owned(),
            old_value: old,
        };
        let ghost before = self.entries@;
        self.entries.push(e);
        self.seq = self.seq + 1;
        assert(entries_view(self.entries@) =~= entries_view(before).push(
            logged((self.seq - 1) as nat, span_id, tool_name, key, old_value),
        ));
    }

    fn rollback(&mut self, span_id: &str, store: &mut Store) {
        let ghost lv = entries_view(self.entries@);
        let ghost span = span_id@;
        let mut rows: Vec<ActionEntry> = Vec::new();
        let mut kept: Vec<ActionEntry> = Vec::new();
        let mut i: usize = 0;
        proof {
            reveal(Seq::filter);
            assert(lv.take(0) =~= Seq::<LoggedAction>::empty());
            assert(entries_view(rows@) =~= Seq::<LoggedAction>::empty());
            assert(entries_view(kept@) =~= Seq::<LoggedAction>::empty());
            assert(span_entries(lv.take(0), span) =~= Seq::<LoggedAction>::empty());
            assert(without_span(lv.take(0), span) =~= Seq::<LoggedAction>::empty());
        }
        while i < self.entries.len()
            invariant
                i <= self.entries.len(),
                lv == entries_view(self.entries@),
                span == span_id@,
                entries_view(kept@) == without_span(lv.take(i as int), span),
                entries_view(rows@).to_multiset() == span_entries(lv.take(i as int), span).to_multiset(),
                forall|a: int, b: int| 0 <= a < b < rows@.len() ==> rows@[a].seq >= rows@[b].seq,
            decreases self.entries.len() - i,
        {
            proof {
                reveal(Seq::filter);
                assert(lv.take(i + 1).drop_last() =~= lv.take(i as int));
                assert(lv.take(i + 1).last() == self.entries@[i as int]@);
                assert(lv[i as int] == self.entries@[i as int]@);
                if lv[i as int].span == span {
                    assert(span_entries(lv.take(i + 1), span) == span_entries(lv.take(i as int), span).push(lv[i as int]));
                    assert(without_span(lv.take(i + 1), span) == without_span(lv.take(i as int), span));
                    span_entries(lv.take(i as int), span).to_multiset_ensures();
                } else {
                    assert(span_entries(lv.take(i + 1), span) == span_entries(lv.take(i as int), span));
                    assert(without_span(lv.take(i + 1), span) == without_span(lv.take(i as int), span).push(lv[i as int]));
                }
            }
            let e = copy_entry(&self.entries[i]);
            if str_eq(e.span_id.as_str(), span_id) {
                let mut p: usize = 0;
                while p < rows.len() && rows[p].seq >= e.seq
                    invariant
                        p <= rows.len(),
                        forall|a: int| 0 <= a < p ==> rows@[a].seq >= e.seq,
                    decreases rows.len() - p,
                {
                    p += 1;
                }
                let ghost old_rows = rows@;
                let ghost ev = e@;
                rows.insert(p, e);
                proof {
                    let nv = entries_view(rows@);
                    let ov = entries_view(old_rows);
                    assert(nv =~= ov.insert(p as int, ev));
                    assert(nv.remove(p as int) =~= ov);
                    nv.to_multiset_ensures();
                    ov.to_multiset_ensures();
                    assert(nv.contains(ev)) by {
                        assert(nv[p as int] == ev);
                    }
                    assert(nv.to_multiset() =~= ov.to_multiset().insert(ev));
                    assert forall|a: int, b: int| 0 <= a < b < rows@.len() implies rows@[a].seq
                        >= rows@[b].seq by {
                        if a < p && b > p {
                            assert(rows@[a] == old_rows[a]);
                            assert(rows@[b] == old_rows[b - 1]);
                        }
                    }
                }
            } else {
                let ghost old_kept = kept@;
                kept.push(e);
                assert(entries_view(kept@) =~= entries_view(old_kept).push(lv[i as int]));
            }
            i += 1;
        }
        let mut undo: Vec<UndoRow> = Vec::new();
        let mut j: usize = 0;
        while j < rows.len()
            invariant
                j <= rows.len(),
                undo@.map_values(|r: UndoRow| row_view(r)) == undo_rows(
                    entries_view(rows@).take(j as int),
                ),
            decreases rows.len() - j,
        {
            let r = &rows[j];
            let row: UndoRow = (r.tool_name.clone(), r.key.clone(), copy_opt(&r.old_value));
            let ghost before = undo@;
            undo.push(row);
            proof {
                let rv = entries_view(rows@);
                assert(rv.take(j + 1) =~= rv.take(j as int).push(rv[j as int]));
                assert(undo@ =~= before.push(row));
                assert(undo_rows(rv.take(j + 1)) =~= undo_rows(rv.take(j as int)).push(
                    (rv[j as int].tool, rv[j as int].key, rv[j as int].old),
                ));
                assert(row_view(row) == (rv[j as int].tool, rv[j as int].key, rv[j as int].old));
                assert(undo@.map_values(|r: UndoRow| row_view(r)) =~= before.map_values(
                    |r: UndoRow| row_view(r),
                ).push(row_view(row)));
            }
            j += 1;
        }
        apply_undo(store, &undo);
        self.entries = kept;
        proof {
            let rv = entries_view(rows@);
            assert(lv.take(lv.len() as int) =~= lv);
            assert(rv.take(rv.len() as int) =~= rv);
            assert(newest_first(rv, lv, span));
            assert(store@ == undo_all(old(store)@, undo_rows(rv)));
        }
    }

    fn clear(&mut self) {
        self.seq = 0;
    }
}

/// Makes `r` the active rollbacker.
pub fn install<R: Rollbacker>(slot: &mut R, r: R)
    ensures
        *final(slot) == r,
{
    *slot = r;
}

/// Records a tool call on the active rollbacker.
pub fn record_tool_call<R: Rollbacker>(
    slot: &mut R,
    span_id: &str,
    tool_name: &str,
    key: &str,
    old_value: Option<&str>,
)
    requires
        old(slot).next_seq() < u64::MAX,
    ensures
        final(slot).keeps_log() == old(slot).keeps_log(),
        old(slot).keeps_log() ==> final(slot).log() == old(slot).log().push(
            logged(old(slot).next_seq(), span_id, tool_name, key, old_value),
        ) && final(slot).next_seq() == old(slot).next_seq() + 1,
        !old(slot).keeps_log() ==> final(slot).log() == old(slot).log() && final(slot).next_seq()
            == old(slot).next_seq(),
{
    slot.record_tool_call(span_id, tool_name, key, old_value);
}

/// Undoes the recorded side effects of `span_id` with the active rollbacker.
pub fn rollback<R: Rollbacker>(slot: &mut R, span_id: &str, store: &mut Store)
    ensures
        final(slot).keeps_log() == old(slot).keeps_log(),
        final(slot).next_seq() == old(slot).next_seq(),
        final(slot).log() == without_span(old(slot).log(), span_id@),
        exists|rows: Seq<LoggedAction>|
            newest_first(rows, old(slot).log(), span_id@) && final(store)@ == undo_all(
                old(store)@,
                undo_rows(rows),
            ),
{
    slot.rollback(span_id, store);
}

/// Resets the active rollbacker at the start of a run.
pub fn clear<R: Rollbacker>(slot: &mut R)
    ensures
        final(slot).keeps_log() == old(slot).keeps_log(),
        final(slot).log() == old(slot).log(),
        final(slot).next_seq() == 0,
{
    slot.clear();
}

/// The name of the tool whose calls can be undone.
pub open spec fn mem_set_tool() -> Seq<char> {
    "tama_mem_set"@
}

/// A recorded action: tool name, key, and the value the key held before.
pub type UndoRow = (String, String, Option<String>);

/// The mathematical value of a recorded action.
pub open spec fn row_view(r: UndoRow) -> (Seq<char>, Seq<char>, Option<Seq<char>>) {
    (
        r.0@,
        r.1@,
        match r.2 {
            Some(v) => Some(v@),
            None => None,
        },
    )
}

/// What undoing one recorded action does to the store: a `tama_mem_set` is
/// undone by restoring the old value (or deleting the key when it had none);
/// other tools have no undo handler and are skipped.
pub open spec fn undo_step(
    store: Map<Seq<char>, Seq<char>>,
    row: (Seq<char>, Seq<char>, Option<Seq<char>>),
) -> Map<Seq<char>, Seq<char>> {
    if row.0 == mem_set_tool() {
        match row.2 {
            Some(v) => store.insert(row.1, v),
            None => store.remove(row.1),
        }
    } else {
        store
    }
}

/// Undoes recorded actions in the order given.
pub open spec fn undo_all(
    store: Map<Seq<char>, Seq<char>>,
    rows: Seq<(Seq<char>, Seq<char>, Option<Seq<char>>)>,
) -> Map<Seq<char>, Seq<char>>
    decreases rows.len(),
{
    if rows.len() == 0 {
        store
    } else {
        undo_all(undo_step(store, rows[0]), rows.skip(1))
    }
}

/// Undoes recorded actions, in the order given (the newest first when they
/// come from the action log), on the shared store.
pub fn apply_undo(store: &mut Store, rows: &Vec<UndoRow>)
    ensures
        final(store)@ == undo_all(old(store)@, rows@.map_values(|r: UndoRow| row_view(r))),
{
    let ghost rv = rows@.map_values(|r: UndoRow| row_view(r));
    let mut i: usize = 0;
    assert(rv.skip(0) =~= rv);
    while i < rows.len()
        invariant
            i <= rows.len(),
            rv == rows@.map_values(|r: UndoRow| row_view(r)),
            undo_all(old(store)@, rv) == undo_all(store@, rv.skip(i as int)),
        decreases rows.len() - i,
    {
        let ghost before = store@;
        let row = &rows[i];
        assert(rv.skip(i as int)[0] == row_view(*row));
        assert(rv.skip(i as int).skip(1) =~= rv.skip(i + 1));
        if str_eq(row.0.as_str(), "tama_mem_set") {
            match &row.2 {
                Some(v) => store.set(row.1.as_str(), v.as_str()),
                None => store.remove(row.1.as_str()),
            }
        }
        proof {
            reveal_strlit("tama_mem_set");
        }
        assert(store@ == undo_step(before, row_view(*row)));
        i += 1;
    }
    assert(rv.skip(rows.len() as int).len() == 0);
}

/// The store after a sequence of `tama_mem_set` calls, each a (key, value).
pub open spec fn apply_sets(
    store: Map<Seq<char>, Seq<char>>,
    ops: Seq<(Seq<char>, Seq<char>)>,
) -> Map<Seq<char>, Seq<char>>
    decreases ops.len(),
{
    if ops.len() == 0 {
        store
    } else {
        apply_sets(store, ops.drop_last()).insert(ops.last().0, ops.last().1)
    }
}

/// The actions recorded, in order, by a sequence of `tama_mem_set` calls:
/// each names the key and the value it held just before the call.
pub open spec fn set_records(
    store: Map<Seq<char>, Seq<char>>,
    ops: Seq<(Seq<char>, Seq<char>)>,
) -> Seq<(Seq<char>, Seq<char>, Option<Seq<char>>)>
    decreases ops.len(),
{
    if ops.len() == 0 {
        Seq::empty()
    } else {
        let before = apply_sets(store, ops.drop_last());
        let k = ops.last().0;
        set_records(store, ops.drop_last()).push(
            (
                mem_set_tool(),
                k,
                if before.contains_key(k) {
                    Some(before[k])
                } else {
                    None
                },
            ),
        )
    }
}

/// Rolling back restores the store: after any sequence of `tama_mem_set`
/// calls within a span, undoing the recorded actions newest first gives back
/// the store as it was before the first call.
pub proof fn law_rollback_restores_store(
    store: Map<Seq<char>, Seq<char>>,
    ops: Seq<(Seq<char>, Seq<char>)>,
)
    ensures
        undo_all(apply_sets(store, ops), set_records(store, ops).reverse()) == store,
    decreases ops.len(),
{
    if ops.len() > 0 {
        let d = ops.drop_last();
        law_rollback_restores_store(store, d);
        let before = apply_sets(store, d);
        let k = ops.last().0;
        let v = ops.last().1;
        let row = (
            mem_set_tool(),
            k,
            if before.contains_key(k) {
                Some(before[k])
            } else {
                None
            },
        );
        let recs = set_records(store, d);
        assert(set_records(store, ops) == recs.push(row));
        let rev = recs.push(row).reverse();
        assert(rev[0] == row);
        assert(rev.skip(1) =~= recs.reverse());
        let after = before.insert(k, v);
        assert(undo_step(after, row) =~= before);
    }
}

/// The log entries that a span's `tama_mem_set` calls record, numbered from
/// `first_seq` on.
pub open spec fn span_set_entries(
    first_seq: nat,
    span: Seq<char>,
    store: Map<Seq<char>, Seq<char>>,
    ops: Seq<(Seq<char>, Seq<char>)>,
) -> Seq<LoggedAction> {
    let rec = set_records(store, ops);
    Seq::new(
        rec.len(),
        |i: int|
            LoggedAction {
                seq: (first_seq + i) as nat,
                span: span,
                tool: rec[i].0,
                key: rec[i].1,
                old: rec[i].2,
            },
    )
}

proof fn lemma_set_records_len(store: Map<Seq<char>, Seq<char>>, ops: Seq<(Seq<char>, Seq<char>)>)
    ensures
        set_records(store, ops).len() == ops.len(),
    decreases ops.len(),
{
    if ops.len() > 0 {
        lemma_set_records_len(store, ops.drop_last());
    }
}

proof fn lemma_filter_none(s: Seq<LoggedAction>, span: Seq<char>)
    requires
        forall|i: int| 0 <= i < s.len() ==> (#[trigger] s[i]).span != span,
    ensures
        span_entries(s, span) == Seq::<LoggedAction>::empty(),
    decreases s.len(),
{
    reveal(Seq::filter);
    if s.len() > 0 {
        lemma_filter_none(s.drop_last(), span);
        assert(s.last() == s[s.len() - 1]);
    }
}

proof fn lemma_filter_all(s: Seq<LoggedAction>, span: Seq<char>)
    requires
        forall|i: int| 0 <= i < s.len() ==> (#[trigger] s[i]).span == span,
    ensures
        span_entries(s, span) == s,
    decreases s.len(),
{
    reveal(Seq::filter);
    if s.len() > 0 {
        lemma_filter_all(s.drop_last(), span);
        assert(s.last() == s[s.len() - 1]);
        assert(s.drop_last().push(s.last()) =~= s);
    }
}

/// Entries in a multiset order that are sorted newest first, where the
/// entries were numbered in increasing order, come in exactly the reverse
/// order.
proof fn lemma_newest_first_is_reverse(rows: Seq<LoggedAction>, e: Seq<LoggedAction>)
    requires
        rows.to_multiset() == e.to_multiset(),
        forall|i: int, j: int| 0 <= i < j < rows.len() ==> rows[i].seq >= rows[j].seq,
        forall|i: int, j: int| 0 <= i < j < e.len() ==> e[i].seq < e[j].seq,
    ensures
        rows == e.reverse(),
    decreases e.len(),
{
    rows.to_multiset_ensures();
    e.to_multiset_ensures();
    if e.len() == 0 {
        assert(rows.len() == 0);
        assert(rows =~= e.reverse());
    } else {
        let top = e.last();
        assert(e.contains(top)) by {
            assert(e[e.len() - 1] == top);
        }
        assert(e.to_multiset().count(top) > 0);
        assert(rows.contains(top));
        let k = choose|k: int| 0 <= k < rows.len() && rows[k] == top;
        assert(rows.contains(rows[0]));
        assert(rows.to_multiset().count(rows[0]) > 0);
        assert(e.contains(rows[0]));
        let m = choose|m: int| 0 <= m < e.len() && e[m] == rows[0];
        assert(rows[0].seq >= top.seq) by {
            if k > 0 {
                assert(rows[0].seq >= rows[k].seq);
            }
        }
        if m < e.len() - 1 {
            assert(e[m].seq < e[e.len() - 1].seq);
        }
        assert(rows[0] == top);
        let r2 = rows.remove(0);
        let e2 = e.drop_last();
        assert(e2 =~= e.remove(e.len() - 1));
        assert(r2.to_multiset() == e2.to_multiset());
        assert forall|i: int, j: int| 0 <= i < j < r2.len() implies r2[i].seq >= r2[j].seq by {
            assert(r2[i] == rows[i + 1]);
            assert(r2[j] == rows[j + 1]);
        }
        assert forall|i: int, j: int| 0 <= i < j < e2.len() implies e2[i].seq < e2[j].seq by {
            assert(e2[i] == e[i]);
            assert(e2[j] == e[j]);
        }
        lemma_newest_first_is_reverse(r2, e2);
        assert(rows =~= seq![top] + r2);
        assert(e.reverse() =~= seq![top] + e2.reverse());
    }
}

/// Rolling back a span undoes its memory writes: when a span's
/// `tama_mem_set` calls were recorded, one after another, in a log that held
/// nothing of that span, undoing the span's entries in any order that a
/// rollbacker may take (newest first) gives back the store as it was before
/// the first call.
pub proof fn law_rollback_undoes_span(
    earlier: Seq<LoggedAction>,
    first_seq: nat,
    span: Seq<char>,
    store: Map<Seq<char>, Seq<char>>,
    ops: Seq<(Seq<char>, Seq<char>)>,
    rows: Seq<LoggedAction>,
)
    requires
        forall|i: int| 0 <= i < earlier.len() ==> (#[trigger] earlier[i]).span != span,
        newest_first(rows, earlier + span_set_entries(first_seq, span, store, ops), span),
    ensures
        undo_all(apply_sets(store, ops), undo_rows(rows)) == store,
{
    let e = span_set_entries(first_seq, span, store, ops);
    lemma_set_records_len(store, ops);
    lemma_filter_none(earlier, span);
    lemma_filter_all(e, span);
    lemma_span_entries_add(earlier, e, span);
    assert(span_entries(earlier + e, span) =~= e);
    assert forall|i: int, j: int| 0 <= i < j < e.len() implies e[i].seq < e[j].seq by {
        assert(e[i].seq == first_seq + i);
        assert(e[j].seq == first_seq + j);
    }
    lemma_newest_first_is_reverse(rows, e);
    lemma_undo_rows_of_entries(first_seq, span, store, ops);
    law_rollback_restores_store(store, ops);
}

proof fn lemma_span_entries_add(a: Seq<LoggedAction>, b: Seq<LoggedAction>, span: Seq<char>)
    ensures
        span_entries(a + b, span) == span_entries(a, span) + span_entries(b, span),
{
    Seq::filter_distributes_over_add(a, b, |x: LoggedAction| x.span == span);
}

proof fn lemma_undo_rows_of_entries(
    first_seq: nat,
    span: Seq<char>,
    store: Map<Seq<char>, Seq<char>>,
    ops: Seq<(Seq<char>, Seq<char>)>,
)
    ensures
        undo_rows(span_set_entries(first_seq, span, store, ops).reverse()) == set_records(
            store,
            ops,
        ).reverse(),
{
    let e = span_set_entries(first_seq, span, store, ops);
    let rec = set_records(store, ops);
    assert(undo_rows(e.reverse()) =~= rec.reverse());
}

/// The log holds a `tama_mem_set` of `span` on `key`.
pub open spec fn span_sets_key(log: Seq<LoggedAction>, span: Seq<char>, key: Seq<char>) -> bool {
    exists|i: int|
        0 <= i < log.len() && (#[trigger] log[i]).span == span && log[i].tool == mem_set_tool()
            && log[i].key == key
}

proof fn lemma_undo_all_untouched(
    store: Map<Seq<char>, Seq<char>>,
    rows: Seq<(Seq<char>, Seq<char>, Option<Seq<char>>)>,
    key: Seq<char>,
)
    requires
        forall|i: int| 0 <= i < rows.len() ==> !((#[trigger] rows[i]).0 == mem_set_tool() && rows[i].1 == key),
    ensures
        undo_all(store, rows).contains_key(key) == store.contains_key(key),
        store.contains_key(key) ==> undo_all(store, rows)[key] == store[key],
    decreases rows.len(),
{
    if rows.len() > 0 {
        let rest = rows.skip(1);
        assert forall|i: int| 0 <= i < rest.len() implies !((#[trigger] rest[i]).0 == mem_set_tool()
            && rest[i].1 == key) by {
            assert(rest[i] == rows[i + 1]);
        }
        let s1 = undo_step(store, rows[0]);
        lemma_undo_all_untouched(s1, rest, key);
        assert(!(rows[0].0 == mem_set_tool() && rows[0].1 == key));
    }
}

proof fn lemma_without_span_excludes(log: Seq<LoggedAction>, span: Seq<char>)
    ensures
        forall|i: int|
            0 <= i < without_span(log, span).len() ==> (#[trigger] without_span(log, span)[i]).span
                != span,
{
    assert forall|i: int| 0 <= i < without_span(log, span).len() implies (#[trigger] without_span(
        log,
        span,
    )[i]).span != span by {
        log.lemma_filter_pred(|a: LoggedAction| a.span != span, i);
    }
}

proof fn lemma_without_span_twice(log: Seq<LoggedAction>, span: Seq<char>)
    ensures
        without_span(without_span(log, span), span) == without_span(log, span),
{
    let w = without_span(log, span);
    lemma_without_span_excludes(log, span);
    lemma_filter_keep_all(w, span);
}

proof fn lemma_filter_keep_all(s: Seq<LoggedAction>, span: Seq<char>)
    requires
        forall|i: int| 0 <= i < s.len() ==> (#[trigger] s[i]).span != span,
    ensures
        without_span(s, span) == s,
    decreases s.len(),
{
    reveal(Seq::filter);
    if s.len() > 0 {
        lemma_filter_keep_all(s.drop_last(), span);
        assert(s.last() == s[s.len() - 1]);
        assert(s.drop_last().push(s.last()) =~= s);
    }
}

proof fn lemma_other_span_entries(log: Seq<LoggedAction>, span: Seq<char>, other: Seq<char>)
    requires
        other != span,
    ensures
        span_entries(without_span(log, span), other) == span_entries(log, other),
    decreases log.len(),
{
    reveal(Seq::filter);
    if log.len() > 0 {
        let d = log.drop_last();
        let a = log.last();
        lemma_other_span_entries(d, span, other);
        let w = without_span(d, span);
        if a.span != span {
            assert(without_span(log, span) == w.push(a));
            assert(w.push(a).drop_last() =~= w);
            assert(w.push(a).last() == a);
        } else {
            assert(without_span(log, span) == w);
        }
    }
}

/// Rolling back a span touches only that span: undoing its entries (in the
/// order the rollbacker takes) leaves every key that no `tama_mem_set` of the
/// span wrote as it was; the log that remains holds no entry of the span, so
/// rolling the span back again changes neither the store nor the log; and
/// every other span keeps its entries, to be rolled back in turn.
pub proof fn law_rollback_touches_only_its_span(
    log: Seq<LoggedAction>,
    span: Seq<char>,
    store: Map<Seq<char>, Seq<char>>,
    rows: Seq<LoggedAction>,
    key: Seq<char>,
    again: Seq<LoggedAction>,
    later_store: Map<Seq<char>, Seq<char>>,
    other: Seq<char>,
)
    requires
        newest_first(rows, log, span),
        newest_first(again, without_span(log, span), span),
    ensures
        !span_sets_key(log, span, key) ==> undo_all(store, undo_rows(rows)).contains_key(key)
            == store.contains_key(key) && (store.contains_key(key) ==> undo_all(
            store,
            undo_rows(rows),
        )[key] == store[key]),
        undo_all(later_store, undo_rows(again)) == later_store,
        without_span(without_span(log, span), span) == without_span(log, span),
        other != span ==> span_entries(without_span(log, span), other) == span_entries(log, other),
{
    let pred = |a: LoggedAction| a.span == span;
    if !span_sets_key(log, span, key) {
        let ur = undo_rows(rows);
        assert forall|i: int| 0 <= i < ur.len() implies !((#[trigger] ur[i]).0 == mem_set_tool()
            && ur[i].1 == key) by {
            let x = rows[i];
            assert(ur[i] == (x.tool, x.key, x.old));
            rows.to_multiset_ensures();
            span_entries(log, span).to_multiset_ensures();
            assert(rows.contains(x));
            assert(rows.to_multiset().count(x) > 0);
            assert(span_entries(log, span).contains(x));
            let j = choose|j: int| 0 <= j < span_entries(log, span).len() && span_entries(log, span)[j] == x;
            log.lemma_filter_pred(pred, j);
            log.lemma_filter_contains_rev(pred, x);
            let k = choose|k: int| 0 <= k < log.len() && log[k] == x;
            if x.tool == mem_set_tool() && x.key == key {
                assert(log[k].span == span);
                assert(span_sets_key(log, span, key));
            }
        }
        lemma_undo_all_untouched(store, ur, key);
    }
    lemma_without_span_excludes(log, span);
    lemma_filter_none(without_span(log, span), span);
    again.to_multiset_ensures();
    Seq::<LoggedAction>::empty().to_multiset_ensures();
    assert(again.len() == 0);
    assert(undo_rows(again) =~= Seq::empty());
    lemma_without_span_twice(log, span);
    if other != span {
        lemma_other_span_entries(log, span, other);
    }
}

} // verus!
