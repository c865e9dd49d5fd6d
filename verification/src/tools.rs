//! The tool registry, the system prompt builder, and the tools that act on
//! the shared memory.
use vstd::prelude::*;
use vstd::string::{StringExecFns, StringSliceAdditionalSpecFns};

use crate::json::{json_str_field, str_field};
use crate::memory::{self, Store};
use crate::rollback::{recorded, Rollbacker};
use crate::text::str_eq;

verus! {

/// The views of a list of strings.
pub open spec fn views(v: Seq<String>) -> Seq<Seq<char>> {
    v.map_values(|s: String| s@)
}

/// Whether `v` holds the text `s`.
pub fn contains_str(v: &Vec<String>, s: &str) -> (r: bool)
    ensures
        r == views(v@).contains(s@),
{
    let mut i: usize = 0;
    while i < v.len()
        invariant
            i <= v.len(),
            forall|j: int| 0 <= j < i ==> v@[j]@ != s@,
        decreases v.len() - i,
    {
        if str_eq(v[i].as_str(), s) {
            assert(views(v@)[i as int] == s@);
            return true;
        }
        i += 1;
    }
    proof {
        if views(v@).contains(s@) {
            let j = choose|j: int| 0 <= j < views(v@).len() && views(v@)[j] == s@;
            assert(v@[j]@ == s@);
        }
    }
    false
}

/// The tools that skills can unlock, in registry order.
pub open spec fn spec_all_tools() -> Seq<Seq<char>> {
    seq![
        "tama_bash"@,
        "tama_http_get"@,
        "tama_http_post"@,
        "tama_files_read"@,
        "tama_files_write"@,
        "tama_mem_set"@,
        "tama_mem_get"@,
        "tama_mem_append"@,
    ]
}

/// The names of the tools that skills can unlock, in registry order.
pub fn all_tools() -> (r: Vec<String>)
    ensures
        views(r@) == spec_all_tools(),
{
    let r = vec![
        String::from_str("tama_bash"),
        String::from_str("tama_http_get"),
        String::from_str("tama_http_post"),
        String::from_str("tama_files_read"),
        String::from_str("tama_files_write"),
        String::from_str("tama_mem_set"),
        String::from_str("tama_mem_get"),
        String::from_str("tama_mem_append"),
    ];
    assert(views(r@) =~= spec_all_tools());
    r
}

/// The tools every agent has: `start` and `finish`.
pub open spec fn spec_always_tools() -> Seq<Seq<char>> {
    seq!["start"@, "finish"@]
}

/// The names of the tools every agent has.
pub fn always_tools() -> (r: Vec<String>)
    ensures
        views(r@) == spec_always_tools(),
{
    let r = vec![String::from_str("start"), String::from_str("finish")];
    assert(views(r@) =~= spec_always_tools());
    r
}

/// The active tool list: `start`, `finish`, `read_skill` (only when the agent
/// uses skills), the extra tools, then the unlocked registry tools.
pub open spec fn spec_active_tool_names(
    uses: Seq<Seq<char>>,
    unlocked: Seq<Seq<char>>,
    extra: Seq<Seq<char>>,
) -> Seq<Seq<char>> {
    spec_always_tools() + (if uses.len() > 0 {
        seq!["read_skill"@]
    } else {
        Seq::empty()
    }) + extra + spec_all_tools().filter(is_unlocked(unlocked))
}

/// Membership in the set of unlocked tools.
pub open spec fn is_unlocked(unlocked: Seq<Seq<char>>) -> spec_fn(Seq<char>) -> bool {
    |n: Seq<char>| unlocked.contains(n)
}

/// Builds the names of the active tools. `read_skill` is left out when the
/// agent uses no skill, so that models do not call skills that do not exist.
pub fn build_active_tools(uses: &[String], unlocked: &Vec<String>, extra: &[String]) -> (r: Vec<
    String,
>)
    ensures
        views(r@) == spec_active_tool_names(views(uses@), views(unlocked@), views(extra@)),
{
    let mut tools = always_tools();
    if uses.len() > 0 {
        tools.push(String::from_str("read_skill"));
    }
    let ghost base = views(tools@);
    assert(base == spec_always_tools() + (if uses.len() > 0 {
        seq!["read_skill"@]
    } else {
        Seq::empty()
    }));
    let mut i: usize = 0;
    while i < extra.len()
        invariant
            i <= extra.len(),
            views(tools@) == base + views(extra@).take(i as int),
        decreases extra.len() - i,
    {
        let ghost before = views(tools@);
        let e = extra[i].clone();
        tools.push(e);
        assert(views(tools@) =~= before.push(extra@[i as int]@));
        i += 1;
        assert(views(tools@) =~= base + views(extra@).take(i as int));
    }
    assert(views(extra@).take(extra.len() as int) =~= views(extra@));
    let ghost base2 = views(tools@);
    let all = all_tools();
    let ghost pred = is_unlocked(views(unlocked@));
    let mut j: usize = 0;
    assert(views(all@).take(0).filter(pred) =~= Seq::<Seq<char>>::empty()) by {
        reveal_with_fuel(Seq::<_>::filter, 1);
    }
    while j < all.len()
        invariant
            j <= all.len(),
            views(all@) == spec_all_tools(),
            pred == is_unlocked(views(unlocked@)),
            views(tools@) == base2 + views(all@).take(j as int).filter(pred),
        decreases all.len() - j,
    {
        let ghost t = views(all@).take(j + 1);
        let ghost prev = views(all@).take(j as int);
        assert(t.drop_last() =~= prev);
        assert(t.last() == all@[j as int]@);
        assert(t.filter(pred) == if pred(t.last()) {
            t.drop_last().filter(pred).push(t.last())
        } else {
            t.drop_last().filter(pred)
        }) by {
            reveal_with_fuel(Seq::<_>::filter, 1);
        }
        let ghost before = views(tools@);
        let name = all[j].as_str();
        assert(name@ == t.last());
        let found = contains_str(unlocked, name);
        assert(found == views(unlocked@).contains(t.last()));
        assert(found == pred(t.last()));
        if found {
            let n = all[j].clone();
            tools.push(n);
            assert(views(tools@) =~= before.push(all@[j as int]@));
            assert(views(tools@) =~= base2 + t.filter(pred));
        } else {
            assert(views(tools@) =~= base2 + t.filter(pred));
        }
        j += 1;
    }
    assert(views(all@).take(all.len() as int) =~= views(all@));
    assert(views(tools@) =~= spec_active_tool_names(
        views(uses@),
        views(unlocked@),
        views(extra@),
    ));
    tools
}

/// The lines that announce the agent's skills, one per skill.
pub open spec fn skill_lines(uses: Seq<Seq<char>>, descs: Seq<Seq<char>>) -> Seq<char>
    decreases uses.len(),
{
    if uses.len() == 0 {
        Seq::empty()
    } else {
        skill_lines(uses.drop_last(), descs.take(uses.len() - 1)) + "- **"@ + uses.last() + "**: "@
            + descs[uses.len() - 1] + "\n"@
    }
}

/// The system prompt: the agent's own prompt, a section that lists the
/// skills (when there are any), and the instruction to call `start()`.
pub open spec fn spec_build_system(
    tmpl: Seq<char>,
    uses: Seq<Seq<char>>,
    descs: Seq<Seq<char>>,
) -> Seq<char> {
    tmpl + (if uses.len() > 0 {
        "\n\n## Available skills\n"@ + "Call read_skill(name) to load full instructions before using a skill.\n"@
            + skill_lines(uses, descs)
    } else {
        Seq::empty()
    }) + "\n\nCall start() to receive your task before beginning work."@
}

/// Builds the system prompt from the agent's prompt and the skills it uses;
/// `descriptions[i]` is the description of skill `uses[i]`.
pub fn build_system(system_tmpl: &str, uses: &[String], descriptions: &[String]) -> (r: String)
    requires
        uses.len() == descriptions.len(),
    ensures
        r@ == spec_build_system(system_tmpl@, views(uses@), views(descriptions@)),
{
    let mut system = system_tmpl.to_owned();
    if uses.len() > 0 {
        system.append("\n\n## Available skills\n");
        system.append("Call read_skill(name) to load full instructions before using a skill.\n");
        let ghost head = system@;
        let mut i: usize = 0;
        assert(views(uses@).take(0) =~= Seq::<Seq<char>>::empty());
        while i < uses.len()
            invariant
                i <= uses.len(),
                uses.len() == descriptions.len(),
                system@ == head + skill_lines(
                    views(uses@).take(i as int),
                    views(descriptions@).take(i as int),
                ),
            decreases uses.len() - i,
        {
            let ghost u = views(uses@).take(i + 1);
            let ghost d = views(descriptions@).take(i + 1);
            assert(u.drop_last() =~= views(uses@).take(i as int));
            assert(d.take(i as int) =~= views(descriptions@).take(i as int));
            system.append("- **");
            system.append(uses[i].as_str());
            system.append("**: ");
            system.append(descriptions[i].as_str());
            system.append("\n");
            i += 1;
            assert(system@ =~= head + skill_lines(u, d));
        }
        assert(views(uses@).take(uses.len() as int) =~= views(uses@));
        assert(views(descriptions@).take(uses.len() as int) =~= views(descriptions@));
    }
    system.append("\n\nCall start() to receive your task before beginning work.");
    system
}

/// The description shown for a skill: its own, or a placeholder when it has
/// none (the file is missing, malformed, or its description is empty).
pub fn skill_description(skill_name: &str, description: Option<&str>) -> (r: String)
    ensures
        r@ == match description {
            Some(d) => if d@.len() > 0 {
                d@
            } else {
                "(no description for "@ + skill_name@ + ")"@
            },
            None => "(no description for "@ + skill_name@ + ")"@,
        },
{
    match description {
        Some(d) => {
            if !d.is_empty() {
                return d.to_owned();
            }
        },
        None => {},
    }
    let mut s = String::from_str("(no description for ");
    s.append(skill_name);
    s.append(")");
    s
}

/// The document a skill is loaded as: a heading with its name, then its body.
pub fn skill_document(name: &str, body: &str) -> (r: String)
    ensures
        r@ == "# Skill: "@ + name@ + "\n\n"@ + body@,
{
    let mut s = String::from_str("# Skill: ");
    s.append(name);
    s.append("\n\n");
    s.append(body);
    s
}

/// The UTF-8 encoding of a text.
pub open spec fn utf8(s: Seq<char>) -> Seq<u8> {
    vstd::utf8::encode_utf8(s)
}

/// Cuts `s` to its first `max` bytes. The cut must fall on a character
/// boundary, as `String` slicing demands.
pub fn truncate(s: String, max: usize) -> (r: String)
    requires
        utf8(s@).len() <= usize::MAX,
        utf8(s@).len() <= max || vstd::utf8::is_char_boundary(utf8(s@), max as int),
    ensures
        utf8(s@).len() <= max ==> r@ == s@,
        utf8(s@).len() > max ==> utf8(r@) == utf8(s@).take(max as int),
{
    let whole = s.as_str();
    assert(whole.spec_bytes() == utf8(s@));
    if whole.len() > max {
        let (head, _) = whole.split_at(max);
        let r = head.to_owned();
        assert(utf8(r@) == head.spec_bytes());
        assert(whole.spec_bytes() == utf8(s@));
        assert(utf8(s@).subrange(0, max as int) =~= utf8(s@).take(max as int));
        r
    } else {
        s
    }
}

/// The tools whose work is input or output, done by the caller.
#[derive(Debug, Clone, Copy, PartialEq, Eq)]
pub enum IoTool {
    Bash,
    HttpGet,
    HttpPost,
    FilesRead,
    FilesWrite,
}

/// What executing a tool call comes to.
#[derive(Debug, PartialEq, Eq)]
pub enum ToolOutcome {
    /// The tool ran on the shared memory; its answer.
    Done(String),
    /// The tool does input or output; the caller performs it.
    Io(IoTool),
    /// No tool has this name; the error message.
    Unknown(String),
}

/// A string argument of a tool call, or the empty text when it is missing.
pub open spec fn arg_or_empty(args: serde_json::Value, field: Seq<char>) -> Seq<char> {
    match json_str_field(args, field) {
        Some(s) => s,
        None => Seq::empty(),
    }
}

/// Reads a string argument of a tool call (empty when missing).
fn arg(args: &serde_json::Value, field: &str) -> (r: String)
    ensures
        r@ == arg_or_empty(*args, field@),
{
    match str_field(args, field) {
        Some(s) => s,
        None => String::new(),
    }
}

/// The message for a call of a tool that does not exist.
pub open spec fn unknown_tool_message(name: Seq<char>) -> Seq<char> {
    "unknown tool '"@ + name + "' — was it declared in the skill's tools: list?"@
}

/// What a tool call does, by the tool's name.
pub open spec fn spec_execute_tool(
    name: Seq<char>,
    args: serde_json::Value,
    store: Map<Seq<char>, Seq<char>>,
) -> (ToolOutcomeV, Map<Seq<char>, Seq<char>>) {
    let k = arg_or_empty(args, "key"@);
    if name == "tama_bash"@ {
        (ToolOutcomeV::Io(IoTool::Bash), store)
    } else if name == "tama_http_get"@ {
        (ToolOutcomeV::Io(IoTool::HttpGet), store)
    } else if name == "tama_http_post"@ {
        (ToolOutcomeV::Io(IoTool::HttpPost), store)
    } else if name == "tama_files_read"@ {
        (ToolOutcomeV::Io(IoTool::FilesRead), store)
    } else if name == "tama_files_write"@ {
        (ToolOutcomeV::Io(IoTool::FilesWrite), store)
    } else if name == "tama_mem_set"@ {
        (
            ToolOutcomeV::Done("stored '"@ + k + "'"@),
            store.insert(k, arg_or_empty(args, "value"@)),
        )
    } else if name == "tama_mem_get"@ {
        (
            ToolOutcomeV::Done(
                if store.contains_key(k) {
                    store[k]
                } else {
                    memory::missing_value_text(k)
                },
            ),
            store,
        )
    } else if name == "tama_mem_append"@ {
        let text = crate::json::json_array_text(
            memory::stored_array(store, k).push(memory::item_value(arg_or_empty(args, "item"@))),
        );
        (ToolOutcomeV::Done("appended to '"@ + k + "': "@ + text), store.insert(k, text))
    } else {
        (ToolOutcomeV::Unknown(unknown_tool_message(name)), store)
    }
}

/// The mathematical value of a tool outcome.
pub ghost enum ToolOutcomeV {
    Done(Seq<char>),
    Io(IoTool),
    Unknown(Seq<char>),
}

impl View for ToolOutcome {
    type V = ToolOutcomeV;

    open spec fn view(&self) -> ToolOutcomeV {
        match self {
            ToolOutcome::Done(s) => ToolOutcomeV::Done(s@),
            ToolOutcome::Io(t) => ToolOutcomeV::Io(*t),
            ToolOutcome::Unknown(s) => ToolOutcomeV::Unknown(s@),
        }
    }
}

/// The value a key holds in the store, if any.
pub open spec fn value_before(store: Map<Seq<char>, Seq<char>>, key: Seq<char>) -> Option<Seq<char>> {
    if store.contains_key(key) {
        Some(store[key])
    } else {
        None
    }
}

/// Executes a tool call. The memory tools run here, on `store`; a
/// `tama_mem_set` first records the key's old value with `rollbacker` so that
/// the call can be undone. The other tools are named for the caller to run.
pub fn execute_tool<R: Rollbacker>(
    name: &str,
    args: &serde_json::Value,
    span_id: &str,
    store: &mut Store,
    rollbacker: &mut R,
) -> (r: ToolOutcome)
    requires
        name@ == "tama_mem_set"@ ==> old(rollbacker).next_seq() < u64::MAX,
    ensures
        (r@, final(store)@) == spec_execute_tool(name@, *args, old(store)@),
        name@ == "tama_mem_set"@ ==> recorded(
            *old(rollbacker),
            *final(rollbacker),
            span_id@,
            "tama_mem_set"@,
            arg_or_empty(*args, "key"@),
            value_before(old(store)@, arg_or_empty(*args, "key"@)),
        ),
        name@ != "tama_mem_set"@ ==> *final(rollbacker) == *old(rollbacker),
{
    proof {
        reveal_strlit("tama_bash");
        reveal_strlit("tama_http_get");
        reveal_strlit("tama_http_post");
        reveal_strlit("tama_files_read");
        reveal_strlit("tama_files_write");
        reveal_strlit("tama_mem_set");
        reveal_strlit("tama_mem_get");
        reveal_strlit("tama_mem_append");
    }
    if str_eq(name, "tama_bash") {
        ToolOutcome::Io(IoTool::Bash)
    } else if str_eq(name, "tama_http_get") {
        ToolOutcome::Io(IoTool::HttpGet)
    } else if str_eq(name, "tama_http_post") {
        ToolOutcome::Io(IoTool::HttpPost)
    } else if str_eq(name, "tama_files_read") {
        ToolOutcome::Io(IoTool::FilesRead)
    } else if str_eq(name, "tama_files_write") {
        ToolOutcome::Io(IoTool::FilesWrite)
    } else if str_eq(name, "tama_mem_set") {
        let k = arg(args, "key");
        let v = arg(args, "value");
        let old = memory::get_opt(store, k.as_str());
        match &old {
            Some(o) => rollbacker.record_tool_call(span_id, "tama_mem_set", k.as_str(), Some(o.as_str())),
            None => rollbacker.record_tool_call(span_id, "tama_mem_set", k.as_str(), None),
        }
        memory::set(store, k.as_str(), v.as_str());
        let mut msg = String::from_str("stored '");
        msg.append(k.as_str());
        msg.append("'");
        ToolOutcome::Done(msg)
    } else if str_eq(name, "tama_mem_get") {
        let k = arg(args, "key");
        ToolOutcome::Done(memory::get(store, k.as_str()))
    } else if str_eq(name, "tama_mem_append") {
        let k = arg(args, "key");
        let item = arg(args, "item");
        let result = memory::append(store, k.as_str(), item.as_str());
        let mut msg = String::from_str("appended to '");
        msg.append(k.as_str());
        msg.append("': ");
        msg.append(result.as_str());
        ToolOutcome::Done(msg)
    } else {
        let mut msg = String::from_str("unknown tool '");
        msg.append(name);
        msg.append("' — was it declared in the skill's tools: list?");
        ToolOutcome::Unknown(msg)
    }
}

/// What a shell command answers: its output, then its error output under a
/// `[stderr]` line when there is any, then its exit status when it failed.
pub open spec fn spec_bash_result(
    stdout: Seq<char>,
    stderr: Seq<char>,
    success: bool,
    status: Seq<char>,
) -> Seq<char> {
    stdout + (if stderr.len() > 0 {
        "\n[stderr]\n"@ + stderr
    } else {
        Seq::empty()
    }) + (if !success {
        "\n[exit "@ + status + "]"@
    } else {
        Seq::empty()
    })
}

/// Assembles the answer of the bash tool from what the command wrote and how
/// it ended (`status` is the exit status as the system prints it).
pub fn bash_result(stdout: &str, stderr: &str, success: bool, status: &str) -> (r: String)
    ensures
        r@ == spec_bash_result(stdout@, stderr@, success, status@),
{
    let mut r = stdout.to_owned();
    if stderr.unicode_len() > 0 {
        r.append("\n[stderr]\n");
        r.append(stderr);
    }
    if !success {
        r.append("\n[exit ");
        r.append(status);
        r.append("]");
    }
    r
}

/// Each tool that does input or output is named for the caller by its own
/// name and no other: a call comes back as `Io(t)` exactly when it names `t`'s
/// tool (`tama_bash` runs a shell command, `tama_http_get` a GET,
/// `tama_http_post` a POST, `tama_files_read` a read, `tama_files_write` a
/// write), and such a call leaves the memory as it was.
pub proof fn law_io_tools_by_name(
    name: Seq<char>,
    args: serde_json::Value,
    store: Map<Seq<char>, Seq<char>>,
)
    ensures
        (spec_execute_tool(name, args, store).0 == ToolOutcomeV::Io(IoTool::Bash)) <==> name
            == "tama_bash"@,
        (spec_execute_tool(name, args, store).0 == ToolOutcomeV::Io(IoTool::HttpGet)) <==> name
            == "tama_http_get"@,
        (spec_execute_tool(name, args, store).0 == ToolOutcomeV::Io(IoTool::HttpPost)) <==> name
            == "tama_http_post"@,
        (spec_execute_tool(name, args, store).0 == ToolOutcomeV::Io(IoTool::FilesRead)) <==> name
            == "tama_files_read"@,
        (spec_execute_tool(name, args, store).0 == ToolOutcomeV::Io(IoTool::FilesWrite)) <==> name
            == "tama_files_write"@,
        spec_execute_tool(name, args, store).0 is Io ==> spec_execute_tool(name, args, store).1
            == store,
{
    reveal_strlit("tama_bash");
    reveal_strlit("tama_http_get");
    reveal_strlit("tama_http_post");
    reveal_strlit("tama_files_read");
    reveal_strlit("tama_files_write");
    reveal_strlit("tama_mem_set");
    reveal_strlit("tama_mem_get");
    reveal_strlit("tama_mem_append");
}

} // verus!
