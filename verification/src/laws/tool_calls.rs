//! What tool calls touch, which tools there are, and what sub-agents get.
use vstd::prelude::*;

use crate::agents::SubagentDefView;
use crate::content::StopReason;
use crate::json::JsonView;
use crate::json::member;
use crate::laws::instruction_files::law_paths_are_joined;
use crate::laws::path_names::is_plain;
use crate::laws::path_names::law_paths_below_are_seen_from_there;
use crate::model::ModelContentView;
use crate::model::ModelMessageView;
use crate::model::ToolSpecView;
use crate::paths::seen_from;
use crate::permissions::PermissionKeyView;
use crate::session::first_text;
use crate::session::last_reply;
use crate::show::stop_words;
use crate::task::agent_named;
use crate::task::report_of;
use crate::task::task_refusal;
use crate::task::task_request;
use crate::tools::builtin_tools;
use crate::tools::command_of;
use crate::tools::distinct_names;
use crate::tools::named_at;
use crate::tools::readable;
use crate::tools::registered;
use crate::tools::specs::bash_description;
use crate::tools::specs::bash_schema;
use crate::tools::specs::edit_description;
use crate::tools::specs::edit_schema;
use crate::tools::specs::glob_description;
use crate::tools::specs::glob_schema;
use crate::tools::specs::grep_description;
use crate::tools::specs::grep_schema;
use crate::tools::specs::patch_description;
use crate::tools::specs::patch_schema;
use crate::tools::specs::read_description;
use crate::tools::specs::read_schema;
use crate::tools::specs::task_description;
use crate::tools::specs::task_schema;
use crate::tools::specs::write_description;
use crate::tools::specs::write_schema;
use crate::tools::texts_in;
use crate::tools::told_of;
use crate::tools::touched;

verus! {

/// A tool that works on a file touches the file, as seen from the working directory where
/// it lies below it. What a call touches is what rules and grants speak of.
pub proof fn law_file_tools_touch_their_file(
    tool: Seq<char>,
    args: JsonView,
    cwd: Seq<char>,
    p: Seq<char>,
)
    requires
        tool == "Read"@ || tool == "Write"@ || tool == "Edit"@,
        member(args, "path"@) == Some(JsonView::Text(p)),
        cwd.len() > 0,
        cwd.last() != '/',
    ensures
        is_plain(p) ==> touched(tool, args, cwd) == Some(PermissionKeyView::Path { path: p }),
        p.len() > 0 && p[0] == '/' ==> touched(tool, args, cwd) == Some(
            PermissionKeyView::Path { path: seen_from(cwd, p) },
        ),
{
    reveal_strlit("Read");
    reveal_strlit("Write");
    reveal_strlit("Edit");
    reveal_strlit("Bash");
    assert("Read"@.len() == 4 && "Write"@.len() == 5 && "Edit"@.len() == 4 && "Bash"@.len() == 4);
    assert("Read"@[0] != "Edit"@[0]);
    assert("Read"@[0] != "Bash"@[0]);
    assert("Edit"@[0] != "Bash"@[0]);
    if is_plain(p) {
        law_paths_below_are_seen_from_there(cwd, p);
    }
    law_paths_are_joined(cwd, p);
}

/// A shell call touches its command, word by word; one without a command touches nothing,
/// and neither does any tool that is neither a shell nor works on one file.
pub proof fn law_shell_calls_touch_their_command(
    tool: Seq<char>,
    args: JsonView,
    cwd: Seq<char>,
    list: Seq<JsonView>,
    words: Seq<Seq<char>>,
)
    requires
        list.len() == words.len(),
        forall|i: int| 0 <= i < list.len() ==> #[trigger] list[i] == JsonView::Text(words[i]),
    ensures
        member(args, "command"@) == Some(JsonView::List(list)) && words.len() > 0 ==> touched(
            "Bash"@,
            args,
            cwd,
        ) == Some(PermissionKeyView::Bash { command: words }),
        member(args, "command"@) == Some(JsonView::List(list)) ==> command_of(args) == Some(words),
        member(args, "command"@) is None ==> touched("Bash"@, args, cwd) is None,
        tool != "Bash"@ && tool != "Read"@ && tool != "Write"@ && tool != "Edit"@ ==> touched(
            tool,
            args,
            cwd,
        ) is None,
{
    lemma_texts(list, words);
}

proof fn lemma_texts(list: Seq<JsonView>, words: Seq<Seq<char>>)
    requires
        list.len() == words.len(),
        forall|i: int| 0 <= i < list.len() ==> #[trigger] list[i] == JsonView::Text(words[i]),
    ensures
        texts_in(list) == Some(words),
    decreases list.len(),
{
    if list.len() > 0 {
        let t = list.drop_last();
        let w = words.drop_last();
        assert forall|i: int| 0 <= i < t.len() implies #[trigger] t[i] == JsonView::Text(w[i]) by {
            assert(t[i] == list[i]);
        }
        lemma_texts(t, w);
        assert(list[list.len() - 1] == JsonView::Text(words[words.len() - 1]));
        assert(w.push(words.last()) =~= words);
    } else {
        assert(words =~= Seq::<Seq<char>>::empty());
    }
}

/// A list with anything but texts in it is no command.
pub proof fn law_commands_are_texts(args: JsonView, list: Seq<JsonView>, i: int)
    requires
        member(args, "command"@) == Some(JsonView::List(list)),
        0 <= i < list.len(),
        !(list[i] is Text),
    ensures
        command_of(args) is None,
{
    lemma_not_texts(list, i);
}

proof fn lemma_not_texts(list: Seq<JsonView>, i: int)
    requires
        0 <= i < list.len(),
        !(list[i] is Text),
    ensures
        texts_in(list) is None,
    decreases list.len(),
{
    if i < list.len() - 1 {
        assert(list.drop_last()[i] == list[i]);
        lemma_not_texts(list.drop_last(), i);
    }
}

/// Registering a tool puts it where the tool of that name was, or behind all; every other
/// tool stays where it is.
pub proof fn law_registering_replaces_by_name(s: Seq<ToolSpecView>, t: ToolSpecView, i: int)
    requires
        distinct_names(s),
    ensures
        0 <= i < s.len() && s[i].name == t.name ==> registered(s, t) == s.update(i, t),
        (forall|j: int| 0 <= j < s.len() ==> (#[trigger] s[j]).name != t.name) ==> registered(s, t)
            == s.push(t),
{
    lemma_place_of(s, t.name);
    let p = named_at(s, t.name);
    if 0 <= i < s.len() && s[i].name == t.name {
        assert(p == i) by {
            if p < i {
                assert(s[p].name == s[i].name);
            }
        }
    }
}

proof fn lemma_place_of(s: Seq<ToolSpecView>, name: Seq<char>)
    ensures
        0 <= named_at(s, name) <= s.len(),
        named_at(s, name) < s.len() ==> s[named_at(s, name)].name == name,
        forall|i: int| 0 <= i < named_at(s, name) ==> (#[trigger] s[i]).name != name,
    decreases s.len(),
{
    if s.len() > 0 && s[0].name != name {
        let t = s.drop_first();
        lemma_place_of(t, name);
        assert forall|i: int| 0 <= i < named_at(s, name) implies (#[trigger] s[i]).name != name by {
            if i > 0 {
                assert(s[i] == t[i - 1]);
            }
        }
    }
}

/// The agent has eight tools of its own.
pub proof fn law_builtin_tools()
    ensures
        ({
            let t = builtin_tools();
            &&& t.len() == 8
            &&& t[0].name == "Bash"@ && t[1].name == "Read"@ && t[2].name == "Write"@ && t[3].name
                == "Edit"@ && t[4].name == "Patch"@ && t[5].name == "Grep"@ && t[6].name == "Glob"@
                && t[7].name == "Task"@
        }),
{
    reveal_strlit("Bash");
    reveal_strlit("Read");
    reveal_strlit("Write");
    reveal_strlit("Edit");
    reveal_strlit("Patch");
    reveal_strlit("Grep");
    reveal_strlit("Glob");
    reveal_strlit("Task");
    assert("Bash"@.len() == 4 && "Read"@.len() == 4 && "Write"@.len() == 5 && "Edit"@.len() == 4 && "Patch"@.len() == 5 && "Grep"@.len() == 4 && "Glob"@.len() == 4 && "Task"@.len() == 4);
    assert("Bash"@[0] != "Read"@[0]);
    assert("Bash"@[0] != "Edit"@[0]);
    assert("Bash"@[0] != "Grep"@[0]);
    assert("Bash"@[0] != "Glob"@[0]);
    assert("Bash"@[0] != "Task"@[0]);
    assert("Read"@[0] != "Edit"@[0]);
    assert("Read"@[0] != "Grep"@[0]);
    assert("Read"@[0] != "Glob"@[0]);
    assert("Read"@[0] != "Task"@[0]);
    assert("Write"@[0] != "Patch"@[0]);
    assert("Edit"@[0] != "Grep"@[0]);
    assert("Edit"@[0] != "Glob"@[0]);
    assert("Edit"@[0] != "Task"@[0]);
    assert("Grep"@[1] != "Glob"@[1]);
    assert("Grep"@[0] != "Task"@[0]);
    assert("Glob"@[0] != "Task"@[0]);
    reveal_with_fuel(named_at, 9);
    let s0 = Seq::<ToolSpecView>::empty();
    let s1 = registered(s0, told_of("Bash"@, bash_description(), bash_schema()));
    assert(s1.len() == 1);
    lemma_new(s1, told_of("Read"@, read_description(), read_schema()));
    let s2 = registered(s1, told_of("Read"@, read_description(), read_schema()));
    lemma_new(s2, told_of("Write"@, write_description(), write_schema()));
    let s3 = registered(s2, told_of("Write"@, write_description(), write_schema()));
    lemma_new(s3, told_of("Edit"@, edit_description(), edit_schema()));
    let s4 = registered(s3, told_of("Edit"@, edit_description(), edit_schema()));
    lemma_new(s4, told_of("Patch"@, patch_description(), patch_schema()));
    let s5 = registered(s4, told_of("Patch"@, patch_description(), patch_schema()));
    lemma_new(s5, told_of("Grep"@, grep_description(), grep_schema()));
    let s6 = registered(s5, told_of("Grep"@, grep_description(), grep_schema()));
    lemma_new(s6, told_of("Glob"@, glob_description(), glob_schema()));
    let s7 = registered(s6, told_of("Glob"@, glob_description(), glob_schema()));
    lemma_new(s7, told_of("Task"@, task_description(), task_schema()));
}

proof fn lemma_new(s: Seq<ToolSpecView>, t: ToolSpecView)
    requires
        forall|j: int| 0 <= j < s.len() ==> (#[trigger] s[j]).name != t.name,
    ensures
        registered(s, t) == s.push(t),
{
    lemma_place_of(s, t.name);
}

/// A sub-agent gets every tool that it asks for, that reads, and that there is.
pub proof fn law_reading_tools_are_handed_on(
    tools: Seq<ToolSpecView>,
    names: Seq<Seq<char>>,
    i: int,
    k: int,
)
    requires
        0 <= i < names.len(),
        names[i] == "Read"@ || names[i] == "Grep"@ || names[i] == "Glob"@,
        0 <= k < tools.len(),
        tools[k].name == names[i],
        distinct_names(tools),
    ensures
        readable(tools, names).contains(tools[k]),
    decreases names.len(),
{
    let before = readable(tools, names.drop_last());
    let n = names.last();
    lemma_place_of(tools, n);
    let p = named_at(tools, n);
    if i == names.len() - 1 {
        assert(p == k) by {
            if p < k {
                assert(tools[p].name == tools[k].name);
            }
        }
        lemma_place_of(before, n);
        assert(readable(tools, names)[named_at(before, n)] == tools[k]);
    } else {
        law_reading_tools_are_handed_on(tools, names.drop_last(), i, k);
        let j = choose|j: int| 0 <= j < before.len() && before[j] == tools[k];
        if (n == "Read"@ || n == "Grep"@ || n == "Glob"@) && p < tools.len() {
            lemma_place_of(before, n);
            let q = named_at(before, n);
            let after = readable(tools, names);
            if q == j {
                assert(tools[p].name == tools[k].name);
                assert(p == k);
                assert(after[q] == tools[k]);
            } else {
                assert(after[j] == tools[k]);
            }
        }
    }
}

/// A sub-agent is asked with its own prompt and its own model, or else the caller's; it
/// starts with no messages but what it is told.
pub proof fn law_subagents_have_their_own_prompt(
    def: SubagentDefView,
    tools: Seq<ToolSpecView>,
    model: Seq<char>,
)
    ensures
        ({
            let r = task_request(def, tools, model);
            &&& r.model == match def.model {
                Some(m) => m,
                None => model,
            }
            &&& r.system.len() == 1 && r.system[0].text == def.system_prompt
            &&& r.messages.len() == 0
            &&& r.max_output_tokens == 4096
            &&& r.reasoning is None && r.temperature is None
        }),
{
}

/// A task is refused eight levels down, without a name, and for a name that nobody has;
/// otherwise the first agent of that name takes it.
pub proof fn law_tasks_go_to_known_agents(
    depth: u32,
    input: JsonView,
    agents: Seq<SubagentDefView>,
    name: Seq<char>,
    i: int,
)
    requires
        member(input, "subagent"@) == Some(JsonView::Text(name)),
    ensures
        depth > 8 ==> task_refusal(depth, input, agents) is Some,
        name.len() == 0 ==> task_refusal(depth, input, agents) is Some,
        (forall|j: int| 0 <= j < agents.len() ==> (#[trigger] agents[j]).name != name) ==> task_refusal(
            depth,
            input,
            agents,
        ) is Some,
        depth <= 8 && name.len() > 0 && 0 <= i < agents.len() && agents[i].name == name
            ==> task_refusal(depth, input, agents) is None,
        0 <= i < agents.len() && agents[i].name == name && (forall|j: int|
            0 <= j < i ==> (#[trigger] agents[j]).name != name) ==> agent_named(agents, name) == Some(
            agents[i],
        ),
{
    lemma_agent(agents, name, i);
}

proof fn lemma_agent(agents: Seq<SubagentDefView>, name: Seq<char>, i: int)
    ensures
        (forall|j: int| 0 <= j < agents.len() ==> (#[trigger] agents[j]).name != name)
            ==> agent_named(agents, name) is None,
        0 <= i < agents.len() && agents[i].name == name ==> agent_named(agents, name) is Some,
        0 <= i < agents.len() && agents[i].name == name && (forall|j: int|
            0 <= j < i ==> (#[trigger] agents[j]).name != name) ==> agent_named(agents, name) == Some(
            agents[i],
        ),
    decreases agents.len(),
{
    if agents.len() > 0 {
        let t = agents.drop_first();
        lemma_agent(t, name, i - 1);
        assert(forall|j: int| 0 <= j < t.len() ==> #[trigger] t[j] == agents[j + 1]);
        if agents[0].name != name {
            if forall|j: int| 0 <= j < agents.len() ==> (#[trigger] agents[j]).name != name {
                assert forall|j: int| 0 <= j < t.len() implies (#[trigger] t[j]).name != name by {
                    assert(agents[j + 1].name != name);
                }
            }
            if 0 < i < agents.len() {
                assert(t[i - 1] == agents[i]);
                if forall|j: int| 0 <= j < i ==> (#[trigger] agents[j]).name != name {
                    assert forall|j: int| 0 <= j < i - 1 implies (#[trigger] t[j]).name != name by {
                        assert(agents[j + 1].name != name);
                    }
                }
            }
        }
    }
}

/// What a sub-agent reports is the last thing that it said: the first text of the last of
/// its messages that has any.
pub proof fn law_last_words_are_reported(
    s: Seq<ModelMessageView>,
    t: Seq<char>,
    rest: Seq<ModelContentView>,
    other: ModelMessageView,
    end: Result<StopReason, Seq<char>>,
)
    requires
        !(other is Assistant),
    ensures
        report_of(
            s.push(ModelMessageView::Assistant { content: seq![ModelContentView::Text(t)] + rest }),
            end,
        ) == t,
        last_reply(s.push(other)) == last_reply(s),
        report_of(Seq::empty(), end) == match end {
            Ok(stop) => "[子 agent 无文本输出: "@ + stop_words(stop) + "]"@,
            Err(e) => "[子 agent 错误: "@ + e + "]"@,
        },
{
    let m = ModelMessageView::Assistant { content: seq![ModelContentView::Text(t)] + rest };
    assert(s.push(m).drop_last() =~= s);
    assert(s.push(other).drop_last() =~= s);
    let c = seq![ModelContentView::Text(t)] + rest;
    lemma_first_text(c);
}

proof fn lemma_first_text(c: Seq<ModelContentView>)
    ensures
        c.len() > 0 && c[0] is Text ==> first_text(c) == Some(c[0]->Text_0),
{
    reveal_with_fuel(first_text, 2);
}

} // verus!
