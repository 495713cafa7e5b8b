//! Commands, skills and agents as they are written down.
use vstd::prelude::*;

use crate::agents::agent_in;
use crate::agents::readers;
use crate::agents::tools_in;
use crate::agents::trimmed_items;
use crate::commands::Builtin;
use crate::commands::PieceView;
use crate::commands::builtin_of;
use crate::commands::command_count;
use crate::commands::command_in;
use crate::commands::command_len;
use crate::commands::filled;
use crate::commands::first_word;
use crate::commands::name_and_args;
use crate::commands::output_of;
use crate::commands::pieces_from;
use crate::commands::pieces_of;
use crate::front::ended_lines;
use crate::front::first_mark;
use crate::front::front_and_body;
use crate::front::last_raw;
use crate::front::last_said;
use crate::front::last_told;
use crate::laws::patches::are_lines;
use crate::laws::patches::is_line;
use crate::laws::patches::lemma_no_space_around;
use crate::laws::texts::law_lines_end_at_feeds;
use crate::laws::texts::law_splitting_loses_nothing;
use crate::laws::texts::lemma_first_at;
use crate::laws::texts::lemma_first_missing;
use crate::laws::texts::lemma_joined_first;
use crate::permission::PermissionMode;
use crate::skills::SkillDefView;
use crate::skills::skill_in;
use crate::skills::skill_texts;
use crate::text::cut;
use crate::text::is_space;
use crate::text::lemma_lines_before;
use crate::text::line_list;
use crate::text::replaced;
use crate::text::run_len;
use crate::text::signed_decimal_of;
use crate::text::split_list;
use crate::text::stripped;
use crate::text::trim_start;
use crate::text::trimmed;
use crate::text::without_head;
use crate::text::without_tail;

verus! {

/// Whether a text is a word: without white space, and not empty.
pub open spec fn a_word(s: Seq<char>) -> bool {
    s.len() > 0 && forall|i: int| 0 <= i < s.len() ==> !is_space(#[trigger] s[i])
}

/// The commands that the agent has built in, by name, whatever follows the name; no other
/// name is one.
pub proof fn law_builtin_commands(name: Seq<char>, args: Seq<char>)
    requires
        a_word(name),
        args.len() > 0,
        !is_space(args.last()),
    ensures
        name == "/help"@ ==> builtin_of(name) == Some(Builtin::Help) && builtin_of(name + " "@ + args) == Some(
            Builtin::Help,
        ),
        name == "/clear"@ ==> builtin_of(name) == Some(Builtin::Clear) && builtin_of(name + " "@ + args) == Some(
            Builtin::Clear,
        ),
        name == "/compact"@ ==> builtin_of(name) == Some(Builtin::Compact) && builtin_of(name + " "@ + args) == Some(
            Builtin::Compact,
        ),
        name == "/sessions"@ ==> builtin_of(name) == Some(Builtin::Sessions) && builtin_of(name + " "@ + args) == Some(
            Builtin::Sessions,
        ),
        name == "/plan"@ ==> builtin_of(name) == Some(Builtin::Mode(PermissionMode::Plan)) && builtin_of(name + " "@ + args) == Some(
            Builtin::Mode(PermissionMode::Plan),
        ),
        name == "/init"@ ==> builtin_of(name) == Some(Builtin::Init) && builtin_of(name + " "@ + args) == Some(
            Builtin::Init,
        ),
        name == "/hooks"@ ==> builtin_of(name) == Some(Builtin::Hooks) && builtin_of(name + " "@ + args) == Some(
            Builtin::Hooks,
        ),
        name == "/mcp"@ ==> builtin_of(name) == Some(Builtin::Mcp) && builtin_of(name + " "@ + args) == Some(
            Builtin::Mcp,
        ),
        name == "/agent"@ ==> builtin_of(name) == Some(Builtin::Agent) && builtin_of(name + " "@ + args) == Some(
            Builtin::Agent,
        ),
        name == "/model"@ ==> builtin_of(name) == Some(Builtin::Model) && builtin_of(name + " "@ + args) == Some(
            Builtin::Model,
        ),
        name == "/cost"@ ==> builtin_of(name) == Some(Builtin::Cost) && builtin_of(name + " "@ + args) == Some(
            Builtin::Cost,
        ),
        name == "/rewind"@ ==> builtin_of(name) == Some(Builtin::Rewind) && builtin_of(name + " "@ + args) == Some(
            Builtin::Rewind,
        ),
        name == "/rollback"@ ==> builtin_of(name) == Some(Builtin::Rollback) && builtin_of(name + " "@ + args) == Some(
            Builtin::Rollback,
        ),
        name == "/diff"@ ==> builtin_of(name) == Some(Builtin::Diff) && builtin_of(name + " "@ + args) == Some(
            Builtin::Diff,
        ),
        name == "/mode"@ ==> builtin_of(name) == Some(Builtin::ModeCycle),
        !seq![
            "/help"@,
            "/clear"@,
            "/compact"@,
            "/sessions"@,
            "/plan"@,
            "/init"@,
            "/hooks"@,
            "/mcp"@,
            "/agent"@,
            "/model"@,
            "/cost"@,
            "/rewind"@,
            "/rollback"@,
            "/diff"@,
            "/mode"@,
        ].contains(name) ==> builtin_of(name) is None && builtin_of(name + " "@ + args) is None,
{
    reveal_strlit("/help");
    reveal_strlit("/clear");
    reveal_strlit("/compact");
    reveal_strlit("/sessions");
    reveal_strlit("/plan");
    reveal_strlit("/init");
    reveal_strlit("/hooks");
    reveal_strlit("/mcp");
    reveal_strlit("/agent");
    reveal_strlit("/model");
    reveal_strlit("/cost");
    reveal_strlit("/rewind");
    reveal_strlit("/rollback");
    reveal_strlit("/diff");
    reveal_strlit("/mode");
    assert("/help"@.len() == 5 && "/clear"@.len() == 6 && "/compact"@.len() == 8 && "/sessions"@.len() == 9 && "/plan"@.len() == 5 && "/init"@.len() == 5 && "/hooks"@.len() == 6 && "/mcp"@.len() == 4 && "/agent"@.len() == 6 && "/model"@.len() == 6 && "/cost"@.len() == 5 && "/rewind"@.len() == 7 && "/rollback"@.len() == 9 && "/diff"@.len() == 5 && "/mode"@.len() == 5);
    assert("/help"@[1] != "/plan"@[1]);
    assert("/help"@[1] != "/init"@[1]);
    assert("/help"@[1] != "/cost"@[1]);
    assert("/help"@[1] != "/diff"@[1]);
    assert("/help"@[1] != "/mode"@[1]);
    assert("/clear"@[1] != "/hooks"@[1]);
    assert("/clear"@[1] != "/agent"@[1]);
    assert("/clear"@[1] != "/model"@[1]);
    assert("/sessions"@[1] != "/rollback"@[1]);
    assert("/plan"@[1] != "/init"@[1]);
    assert("/plan"@[1] != "/cost"@[1]);
    assert("/plan"@[1] != "/diff"@[1]);
    assert("/plan"@[1] != "/mode"@[1]);
    assert("/init"@[1] != "/cost"@[1]);
    assert("/init"@[1] != "/diff"@[1]);
    assert("/init"@[1] != "/mode"@[1]);
    assert("/hooks"@[1] != "/agent"@[1]);
    assert("/hooks"@[1] != "/model"@[1]);
    assert("/agent"@[1] != "/model"@[1]);
    assert("/cost"@[1] != "/diff"@[1]);
    assert("/cost"@[1] != "/mode"@[1]);
    assert("/diff"@[1] != "/mode"@[1]);
    lemma_command_words(name, args);
    let all = seq![
            "/help"@,
            "/clear"@,
            "/compact"@,
            "/sessions"@,
            "/plan"@,
            "/init"@,
            "/hooks"@,
            "/mcp"@,
            "/agent"@,
            "/model"@,
            "/cost"@,
            "/rewind"@,
            "/rollback"@,
            "/diff"@,
            "/mode"@,
        ];
    if !all.contains(name) {
        assert(name != all[0] && name != all[1] && name != all[2] && name != all[3] && name != all[4] && name != all[5] && name != all[6] && name != all[7] && name != all[8] && name != all[9] && name != all[10] && name != all[11] && name != all[12] && name != all[13] && name != all[14]);
    }
}

/// The mode is set by its name; bypassing cannot be asked for in this way.
pub proof fn law_mode_command(mode: Seq<char>)
    requires
        a_word(mode),
    ensures
        builtin_of("/mode"@ + " "@ + mode) == if mode == "default"@ {
            Some(Builtin::Mode(PermissionMode::Default))
        } else if mode == "plan"@ {
            Some(Builtin::Mode(PermissionMode::Plan))
        } else if mode == "accept-edits"@ {
            Some(Builtin::Mode(PermissionMode::AcceptEdits))
        } else {
            None
        },
{
    reveal_strlit("/help");
    reveal_strlit("/clear");
    reveal_strlit("/compact");
    reveal_strlit("/sessions");
    reveal_strlit("/plan");
    reveal_strlit("/init");
    reveal_strlit("/hooks");
    reveal_strlit("/mcp");
    reveal_strlit("/agent");
    reveal_strlit("/model");
    reveal_strlit("/cost");
    reveal_strlit("/rewind");
    reveal_strlit("/rollback");
    reveal_strlit("/diff");
    reveal_strlit("/mode");
    assert("/help"@.len() == 5 && "/clear"@.len() == 6 && "/compact"@.len() == 8 && "/sessions"@.len() == 9 && "/plan"@.len() == 5 && "/init"@.len() == 5 && "/hooks"@.len() == 6 && "/mcp"@.len() == 4 && "/agent"@.len() == 6 && "/model"@.len() == 6 && "/cost"@.len() == 5 && "/rewind"@.len() == 7 && "/rollback"@.len() == 9 && "/diff"@.len() == 5 && "/mode"@.len() == 5);
    assert("/help"@[1] != "/plan"@[1]);
    assert("/help"@[1] != "/init"@[1]);
    assert("/help"@[1] != "/cost"@[1]);
    assert("/help"@[1] != "/diff"@[1]);
    assert("/help"@[1] != "/mode"@[1]);
    assert("/clear"@[1] != "/hooks"@[1]);
    assert("/clear"@[1] != "/agent"@[1]);
    assert("/clear"@[1] != "/model"@[1]);
    assert("/sessions"@[1] != "/rollback"@[1]);
    assert("/plan"@[1] != "/init"@[1]);
    assert("/plan"@[1] != "/cost"@[1]);
    assert("/plan"@[1] != "/diff"@[1]);
    assert("/plan"@[1] != "/mode"@[1]);
    assert("/init"@[1] != "/cost"@[1]);
    assert("/init"@[1] != "/diff"@[1]);
    assert("/init"@[1] != "/mode"@[1]);
    assert("/hooks"@[1] != "/agent"@[1]);
    assert("/hooks"@[1] != "/model"@[1]);
    assert("/agent"@[1] != "/model"@[1]);
    assert("/cost"@[1] != "/diff"@[1]);
    assert("/cost"@[1] != "/mode"@[1]);
    assert("/diff"@[1] != "/mode"@[1]);
    reveal_strlit(" ");
    assert(a_word("/mode"@));
    assert(!is_space(mode[mode.len() - 1]));
    lemma_command_words("/mode"@, mode);
    lemma_word_is_trimmed(mode);
}

/// What a command is called stands before the first space, less the slash; its arguments
/// stand behind the space.
pub proof fn law_commands_have_arguments(name: Seq<char>, args: Seq<char>)
    requires
        a_word(name),
        args.len() > 0,
        !is_space(args.last()),
    ensures
        name_and_args("/"@ + name + " "@ + args) == (name, args),
        name_and_args("/"@ + name) == (name, Seq::<char>::empty()),
{
    reveal_strlit("/");
    assert("/"@.len() == 1);
    reveal_strlit(" ");
    let n = "/"@ + name;
    assert forall|i: int| 0 <= i < n.len() implies !is_space(#[trigger] n[i]) by {
        if i > 0 {
            assert(n[i] == name[i - 1]);
        }
    }
    lemma_command_words(n, args);
    let all = n + " "@ + args;
    let rest = name + " "@ + args;
    assert(all.take(1) =~= "/"@);
    assert("/"@.is_prefix_of(all));
    assert(all.skip(1) =~= rest);
    lemma_no_blank(name);
    lemma_first_at(name, " "@, args);
    assert(rest.take(name.len() as int) =~= name);
    assert(rest.skip(name.len() as int + 1) =~= args);
    assert(n.take(1) =~= "/"@);
    assert("/"@.is_prefix_of(n));
    assert(n.skip(1) =~= name);
    lemma_first_missing(name, " "@);
}

/// The arguments stand wherever the template names them.
pub proof fn law_arguments_are_put_in(a: Seq<char>, b: Seq<char>, args: Seq<char>)
    requires
        !a.contains('$'),
    ensures
        replaced(a + "$ARGUMENTS"@ + b, "$ARGUMENTS"@, args) == a + args + replaced(
            b,
            "$ARGUMENTS"@,
            args,
        ),
        replaced(a, "$ARGUMENTS"@, args) == a,
{
    reveal_strlit("$ARGUMENTS");
    assert("$ARGUMENTS"@.len() == 10);
    let p = "$ARGUMENTS"@;
    let all = a + p + b;
    lemma_first_at(a, p, b);
    assert(all.take(a.len() as int) =~= a);
    assert(all.skip(a.len() as int + p.len()) =~= b);
    law_splitting_loses_nothing(b, p);
    lemma_joined_first(a, split_list(b, p), args);
    lemma_first_missing(a, p);
    assert(split_list(a, p) =~= seq![a]);
}

/// What stands in backquotes behind an exclamation mark is a command; text before it is a
/// piece of its own, and what follows is taken apart by itself.
pub proof fn law_commands_stand_in_backquotes(text: Seq<char>, cmd: Seq<char>, rest: Seq<char>)
    requires
        !text.contains('!'),
        cmd.len() > 0,
        !cmd.contains('`'),
    ensures
        pieces_of(text + "!`"@ + cmd + "`"@ + rest) == (if text.len() > 0 {
            seq![PieceView::Text(text)]
        } else {
            Seq::empty()
        }) + seq![PieceView::Command(cmd)] + pieces_of(rest),
        pieces_of(text) == if text.len() > 0 {
            seq![PieceView::Text(text)]
        } else {
            Seq::empty()
        },
{
    reveal_strlit("!`");
    reveal_strlit("`");
    assert("!`"@.len() == 2 && "`"@.len() == 1);
    let s = text + "!`"@ + cmd + "`"@ + rest;
    let k = text.len() as int;
    let n = cmd.len() as int;
    assert forall|i: int| 0 <= i < k implies #[trigger] s[i] != '!' by {
        assert(s[i] == text[i]);
        assert(text.contains(text[i]));
    }
    lemma_pieces_over(s, 0, 0, k);
    assert(s[k] == '!' && s[k + 1] == '`');
    let tail = s.skip(k + 2);
    assert(tail =~= cmd + "`"@ + rest);
    lemma_run_is(cmd, "`"@ + rest, '`');
    assert(cmd + ("`"@ + rest) =~= tail);
    assert(command_len(s, k) == n);
    assert(s.subrange(0, k) =~= text);
    assert(s.subrange(k + 2, k + 2 + n) =~= cmd);
    lemma_pieces_shift(s, k + 3 + n, 0, 0);
    assert(s.skip(k + 3 + n) =~= rest);
    let first = if text.len() > 0 {
        seq![PieceView::Text(text)]
    } else {
        Seq::empty()
    };
    assert(pieces_from(s, 0, k) =~= first + seq![PieceView::Command(cmd)] + pieces_from(
        s,
        k + 3 + n,
        k + 3 + n,
    ));
    assert forall|i: int| 0 <= i < text.len() implies #[trigger] text[i] != '!' by {
        assert(text.contains(text[i]));
    }
    lemma_pieces_over(text, 0, 0, k);
    assert(text.skip(0) =~= text);
}

/// Text stays, and each command gives way to its own output, in order.
pub proof fn law_outputs_take_the_place_of_commands(
    s: Seq<PieceView>,
    outputs: Seq<Seq<char>>,
    t: Seq<char>,
    c: Seq<char>,
    out: Seq<char>,
)
    requires
        outputs.len() == command_count(s),
    ensures
        filled(Seq::empty(), outputs) == Seq::<char>::empty(),
        filled(s.push(PieceView::Text(t)), outputs) == filled(s, outputs) + t,
        filled(s.push(PieceView::Command(c)), outputs.push(out)) == filled(s, outputs) + out,
        command_count(s.push(PieceView::Command(c))) == command_count(s) + 1,
        command_count(s.push(PieceView::Text(t))) == command_count(s),
{
    assert(s.push(PieceView::Text(t)).drop_last() =~= s);
    assert(s.push(PieceView::Command(c)).drop_last() =~= s);
    lemma_filled_more(s, outputs, out);
}

/// The output of a command that succeeds is what it printed; of one that fails it is its
/// exit code and what it reported.
pub proof fn law_failed_commands_say_so(code: i32, stdout: Seq<char>, stderr: Seq<char>)
    ensures
        output_of(true, Some(code), stdout, stderr) == stdout,
        output_of(false, Some(code), stdout, stderr) == "[命令失败("@ + signed_decimal_of(code as int)
            + "): "@ + stderr + "]"@,
        output_of(false, None, stdout, stderr) == "[命令失败("@ + signed_decimal_of(-1) + "): "@
            + stderr + "]"@,
{
}

// ---- front matter ----

/// Between the two marks stands the front matter, line by line, and behind the second the
/// body; a text that does not begin with a mark is all body.
pub proof fn law_front_matter_stands_between_marks(
    text: Seq<char>,
    head: Seq<Seq<char>>,
    body: Seq<Seq<char>>,
)
    requires
        forall|i: int| 0 <= i < head.len() ==> trimmed(#[trigger] head[i]) != "---"@,
        are_lines(head),
        are_lines(body),
    ensures
        line_list(text) == seq!["---"@] + head + seq!["---"@] + body ==> line_list(
            front_and_body(text).0,
        ) == head && line_list(front_and_body(text).1) == body,
        line_list(text).len() == 0 || trimmed(line_list(text)[0]) != "---"@ ==> front_and_body(text)
            == (Seq::<char>::empty(), text),
{
    let all = seq!["---"@] + head + seq!["---"@] + body;
    if line_list(text) == all {
        reveal_strlit("---");
        assert("---"@.len() == 3);
        lemma_no_space_around("---"@);
        assert(all[0] == "---"@);
        let rest = all.drop_first();
        assert(rest =~= head + seq!["---"@] + body);
        lemma_first_mark(head, seq!["---"@] + body);
        assert(head + (seq!["---"@] + body) =~= rest);
        let k = head.len() as int;
        assert(rest.take(k) =~= head);
        assert(rest.skip(k + 1) =~= body);
        lemma_ended_lines(head);
        lemma_ended_lines(body);
    }
}

/// A key of the front matter has the value that stands behind it in its last line, without
/// white space and quotes around it.
pub proof fn law_last_value_of_a_key_counts(
    s: Seq<Seq<char>>,
    key: Seq<char>,
    v: Seq<char>,
    other: Seq<char>,
)
    requires
        !key.is_prefix_of(other),
    ensures
        last_said(s.push(key + v), key) == Some(stripped(trimmed(v), '"')),
        last_said(s.push(other), key) == last_said(s, key),
        last_said(Seq::empty(), key) is None,
        stripped(trimmed(v), '"').len() > 0 ==> last_told(s.push(key + v), key) == Some(
            stripped(trimmed(v), '"'),
        ),
        stripped(trimmed(v), '"').len() == 0 ==> last_told(s.push(key + v), key) == last_told(s, key),
        last_told(s.push(other), key) == last_told(s, key),
        last_raw(s.push(key + v), key) == Some(v),
        last_raw(s.push(other), key) == last_raw(s, key),
{
    assert(s.push(key + v).drop_last() =~= s);
    assert(s.push(other).drop_last() =~= s);
    assert((key + v).take(key.len() as int) =~= key);
    assert((key + v).skip(key.len() as int) =~= v);
    assert(key.is_prefix_of(key + v));
}

/// A command, a skill and an agent are described by what their front matter says; failing
/// that, a command and an agent by the first line of the body, and a skill by a remark that
/// there is no description. An agent without a list of tools gets the ones that read.
pub proof fn law_definitions_follow_their_front_matter(
    name: Seq<char>,
    path: Seq<char>,
    text: Seq<char>,
)
    ensures
        ({
            let (head, body) = front_and_body(text);
            let h = line_list(head);
            let said = last_said(h, "description:"@);
            let given = said is Some && said->0.len() > 0;
            let first = |s: Seq<char>|
                if line_list(s).len() > 0 {
                    line_list(s)[0]
                } else {
                    Seq::empty()
                };
            let c = command_in(name, text);
            let s = skill_in(path, name, text);
            let a = agent_in(name, text);
            &&& c.name == name && c.body == body
            &&& c.argument_hint == last_said(h, "argument_hint:"@)
            &&& given ==> c.description == said->0 && s.description == said->0 && a.description
                == said->0
            &&& !given ==> c.description == first(body) && a.description == first(trimmed(body))
                && s.description == "（无描述）"@
            &&& s.path == path
            &&& last_told(h, "name:"@) matches Some(n) ==> s.name == n && a.name == n
            &&& last_told(h, "name:"@) is None ==> s.name == name && a.name == name
            &&& a.model == last_said(h, "model:"@)
            &&& a.system_prompt == trimmed(body)
            &&& last_raw(h, "tools:"@) is None ==> a.tools == seq!["Read"@, "Grep"@, "Glob"@]
            &&& last_raw(h, "tools:"@) matches Some(v) ==> a.tools == if tools_in(v).len() > 0 {
                tools_in(v)
            } else {
                seq!["Read"@, "Grep"@, "Glob"@]
            }
        }),
{
    reveal_strlit("");
    assert(readers() =~= seq!["Read"@, "Grep"@, "Glob"@]);
}

/// Tools are listed with commas between them, in brackets.
pub proof fn law_tools_are_listed_with_commas(a: Seq<char>, b: Seq<char>)
    requires
        a_word(a),
        a_word(b),
        !a.contains(',') && !a.contains('[') && !a.contains(']'),
        !b.contains(',') && !b.contains('[') && !b.contains(']'),
    ensures
        tools_in("["@ + a + ", "@ + b + "]"@) == seq![a, b],
        tools_in("["@ + a + "]"@) == seq![a],
        tools_in(a + ", "@ + b) == seq![a, b],
{
    reveal_strlit("[");
    reveal_strlit("]");
    reveal_strlit(",");
    assert("["@.len() == 1 && "]"@.len() == 1 && ","@.len() == 1);
    assert("["@[0] != "]"@[0]);
    assert("["@[0] != ","@[0]);
    assert("]"@[0] != ","@[0]);
    reveal_strlit(", ");
    let two = a + ", "@ + b;
    assert(a.contains(a[0]) && b.contains(b[b.len() - 1]) && a.contains(a[a.len() - 1]));
    lemma_listed(a, b);
    let x = "["@ + a + ", "@ + b + "]"@;
    lemma_no_space_around(x);
    assert(x.drop_first() =~= two + "]"@);
    assert((two + "]"@)[0] == a[0]);
    assert(without_head(two + "]"@, '[') == two + "]"@);
    assert((two + "]"@).drop_last() =~= two);
    assert(two.last() == b.last());
    assert(without_tail(two, ']') == two);
    let y = "["@ + a + "]"@;
    lemma_no_space_around(y);
    assert(y.drop_first() =~= a + "]"@);
    assert((a + "]"@)[0] == a[0]);
    assert(without_head(a + "]"@, '[') == a + "]"@);
    assert((a + "]"@).drop_last() =~= a);
    assert(without_tail(a, ']') == a);
    lemma_first_missing(a, ","@);
    assert(split_list(a, ","@) =~= seq![a]);
    lemma_word_is_trimmed(a);
    assert(seq![a].drop_last() =~= Seq::<Seq<char>>::empty());
    assert(trimmed_items(seq![a].drop_last()) =~= Seq::<Seq<char>>::empty());
    assert(trimmed_items(seq![a]) =~= seq![a]);
    lemma_no_space_around(two);
    assert(two[0] == a[0]);
    assert(without_head(two, '[') == two);
}

/// What the agent is told of skills is a line for each with its name and its description,
/// and where to read on.
pub proof fn law_skills_are_told(s: Seq<SkillDefView>, one: SkillDefView)
    ensures
        skill_texts(Seq::empty()) == Seq::<char>::empty(),
        skill_texts(s.push(one)) == skill_texts(s) + "- "@ + one.name + ": "@ + one.description
            + "\n  Read "@ + one.path + "\n"@,
{
    assert(s.push(one).drop_last() =~= s);
    assert(skill_texts(s.push(one)) =~= skill_texts(s) + "- "@ + one.name + ": "@ + one.description
        + "\n  Read "@ + one.path + "\n"@);
}

// ---- lemmas ----

proof fn lemma_listed(a: Seq<char>, b: Seq<char>)
    requires
        a_word(a),
        a_word(b),
        !a.contains(','),
        !b.contains(','),
    ensures
        trimmed_items(split_list(a + ", "@ + b, ","@)) == seq![a, b],
{
    reveal_strlit(",");
    assert(","@.len() == 1);
    reveal_strlit(", ");
    let blank = seq![' '];
    let rest = blank + b;
    let all = a + ","@ + rest;
    assert(all =~= a + ", "@ + b);
    lemma_first_at(a, ","@, rest);
    assert(all.take(a.len() as int) =~= a);
    assert(all.skip(a.len() as int + 1) =~= rest);
    assert(!rest.contains(',')) by {
        if rest.contains(',') {
            let i = choose|i: int| 0 <= i < rest.len() && rest[i] == ',';
            assert(b[i - 1] == ',');
            assert(b.contains(','));
        }
    }
    lemma_first_missing(rest, ","@);
    let parts = split_list(all, ","@);
    assert(split_list(rest, ","@) =~= seq![rest]);
    assert(parts == seq![a] + split_list(rest, ","@));
    assert(parts =~= seq![a, rest]);
    assert(rest[0] == ' ');
    assert(rest.skip(1) =~= b);
    lemma_word_is_trimmed(b);
    assert(!is_space(b[0]));
    assert(trim_start(rest) == trim_start(b));
    assert(trimmed(rest) == b);
    lemma_word_is_trimmed(a);
    let one = parts.drop_last();
    assert(one =~= seq![a]);
    assert(one.drop_last() =~= Seq::<Seq<char>>::empty());
    assert(trimmed_items(one.drop_last()) =~= Seq::<Seq<char>>::empty());
    assert(trimmed_items(one) =~= seq![a]);
    assert(trimmed_items(parts) =~= seq![a, b]);
}

proof fn lemma_word_is_trimmed(s: Seq<char>)
    requires
        a_word(s),
    ensures
        trimmed(s) == s,
{
    assert(!is_space(s[0]) && !is_space(s[s.len() - 1]));
    lemma_no_space_around(s);
}

proof fn lemma_no_blank(s: Seq<char>)
    requires
        a_word(s),
    ensures
        !s.contains(' '),
        " "@.len() == 1,
        " "@[0] == ' ',
{
    reveal_strlit(" ");
    if s.contains(' ') {
        let i = choose|i: int| 0 <= i < s.len() && s[i] == ' ';
        assert(is_space(s[i]));
    }
}

proof fn lemma_command_words(name: Seq<char>, args: Seq<char>)
    requires
        a_word(name),
        args.len() > 0,
        !is_space(args.last()),
    ensures
        trimmed(name) == name,
        cut(name, " "@) is None,
        first_word(name) == name,
        trimmed(name + " "@ + args) == name + " "@ + args,
        cut(name + " "@ + args, " "@) == Some((name, args)),
        first_word(name + " "@ + args) == name,
{
    lemma_no_blank(name);
    lemma_word_is_trimmed(name);
    lemma_first_missing(name, " "@);
    let s = name + " "@ + args;
    assert(s[0] == name[0] && s.last() == args.last());
    assert(!is_space(name[0]));
    lemma_no_space_around(s);
    lemma_first_at(name, " "@, args);
    assert(s.take(name.len() as int) =~= name);
    assert(s.skip(name.len() as int + 1) =~= args);
}

proof fn lemma_run_is(l: Seq<char>, rest: Seq<char>, c: char)
    requires
        !l.contains(c),
        rest.len() > 0,
        rest[0] == c,
    ensures
        run_len(l + rest, c) == l.len(),
    decreases l.len(),
{
    let s = l + rest;
    if l.len() > 0 {
        let t = l.skip(1);
        assert(l.contains(l[0]));
        assert(s[0] == l[0]);
        assert(!t.contains(c)) by {
            if t.contains(c) {
                let i = choose|i: int| 0 <= i < t.len() && t[i] == c;
                assert(l[i + 1] == c);
                assert(l.contains(c));
            }
        }
        lemma_run_is(t, rest, c);
        assert(s.skip(1) =~= t + rest);
    } else {
        assert(s =~= rest);
    }
}

proof fn lemma_pieces_over(s: Seq<char>, from: int, i: int, k: int)
    requires
        0 <= from <= i <= k <= s.len(),
        forall|j: int| i <= j < k ==> #[trigger] s[j] != '!',
    ensures
        pieces_from(s, from, i) == pieces_from(s, from, k),
    decreases k - i,
{
    if i < k {
        assert(s[i] != '!');
        lemma_pieces_over(s, from, i + 1, k);
    }
}

proof fn lemma_pieces_shift(s: Seq<char>, d: int, from: int, i: int)
    requires
        0 <= d <= s.len(),
        0 <= from <= i,
    ensures
        pieces_from(s, d + from, d + i) == pieces_from(s.skip(d), from, i),
    decreases s.len() - d - i,
{
    let t = s.skip(d);
    if i >= t.len() {
        if from < t.len() {
            assert(s.skip(d + from) =~= t.skip(from));
        }
    } else {
        if d + i + 2 <= s.len() {
            assert(s.skip(d + i + 2) =~= t.skip(i + 2));
        }
        let n = command_len(t, i) as int;
        assert(command_len(s, d + i) == n);
        if n > 0 {
            lemma_pieces_shift(s, d, i + 3 + n, i + 3 + n);
            assert(s.subrange(d + from, d + i) =~= t.subrange(from, i));
            assert(s.subrange(d + i + 2, d + i + 2 + n) =~= t.subrange(i + 2, i + 2 + n));
        } else {
            lemma_pieces_shift(s, d, from, i + 1);
        }
    }
}

proof fn lemma_filled_more(s: Seq<PieceView>, outputs: Seq<Seq<char>>, out: Seq<char>)
    requires
        command_count(s) <= outputs.len(),
    ensures
        filled(s, outputs.push(out)) == filled(s, outputs),
    decreases s.len(),
{
    if s.len() > 0 {
        lemma_filled_more(s.drop_last(), outputs, out);
    }
}

proof fn lemma_first_mark(head: Seq<Seq<char>>, rest: Seq<Seq<char>>)
    requires
        forall|i: int| 0 <= i < head.len() ==> trimmed(#[trigger] head[i]) != "---"@,
        rest.len() > 0,
        trimmed(rest[0]) == "---"@,
    ensures
        first_mark(head + rest) == head.len(),
    decreases head.len(),
{
    let s = head + rest;
    if head.len() > 0 {
        let t = head.drop_first();
        assert(trimmed(head[0]) != "---"@);
        assert(s[0] == head[0]);
        assert forall|i: int| 0 <= i < t.len() implies trimmed(#[trigger] t[i]) != "---"@ by {
            assert(t[i] == head[i + 1]);
        }
        lemma_first_mark(t, rest);
        assert(s.drop_first() =~= t + rest);
    } else {
        assert(s =~= rest);
    }
}

proof fn lemma_ended_lines(s: Seq<Seq<char>>)
    requires
        are_lines(s),
    ensures
        line_list(ended_lines(s)) == s,
        ended_lines(s).len() > 0 ==> ended_lines(s).last() == '\n',
    decreases s.len(),
{
    reveal_strlit("\n");
    assert("\n"@ =~= seq!['\n']);
    let none = Seq::<char>::empty();
    if s.len() == 0 {
        assert(line_list(none) =~= s);
    } else {
        let t = s.drop_last();
        let l = s.last();
        assert forall|i: int| 0 <= i < t.len() implies is_line(#[trigger] t[i]) by {
            assert(t[i] == s[i]);
        }
        assert(is_line(s[s.len() - 1]));
        lemma_ended_lines(t);
        lemma_lines_before(ended_lines(t), l + "\n"@);
        assert(ended_lines(s) =~= ended_lines(t) + (l + "\n"@));
        law_lines_end_at_feeds(l, none);
        assert(l + seq!['\n'] + none =~= l + "\n"@);
        assert(line_list(none) =~= Seq::<Seq<char>>::empty());
        assert(line_list(l + "\n"@) =~= seq![l]);
        assert(t + seq![l] =~= s);
    }
}

} // verus!
