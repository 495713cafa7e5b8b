//! Who may do what: the engine's decisions by tool name, command and rule.
use vstd::prelude::*;

use crate::event::ApprovalKind;
use crate::laws::texts::lemma_first_at;
use crate::laws::texts::lemma_first_missing;
use crate::laws::texts::lemma_stands_in;
use crate::permission::DecisionView;
use crate::permission::PermissionMode;
use crate::permission::PermissionRuleView;
use crate::permission::RuleAction;
use crate::permission::Verdict;
use crate::permission::VerdictSourceView;
use crate::permissions::EngineView;
use crate::permissions::PermissionKeyView;
use crate::permissions::class_default;
use crate::permissions::class_of;
use crate::permissions::commands_of;
use crate::permissions::decision;
use crate::permissions::detail_for;
use crate::permissions::filled;
use crate::permissions::first_winner;
use crate::permissions::glob_hits;
use crate::permissions::hands_on;
use crate::permissions::is_obscure;
use crate::permissions::is_script_option;
use crate::permissions::is_shell;
use crate::permissions::key_text;
use crate::permissions::kind_of;
use crate::permissions::law_winner_is_strongest;
use crate::permissions::must_ask;
use crate::permissions::parts_after;
use crate::permissions::rule_hits;
use crate::permissions::script_of;
use crate::permissions::script_option;
use crate::permissions::segment_verdict;
use crate::permissions::segment_verdicts;
use crate::permissions::segment_winner;
use crate::permissions::segments_of;
use crate::permissions::separator;
use crate::permissions::tool_listed;
use crate::permissions::winner;
use crate::text::byte_len;
use crate::text::find;
use crate::text::split_list;
use crate::text::trimmed;
use crate::text::words;

verus! {

/// With no rules and no grants the mode decides by the name of the tool. Reading
/// and searching are always allowed. The tools that write files are denied in
/// plan mode, asked about by default, and allowed where edits are accepted. Every
/// other tool is denied in plan mode, and otherwise asked about. Bypassing allows
/// everything.
pub proof fn law_modes_go_by_tool_name(
    mode: PermissionMode,
    tool: Seq<char>,
    key: Option<PermissionKeyView>,
)
    requires
        !(key matches Some(PermissionKeyView::Bash { .. })),
    ensures
        ({
            let e = EngineView { mode, rules: Seq::empty(), grants: Set::empty() };
            let v = decision(e, tool, key).verdict;
            let reads = tool == "Read"@ || tool == "Grep"@ || tool == "Glob"@;
            let writes = tool == "Write"@ || tool == "Edit"@ || tool == "Patch"@;
            match mode {
                PermissionMode::Plan => v == if reads {
                    Verdict::Allow
                } else {
                    Verdict::Deny
                },
                PermissionMode::Default => v == if reads {
                    Verdict::Allow
                } else {
                    Verdict::Ask
                },
                PermissionMode::AcceptEdits => v == if reads || writes {
                    Verdict::Allow
                } else {
                    Verdict::Ask
                },
                PermissionMode::Bypass => v == Verdict::Allow,
            }
        }),
{
    reveal_strlit("Read");
    reveal_strlit("Grep");
    reveal_strlit("Glob");
    reveal_strlit("Write");
    reveal_strlit("Edit");
    reveal_strlit("Patch");
    reveal_strlit("Bash");
    reveal_strlit("WebFetch");
    assert("Read"@.len() == 4 && "Grep"@.len() == 4 && "Glob"@.len() == 4 && "Write"@.len() == 5 && "Edit"@.len() == 4 && "Patch"@.len() == 5 && "Bash"@.len() == 4 && "WebFetch"@.len() == 8);
    assert("Read"@[0] != "Grep"@[0]);
    assert("Read"@[0] != "Glob"@[0]);
    assert("Read"@[0] != "Edit"@[0]);
    assert("Read"@[0] != "Bash"@[0]);
    assert("Grep"@[1] != "Glob"@[1]);
    assert("Grep"@[0] != "Edit"@[0]);
    assert("Grep"@[0] != "Bash"@[0]);
    assert("Glob"@[0] != "Edit"@[0]);
    assert("Glob"@[0] != "Bash"@[0]);
    assert("Write"@[0] != "Patch"@[0]);
    assert("Edit"@[0] != "Bash"@[0]);
}

/// A command line that no rule speaks of goes by the mode and the name of the
/// tool as well, unless it hands its arguments on or is a script that cannot be
/// taken apart: then it is asked about.
pub proof fn law_commands_go_by_mode(
    mode: PermissionMode,
    tool: Seq<char>,
    command: Seq<Seq<char>>,
)
    ensures
        ({
            let e = EngineView { mode, rules: Seq::empty(), grants: Set::empty() };
            let v = decision(e, tool, Some(PermissionKeyView::Bash { command })).verdict;
            let reads = tool == "Read"@ || tool == "Grep"@ || tool == "Glob"@;
            let writes = tool == "Write"@ || tool == "Edit"@ || tool == "Patch"@;
            v == if must_ask(command) {
                Verdict::Ask
            } else if mode == PermissionMode::Bypass || reads {
                Verdict::Allow
            } else if mode == PermissionMode::Plan {
                Verdict::Deny
            } else if mode == PermissionMode::AcceptEdits && writes {
                Verdict::Allow
            } else {
                Verdict::Ask
            }
        }),
{
    reveal_strlit("Read");
    reveal_strlit("Grep");
    reveal_strlit("Glob");
    reveal_strlit("Write");
    reveal_strlit("Edit");
    reveal_strlit("Patch");
    reveal_strlit("Bash");
    reveal_strlit("WebFetch");
    assert("Read"@.len() == 4 && "Grep"@.len() == 4 && "Glob"@.len() == 4 && "Write"@.len() == 5 && "Edit"@.len() == 4 && "Patch"@.len() == 5 && "Bash"@.len() == 4 && "WebFetch"@.len() == 8);
    assert("Read"@[0] != "Grep"@[0]);
    assert("Read"@[0] != "Glob"@[0]);
    assert("Read"@[0] != "Edit"@[0]);
    assert("Read"@[0] != "Bash"@[0]);
    assert("Grep"@[1] != "Glob"@[1]);
    assert("Grep"@[0] != "Edit"@[0]);
    assert("Grep"@[0] != "Bash"@[0]);
    assert("Glob"@[0] != "Edit"@[0]);
    assert("Glob"@[0] != "Bash"@[0]);
    assert("Write"@[0] != "Patch"@[0]);
    assert("Edit"@[0] != "Bash"@[0]);
    let rules = Seq::<PermissionRuleView>::empty();
    let s = segments_of(command);
    let vs = segment_verdicts(rules, mode, tool, s);
    if s.len() > 1 {
        assert forall|i: int| 0 <= i < vs.len() implies #[trigger] vs[i] == class_default(
            mode,
            class_of(tool),
        ) by {}
        assert(vs.contains(vs[0]));
    }
}

/// Commands that hand their arguments on are asked about under every mode and
/// every rule: `sudo`, `env` and `xargs` with any arguments, `find` with an
/// argument that starts with `-exec`, and `git` with an argument `-c`.
pub proof fn law_handing_on_is_asked(
    e: EngineView,
    tool: Seq<char>,
    args: Seq<Seq<char>>,
    i: int,
    rest: Seq<char>,
)
    requires
        e.grants == Set::<(Seq<char>, Seq<char>)>::empty(),
    ensures
        decision(e, tool, Some(PermissionKeyView::Bash { command: seq!["sudo"@] + args })).verdict
            == Verdict::Ask,
        decision(e, tool, Some(PermissionKeyView::Bash { command: seq!["env"@] + args })).verdict
            == Verdict::Ask,
        decision(e, tool, Some(PermissionKeyView::Bash { command: seq!["xargs"@] + args })).verdict
            == Verdict::Ask,
        0 <= i < args.len() && args[i] == "-exec"@ + rest ==> decision(
            e,
            tool,
            Some(PermissionKeyView::Bash { command: seq!["find"@] + args }),
        ).verdict == Verdict::Ask,
        0 <= i < args.len() && args[i] == "-c"@ ==> decision(
            e,
            tool,
            Some(PermissionKeyView::Bash { command: seq!["git"@] + args }),
        ).verdict == Verdict::Ask,
{
    reveal_strlit("sudo");
    reveal_strlit("env");
    reveal_strlit("xargs");
    reveal_strlit("find");
    reveal_strlit("git");
    reveal_strlit("-exec");
    reveal_strlit("-c");
    assert("sudo"@.len() == 4 && "env"@.len() == 3 && "xargs"@.len() == 5 && "find"@.len() == 4 && "git"@.len() == 3 && "-exec"@.len() == 5 && "-c"@.len() == 2);
    assert("sudo"@[0] != "find"@[0]);
    assert("env"@[0] != "git"@[0]);
    assert("xargs"@[0] != "-exec"@[0]);
    let c = seq!["find"@] + args;
    if 0 <= i < args.len() && args[i] == "-exec"@ + rest {
        assert(c[i + 1] == args[i]);
        assert("-exec"@ =~= args[i].take(5));
        assert("-exec"@.is_prefix_of(c[i + 1]));
        assert(hands_on(c));
    }
    let g = seq!["git"@] + args;
    if 0 <= i < args.len() && args[i] == "-c"@ {
        assert(g[i + 1] == "-c"@);
        assert(hands_on(g));
    }
}

/// Nothing else is asked about against the rules: any other program, `find`
/// without `-exec`, and `git` without `-c` do as the first rule that covers them
/// says.
pub proof fn law_plain_commands_meet_rules(
    e: EngineView,
    tool: Seq<char>,
    command: Seq<Seq<char>>,
    rule: PermissionRuleView,
)
    requires
        e.grants == Set::<(Seq<char>, Seq<char>)>::empty(),
        e.rules == seq![rule],
        rule_hits(rule, tool, Some(PermissionKeyView::Bash { command })),
        command.len() > 0,
        !seq![
            "sudo"@,
            "env"@,
            "xargs"@,
            "bash"@,
            "sh"@,
            "zsh"@,
            "dash"@,
            "ash"@,
            "/bin/bash"@,
            "/bin/sh"@,
        ].contains(command[0]),
        command[0] == "find"@ ==> forall|i: int|
            0 <= i < command.len() ==> !("-exec"@.is_prefix_of(#[trigger] command[i])),
        command[0] == "git"@ ==> forall|i: int|
            0 <= i < command.len() ==> #[trigger] command[i] != "-c"@,
    ensures
        decision(e, tool, Some(PermissionKeyView::Bash { command })) == (DecisionView {
            verdict: match rule.action {
                RuleAction::Allow => Verdict::Allow,
                RuleAction::Ask => Verdict::Ask,
                RuleAction::Deny => Verdict::Deny,
            },
            source: VerdictSourceView::Rule { rule },
        }),
{
    let no = seq![
        "sudo"@,
        "env"@,
        "xargs"@,
        "bash"@,
        "sh"@,
        "zsh"@,
        "dash"@,
        "ash"@,
        "/bin/bash"@,
        "/bin/sh"@,
    ];
    let c = command[0];
    assert(c != no[0] && c != no[1] && c != no[2] && c != no[3] && c != no[4] && c != no[5] && c
        != no[6] && c != no[7] && c != no[8] && c != no[9]);
    assert(!hands_on(command));
    assert(script_of(command) is None);
    assert(e.rules.drop_last() =~= Seq::<PermissionRuleView>::empty());
    assert(winner(e.rules.drop_last(), tool, Some(PermissionKeyView::Bash { command })) is None);
    assert(e.rules.last() == rule);
}

/// A script handed to a shell is asked about if it substitutes commands or
/// variables, or holds a quote beside anything that may separate commands.
pub proof fn law_unclear_scripts_are_asked(
    e: EngineView,
    tool: Seq<char>,
    shell: Seq<char>,
    option: Seq<char>,
    before: Seq<char>,
    after: Seq<char>,
    quote: char,
    sep: char,
)
    requires
        e.grants == Set::<(Seq<char>, Seq<char>)>::empty(),
        shell == "bash"@ || shell == "sh"@ || shell == "zsh"@ || shell == "dash"@ || shell
            == "ash"@ || shell == "/bin/bash"@ || shell == "/bin/sh"@,
        option == "-c"@ || option == "-lc"@,
        quote == '"' || quote == '\'',
        sep == '&' || sep == '|' || sep == ';' || sep == '\n',
    ensures
        ({
            let on = |script: Seq<char>|
                decision(
                    e,
                    tool,
                    Some(PermissionKeyView::Bash { command: seq![shell, option, script] }),
                ).verdict;
            &&& on(before + "$("@ + after) == Verdict::Ask
            &&& on(before + "`"@ + after) == Verdict::Ask
            &&& on(before + "${"@ + after) == Verdict::Ask
            &&& before.contains(quote) && after.contains(sep) ==> on(before + after) == Verdict::Ask
            &&& before.contains(sep) && after.contains(quote) ==> on(before + after) == Verdict::Ask
        }),
{
    lemma_stands_in(before, "$("@, after);
    lemma_stands_in(before, "`"@, after);
    lemma_stands_in(before, "${"@, after);
    lemma_asked(e, tool, shell, option, before + "$("@ + after);
    lemma_asked(e, tool, shell, option, before + "`"@ + after);
    lemma_asked(e, tool, shell, option, before + "${"@ + after);
    let both = before + after;
    if before.contains(quote) && after.contains(sep) {
        let i = choose|i: int| 0 <= i < before.len() && before[i] == quote;
        let j = choose|j: int| 0 <= j < after.len() && after[j] == sep;
        assert(both[i] == quote && both[before.len() + j] == sep);
        assert(both.contains(quote) && both.contains(sep));
        lemma_asked(e, tool, shell, option, both);
    }
    if before.contains(sep) && after.contains(quote) {
        let i = choose|i: int| 0 <= i < before.len() && before[i] == sep;
        let j = choose|j: int| 0 <= j < after.len() && after[j] == quote;
        assert(both[i] == sep && both[before.len() + j] == quote);
        assert(both.contains(quote) && both.contains(sep));
        lemma_asked(e, tool, shell, option, both);
    }
}

/// A script with neither a substitution nor a quote is taken apart: it is decided
/// by its commands.
pub proof fn law_clear_scripts_are_taken_apart(
    shell: Seq<char>,
    option: Seq<char>,
    script: Seq<char>,
)
    requires
        shell == "bash"@ || shell == "sh"@ || shell == "zsh"@ || shell == "dash"@ || shell
            == "ash"@ || shell == "/bin/bash"@ || shell == "/bin/sh"@,
        option == "-c"@ || option == "-lc"@,
        !script.contains('`') && !script.contains('$'),
        !script.contains('"') && !script.contains('\''),
    ensures
        !must_ask(seq![shell, option, script]),
        segments_of(seq![shell, option, script]) == commands_of(script),
{
    reveal_strlit("bash");
    reveal_strlit("sh");
    reveal_strlit("zsh");
    reveal_strlit("dash");
    reveal_strlit("ash");
    reveal_strlit("/bin/bash");
    reveal_strlit("/bin/sh");
    reveal_strlit("-c");
    reveal_strlit("-lc");
    reveal_strlit("sudo");
    reveal_strlit("env");
    reveal_strlit("xargs");
    reveal_strlit("find");
    reveal_strlit("git");
    reveal_strlit("$(");
    reveal_strlit("`");
    reveal_strlit("${");
    assert("bash"@.len() == 4 && "sh"@.len() == 2 && "zsh"@.len() == 3 && "dash"@.len() == 4 && "ash"@.len() == 3 && "/bin/bash"@.len() == 9 && "/bin/sh"@.len() == 7 && "-c"@.len() == 2 && "-lc"@.len() == 3 && "sudo"@.len() == 4 && "env"@.len() == 3 && "xargs"@.len() == 5 && "find"@.len() == 4 && "git"@.len() == 3 && "$("@.len() == 2 && "`"@.len() == 1 && "${"@.len() == 2);
    assert("bash"@[0] != "dash"@[0]);
    assert("bash"@[0] != "sudo"@[0]);
    assert("bash"@[0] != "find"@[0]);
    assert("sh"@[0] != "-c"@[0]);
    assert("sh"@[0] != "$("@[0]);
    assert("sh"@[0] != "${"@[0]);
    assert("zsh"@[0] != "ash"@[0]);
    assert("zsh"@[0] != "-lc"@[0]);
    assert("zsh"@[0] != "env"@[0]);
    assert("zsh"@[0] != "git"@[0]);
    assert("dash"@[0] != "sudo"@[0]);
    assert("dash"@[0] != "find"@[0]);
    assert("ash"@[0] != "-lc"@[0]);
    assert("ash"@[0] != "env"@[0]);
    assert("ash"@[0] != "git"@[0]);
    assert("-c"@[0] != "$("@[0]);
    assert("-c"@[0] != "${"@[0]);
    assert("-lc"@[0] != "env"@[0]);
    assert("-lc"@[0] != "git"@[0]);
    assert("sudo"@[0] != "find"@[0]);
    assert("env"@[0] != "git"@[0]);
    assert("$("@[1] != "${"@[1]);
    lemma_script_of(shell, option, script);
    lemma_first_missing(script, "$("@);
    lemma_first_missing(script, "`"@);
    lemma_first_missing(script, "${"@);
}

/// `&&`, `||`, `|`, `;` and the line feed stand between two commands, and what
/// stands on either side is taken apart by itself.
pub proof fn law_separators_part_commands(a: Seq<char>, b: Seq<char>)
    requires
        !a.contains('&') && !a.contains('|') && !a.contains(';') && !a.contains('\n'),
    ensures
        commands_of(a) == if trimmed(a).len() == 0 {
            Seq::empty()
        } else {
            seq![trimmed(a)]
        },
        commands_of(a + "&&"@ + b) == commands_of(a) + commands_of(b),
        commands_of(a + "||"@ + b) == commands_of(a) + commands_of(b),
        commands_of(a + ";"@ + b) == commands_of(a) + commands_of(b),
        commands_of(a + "\n"@ + b) == commands_of(a) + commands_of(b),
        !(b.len() > 0 && b[0] == '|') ==> commands_of(a + "|"@ + b) == commands_of(a) + commands_of(
            b,
        ),
{
    reveal_strlit("&&");
    reveal_strlit("||");
    reveal_strlit(";");
    reveal_strlit("\n");
    reveal_strlit("|");
    assert("&&"@.len() == 2 && "||"@.len() == 2 && ";"@.len() == 1 && "\n"@.len() == 1 && "|"@.len() == 1);
    assert("&&"@[0] != "||"@[0]);
    assert(";"@[0] != "\n"@[0]);
    assert(";"@[0] != "|"@[0]);
    assert("\n"@[0] != "|"@[0]);
    let none = Seq::<char>::empty();
    assert(a + none =~= a);
    lemma_parts_over(none, a, none);
    assert(none + a =~= a);
    assert(parts_after(a, none) == seq![a]);
    assert(seq![a].drop_last() =~= Seq::<Seq<char>>::empty());
    assert(seq![a].last() == a);
    assert(filled(seq![a].drop_last()) =~= Seq::<Seq<char>>::empty());
    assert(commands_of(a) =~= if trimmed(a).len() == 0 {
        Seq::empty()
    } else {
        seq![trimmed(a)]
    });
    lemma_parted(a, "&&"@, b);
    lemma_parted(a, "||"@, b);
    lemma_parted(a, ";"@, b);
    lemma_parted(a, "\n"@, b);
    if !(b.len() > 0 && b[0] == '|') {
        lemma_parted(a, "|"@, b);
    }
}

/// In a script of several commands, each command that no rule speaks of goes by
/// the mode: under the default mode a script with one such command is never
/// allowed, and in plan mode it is denied.
pub proof fn law_unruled_commands_hold_scripts_back(
    e: EngineView,
    command: Seq<Seq<char>>,
    i: int,
)
    requires
        e.grants == Set::<(Seq<char>, Seq<char>)>::empty(),
        !must_ask(command),
        segments_of(command).len() > 1,
        0 <= i < segments_of(command).len(),
        forall|j: int|
            0 <= j < e.rules.len() ==> !rule_hits(
                #[trigger] e.rules[j],
                "Bash"@,
                Some(PermissionKeyView::Bash { command: words(segments_of(command)[i]) }),
            ),
    ensures
        ({
            let v = decision(e, "Bash"@, Some(PermissionKeyView::Bash { command })).verdict;
            match e.mode {
                PermissionMode::Plan => v == Verdict::Deny,
                PermissionMode::Default => v != Verdict::Allow,
                PermissionMode::AcceptEdits => v != Verdict::Allow,
                PermissionMode::Bypass => true,
            }
        }),
{
    let s = segments_of(command);
    let key = Some(PermissionKeyView::Bash { command: words(s[i]) });
    law_winner_is_strongest(e.rules, "Bash"@, key);
    let vs = segment_verdicts(e.rules, e.mode, "Bash"@, s);
    reveal_strlit("Bash");
    reveal_strlit("Read");
    reveal_strlit("Grep");
    reveal_strlit("Glob");
    reveal_strlit("Edit");
    assert("Bash"@.len() == 4 && "Read"@.len() == 4 && "Grep"@.len() == 4 && "Glob"@.len() == 4 && "Edit"@.len() == 4);
    assert("Bash"@[0] != "Read"@[0]);
    assert("Bash"@[0] != "Grep"@[0]);
    assert("Bash"@[0] != "Glob"@[0]);
    assert("Bash"@[0] != "Edit"@[0]);
    assert("Read"@[0] != "Grep"@[0]);
    assert("Read"@[0] != "Glob"@[0]);
    assert("Read"@[0] != "Edit"@[0]);
    assert("Grep"@[1] != "Glob"@[1]);
    assert("Grep"@[0] != "Edit"@[0]);
    assert("Glob"@[0] != "Edit"@[0]);
    assert(vs[i] == segment_verdict(e.rules, e.mode, "Bash"@, s[i]));
    assert(segment_winner(e.rules, "Bash"@, s[i]) is None);
    if e.mode == PermissionMode::Plan {
        assert(vs.contains(Verdict::Deny));
    }
}

/// Where a rule that denies speaks of a call, the call is denied; failing that,
/// where one that asks does, it is asked about; failing that, where one that
/// allows does, it is allowed. The decision names a rule that speaks of the call.
pub proof fn law_rules_by_strength(e: EngineView, tool: Seq<char>, key: Option<PermissionKeyView>)
    requires
        e.grants == Set::<(Seq<char>, Seq<char>)>::empty(),
        !(key matches Some(PermissionKeyView::Bash { .. })),
    ensures
        ({
            let d = decision(e, tool, key);
            let some = |a: RuleAction|
                exists|i: int|
                    0 <= i < e.rules.len() && e.rules[i].action == a && rule_hits(
                        #[trigger] e.rules[i],
                        tool,
                        key,
                    );
            &&& some(RuleAction::Deny) ==> d.verdict == Verdict::Deny
            &&& !some(RuleAction::Deny) && some(RuleAction::Ask) ==> d.verdict == Verdict::Ask
            &&& !some(RuleAction::Deny) && !some(RuleAction::Ask) && some(RuleAction::Allow)
                ==> d.verdict == Verdict::Allow
            &&& some(RuleAction::Deny) || some(RuleAction::Ask) || some(RuleAction::Allow) ==> (
            d.source matches VerdictSourceView::Rule { rule } && e.rules.contains(rule)
                && rule_hits(rule, tool, key) && forall|j: int|
                0 <= j < e.rules.len() && rule_hits(#[trigger] e.rules[j], tool, key)
                    && e.rules[j].action == rule.action ==> byte_len(e.rules[j].pattern)
                    <= byte_len(rule.pattern))
        }),
{
    law_winner_is_strongest(e.rules, tool, key);
}

/// A script of one command is held against the rules by the words of that command, and not by
/// the shell that runs it.
pub proof fn law_scripts_of_one_command_meet_rules(
    e: EngineView,
    tool: Seq<char>,
    command: Seq<Seq<char>>,
    script: Seq<char>,
    one: Seq<char>,
    rule: PermissionRuleView,
)
    requires
        e.grants == Set::<(Seq<char>, Seq<char>)>::empty(),
        e.rules == seq![rule],
        !must_ask(command),
        script_of(command) == Some(script),
        commands_of(script) == seq![one],
    ensures
        ({
            let hit = rule_hits(
                rule,
                tool,
                Some(PermissionKeyView::Bash { command: words(one) }),
            );
            let d = decision(e, tool, Some(PermissionKeyView::Bash { command }));
            &&& hit ==> d == (DecisionView {
                verdict: match rule.action {
                    RuleAction::Allow => Verdict::Allow,
                    RuleAction::Ask => Verdict::Ask,
                    RuleAction::Deny => Verdict::Deny,
                },
                source: VerdictSourceView::Rule { rule },
            })
            &&& !hit ==> d.source == (VerdictSourceView::ModeDefault { mode: e.mode })
        }),
{
    assert(e.rules.drop_last() =~= Seq::<PermissionRuleView>::empty());
    assert(e.rules.last() == rule);
    let key = Some(PermissionKeyView::Bash { command: words(one) });
    assert(winner(e.rules.drop_last(), tool, key) is None);
    assert(segments_of(command)[0] == one);
}

/// In a script of several commands the decision names the rule of the first command that has
/// one, and the mode where none has.
pub proof fn law_scripts_name_their_first_rule(
    e: EngineView,
    tool: Seq<char>,
    command: Seq<Seq<char>>,
    k: int,
)
    requires
        e.grants == Set::<(Seq<char>, Seq<char>)>::empty(),
        !must_ask(command),
        segments_of(command).len() > 1,
        0 <= k <= segments_of(command).len(),
        forall|i: int|
            0 <= i < k ==> segment_winner(e.rules, tool, #[trigger] segments_of(command)[i]) is None,
        k < segments_of(command).len() ==> segment_winner(e.rules, tool, segments_of(command)[k]) is Some,
    ensures
        ({
            let d = decision(e, tool, Some(PermissionKeyView::Bash { command }));
            &&& k < segments_of(command).len() ==> d.source == (VerdictSourceView::Rule {
                rule: segment_winner(e.rules, tool, segments_of(command)[k])->0,
            })
            &&& k == segments_of(command).len() ==> d.source == (VerdictSourceView::ModeDefault {
                mode: e.mode,
            })
        }),
{
    lemma_first_winner(e.rules, tool, segments_of(command), k);
}

proof fn lemma_first_winner(
    rules: Seq<PermissionRuleView>,
    tool: Seq<char>,
    s: Seq<Seq<char>>,
    k: int,
)
    requires
        0 <= k <= s.len(),
        forall|i: int| 0 <= i < k ==> segment_winner(rules, tool, #[trigger] s[i]) is None,
        k < s.len() ==> segment_winner(rules, tool, s[k]) is Some,
    ensures
        k < s.len() ==> first_winner(rules, tool, s) == segment_winner(rules, tool, s[k]),
        k == s.len() ==> first_winner(rules, tool, s) is None,
    decreases s.len(),
{
    if s.len() > 0 {
        let t = s.drop_last();
        let m = if k < t.len() {
            k
        } else {
            t.len() as int
        };
        assert forall|i: int| 0 <= i < m implies segment_winner(rules, tool, #[trigger] t[i]) is None by {
            assert(t[i] == s[i]);
        }
        lemma_first_winner(rules, tool, t, m);
        assert(s.last() == s[s.len() - 1]);
    }
}

/// A rule on a host covers the host itself and every host below it, and no other.
pub proof fn law_hosts_below_are_covered(tool: Seq<char>, action: RuleAction, host: Seq<char>, below: Seq<char>, other: Seq<char>)
    requires
        !tool.contains('|'),
        trimmed(tool) == tool,
    ensures
        ({
            let rule = PermissionRuleView { tool, pattern: host, action };
            let hits = |h: Seq<char>| rule_hits(rule, tool, Some(PermissionKeyView::Domain { host: h }));
            &&& hits(host)
            &&& hits(below + "."@ + host)
            &&& hits(other) ==> other == host || exists|p: Seq<char>| other == p + "."@ + host
        }),
{
    lemma_lists_itself(tool);
    let all = below + "."@ + host;
    let tail = "."@ + host;
    assert(all.subrange(all.len() - tail.len(), all.len() as int) =~= tail);
    assert(all =~= below + tail);
    assert(tail.is_suffix_of(all));
    if tail.is_suffix_of(other) {
        let p = other.take(other.len() - tail.len());
        assert(other =~= p + tail);
        assert(p + tail =~= p + "."@ + host);
    }
}

/// The tools of a rule stand between bars, with or without white space: a rule
/// lists a tool exactly if what stands before the bar, or what stands behind it,
/// does.
pub proof fn law_bars_part_tools(a: Seq<char>, b: Seq<char>, tool: Seq<char>)
    requires
        !a.contains('|'),
    ensures
        tool_listed(a, tool) <==> trimmed(a) == tool,
        tool_listed(a + "|"@ + b, tool) <==> trimmed(a) == tool || tool_listed(b, tool),
{
    reveal_strlit("|");
    assert("|"@.len() == 1);
    let bar = "|"@;
    lemma_first_missing(a, bar);
    assert(find(a, bar) is None);
    assert(split_list(a, bar) =~= seq![a]);
    assert(split_list(a, bar)[0] == a);
    let all = a + bar + b;
    lemma_first_at(a, bar, b);
    assert(all.take(a.len() as int) =~= a);
    assert(all.skip(a.len() as int + 1) =~= b);
    let p = split_list(all, bar);
    let q = split_list(b, bar);
    assert(p =~= seq![a] + q);
    if trimmed(a) == tool {
        assert(p[0] == a);
    }
    if tool_listed(b, tool) {
        let i = choose|i: int| 0 <= i < q.len() && trimmed(#[trigger] q[i]) == tool;
        assert(p[i + 1] == q[i]);
    }
    if tool_listed(all, tool) {
        let i = choose|i: int| 0 <= i < p.len() && trimmed(#[trigger] p[i]) == tool;
        if i > 0 {
            assert(q[i - 1] == p[i]);
        }
    }
}

/// A call without a key is covered by no rule; a path is covered where the glob
/// matches the path, a command where it matches the words with single spaces.
pub proof fn law_globs_cover(rule: PermissionRuleView, tool: Seq<char>, path: Seq<char>, words: Seq<Seq<char>>, word: Seq<char>)
    requires
        tool_listed(rule.tool, tool),
    ensures
        !rule_hits(rule, tool, None),
        rule_hits(rule, tool, Some(PermissionKeyView::Path { path })) <==> glob_hits(rule.pattern, path),
        rule_hits(rule, tool, Some(PermissionKeyView::Bash { command: seq![word] })) <==> glob_hits(
            rule.pattern,
            word,
        ),
        words.len() > 0 ==> (rule_hits(
            rule,
            tool,
            Some(PermissionKeyView::Bash { command: words.push(word) }),
        ) <==> glob_hits(
            rule.pattern,
            key_text(PermissionKeyView::Bash { command: words }) + " "@ + word,
        )),
{
    assert(words.push(word).drop_last() =~= words);
}

/// Approval of `Bash` is about running, of the tools that write about files, and
/// of any other about the tool. The rule suggested starts with the tool's name and
/// covers the command with anything behind it, the path, or the host.
pub proof fn law_approvals_show_the_call(
    tool: Seq<char>,
    command: Seq<Seq<char>>,
    path: Seq<char>,
    host: Seq<char>,
    rule: Option<Seq<char>>,
)
    ensures
        kind_of(tool) == if tool == "Bash"@ {
            ApprovalKind::Exec
        } else if tool == "Write"@ || tool == "Edit"@ || tool == "Patch"@ {
            ApprovalKind::Patch
        } else {
            ApprovalKind::Tool
        },
        ({
            let d = detail_for(tool, Some(PermissionKeyView::Bash { command }), rule);
            &&& d.rule_matched == rule && d.tool == Some(tool) && d.args_summary is None
            &&& d.command == Some(command) && d.files is None
            &&& d.pattern_suggestion == Some(
                "Bash("@ + key_text(PermissionKeyView::Bash { command }) + " *)"@,
            )
        }),
        ({
            let d = detail_for(tool, Some(PermissionKeyView::Path { path }), rule);
            &&& d.rule_matched == rule && d.tool == Some(tool) && d.args_summary is None
            &&& d.command is None && d.files == Some(seq![path])
            &&& d.pattern_suggestion == Some(tool + "("@ + path + ")"@)
        }),
        ({
            let d = detail_for(tool, Some(PermissionKeyView::Domain { host }), rule);
            &&& d.rule_matched == rule && d.tool == Some(tool) && d.args_summary is None
            &&& d.command is None && d.files is None
            &&& d.pattern_suggestion == Some("WebFetch("@ + host + ")"@)
        }),
        ({
            let d = detail_for(tool, None, rule);
            &&& d.rule_matched == rule && d.tool == Some(tool) && d.args_summary is None
            &&& d.command is None && d.files is None && d.pattern_suggestion is None
        }),
{
}

/// A grant is for the text of the call: it covers the same words, path or host,
/// whatever the mode and the rules.
pub proof fn law_grants_go_by_text(e: EngineView, tool: Seq<char>, path: Seq<char>, host: Seq<char>, word: Seq<char>)
    ensures
        decision(
            EngineView { grants: e.grants.insert((tool, path)), ..e },
            tool,
            Some(PermissionKeyView::Path { path }),
        ).verdict == Verdict::Allow,
        decision(
            EngineView { grants: e.grants.insert((tool, host)), ..e },
            tool,
            Some(PermissionKeyView::Domain { host }),
        ).verdict == Verdict::Allow,
        decision(
            EngineView { grants: e.grants.insert((tool, word)), ..e },
            tool,
            Some(PermissionKeyView::Bash { command: seq![word] }),
        ).verdict == Verdict::Allow,
{
}

// ---- lemmas ----

proof fn lemma_asked(
    e: EngineView,
    tool: Seq<char>,
    shell: Seq<char>,
    option: Seq<char>,
    script: Seq<char>,
)
    requires
        e.grants == Set::<(Seq<char>, Seq<char>)>::empty(),
        is_shell(shell),
        is_script_option(option),
        is_obscure(script),
    ensures
        decision(
            e,
            tool,
            Some(PermissionKeyView::Bash { command: seq![shell, option, script] }),
        ).verdict == Verdict::Ask,
{
    reveal_strlit("bash");
    reveal_strlit("sh");
    reveal_strlit("zsh");
    reveal_strlit("dash");
    reveal_strlit("ash");
    reveal_strlit("/bin/bash");
    reveal_strlit("/bin/sh");
    reveal_strlit("-c");
    reveal_strlit("-lc");
    assert("bash"@.len() == 4 && "sh"@.len() == 2 && "zsh"@.len() == 3 && "dash"@.len() == 4 && "ash"@.len() == 3 && "/bin/bash"@.len() == 9 && "/bin/sh"@.len() == 7 && "-c"@.len() == 2 && "-lc"@.len() == 3);
    assert("bash"@[0] != "dash"@[0]);
    assert("sh"@[0] != "-c"@[0]);
    assert("zsh"@[0] != "ash"@[0]);
    assert("zsh"@[0] != "-lc"@[0]);
    assert("ash"@[0] != "-lc"@[0]);
    lemma_script_of(shell, option, script);
}

proof fn lemma_script_of(shell: Seq<char>, option: Seq<char>, script: Seq<char>)
    requires
        is_shell(shell),
        is_script_option(option),
        !is_script_option(shell),
    ensures
        script_of(seq![shell, option, script]) == Some(script),
{
    let c = seq![shell, option, script];
    assert(c.skip(1)[0] == option);
    assert(script_option(c.skip(1)) == 0);
    assert(script_option(c) == 1);
}

proof fn lemma_lists_itself(tool: Seq<char>)
    requires
        !tool.contains('|'),
        trimmed(tool) == tool,
    ensures
        tool_listed(tool, tool),
{
    law_bars_part_tools(tool, Seq::empty(), tool);
}

proof fn lemma_parts_over(open: Seq<char>, a: Seq<char>, rest: Seq<char>)
    requires
        !a.contains('&') && !a.contains('|') && !a.contains(';') && !a.contains('\n'),
    ensures
        parts_after(open, a + rest) == parts_after(open + a, rest),
    decreases a.len(),
{
    if a.len() == 0 {
        assert(a + rest =~= rest);
        assert(open + a =~= open);
    } else {
        let s = a + rest;
        assert(a.contains(a[0]));
        assert(s[0] == a[0]);
        assert(separator(s) == 0);
        let t = a.skip(1);
        assert forall|c: char| t.contains(c) implies a.contains(c) by {
            let i = choose|i: int| 0 <= i < t.len() && t[i] == c;
            assert(a[i + 1] == c);
        }
        lemma_parts_over(open.push(a[0]), t, rest);
        assert(s.skip(1) =~= t + rest);
        assert(open.push(a[0]) + t =~= open + a);
    }
}

proof fn lemma_filled_over(a: Seq<Seq<char>>, b: Seq<Seq<char>>)
    ensures
        filled(a + b) == filled(a) + filled(b),
    decreases b.len(),
{
    if b.len() == 0 {
        assert(a + b =~= a);
        assert(filled(a) + filled(b) =~= filled(a));
    } else {
        lemma_filled_over(a, b.drop_last());
        assert((a + b).drop_last() =~= a + b.drop_last());
        assert((a + b).last() == b.last());
        assert(filled(a + b) =~= filled(a) + filled(b));
    }
}

proof fn lemma_parted(a: Seq<char>, sep: Seq<char>, b: Seq<char>)
    requires
        !a.contains('&') && !a.contains('|') && !a.contains(';') && !a.contains('\n'),
        separator(sep + b) == sep.len(),
        sep.len() > 0,
    ensures
        commands_of(a + sep + b) == commands_of(a) + commands_of(b),
{
    let none = Seq::<char>::empty();
    lemma_parts_over(none, a, sep + b);
    assert(a + (sep + b) =~= a + sep + b);
    assert(none + a =~= a);
    assert((sep + b).skip(sep.len() as int) =~= b);
    lemma_parts_over(none, a, none);
    assert(a + none =~= a);
    assert(parts_after(none, a) == seq![a]);
    assert(parts_after(none, a + sep + b) == seq![a] + parts_after(none, b));
    lemma_filled_over(seq![a], parts_after(none, b));
}

} // verus!
