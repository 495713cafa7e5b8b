//! Sub-agents: what a file says of one.
use vstd::prelude::*;
use vstd::string::*;

use crate::dup::Dup;
use crate::front::Named;
use crate::front::by_name;
use crate::front::first_line;
use crate::front::first_line_of;
use crate::front::front_and_body;
use crate::front::if_empty;
use crate::front::last_of_each;
use crate::front::last_raw;
use crate::front::last_said;
use crate::front::last_told;
use crate::front::lists_each;
use crate::front::raw_value_of;
use crate::front::split_frontmatter;
use crate::front::told_value_of;
use crate::front::value_of;
use crate::providers::calls::or_text;
use crate::providers::calls::text_or;
use crate::text::line_list;
use crate::text::split;
use crate::text::split_list;
use crate::text::trim;
use crate::text::trim_head;
use crate::text::trim_tail;
use crate::text::trimmed;
use crate::text::views;
use crate::text::without_head;
use crate::text::without_tail;

verus! {

/// The model of `SubagentDef`.
pub struct SubagentDefView {
    pub name: Seq<char>,
    pub description: Seq<char>,
    pub tools: Seq<Seq<char>>,
    pub model: Option<Seq<char>>,
    pub system_prompt: Seq<char>,
}

/// A sub-agent.
#[derive(Debug, PartialEq)]
pub struct SubagentDef {
    pub name: String,
    pub description: String,
    /// The tools that it may use.
    pub tools: Vec<String>,
    /// Its model, where it is not that of the agent that calls it.
    pub model: Option<String>,
    pub system_prompt: String,
}

impl DeepView for SubagentDef {
    type V = SubagentDefView;

    open spec fn deep_view(&self) -> SubagentDefView {
        SubagentDefView {
            name: self.name@,
            description: self.description@,
            tools: self.tools.deep_view(),
            model: self.model.deep_view(),
            system_prompt: self.system_prompt@,
        }
    }
}

impl Dup for SubagentDef {
    fn dup(&self) -> (r: Self) {
        SubagentDef {
            name: self.name.clone(),
            description: self.description.clone(),
            tools: self.tools.dup(),
            model: self.model.dup(),
            system_prompt: self.system_prompt.clone(),
        }
    }
}

impl Clone for SubagentDef {
    fn clone(&self) -> (r: Self)
        ensures
            r.deep_view() == self.deep_view(),
    {
        self.dup()
    }
}

impl Named for SubagentDef {
    open spec fn name_of(v: SubagentDefView) -> Seq<char> {
        v.name
    }

    fn name(&self) -> (r: &str) {
        self.name.as_str()
    }
}

/// The items of a list, without white space around them, and without empty ones.
pub open spec fn trimmed_items(s: Seq<Seq<char>>) -> Seq<Seq<char>>
    decreases s.len(),
{
    if s.len() == 0 {
        Seq::empty()
    } else if trimmed(s.last()).len() == 0 {
        trimmed_items(s.drop_last())
    } else {
        trimmed_items(s.drop_last()).push(trimmed(s.last()))
    }
}

/// The tools in a list with commas, in brackets or not.
pub open spec fn tools_in(s: Seq<char>) -> Seq<Seq<char>> {
    trimmed_items(split_list(without_tail(without_head(trimmed(s), '['), ']'), ","@))
}

/// The tools of a sub-agent where none are named.
pub open spec fn readers() -> Seq<Seq<char>> {
    Seq::empty().push("Read"@).push("Grep"@).push("Glob"@)
}

/// The sub-agent that a file of that name describes.
pub open spec fn agent_in(stem: Seq<char>, text: Seq<char>) -> SubagentDefView {
    let (head, body) = front_and_body(text);
    let all = line_list(head);
    let prompt = trimmed(body);
    let tools = match last_raw(all, "tools:"@) {
        Some(v) => tools_in(v),
        None => Seq::empty(),
    };
    SubagentDefView {
        name: or_text(last_told(all, "name:"@), stem),
        description: if_empty(or_text(last_said(all, "description:"@), ""@), first_line_of(prompt)),
        tools: if tools.len() == 0 {
            readers()
        } else {
            tools
        },
        model: last_said(all, "model:"@),
        system_prompt: prompt,
    }
}

fn parse_tools(s: &str) -> (r: Vec<String>)
    ensures
        r.deep_view() == tools_in(s@),
{
    let t = trim(s);
    let a = trim_head(t.as_str(), '[');
    let b = trim_tail(a.as_str(), ']');
    proof {
        reveal_strlit(",");
    }
    let items = split(b.as_str(), ",");
    let ghost all = views(items@);
    let mut out: Vec<String> = Vec::new();
    let mut i: usize = 0;
    assert(out.deep_view() =~= trimmed_items(all.take(0)));
    while i < items.len()
        invariant
            i <= items@.len(),
            all == views(items@),
            out.deep_view() == trimmed_items(all.take(i as int)),
        decreases items@.len() - i,
    {
        assert(all.take(i + 1).drop_last() =~= all.take(i as int));
        assert(all.take(i + 1).last() == items@[i as int]@);
        let ghost before = out.deep_view();
        let x = trim(items[i].as_str());
        if x.as_str().unicode_len() > 0 {
            out.push(x);
            assert(out.deep_view() =~= before.push(x@));
        }
        i = i + 1;
    }
    assert(all.take(all.len() as int) =~= all);
    out
}

/// The sub-agent that a file of that name describes.
pub fn parse_agent(stem: &str, text: &str) -> (r: SubagentDef)
    ensures
        r.deep_view() == agent_in(stem@, text@),
{
    let (head, body) = split_frontmatter(text);
    let h = head.as_str();
    let name = text_or(told_value_of(h, "name:"), stem);
    let system_prompt = trim(body.as_str());
    let d = text_or(value_of(h, "description:"), "");
    let description = if d.as_str().unicode_len() == 0 {
        first_line(system_prompt.as_str())
    } else {
        d
    };
    let listed = match raw_value_of(h, "tools:") {
        Some(v) => parse_tools(v.as_str()),
        None => {
            let none: Vec<String> = Vec::new();
            assert(none.deep_view() =~= Seq::<Seq<char>>::empty());
            none
        },
    };
    assert(listed.deep_view().len() == listed@.len());
    let tools = if listed.len() == 0 {
        let mut v: Vec<String> = Vec::new();
        v.push("Read".to_owned());
        v.push("Grep".to_owned());
        v.push("Glob".to_owned());
        assert(v.deep_view() =~= readers());
        v
    } else {
        listed
    };
    let model = value_of(h, "model:");
    SubagentDef { name, description, tools, model, system_prompt }
}

/// The sub-agents among those that were found, first the user's and then the
/// project's: under each name the last.
pub fn load_agents(found: &Vec<SubagentDef>) -> (r: Vec<SubagentDef>)
    ensures
        lists_each::<SubagentDef>(r.deep_view(), by_name::<SubagentDef>(found.deep_view())),
{
    last_of_each(found)
}

} // verus!
