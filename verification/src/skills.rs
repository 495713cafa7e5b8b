//! Skills: what the model is told of them, so that it can read them when it needs
//! them.
use vstd::prelude::*;
use vstd::string::*;

use crate::dup::Dup;
use crate::front::Named;
use crate::front::by_name;
use crate::front::front_and_body;
use crate::front::if_empty;
use crate::front::last_of_each;
use crate::front::last_said;
use crate::front::last_told;
use crate::front::lists_each;
use crate::front::split_frontmatter;
use crate::front::told_value_of;
use crate::front::value_of;
use crate::providers::calls::or_text;
use crate::providers::calls::text_or;
use crate::text::line_list;

verus! {

/// The model of `SkillDef`.
pub struct SkillDefView {
    pub name: Seq<char>,
    pub description: Seq<char>,
    pub path: Seq<char>,
}

/// A skill, and where it is written down.
#[derive(Debug, PartialEq)]
pub struct SkillDef {
    pub name: String,
    pub description: String,
    pub path: String,
}

impl DeepView for SkillDef {
    type V = SkillDefView;

    open spec fn deep_view(&self) -> SkillDefView {
        SkillDefView { name: self.name@, description: self.description@, path: self.path@ }
    }
}

impl Dup for SkillDef {
    fn dup(&self) -> (r: Self) {
        SkillDef {
            name: self.name.clone(),
            description: self.description.clone(),
            path: self.path.clone(),
        }
    }
}

impl Clone for SkillDef {
    fn clone(&self) -> (r: Self)
        ensures
            r.deep_view() == self.deep_view(),
    {
        self.dup()
    }
}

impl Named for SkillDef {
    open spec fn name_of(v: SkillDefView) -> Seq<char> {
        v.name
    }

    fn name(&self) -> (r: &str) {
        self.name.as_str()
    }
}

/// The skill that a file in a directory of that name describes.
pub open spec fn skill_in(path: Seq<char>, dir: Seq<char>, text: Seq<char>) -> SkillDefView {
    let all = line_list(front_and_body(text).0);
    SkillDefView {
        name: or_text(last_told(all, "name:"@), dir),
        description: if_empty(or_text(last_said(all, "description:"@), ""@), "（无描述）"@),
        path,
    }
}

/// The skill that a file in a directory of that name describes.
pub fn parse_skill(path: &str, dir: &str, text: &str) -> (r: SkillDef)
    ensures
        r.deep_view() == skill_in(path@, dir@, text@),
{
    let (head, _) = split_frontmatter(text);
    let name = text_or(told_value_of(head.as_str(), "name:"), dir);
    let d = text_or(value_of(head.as_str(), "description:"), "");
    let description = if d.as_str().unicode_len() == 0 {
        "（无描述）".to_owned()
    } else {
        d
    };
    SkillDef { name, description, path: path.to_owned() }
}

/// The skills among those that were found, first the user's and then the project's:
/// under each name the last.
pub fn load_skills(found: &Vec<SkillDef>) -> (r: Vec<SkillDef>)
    ensures
        lists_each::<SkillDef>(r.deep_view(), by_name::<SkillDef>(found.deep_view())),
{
    last_of_each(found)
}

/// What the model is told of a skill.
pub open spec fn skill_text(s: SkillDefView) -> Seq<char> {
    "- "@ + s.name + ": "@ + s.description + "\n  Read "@ + s.path + "\n"@
}

/// What the model is told of skills.
pub open spec fn skill_texts(s: Seq<SkillDefView>) -> Seq<char>
    decreases s.len(),
{
    if s.len() == 0 {
        Seq::empty()
    } else {
        skill_texts(s.drop_last()) + skill_text(s.last())
    }
}

/// What the model is told of skills, where there are any.
pub fn skills_prompt(skills: &Vec<SkillDef>) -> (r: Option<String>)
    ensures
        match r {
            None => skills@.len() == 0,
            Some(t) => skills@.len() > 0 && t@
                == "可用技能（触发后用 Read 工具读 SKILL.md 正文获取方法论):\n"@ + skill_texts(
                skills.deep_view(),
            ),
        },
{
    if skills.len() == 0 {
        return None;
    }
    let ghost head = "可用技能（触发后用 Read 工具读 SKILL.md 正文获取方法论):\n"@;
    let ghost all = skills.deep_view();
    let mut out = "可用技能（触发后用 Read 工具读 SKILL.md 正文获取方法论):\n".to_owned();
    let mut i: usize = 0;
    assert(out@ =~= head + skill_texts(all.take(0)));
    while i < skills.len()
        invariant
            i <= skills@.len(),
            all == skills.deep_view(),
            out@ == head + skill_texts(all.take(i as int)),
        decreases skills@.len() - i,
    {
        assert(all.take(i + 1).drop_last() =~= all.take(i as int));
        assert(all.take(i + 1).last() == skills@[i as int].deep_view());
        let ghost before = out@;
        let s = &skills[i];
        out.append("- ");
        out.append(s.name.as_str());
        out.append(": ");
        out.append(s.description.as_str());
        out.append("\n  Read ");
        out.append(s.path.as_str());
        out.append("\n");
        assert(out@ =~= before + skill_text(all[i as int]));
        assert(out@ =~= head + (skill_texts(all.take(i as int)) + skill_text(all[i as int])));
        i = i + 1;
    }
    assert(all.take(all.len() as int) =~= all);
    Some(out)
}

} // verus!
