//! Snapshots of files in a repository of their own, beside the user's: the commands
//! that make one and that bring files back.
use vstd::prelude::*;
use vstd::string::*;

use crate::paths::join_path;
use crate::paths::joined_path;
use crate::recorder::base_of;
use crate::recorder::slug_of;
use crate::recorder::slugify;
use crate::text::cat3;
use crate::text::cat;
use crate::text::copy_strings;
use crate::text::join;
use crate::text::joined;
use crate::text::trim;
use crate::text::trimmed;
use crate::text::views;
use crate::tools::fs::lossy;
use crate::tools::fs::lossy_text;

verus! {

/// A repository without a work tree of its own, over the files of a project.
#[derive(Debug, PartialEq)]
pub struct ShadowRepo {
    pub git_dir: String,
    pub work_tree: String,
}

/// Where the repository of a project lies.
pub open spec fn shadow_dir(home: Seq<char>, cwd: Seq<char>) -> Seq<char> {
    joined_path(
        joined_path(joined_path(base_of(home), "projects"@), slug_of(cwd)),
        "shadow.git"@,
    )
}

/// The arguments of a command on the repository.
pub open spec fn git_line(git_dir: Seq<char>, work_tree: Seq<char>, args: Seq<Seq<char>>) -> Seq<
    Seq<char>,
> {
    seq!["--git-dir"@, git_dir, "--work-tree"@, work_tree] + args
}

/// The commands of a snapshot.
#[derive(Debug, PartialEq)]
pub struct SnapshotPlan {
    /// Takes the files up, whatever is ignored.
    pub add: Vec<String>,
    pub commit: Vec<String>,
    /// Tells which commit it was.
    pub head: Vec<String>,
}

impl ShadowRepo {
    /// The repository of a project. Nothing where the home directory is not known.
    pub fn init(cwd: &str, home: Option<&str>) -> (r: Result<ShadowRepo, String>)
        ensures
            match home {
                Some(h) => r matches Ok(s) && s.git_dir@ == shadow_dir(h@, cwd@) && s.work_tree@
                    == cwd@,
                None => r matches Err(e) && e@ == "HOME 未设置"@,
            },
    {
        match home {
            Some(h) => {
                let slug = slugify(cwd);
                let a = join_path(h, ".tao");
                let b = join_path(a.as_str(), "projects");
                let c = join_path(b.as_str(), slug.as_str());
                let git_dir = join_path(c.as_str(), "shadow.git");
                Ok(ShadowRepo { git_dir, work_tree: cwd.to_owned() })
            },
            None => Err("HOME 未设置".to_owned()),
        }
    }

    /// The arguments that make the repository.
    pub fn init_args(&self) -> (r: Vec<String>)
        ensures
            views(r@) == seq!["init"@, "--bare"@, self.git_dir@],
    {
        let mut v: Vec<String> = Vec::new();
        v.push("init".to_owned());
        v.push("--bare".to_owned());
        v.push(self.git_dir.clone());
        assert(views(v@) =~= seq!["init"@, "--bare"@, self.git_dir@]);
        v
    }

    /// The file that lists what is never taken up by itself.
    pub fn exclude_path(&self) -> (r: String)
        ensures
            r@ == joined_path(joined_path(self.git_dir@, "info"@), "exclude"@),
    {
        let d = join_path(self.git_dir.as_str(), "info");
        join_path(d.as_str(), "exclude")
    }

    /// What is never taken up by itself.
    pub fn exclude_text() -> (r: &'static str)
        ensures
            r@ == ".env\n*.key\nsecrets.*\n*.pem\n"@,
    {
        ".env\n*.key\nsecrets.*\n*.pem\n"
    }

    /// The arguments of a command on the repository.
    pub fn git_args(&self, args: &Vec<String>) -> (r: Vec<String>)
        ensures
            views(r@) == git_line(self.git_dir@, self.work_tree@, views(args@)),
    {
        let mut v: Vec<String> = Vec::new();
        v.push("--git-dir".to_owned());
        v.push(self.git_dir.clone());
        v.push("--work-tree".to_owned());
        v.push(self.work_tree.clone());
        let mut rest = copy_strings(args);
        let ghost head = views(v@);
        let ghost tail = views(rest@);
        v.append(&mut rest);
        assert(views(v@) =~= head + tail);
        assert(views(v@) =~= git_line(self.git_dir@, self.work_tree@, views(args@)));
        v
    }

    /// The commands that take a snapshot of files. None where there are no files.
    pub fn snapshot(&self, files: &Vec<String>) -> (r: Option<SnapshotPlan>)
        ensures
            match r {
                None => files@.len() == 0,
                Some(p) => {
                    &&& files@.len() > 0
                    &&& views(p.add@) == git_line(
                        self.git_dir@,
                        self.work_tree@,
                        seq!["add"@, "-f"@] + views(files@),
                    )
                    &&& views(p.commit@) == git_line(
                        self.git_dir@,
                        self.work_tree@,
                        seq!["commit"@, "-m"@, "tao checkpoint"@, "--allow-empty"@],
                    )
                    &&& views(p.head@) == git_line(
                        self.git_dir@,
                        self.work_tree@,
                        seq!["rev-parse"@, "HEAD"@],
                    )
                },
            },
    {
        if files.len() == 0 {
            return None;
        }
        let mut a: Vec<String> = Vec::new();
        a.push("add".to_owned());
        a.push("-f".to_owned());
        let mut rest = copy_strings(files);
        a.append(&mut rest);
        assert(views(a@) =~= seq!["add"@, "-f"@] + views(files@));
        let mut c: Vec<String> = Vec::new();
        c.push("commit".to_owned());
        c.push("-m".to_owned());
        c.push("tao checkpoint".to_owned());
        c.push("--allow-empty".to_owned());
        assert(views(c@) =~= seq!["commit"@, "-m"@, "tao checkpoint"@, "--allow-empty"@]);
        let mut h: Vec<String> = Vec::new();
        h.push("rev-parse".to_owned());
        h.push("HEAD".to_owned());
        assert(views(h@) =~= seq!["rev-parse"@, "HEAD"@]);
        Some(
            SnapshotPlan { add: self.git_args(&a), commit: self.git_args(&c), head: self.git_args(&h) },
        )
    }

    /// The arguments that bring all files back to where a commit has them.
    pub fn rollback(&self, commit: &str) -> (r: Vec<String>)
        ensures
            views(r@) == git_line(
                self.git_dir@,
                self.work_tree@,
                seq!["checkout"@, commit@, "--"@, "."@],
            ),
    {
        let mut v: Vec<String> = Vec::new();
        v.push("checkout".to_owned());
        v.push(commit.to_owned());
        v.push("--".to_owned());
        v.push(".".to_owned());
        assert(views(v@) =~= seq!["checkout"@, commit@, "--"@, "."@]);
        self.git_args(&v)
    }
}

/// What is said of a command that failed. The arguments are those behind the
/// repository's own.
pub fn git_failure(args: &Vec<String>, stderr: &Vec<u8>) -> (r: String)
    ensures
        r@ == "git "@ + joined(views(args@), " "@) + " 失败: "@ + trimmed(lossy(stderr@)),
{
    let a = join(args, " ");
    let e = lossy_text(stderr);
    let t = trim(e.as_str());
    let head = cat3("git ", a.as_str(), " 失败: ");
    cat(head.as_str(), t.as_str())
}

/// The commit that the repository is at, as the command says it.
pub fn commit_of(stdout: &Vec<u8>) -> (r: String)
    ensures
        r@ == trimmed(lossy(stdout@)),
{
    let t = lossy_text(stdout);
    trim(t.as_str())
}

} // verus!
