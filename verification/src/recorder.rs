//! The session log on disk: what is written where, and what is cut away.
use vstd::prelude::*;
use vstd::string::*;

use crate::codec::Wire;
use crate::dup::Dup;
use crate::ids::SessionId;
use crate::json::depth_read;
use crate::json::json_read;
use crate::json::json_text;
use crate::json::parse;
use crate::json::plain;
use crate::json::print;
use crate::log::LogEvent;
use crate::log::LogEventView;
use crate::log::LogLine;
use crate::log::LogLineView;
use crate::paths::join_path;
use crate::paths::joined_path;
use crate::text::byte_len;
use crate::text::bytes_len;
use crate::text::cat3;
use crate::text::cat;
use crate::text::chars_of;
use crate::text::chop_return;
use crate::text::decimal;
use crate::text::decimal_of;
use crate::text::is_space;
use crate::text::lemma_lines_before;
use crate::text::lemma_run_len;
use crate::text::lemma_trim_start_len;
use crate::text::line_list;
use crate::text::lines;
use crate::text::run_end;
use crate::text::run_len;
use crate::text::string_of;
use crate::text::strip;
use crate::text::stripped;
use crate::text::trim_end;
use crate::text::trim_start;
use crate::text::trimmed;
use crate::text::views;

verus! {

/// A file of the log that has grown beyond this is followed by another.
pub const ROTATE_MAX_BYTES: u64 = 1_048_576;

// ---- names ----

/// Characters that do not go into a directory's name.
pub open spec fn is_separator(c: char) -> bool {
    c == '/' || c == ' ' || c == ':' || c == '\\'
}

/// `s` with a dash for every such character.
pub open spec fn dashed(s: Seq<char>) -> Seq<char> {
    Seq::new(
        s.len(),
        |i: int|
            if is_separator(s[i]) {
                '-'
            } else {
                s[i]
            },
    )
}

/// The name under which a project's sessions are kept.
pub open spec fn slug_of(cwd: Seq<char>) -> Seq<char> {
    stripped(dashed(cwd), '-')
}

/// The name under which a project's sessions are kept.
pub fn slugify(cwd: &str) -> (r: String)
    ensures
        r@ == slug_of(cwd@),
{
    let v = chars_of(cwd);
    let mut d: Vec<char> = Vec::new();
    let mut i: usize = 0;
    while i < v.len()
        invariant
            i <= v@.len(),
            d@.len() == i,
            forall|k: int| 0 <= k < i ==> #[trigger] d@[k] == dashed(v@)[k],
        decreases v@.len() - i,
    {
        let c = v[i];
        if c == '/' || c == ' ' || c == ':' || c == '\\' {
            d.push('-');
        } else {
            d.push(c);
        }
        i = i + 1;
    }
    assert(d@ =~= dashed(v@));
    let all = string_of(d.as_slice(), 0, d.len());
    assert(all@ =~= d@);
    strip(all.as_str(), '-')
}

/// The directory of a project's sessions below a base directory.
pub open spec fn sessions_below(base: Seq<char>, cwd: Seq<char>) -> Seq<char> {
    joined_path(joined_path(joined_path(base, "projects"@), slug_of(cwd)), "sessions"@)
}

/// The base directory below a home directory.
pub open spec fn base_of(home: Seq<char>) -> Seq<char> {
    joined_path(home, ".tao"@)
}

/// The directory of a project's sessions below a base directory.
pub fn sessions_dir(cwd: &str, base: &str) -> (r: String)
    ensures
        r@ == sessions_below(base@, cwd@),
{
    let slug = slugify(cwd);
    let a = join_path(base, "projects");
    let b = join_path(a.as_str(), slug.as_str());
    join_path(b.as_str(), "sessions")
}

/// The directory of a project's sessions, where the home directory is known.
pub fn session_dir(cwd: &str, home: Option<&str>) -> (r: Option<String>)
    ensures
        match home {
            Some(h) => r matches Some(d) && d@ == sessions_below(base_of(h@), cwd@),
            None => r is None,
        },
{
    match home {
        Some(h) => {
            let base = join_path(h, ".tao");
            Some(sessions_dir(cwd, base.as_str()))
        },
        None => None,
    }
}

/// The file of a session's log: the first one, and those that follow it.
pub open spec fn segment_name(id: Seq<char>, segment: u32) -> Seq<char> {
    if segment == 0 {
        id + ".jsonl"@
    } else {
        id + "."@ + decimal_of(segment as nat) + ".jsonl"@
    }
}

/// The file of a session's log.
pub fn segment_filename(id: &SessionId, segment: u32) -> (r: String)
    ensures
        r@ == segment_name(id.deep_view(), segment),
{
    if segment == 0 {
        cat(id.as_str(), ".jsonl")
    } else {
        let n = decimal(segment as u64);
        let head = cat3(id.as_str(), ".", n.as_str());
        cat(head.as_str(), ".jsonl")
    }
}

/// The path of a session's log, where the home directory is known.
pub fn session_file_path(cwd: &str, id: &SessionId, home: Option<&str>) -> (r: Option<String>)
    ensures
        match home {
            Some(h) => r matches Some(p) && p@ == joined_path(
                sessions_below(base_of(h@), cwd@),
                segment_name(id.deep_view(), 0),
            ),
            None => r is None,
        },
{
    match session_dir(cwd, home) {
        Some(d) => {
            let name = segment_filename(id, 0);
            Some(join_path(d.as_str(), name.as_str()))
        },
        None => None,
    }
}

/// The number of the last file of a log, given which of the files there are: the
/// last before the first gap.
pub open spec fn last_segment(there: Seq<bool>) -> int
    decreases there.len(),
{
    if there.len() <= 1 || !there[0] {
        0
    } else if there[1] {
        1 + last_segment(there.drop_first())
    } else {
        0
    }
}

/// The number of the last file of a log, given which of the files there are.
pub fn find_latest_segment(there: &Vec<bool>) -> (r: usize)
    ensures
        r == last_segment(there@),
{
    if there.len() == 0 || !there[0] {
        return 0;
    }
    let mut i: usize = 0;
    assert(there@.skip(0) =~= there@);
    while i < there.len() - 1 && there[i + 1]
        invariant
            i < there@.len(),
            there@[i as int],
            last_segment(there@) == i + last_segment(there@.skip(i as int)),
        decreases there@.len() - i,
    {
        assert(there@.skip(i as int).drop_first() =~= there@.skip(i + 1));
        i = i + 1;
    }
    i
}

// ---- reading lines ----

/// The line of the log that a text stands for.
pub open spec fn log_line_of(s: Seq<char>) -> Option<LogLineView> {
    match json_read(s) {
        Some(j) => LogLine::read(j),
        None => None,
    }
}

/// The line of the log that a text stands for.
pub fn read_log_line(s: &str) -> (r: Option<LogLine>)
    ensures
        r.deep_view() == log_line_of(s@),
{
    match parse(s) {
        Ok(j) => LogLine::from_json(&j),
        Err(_) => None,
    }
}

/// The lines of the log among some texts.
pub open spec fn log_lines(s: Seq<Seq<char>>) -> Seq<LogLineView>
    decreases s.len(),
{
    if s.len() == 0 {
        Seq::empty()
    } else {
        match log_line_of(s.last()) {
            Some(l) => log_lines(s.drop_last()).push(l),
            None => log_lines(s.drop_last()),
        }
    }
}

/// The lines of a log.
pub open spec fn log_of(text: Seq<char>) -> Seq<LogLineView> {
    log_lines(line_list(text))
}

/// The lines of a log.
pub fn read_log(text: &str) -> (r: Vec<LogLine>)
    ensures
        r.deep_view() == log_of(text@),
{
    let all = lines(text);
    let ghost ls = line_list(text@);
    let mut out: Vec<LogLine> = Vec::new();
    let mut i: usize = 0;
    assert(out.deep_view() =~= log_lines(ls.take(0)));
    while i < all.len()
        invariant
            i <= all@.len(),
            ls == views(all@),
            out.deep_view() == log_lines(ls.take(i as int)),
        decreases all@.len() - i,
    {
        let ghost before = out.deep_view();
        assert(ls.take(i + 1).drop_last() =~= ls.take(i as int));
        assert(ls.take(i + 1).last() == all@[i as int]@);
        match read_log_line(all[i].as_str()) {
            Some(l) => {
                out.push(l);
                assert(out.deep_view() =~= before.push(l.deep_view()));
            },
            None => {},
        }
        i = i + 1;
    }
    assert(ls.take(ls.len() as int) =~= ls);
    out
}

/// The largest number among lines.
pub open spec fn max_seq(s: Seq<LogLineView>) -> Option<u64>
    decreases s.len(),
{
    if s.len() == 0 {
        None
    } else {
        match max_seq(s.drop_last()) {
            Some(m) => Some(
                if s.last().seq > m {
                    s.last().seq
                } else {
                    m
                },
            ),
            None => Some(s.last().seq),
        }
    }
}

/// The largest number in a log.
pub fn read_max_seq(text: &str) -> (r: Option<u64>)
    ensures
        r == max_seq(log_of(text@)),
{
    let all = read_log(text);
    let ghost ls = all.deep_view();
    let mut best: Option<u64> = None;
    let mut i: usize = 0;
    while i < all.len()
        invariant
            i <= all@.len(),
            ls == all.deep_view(),
            best == max_seq(ls.take(i as int)),
        decreases all@.len() - i,
    {
        assert(ls.take(i + 1).drop_last() =~= ls.take(i as int));
        assert(ls.take(i + 1).last() == all@[i as int].deep_view());
        let n: u64 = all[i].seq;
        best = match best {
            Some(m) => if n > m {
                Some(n)
            } else {
                Some(m)
            },
            None => Some(n),
        };
        i = i + 1;
    }
    assert(ls.take(ls.len() as int) =~= ls);
    best
}

// ---- writing lines ----

/// What is written for a line of the log.
pub open spec fn written_line(l: LogLineView) -> Seq<char> {
    json_text(LogLine::json(l)) + "\n"@
}

/// Whether a line is read back as it was written.
pub open spec fn keeps(l: LogLineView) -> bool {
    plain(LogLine::json(l), depth_read())
}

/// What is known of the text of a line: it is one line, and says what was written.
pub open spec fn is_line(s: Seq<char>, l: LogLineView) -> bool {
    &&& s == json_text(LogLine::json(l))
    &&& s.len() > 0
    &&& !s.contains('\n')
    &&& trimmed(s) == s
    &&& keeps(l) ==> log_line_of(s) == Some(l)
}

/// The text of a line of the log, without the line feed.
pub fn line_text(l: &LogLine) -> (r: String)
    ensures
        is_line(r@, l.deep_view()),
{
    proof {
        LogLine::round_trip(l.deep_view());
    }
    print(&l.to_json())
}

/// The model of `Journal`.
pub struct JournalView {
    pub id: Seq<char>,
    pub cwd: Seq<char>,
    pub config_fingerprint: Seq<char>,
    pub seq: u64,
    pub segment: u32,
    pub offset: u64,
}

/// Where a session's log stands.
pub struct Journal {
    pub id: SessionId,
    pub cwd: String,
    pub config_fingerprint: String,
    /// The number of the next line.
    pub seq: u64,
    /// The number of the current file.
    pub segment: u32,
    /// How many bytes the current file has.
    pub offset: u64,
}

impl DeepView for Journal {
    type V = JournalView;

    open spec fn deep_view(&self) -> JournalView {
        JournalView {
            id: self.id.deep_view(),
            cwd: self.cwd@,
            config_fingerprint: self.config_fingerprint@,
            seq: self.seq,
            segment: self.segment,
            offset: self.offset,
        }
    }
}

/// What is to be written, and where it begins in the file.
#[derive(Debug, PartialEq)]
pub struct Entry {
    pub seq: u64,
    pub offset: u64,
    /// The line with its line feed.
    pub text: String,
}

/// The number after `n`; after the largest comes zero.
pub open spec fn after(n: u64) -> u64 {
    if n == u64::MAX {
        0
    } else {
        (n + 1) as u64
    }
}

/// The sum, or the largest number where it is larger.
pub open spec fn capped(a: u64, b: nat) -> u64 {
    if a + b <= u64::MAX {
        (a + b) as u64
    } else {
        u64::MAX
    }
}

fn next(n: u64) -> (r: u64)
    ensures
        r == after(n),
{
    if n == u64::MAX {
        0
    } else {
        n + 1
    }
}

fn grow(a: u64, b: usize) -> (r: u64)
    ensures
        r == capped(a, b as nat),
{
    let b: u64 = b as u64;
    if b <= u64::MAX - a {
        a + b
    } else {
        u64::MAX
    }
}

/// The line that stands first in a file of the log.
pub open spec fn meta_line(j: JournalView, parent: Option<Seq<char>>, seq: u64, ts: u64) -> LogLineView {
    LogLineView {
        seq,
        ts,
        event: LogEventView::SessionMeta {
            id: j.id,
            parent,
            cwd: j.cwd,
            git_head: None,
            config_fingerprint: j.config_fingerprint,
            created_at_ms: ts,
        },
    }
}

impl Journal {
    /// The log of a new session, and its first line.
    pub fn create(
        id: SessionId,
        parent: Option<SessionId>,
        cwd: &str,
        config_fingerprint: &str,
        ts: u64,
    ) -> (r: (Self, Entry))
        ensures
            ({
                let fresh = JournalView {
                    id: id.deep_view(),
                    cwd: cwd@,
                    config_fingerprint: config_fingerprint@,
                    seq: 0,
                    segment: 0,
                    offset: 0,
                };
                let line = meta_line(fresh, parent.deep_view(), 0, ts);
                &&& r.1.seq == 0
                &&& r.1.offset == 0
                &&& r.1.text@ == written_line(line)
                &&& is_line(json_text(LogLine::json(line)), line)
                &&& r.0.deep_view() == (JournalView {
                    seq: 1,
                    offset: capped(0, byte_len(r.1.text@)),
                    ..fresh
                })
            }),
    {
        let mut j = Journal {
            id: id.clone(),
            cwd: cwd.to_owned(),
            config_fingerprint: config_fingerprint.to_owned(),
            seq: 0,
            segment: 0,
            offset: 0,
        };
        let e = j.append(
            LogEvent::SessionMeta {
                id,
                parent,
                cwd: cwd.to_owned(),
                git_head: None,
                config_fingerprint: config_fingerprint.to_owned(),
                created_at_ms: ts,
            },
            ts,
        );
        (j, e)
    }

    /// The log of a session that is taken up again: it goes on behind its largest
    /// number.
    pub fn open(
        id: SessionId,
        cwd: &str,
        config_fingerprint: &str,
        segment: u32,
        size: u64,
        largest: Option<u64>,
    ) -> (r: Self)
        ensures
            r.deep_view() == (JournalView {
                id: id.deep_view(),
                cwd: cwd@,
                config_fingerprint: config_fingerprint@,
                seq: after(
                    match largest {
                        Some(n) => n,
                        None => 0,
                    },
                ),
                segment,
                offset: size,
            }),
    {
        let n: u64 = match largest {
            Some(n) => n,
            None => 0,
        };
        Journal {
            id,
            cwd: cwd.to_owned(),
            config_fingerprint: config_fingerprint.to_owned(),
            seq: next(n),
            segment,
            offset: size,
        }
    }

    /// The name of the current file.
    pub fn file_name(&self) -> (r: String)
        ensures
            r@ == segment_name(self.deep_view().id, self.segment),
    {
        segment_filename(&self.id, self.segment)
    }

    /// The number of the next line.
    pub fn current_seq(&self) -> (r: u64)
        ensures
            r == self.deep_view().seq,
    {
        self.seq
    }

    /// Record an event: what is to be written behind the current file's end.
    pub fn append(&mut self, event: LogEvent, ts: u64) -> (r: Entry)
        ensures
            ({
                let line = LogLineView {
                    seq: old(self).deep_view().seq,
                    ts,
                    event: event.deep_view(),
                };
                &&& r.seq == old(self).deep_view().seq
                &&& r.offset == old(self).deep_view().offset
                &&& r.text@ == written_line(line)
                &&& is_line(json_text(LogLine::json(line)), line)
            }),
            final(self).deep_view() == (JournalView {
                seq: after(old(self).deep_view().seq),
                offset: capped(old(self).deep_view().offset, byte_len(r.text@)),
                ..old(self).deep_view()
            }),
    {
        let line = LogLine { seq: self.seq, ts, event };
        let body = line_text(&line);
        assert(is_line(body@, line.deep_view()));
        let text = cat(body.as_str(), "\n");
        let e = Entry { seq: self.seq, offset: self.offset, text };
        self.seq = next(self.seq);
        self.offset = grow(self.offset, bytes_len(e.text.as_str()));
        e
    }

    /// Whether the current file is to be followed by another.
    pub fn is_full(&self) -> (r: bool)
        ensures
            r == (self.deep_view().offset > ROTATE_MAX_BYTES),
    {
        self.offset > ROTATE_MAX_BYTES
    }

    /// Count the next file of the log; it is the current one from now on.
    pub fn next_segment(&mut self)
        ensures
            final(self).deep_view() == (JournalView {
                segment: (if old(self).deep_view().segment == u32::MAX {
                    0
                } else {
                    (old(self).deep_view().segment + 1) as u32
                }),
                ..old(self).deep_view()
            }),
    {
        self.segment = if self.segment == u32::MAX {
            0
        } else {
            self.segment + 1
        };
    }

    /// The first line of a file that follows another: it says which session it goes
    /// on with.
    pub fn begin_segment(&mut self, ts: u64) -> (r: Entry)
        ensures
            ({
                let j = old(self).deep_view();
                let line = meta_line(j, Some(j.id), j.seq, ts);
                &&& r.seq == j.seq
                &&& r.offset == 0
                &&& r.text@ == written_line(line)
                &&& is_line(json_text(LogLine::json(line)), line)
                &&& final(self).deep_view() == (JournalView {
                    seq: after(j.seq),
                    offset: capped(0, byte_len(r.text@)),
                    ..j
                })
            }),
    {
        self.offset = 0;
        let event = LogEvent::SessionMeta {
            id: self.id.clone(),
            parent: Some(self.id.clone()),
            cwd: self.cwd.clone(),
            git_head: None,
            config_fingerprint: self.config_fingerprint.clone(),
            created_at_ms: ts,
        };
        self.append(event, ts)
    }

    /// The log has been cut: go on from there.
    pub fn resume_at(&mut self, cut: &Truncation)
        ensures
            final(self).deep_view() == (JournalView {
                segment: cut.segment,
                offset: byte_len(cut.text@) as u64,
                seq: cut.next_seq,
                ..old(self).deep_view()
            }),
    {
        self.segment = cut.segment;
        self.offset = bytes_len(cut.text.as_str()) as u64;
        self.seq = cut.next_seq;
    }
}

// ---- cutting ----

/// The lines up to a number.
pub open spec fn up_to(s: Seq<LogLineView>, seq: u64) -> Seq<LogLineView>
    decreases s.len(),
{
    if s.len() == 0 {
        Seq::empty()
    } else if s.last().seq <= seq {
        up_to(s.drop_last(), seq).push(s.last())
    } else {
        up_to(s.drop_last(), seq)
    }
}

/// The lines of a file, or none where it could not be read.
pub open spec fn file_lines(f: Option<Seq<char>>) -> Seq<LogLineView> {
    match f {
        Some(t) => log_of(t),
        None => Seq::empty(),
    }
}

/// The last file that holds a line up to a number, or the first.
pub open spec fn target_of(files: Seq<Option<Seq<char>>>, seq: u64) -> int
    decreases files.len(),
{
    if files.len() == 0 {
        0
    } else if up_to(file_lines(files.last()), seq).len() > 0 {
        files.len() - 1
    } else {
        target_of(files.drop_last(), seq)
    }
}

/// The text of lines.
pub open spec fn text_of(s: Seq<LogLineView>) -> Seq<char>
    decreases s.len(),
{
    if s.len() == 0 {
        Seq::empty()
    } else {
        text_of(s.drop_last()) + written_line(s.last())
    }
}

/// The number of the line that comes behind lines.
pub open spec fn next_behind(s: Seq<LogLineView>) -> u64 {
    if s.len() == 0 {
        0
    } else {
        after(s.last().seq)
    }
}

/// What a log is cut to: this file is rewritten, and those behind it go.
pub struct Truncation {
    pub segment: u32,
    pub text: String,
    pub kept: usize,
    pub next_seq: u64,
}

/// The texts of files.
pub open spec fn file_views(s: Seq<Option<String>>) -> Seq<Option<Seq<char>>> {
    Seq::new(
        s.len(),
        |i: int|
            match s[i] {
                Some(t) => Some(t@),
                None => None,
            },
    )
}

fn keep_up_to(all: &Vec<LogLine>, seq: u64) -> (r: Vec<LogLine>)
    ensures
        r.deep_view() == up_to(all.deep_view(), seq),
{
    let ghost ls = all.deep_view();
    let mut out: Vec<LogLine> = Vec::new();
    let mut i: usize = 0;
    assert(out.deep_view() =~= up_to(ls.take(0), seq));
    while i < all.len()
        invariant
            i <= all@.len(),
            ls == all.deep_view(),
            out.deep_view() == up_to(ls.take(i as int), seq),
        decreases all@.len() - i,
    {
        let ghost before = out.deep_view();
        assert(ls.take(i + 1).drop_last() =~= ls.take(i as int));
        assert(ls.take(i + 1).last() == all@[i as int].deep_view());
        if all[i].seq <= seq {
            let l = all[i].dup();
            out.push(l);
            assert(out.deep_view() =~= before.push(l.deep_view()));
        }
        i = i + 1;
    }
    assert(ls.take(ls.len() as int) =~= ls);
    out
}

/// Whether every line of a text is a line of a log.
pub open spec fn is_readable(text: Seq<char>) -> bool {
    forall|i: int|
        0 <= i < line_list(text).len() ==> trimmed(#[trigger] line_list(text)[i]).len() > 0
            && log_line_of(line_list(text)[i]) is Some
}

/// Whether all lines are read back as they were written.
pub open spec fn keeps_all(s: Seq<LogLineView>) -> bool {
    forall|i: int| 0 <= i < s.len() ==> keeps(#[trigger] s[i])
}

/// Whether a line of a file stays when the lines behind a number go.
pub open spec fn stays(line: Seq<char>, seq: u64) -> bool {
    log_line_of(line) matches Some(l) && l.seq <= seq
}

/// What stays of a file when the lines behind a number go. Each line stays as it is
/// written; the last one is ended where it was not.
pub open spec fn kept_text(s: Seq<char>, seq: u64) -> Seq<char>
    decreases s.len(),
    via kept_text_shrink
{
    if s.len() == 0 {
        Seq::empty()
    } else {
        let k = run_len(s, '\n') as int;
        if k >= s.len() {
            if stays(s, seq) {
                s.push('\n')
            } else {
                Seq::empty()
            }
        } else if stays(chop_return(s.take(k)), seq) {
            s.take(k + 1) + kept_text(s.skip(k + 1), seq)
        } else {
            kept_text(s.skip(k + 1), seq)
        }
    }
}

#[via_fn]
proof fn kept_text_shrink(s: Seq<char>, seq: u64) {
    lemma_run_len(s, '\n');
}

fn line_stays(line: &str, seq: u64) -> (r: bool)
    ensures
        r == stays(line@, seq),
{
    match read_log_line(line) {
        Some(l) => l.seq <= seq,
        None => false,
    }
}

fn keep_text(text: &str, seq: u64) -> (r: String)
    ensures
        r@ == kept_text(text@, seq),
{
    let v = chars_of(text);
    let n: usize = v.len();
    let mut out = String::new();
    let mut i: usize = 0;
    assert(v@.skip(0) =~= v@);
    assert(out@ + kept_text(v@.skip(0), seq) =~= kept_text(v@, seq));
    while i < n
        invariant
            i <= n,
            n == v@.len(),
            out@ + kept_text(v@.skip(i as int), seq) == kept_text(v@, seq),
        decreases n - i,
    {
        let ghost t = v@.skip(i as int);
        let ghost before = out@;
        let e: usize = run_end(v.as_slice(), i, '\n');
        if e == n {
            let line = string_of(v.as_slice(), i, n);
            assert(line@ =~= t);
            if line_stays(line.as_str(), seq) {
                out.append(line.as_str());
                out.push('\n');
                assert(out@ =~= before + t.push('\n'));
            }
            assert(v@.skip(n as int).len() == 0);
            assert(out@ + kept_text(v@.skip(n as int), seq) =~= kept_text(v@, seq));
            i = n;
        } else {
            let mut stop: usize = e;
            if e > i && v[e - 1] == '\r' {
                stop = e - 1;
            }
            let line = string_of(v.as_slice(), i, stop);
            assert(t.take(e - i) =~= v@.subrange(i as int, e as int));
            assert(line@ =~= chop_return(t.take(e - i)));
            assert(t.skip(e - i + 1) =~= v@.skip(e + 1));
            if line_stays(line.as_str(), seq) {
                let whole = string_of(v.as_slice(), i, e + 1);
                assert(whole@ =~= t.take(e - i + 1));
                out.append(whole.as_str());
                assert(out@ + kept_text(v@.skip(e + 1), seq) =~= before + kept_text(t, seq));
            }
            i = e + 1;
        }
    }
    assert(v@.skip(n as int).len() == 0);
    assert(out@ =~= kept_text(v@, seq));
    out
}

proof fn lemma_log_sum(a: Seq<Seq<char>>, b: Seq<Seq<char>>)
    ensures
        log_lines(a + b) == log_lines(a) + log_lines(b),
    decreases b.len(),
{
    if b.len() == 0 {
        assert(a + b =~= a);
        assert(log_lines(a) + log_lines(b) =~= log_lines(a));
    } else {
        assert((a + b).drop_last() =~= a + b.drop_last());
        lemma_log_sum(a, b.drop_last());
        assert(log_lines(a + b) =~= log_lines(a) + log_lines(b));
    }
}

/// The lines of a file that stay when the lines behind a number go.
pub open spec fn kept_list(s: Seq<Seq<char>>, seq: u64) -> Seq<Seq<char>>
    decreases s.len(),
{
    if s.len() == 0 {
        Seq::empty()
    } else if stays(s.last(), seq) {
        kept_list(s.drop_last(), seq).push(s.last())
    } else {
        kept_list(s.drop_last(), seq)
    }
}

proof fn lemma_kept_sum(a: Seq<Seq<char>>, b: Seq<Seq<char>>, seq: u64)
    ensures
        kept_list(a + b, seq) == kept_list(a, seq) + kept_list(b, seq),
    decreases b.len(),
{
    if b.len() == 0 {
        assert(a + b =~= a);
        assert(kept_list(a, seq) + kept_list(b, seq) =~= kept_list(a, seq));
    } else {
        assert((a + b).drop_last() =~= a + b.drop_last());
        lemma_kept_sum(a, b.drop_last(), seq);
        assert(kept_list(a + b, seq) =~= kept_list(a, seq) + kept_list(b, seq));
    }
}

proof fn lemma_kept_lines_read(s: Seq<Seq<char>>, seq: u64)
    ensures
        log_lines(kept_list(s, seq)) == up_to(log_lines(s), seq),
        forall|i: int|
            0 <= i < kept_list(s, seq).len() ==> stays(#[trigger] kept_list(s, seq)[i], seq)
                && s.contains(kept_list(s, seq)[i]),
    decreases s.len(),
{
    if s.len() > 0 {
        let t = s.drop_last();
        lemma_kept_lines_read(t, seq);
        let k = kept_list(s, seq);
        if stays(s.last(), seq) {
            assert(k.drop_last() =~= kept_list(t, seq));
        }
        match log_line_of(s.last()) {
            Some(l) => {
                assert(log_lines(s).drop_last() =~= log_lines(t));
            },
            None => {},
        }
        assert forall|i: int| 0 <= i < k.len() implies stays(#[trigger] k[i], seq) && s.contains(
            k[i],
        ) by {
            if i < kept_list(t, seq).len() {
                assert(k[i] == kept_list(t, seq)[i]);
                let j = choose|j: int| 0 <= j < t.len() && t[j] == k[i];
                assert(s[j] == k[i]);
            } else {
                assert(s[s.len() - 1] == k[i]);
            }
        }
    }
}

/// One line with its line feed.
proof fn lemma_one_line(s: Seq<char>)
    requires
        s.len() > 0,
        run_len(s, '\n') < s.len(),
    ensures
        ({
            let k = run_len(s, '\n') as int;
            let head = s.take(k + 1);
            &&& head.last() == '\n'
            &&& line_list(head) == seq![chop_return(s.take(k))]
            &&& s == head + s.skip(k + 1)
        }),
{
    lemma_run_len(s, '\n');
    let k = run_len(s, '\n') as int;
    let head = s.take(k + 1);
    lemma_run_len(head, '\n');
    let j = run_len(head, '\n') as int;
    assert(s[k] == '\n');
    assert(j == k) by {
        if j < k {
            assert(head[j] == s[j]);
        } else if j > k {
            assert(head[k] == '\n');
        }
    }
    assert(head.take(k) =~= s.take(k));
    assert(head.skip(k + 1) =~= Seq::<char>::empty());
    assert(line_list(Seq::<char>::empty()) =~= Seq::<Seq<char>>::empty());
    assert(line_list(head) =~= seq![chop_return(s.take(k))]);
    assert(s =~= head + s.skip(k + 1));
}

proof fn lemma_kept_text_whole(s: Seq<char>, seq: u64)
    ensures
        is_whole(kept_text(s, seq)),
    decreases s.len(),
{
    if s.len() > 0 {
        lemma_run_len(s, '\n');
        let k = run_len(s, '\n') as int;
        if k < s.len() {
            lemma_one_line(s);
            let rest = kept_text(s.skip(k + 1), seq);
            lemma_kept_text_whole(s.skip(k + 1), seq);
            let all = s.take(k + 1) + rest;
            if rest.len() > 0 {
                assert(all.last() == rest.last());
            } else {
                assert(all =~= s.take(k + 1));
            }
        }
    }
}

/// What stays of a file whose lines are all ended holds the lines that stay.
proof fn lemma_kept_text(s: Seq<char>, seq: u64)
    requires
        is_whole(s),
    ensures
        line_list(kept_text(s, seq)) == kept_list(line_list(s), seq),
        log_of(kept_text(s, seq)) == up_to(log_of(s), seq),
    decreases s.len(),
{
    if s.len() == 0 {
        assert(line_list(s) =~= Seq::<Seq<char>>::empty());
    } else {
        lemma_run_len(s, '\n');
        let k = run_len(s, '\n') as int;
        assert(k < s.len()) by {
            if k >= s.len() {
                assert(s[s.len() - 1] == '\n');
            }
        }
        lemma_one_line(s);
        let head = s.take(k + 1);
        let rest = s.skip(k + 1);
        if rest.len() > 0 {
            assert(rest.last() == s.last());
        }
        lemma_kept_text(rest, seq);
        lemma_lines_before(head, rest);
        lemma_lines_before(head, kept_text(rest, seq));
        let one = line_list(head);
        assert(one.len() == 1);
        lemma_kept_sum(one, line_list(rest), seq);
        assert(one.drop_last() =~= Seq::<Seq<char>>::empty());
        assert(kept_list(Seq::<Seq<char>>::empty(), seq) =~= Seq::<Seq<char>>::empty());
        if stays(one[0], seq) {
            assert(kept_list(one, seq) =~= one);
        } else {
            assert(kept_list(one, seq) =~= Seq::<Seq<char>>::empty());
            assert(kept_list(line_list(s), seq) =~= kept_list(line_list(rest), seq));
        }
    }
    lemma_kept_lines_read(line_list(s), seq);
}

/// Work out what a log is cut to when the lines behind a number go. The lines that stay
/// are kept as they are written. Nothing where the file that is to be rewritten could not
/// be read.
pub fn plan_truncation(files: &Vec<Option<String>>, seq: u64) -> (r: Option<Truncation>)
    requires
        0 < files@.len() <= u32::MAX,
    ensures
        ({
            let fs = file_views(files@);
            let at = target_of(fs, seq);
            let kept = up_to(file_lines(fs[at]), seq);
            match r {
                None => fs[at] is None,
                Some(t) => {
                    &&& fs[at] is Some
                    &&& t.segment == at
                    &&& t.text@ == kept_text(fs[at]->0, seq)
                    &&& is_whole(t.text@)
                    &&& is_whole(fs[at]->0) ==> log_of(t.text@) == kept
                    &&& is_whole(fs[at]->0) && is_readable(fs[at]->0) ==> is_readable(t.text@)
                    &&& t.kept == kept.len()
                    &&& t.next_seq == next_behind(kept)
                },
            }
        }),
{
    let ghost fs = file_views(files@);
    let mut at: usize = 0;
    let mut i: usize = 0;
    while i < files.len()
        invariant
            i <= files@.len(),
            files@.len() <= u32::MAX,
            fs == file_views(files@),
            at == target_of(fs.take(i as int), seq),
            at <= i,
            i > 0 ==> at < i,
        decreases files@.len() - i,
    {
        assert(fs.take(i + 1).drop_last() =~= fs.take(i as int));
        assert(fs.take(i + 1).last() == fs[i as int]);
        match &files[i] {
            Some(t) => {
                let all = read_log(t.as_str());
                let some = keep_up_to(&all, seq);
                assert(some.deep_view().len() == some@.len());
                if some.len() > 0 {
                    at = i;
                }
            },
            None => {},
        }
        i = i + 1;
    }
    assert(fs.take(fs.len() as int) =~= fs);
    match &files[at] {
        None => None,
        Some(t) => {
            let all = read_log(t.as_str());
            let kept = keep_up_to(&all, seq);
            assert(kept.deep_view().len() == kept@.len());
            let text = keep_text(t.as_str(), seq);
            proof {
                lemma_kept_text_whole(t@, seq);
                if is_whole(t@) {
                    lemma_kept_text(t@, seq);
                    lemma_kept_lines_read(line_list(t@), seq);
                    let now = line_list(text@);
                    if is_readable(t@) {
                        assert forall|k: int| 0 <= k < now.len() implies trimmed(
                            #[trigger] now[k],
                        ).len() > 0 && log_line_of(now[k]) is Some by {
                            assert(line_list(t@).contains(now[k]));
                        }
                    }
                }
            }
            let next_seq: u64 = if kept.len() == 0 {
                0
            } else {
                assert(kept.deep_view().last() == kept@[kept@.len() - 1].deep_view());
                next(kept[kept.len() - 1].seq)
            };
            Some(Truncation { segment: at as u32, text, kept: kept.len(), next_seq })
        },
    }
}

/// The numbers beyond a number.
pub open spec fn beyond(s: Seq<u64>, seq: u64) -> Seq<u64>
    decreases s.len(),
{
    if s.len() == 0 {
        Seq::empty()
    } else if s.last() > seq {
        beyond(s.drop_last(), seq).push(s.last())
    } else {
        beyond(s.drop_last(), seq)
    }
}

/// The numbers that go from an index when the lines behind a number go.
pub fn numbers_to_drop(index: &Vec<u64>, seq: u64) -> (r: Vec<u64>)
    ensures
        r@ == beyond(index@, seq),
{
    let mut out: Vec<u64> = Vec::new();
    let mut i: usize = 0;
    while i < index.len()
        invariant
            i <= index@.len(),
            out@ == beyond(index@.take(i as int), seq),
        decreases index@.len() - i,
    {
        assert(index@.take(i + 1).drop_last() =~= index@.take(i as int));
        if index[i] > seq {
            out.push(index[i]);
        }
        i = i + 1;
    }
    assert(index@.take(index@.len() as int) =~= index@);
    out
}

/// A log that nothing is written to.
pub struct NullRecorder;

impl NullRecorder {
    /// The number of the next line: there is none before it.
    pub fn current_seq(&self) -> (r: u64)
        ensures
            r == 0,
    {
        0
    }
}

// ---- laws ----

/// Whether a text can be added to: it is empty or ends with a line feed.
pub open spec fn is_whole(text: Seq<char>) -> bool {
    text.len() == 0 || text.last() == '\n'
}

/// A line that is added to a text is its last line.
proof fn lemma_add_line(text: Seq<char>, l: Seq<char>)
    requires
        is_whole(text),
        !l.contains('\n'),
        l.len() == 0 || l.last() != '\r',
    ensures
        line_list(text + l + seq!['\n']) == line_list(text).push(l),
{
    let last = l + seq!['\n'];
    lemma_run_len_line(l);
    let k = l.len() as int;
    assert(last.take(k) =~= l);
    assert(last.skip(k + 1) =~= Seq::<char>::empty());
    assert(line_list(Seq::<char>::empty()) =~= Seq::<Seq<char>>::empty());
    assert(line_list(last) =~= seq![l]);
    lemma_lines_before(text, last);
    assert(text + l + seq!['\n'] =~= text + last);
    assert(line_list(text) + seq![l] =~= line_list(text).push(l));
}

proof fn lemma_run_len_line(l: Seq<char>)
    requires
        !l.contains('\n'),
    ensures
        run_len(l + seq!['\n'], '\n') == l.len(),
    decreases l.len(),
{
    let all = l + seq!['\n'];
    if l.len() > 0 {
        assert(l.contains(l[0]));
        assert(all.skip(1) =~= l.skip(1) + seq!['\n']);
        assert forall|i: int| 0 <= i < l.skip(1).len() implies l.skip(1)[i] != '\n' by {
            assert(l.contains(l[i + 1]));
        }
        lemma_run_len_line(l.skip(1));
    }
}

/// What has no white space at its ends does not end with a carriage return.
proof fn lemma_trimmed_end(s: Seq<char>)
    requires
        trimmed(s) == s,
    ensures
        s.len() == 0 || s.last() != '\r',
{
    if s.len() > 0 && s.last() == '\r' {
        let t = trim_start(s);
        lemma_trim_start_len(s);
        lemma_trim_end_len(t);
        assert(is_space('\r'));
        if t.len() == s.len() {
            lemma_trim_start_same(s);
            assert(t == s);
            lemma_trim_end_len(t.drop_last());
        }
    }
}

proof fn lemma_trim_start_same(s: Seq<char>)
    requires
        trim_start(s).len() == s.len(),
    ensures
        trim_start(s) == s,
{
    if s.len() > 0 && is_space(s[0]) {
        lemma_trim_start_len(s.skip(1));
    }
}

proof fn lemma_trim_end_len(s: Seq<char>)
    ensures
        trim_end(s).len() <= s.len(),
    decreases s.len(),
{
    if s.len() > 0 && is_space(s.last()) {
        lemma_trim_end_len(s.drop_last());
    }
}

/// What is recorded can be read: a line that is appended to a log is the log's
/// last line, and the lines before it stay as they are.
pub proof fn law_appended_lines_are_read(text: Seq<char>, s: Seq<char>, l: LogLineView)
    requires
        is_whole(text),
        is_line(s, l),
        keeps(l),
    ensures
        is_whole(text + s + "\n"@),
        log_of(text + s + "\n"@) == log_of(text).push(l),
        line_list(text + s + "\n"@) == line_list(text).push(s),
{
    reveal_strlit("\n");
    assert("\n"@ =~= seq!['\n']);
    lemma_trimmed_end(s);
    lemma_add_line(text, s);
    let ls = line_list(text);
    assert(ls.push(s).drop_last() =~= ls);
}

/// The number of the line that comes `k` lines later.
pub open spec fn number_after(n: u64, k: nat) -> u64
    decreases k,
{
    if k == 0 {
        n
    } else {
        after(number_after(n, (k - 1) as nat))
    }
}

/// Lines are numbered one after the other, so no two lines of a log share a number
/// until the numbers are used up.
pub proof fn law_numbers_go_up(n: u64, k: nat)
    requires
        n + k <= u64::MAX,
    ensures
        number_after(n, k) == n + k,
    decreases k,
{
    if k > 0 {
        law_numbers_go_up(n, (k - 1) as nat);
    }
}

/// Where a log stands after events were recorded, each at its time.
pub open spec fn journal_after(j: JournalView, events: Seq<(LogEventView, u64)>) -> JournalView
    decreases events.len(),
{
    if events.len() == 0 {
        j
    } else {
        let k = journal_after(j, events.drop_last());
        let line = LogLineView { seq: k.seq, ts: events.last().1, event: events.last().0 };
        JournalView {
            seq: after(k.seq),
            offset: capped(k.offset, byte_len(written_line(line))),
            ..k
        }
    }
}

/// The lines of a log in which events were recorded, each at its time, behind `first`.
pub open spec fn recorded_lines(
    first: LogLineView,
    j: JournalView,
    events: Seq<(LogEventView, u64)>,
) -> Seq<LogLineView>
    decreases events.len(),
{
    if events.len() == 0 {
        seq![first]
    } else {
        recorded_lines(first, j, events.drop_last()).push(
            LogLineView {
                seq: journal_after(j, events.drop_last()).seq,
                ts: events.last().1,
                event: events.last().0,
            },
        )
    }
}

/// The texts of lines, each without its line feed.
pub open spec fn bodies(s: Seq<LogLineView>) -> Seq<Seq<char>> {
    Seq::new(s.len(), |i: int| json_text(LogLine::json(s[i])))
}

proof fn lemma_text_is_read(s: Seq<LogLineView>)
    requires
        forall|i: int|
            0 <= i < s.len() ==> is_line(json_text(LogLine::json(#[trigger] s[i])), s[i]),
    ensures
        is_whole(text_of(s)),
        line_list(text_of(s)) == bodies(s),
        keeps_all(s) ==> log_of(text_of(s)) == s,
    decreases s.len(),
{
    if s.len() == 0 {
        assert(line_list(text_of(s)) =~= bodies(s));
        assert(log_of(text_of(s)) =~= s);
    } else {
        let t = s.drop_last();
        let l = s.last();
        assert(s[s.len() - 1] == l);
        assert forall|i: int| 0 <= i < t.len() implies is_line(
            json_text(LogLine::json(#[trigger] t[i])),
            t[i],
        ) by {
            assert(t[i] == s[i]);
        }
        lemma_text_is_read(t);
        let body = json_text(LogLine::json(l));
        reveal_strlit("\n");
        assert("\n"@ =~= seq!['\n']);
        lemma_trimmed_end(body);
        lemma_add_line(text_of(t), body);
        assert(text_of(s) =~= text_of(t) + body + seq!['\n']);
        assert(bodies(s) =~= bodies(t).push(body));
        if keeps_all(s) {
            assert forall|i: int| 0 <= i < t.len() implies keeps(#[trigger] t[i]) by {
                assert(t[i] == s[i]);
            }
            assert(bodies(s).drop_last() =~= bodies(t));
            assert(t.push(l) =~= s);
        }
    }
}

proof fn lemma_text_grows(s: Seq<LogLineView>, k: int)
    requires
        0 <= k <= s.len(),
    ensures
        text_of(s.take(k)).is_prefix_of(text_of(s)),
    decreases s.len(),
{
    let a = text_of(s.take(k));
    let b = text_of(s);
    if k == s.len() {
        assert(s.take(k) =~= s);
        assert(b.subrange(0, b.len() as int) =~= b);
    } else {
        let t = s.drop_last();
        lemma_text_grows(t, k);
        assert(t.take(k) =~= s.take(k));
        let c = text_of(t);
        assert(b.subrange(0, a.len() as int) =~= c.subrange(0, a.len() as int));
    }
}

proof fn lemma_recorded_lines(first: LogLineView, j: JournalView, events: Seq<(LogEventView, u64)>)
    requires
        first.seq == 0,
        j.seq == 1,
        events.len() < u64::MAX,
    ensures
        ({
            let s = recorded_lines(first, j, events);
            &&& s.len() == events.len() + 1
            &&& s[0] == first
            &&& forall|i: int|
                0 < i <= events.len() ==> (#[trigger] s[i]).seq == i && s[i].ts == events[i - 1].1
                    && s[i].event == events[i - 1].0
            &&& journal_after(j, events).seq == events.len() + 1
        }),
    decreases events.len(),
{
    if events.len() > 0 {
        let t = events.drop_last();
        lemma_recorded_lines(first, j, t);
        let s = recorded_lines(first, j, events);
        let before = recorded_lines(first, j, t);
        assert forall|i: int| 0 < i <= events.len() implies (#[trigger] s[i]).seq == i && s[i].ts
            == events[i - 1].1 && s[i].event == events[i - 1].0 by {
            if i < events.len() {
                assert(s[i] == before[i]);
                assert(t[i - 1] == events[i - 1]);
            }
        }
    }
}

/// A new log in which `n` events were recorded holds exactly `n + 1` lines: the text of
/// the one that says which session it is, and then the texts of the events in order, each
/// with the number of its place. What is written first stays as it is when more is
/// written, and the next number is `n + 1`. What is read are these lines, where each is
/// one that is read back as it was written. The lines are written as `append` promises;
/// `j` is what `create` leaves.
pub proof fn law_log_holds_what_was_recorded(
    j: JournalView,
    parent: Option<Seq<char>>,
    ts: u64,
    events: Seq<(LogEventView, u64)>,
)
    requires
        j.seq == 1,
        events.len() < u64::MAX,
        forall|i: int|
            0 <= i <= events.len() ==> ({
                let l = #[trigger] recorded_lines(meta_line(j, parent, 0, ts), j, events)[i];
                is_line(json_text(LogLine::json(l)), l)
            }),
    ensures
        ({
            let s = recorded_lines(meta_line(j, parent, 0, ts), j, events);
            &&& line_list(text_of(s)) == bodies(s)
            &&& s.len() == events.len() + 1
            &&& keeps_all(s) ==> log_of(text_of(s)) == s
            &&& s[0] == meta_line(j, parent, 0, ts)
            &&& forall|i: int|
                0 < i <= events.len() ==> (#[trigger] s[i]).seq == i && s[i].ts == events[i - 1].1
                    && s[i].event == events[i - 1].0
            &&& forall|k: int|
                0 <= k <= s.len() ==> (#[trigger] text_of(s.take(k))).is_prefix_of(text_of(s))
            &&& journal_after(j, events).seq == events.len() + 1
        }),
{
    let first = meta_line(j, parent, 0, ts);
    let s = recorded_lines(first, j, events);
    lemma_recorded_lines(first, j, events);
    lemma_text_is_read(s);
    assert forall|k: int| 0 <= k <= s.len() implies (#[trigger] text_of(s.take(k))).is_prefix_of(
        text_of(s),
    ) by {
        lemma_text_grows(s, k);
    }
}

/// The lines of all files of a log, in order.
pub open spec fn all_lines(files: Seq<Option<Seq<char>>>) -> Seq<LogLineView>
    decreases files.len(),
{
    if files.len() == 0 {
        Seq::empty()
    } else {
        all_lines(files.drop_last()) + file_lines(files.last())
    }
}

/// Whether no line has a smaller number than one before it.
pub open spec fn in_order(s: Seq<LogLineView>) -> bool {
    forall|i: int, j: int| 0 <= i < j < s.len() ==> (#[trigger] s[i]).seq <= (#[trigger] s[j]).seq
}

/// The files of a log that was cut: the ones before stay, one is rewritten, and those
/// behind it are gone.
pub open spec fn cut_files(files: Seq<Option<Seq<char>>>, at: int, text: Seq<char>) -> Seq<
    Option<Seq<char>>,
> {
    files.take(at).push(Some(text))
}

proof fn lemma_up_to_sum(a: Seq<LogLineView>, b: Seq<LogLineView>, seq: u64)
    ensures
        up_to(a + b, seq) == up_to(a, seq) + up_to(b, seq),
    decreases b.len(),
{
    if b.len() == 0 {
        assert(a + b =~= a);
        assert(up_to(a, seq) + up_to(b, seq) =~= up_to(a, seq));
    } else {
        assert((a + b).drop_last() =~= a + b.drop_last());
        lemma_up_to_sum(a, b.drop_last(), seq);
        assert(up_to(a + b, seq) =~= up_to(a, seq) + up_to(b, seq));
    }
}

proof fn lemma_up_to_all(s: Seq<LogLineView>, seq: u64)
    requires
        forall|i: int| 0 <= i < s.len() ==> (#[trigger] s[i]).seq <= seq,
    ensures
        up_to(s, seq) == s,
    decreases s.len(),
{
    if s.len() > 0 {
        let t = s.drop_last();
        assert forall|i: int| 0 <= i < t.len() implies (#[trigger] t[i]).seq <= seq by {
            assert(t[i] == s[i]);
        }
        lemma_up_to_all(t, seq);
        assert(s[s.len() - 1].seq <= seq);
        assert(up_to(s, seq) =~= s);
    }
}

proof fn lemma_up_to_some(s: Seq<LogLineView>, seq: u64) -> (i: int)
    requires
        up_to(s, seq).len() > 0,
    ensures
        0 <= i < s.len(),
        s[i].seq <= seq,
    decreases s.len(),
{
    if s.last().seq <= seq {
        s.len() - 1
    } else {
        lemma_up_to_some(s.drop_last(), seq)
    }
}

proof fn lemma_kept_lines(files: Seq<Option<Seq<char>>>, seq: u64)
    requires
        in_order(all_lines(files)),
        up_to(all_lines(files), seq).len() > 0,
    ensures
        ({
            let at = target_of(files, seq);
            &&& 0 <= at < files.len()
            &&& up_to(file_lines(files[at]), seq).len() > 0
            &&& up_to(all_lines(files), seq) == all_lines(files.take(at)) + up_to(
                file_lines(files[at]),
                seq,
            )
        }),
    decreases files.len(),
{
    if files.len() > 0 {
        let t = files.drop_last();
        let a = all_lines(t);
        let b = file_lines(files.last());
        let all = all_lines(files);
        lemma_up_to_sum(a, b, seq);
        if up_to(b, seq).len() > 0 {
            let k = lemma_up_to_some(b, seq);
            assert(all[a.len() + k] == b[k]);
            assert forall|i: int| 0 <= i < a.len() implies (#[trigger] a[i]).seq <= seq by {
                assert(all[i] == a[i]);
                assert(all[i].seq <= all[a.len() + k].seq);
            }
            lemma_up_to_all(a, seq);
            assert(files.take(files.len() - 1) =~= t);
        } else {
            assert(up_to(a, seq) + up_to(b, seq) =~= up_to(a, seq));
            assert forall|i: int, j: int| 0 <= i < j < a.len() implies (#[trigger] a[i]).seq <= (
            #[trigger] a[j]).seq by {
                assert(all[i] == a[i] && all[j] == a[j]);
            }
            lemma_kept_lines(t, seq);
            let at = target_of(t, seq);
            assert(t.take(at) =~= files.take(at));
            assert(t[at] == files[at]);
        }
    }
}

/// The texts of the lines of all files of a log, in order.
pub open spec fn all_texts(files: Seq<Option<Seq<char>>>) -> Seq<Seq<char>>
    decreases files.len(),
{
    if files.len() == 0 {
        Seq::empty()
    } else {
        all_texts(files.drop_last()) + (match files.last() {
            Some(t) => line_list(t),
            None => Seq::empty(),
        })
    }
}

/// Whether every file ends with the end of a line.
pub open spec fn all_whole(files: Seq<Option<Seq<char>>>) -> bool {
    forall|i: int| 0 <= i < files.len() ==> (#[trigger] files[i] matches Some(t) ==> is_whole(t))
}

/// Whether every line of every file is a line of a log.
pub open spec fn all_readable(files: Seq<Option<Seq<char>>>) -> bool {
    forall|i: int|
        0 <= i < files.len() ==> (#[trigger] files[i] matches Some(t) ==> is_readable(t))
}

/// A text of which all lines stay is kept whole.
proof fn lemma_all_stay(s: Seq<char>, seq: u64)
    requires
        is_whole(s),
        forall|i: int| 0 <= i < line_list(s).len() ==> stays(#[trigger] line_list(s)[i], seq),
    ensures
        kept_text(s, seq) == s,
    decreases s.len(),
{
    if s.len() > 0 {
        lemma_run_len(s, '\n');
        let k = run_len(s, '\n') as int;
        assert(k < s.len()) by {
            if k >= s.len() {
                assert(s[s.len() - 1] == '\n');
            }
        }
        lemma_one_line(s);
        let head = s.take(k + 1);
        let rest = s.skip(k + 1);
        if rest.len() > 0 {
            assert(rest.last() == s.last());
        }
        lemma_lines_before(head, rest);
        assert(line_list(s)[0] == chop_return(s.take(k)));
        assert forall|i: int| 0 <= i < line_list(rest).len() implies stays(
            #[trigger] line_list(rest)[i],
            seq,
        ) by {
            assert(line_list(s)[i + 1] == line_list(rest)[i]);
        }
        lemma_all_stay(rest, seq);
    }
}

proof fn lemma_kept_prefix(s: Seq<Seq<char>>, seq: u64)
    requires
        forall|i: int| 0 <= i < s.len() ==> log_line_of(#[trigger] s[i]) is Some,
        in_order(log_lines(s)),
    ensures
        kept_list(s, seq).is_prefix_of(s),
        log_lines(s).len() == s.len(),
        forall|i: int|
            0 <= i < s.len() ==> log_line_of(#[trigger] s[i]) == Some(log_lines(s)[i]),
    decreases s.len(),
{
    if s.len() == 0 {
        assert(s.subrange(0, 0) =~= kept_list(s, seq));
    } else {
        let t = s.drop_last();
        let ls = log_lines(s);
        assert(s[s.len() - 1] == s.last());
        assert(ls.drop_last() =~= log_lines(t));
        assert forall|i: int| 0 <= i < t.len() implies log_line_of(#[trigger] t[i]) is Some by {
            assert(t[i] == s[i]);
        }
        assert forall|i: int, j: int| 0 <= i < j < log_lines(t).len() implies (
        #[trigger] log_lines(t)[i]).seq <= (#[trigger] log_lines(t)[j]).seq by {
            assert(ls[i] == log_lines(t)[i] && ls[j] == log_lines(t)[j]);
        }
        lemma_kept_prefix(t, seq);
        assert forall|i: int| 0 <= i < s.len() implies log_line_of(#[trigger] s[i]) == Some(
            ls[i],
        ) by {
            if i < t.len() {
                assert(s[i] == t[i]);
                assert(ls[i] == log_lines(t)[i]);
            }
        }
        let k = kept_list(t, seq);
        if stays(s.last(), seq) {
            assert forall|i: int| 0 <= i < t.len() implies stays(#[trigger] t[i], seq) by {
                assert(t[i] == s[i]);
                assert(ls[i].seq <= ls[s.len() - 1].seq);
            }
            lemma_all_kept(t, seq);
            assert(kept_list(s, seq) =~= s);
            assert(s.subrange(0, s.len() as int) =~= s);
        } else {
            assert(s.subrange(0, k.len() as int) =~= t.subrange(0, k.len() as int));
        }
    }
}

proof fn lemma_all_kept(s: Seq<Seq<char>>, seq: u64)
    requires
        forall|i: int| 0 <= i < s.len() ==> stays(#[trigger] s[i], seq),
    ensures
        kept_list(s, seq) == s,
    decreases s.len(),
{
    if s.len() > 0 {
        let t = s.drop_last();
        assert forall|i: int| 0 <= i < t.len() implies stays(#[trigger] t[i], seq) by {
            assert(t[i] == s[i]);
        }
        lemma_all_kept(t, seq);
        assert(s[s.len() - 1] == s.last());
        assert(kept_list(s, seq) =~= s);
    }
}

/// The lines of the files before one, of that one, and of those behind it.
proof fn lemma_file_in_place(files: Seq<Option<Seq<char>>>, at: int)
    requires
        0 <= at < files.len(),
    ensures
        exists|rest: Seq<LogLineView>|
            all_lines(files) == #[trigger] (all_lines(files.take(at)) + file_lines(files[at])
                + rest),
        files[at] matches Some(t) ==> exists|rest: Seq<Seq<char>>|
            all_texts(files) == #[trigger] (all_texts(files.take(at)) + line_list(t) + rest),
    decreases files.len() - at,
{
    lemma_in_place(files, at, files.len() as int);
    assert(files.take(files.len() as int) =~= files);
}

proof fn lemma_in_place(files: Seq<Option<Seq<char>>>, at: int, n: int)
    requires
        0 <= at < n <= files.len(),
    ensures
        exists|rest: Seq<LogLineView>|
            all_lines(files.take(n)) == #[trigger] (all_lines(files.take(at)) + file_lines(
                files[at],
            ) + rest),
        files[at] matches Some(t) ==> exists|rest: Seq<Seq<char>>|
            all_texts(files.take(n)) == #[trigger] (all_texts(files.take(at)) + line_list(t)
                + rest),
    decreases n,
{
    let f = files.take(n);
    assert(f.drop_last() =~= files.take(n - 1));
    assert(f.last() == files[n - 1]);
    let more = file_lines(files[n - 1]);
    let head = all_lines(files.take(at)) + file_lines(files[at]);
    let texts: Seq<Seq<char>> = match files[n - 1] {
        Some(t) => line_list(t),
        None => Seq::empty(),
    };
    if n == at + 1 {
        assert(all_lines(f) =~= head + Seq::<LogLineView>::empty());
        if let Some(t) = files[at] {
            assert(all_texts(f) =~= all_texts(files.take(at)) + line_list(t)
                + Seq::<Seq<char>>::empty());
        }
    } else {
        lemma_in_place(files, at, n - 1);
        let rest = choose|rest: Seq<LogLineView>|
            all_lines(files.take(n - 1)) == #[trigger] (head + rest);
        assert(all_lines(f) =~= head + (rest + more));
        if let Some(t) = files[at] {
            let before = all_texts(files.take(at)) + line_list(t);
            let r = choose|r: Seq<Seq<char>>|
                all_texts(files.take(n - 1)) == #[trigger] (before + r);
            assert(all_texts(f) =~= before + (r + texts));
        }
    }
}

/// Cutting a log at a number, over all its files: exactly the lines up to the number
/// stay, in order and as they were written. The file that holds the last of them is the
/// last file, and the next line has the number behind it. Cutting once more at the same
/// number changes nothing. Where every line can be read, the texts that stay are the first
/// ones of those that there were.
pub proof fn law_cutting_spans_files(files: Seq<Option<Seq<char>>>, seq: u64)
    requires
        all_whole(files),
        in_order(all_lines(files)),
        up_to(all_lines(files), seq).len() > 0,
    ensures
        ({
            let at = target_of(files, seq);
            let text = kept_text(files[at]->0, seq);
            let now = cut_files(files, at, text);
            let kept = up_to(all_lines(files), seq);
            &&& 0 <= at < files.len()
            &&& files[at] is Some
            &&& all_lines(now) == kept
            &&& all_readable(files) ==> all_texts(now).is_prefix_of(all_texts(files))
            &&& now.len() == at + 1
            &&& file_lines(now.last()).len() > 0
            &&& file_lines(now.last()).last() == kept.last()
            &&& next_behind(up_to(file_lines(files[at]), seq)) == after(kept.last().seq)
            &&& target_of(now, seq) == at
            &&& cut_files(now, at, kept_text(now[at]->0, seq)) == now
            &&& next_behind(up_to(file_lines(now[at]), seq)) == after(kept.last().seq)
        }),
{
    lemma_kept_lines(files, seq);
    let at = target_of(files, seq);
    let file = files[at]->0;
    let text = kept_text(file, seq);
    let now = cut_files(files, at, text);
    let own = up_to(file_lines(files[at]), seq);
    lemma_kept_text(file, seq);
    lemma_kept_text_whole(file, seq);
    lemma_kept_lines_read(line_list(file), seq);
    assert(now.drop_last() =~= files.take(at));
    assert(now.last() == Some(text));
    law_cut_keeps_what_is_before(file_lines(files[at]), seq);
    assert(up_to(all_lines(files), seq).last() == own.last());
    lemma_all_stay(text, seq);
    assert(now.take(at) =~= files.take(at));
    if all_readable(files) {
        lemma_file_in_place(files, at);
        let ls = line_list(file);
        let head = all_lines(files.take(at));
        let rest = choose|rest: Seq<LogLineView>|
            all_lines(files) == #[trigger] (head + file_lines(files[at]) + rest);
        let more = choose|more: Seq<Seq<char>>|
            all_texts(files) == #[trigger] (all_texts(files.take(at)) + ls + more);
        let mine = log_lines(ls);
        assert forall|i: int, j: int| 0 <= i < j < mine.len() implies (#[trigger] mine[i]).seq <= (
        #[trigger] mine[j]).seq by {
            assert(all_lines(files)[head.len() + i] == mine[i]);
            assert(all_lines(files)[head.len() + j] == mine[j]);
        }
        lemma_kept_prefix(ls, seq);
        let k = kept_list(ls, seq);
        assert(k =~= ls.subrange(0, k.len() as int));
        let a = all_texts(now);
        assert(a =~= all_texts(files.take(at)) + k);
        assert(a =~= all_texts(files).subrange(0, a.len() as int));
    }
}

/// Cutting keeps exactly the lines up to the number, in order, and cutting twice
/// at the same number is cutting once.
pub proof fn law_cut_keeps_what_is_before(s: Seq<LogLineView>, seq: u64)
    ensures
        forall|i: int| 0 <= i < up_to(s, seq).len() ==> (#[trigger] up_to(s, seq)[i]).seq <= seq,
        forall|i: int|
            0 <= i < s.len() && (#[trigger] s[i]).seq <= seq ==> up_to(s, seq).contains(s[i]),
        up_to(up_to(s, seq), seq) == up_to(s, seq),
    decreases s.len(),
{
    if s.len() > 0 {
        let t = s.drop_last();
        law_cut_keeps_what_is_before(t, seq);
        let kept = up_to(s, seq);
        if s.last().seq <= seq {
            assert(kept.drop_last() =~= up_to(t, seq));
            assert forall|i: int| 0 <= i < s.len() && (#[trigger] s[i]).seq <= seq implies kept.contains(
                s[i],
            ) by {
                if i < t.len() {
                    assert(t[i] == s[i]);
                    let j = choose|j: int| 0 <= j < up_to(t, seq).len() && up_to(t, seq)[j] == s[i];
                    assert(kept[j] == s[i]);
                } else {
                    assert(kept[kept.len() - 1] == s[i]);
                }
            }
        } else {
            assert forall|i: int| 0 <= i < s.len() && (#[trigger] s[i]).seq <= seq implies kept.contains(
                s[i],
            ) by {
                assert(t[i] == s[i]);
            }
        }
    }
}

} // verus!
