//! The wire format: one JSON value per line.
use vstd::prelude::*;

use crate::codec::Wire;
use crate::event::Event;
use crate::json::depth_read;
use crate::json::json_read;
use crate::json::json_text;
use crate::json::lemma_plain_more;
use crate::json::parse;
use crate::json::plain;
use crate::json::print;
use crate::op::Op;
use crate::op::OpView;
use crate::op::Submission;
use crate::op::SubmissionView;
use crate::op::UserInput;
use crate::permission::PermissionRule;
use crate::text::is_space;
use crate::text::trim;
use crate::text::trim_start;
use crate::text::trimmed;

verus! {

/// The protocol's version.
pub const PROTOCOL_VERSION: u32 = 1;

/// What can go wrong on the wire.
#[derive(Debug, PartialEq)]
pub enum ProtocolError {
    /// The other side speaks another version.
    VersionMismatch { peer: u32, local: u32 },
    /// A line is not what it should be.
    Codec(String),
    /// Reading or writing failed.
    Io(String),
}

/// The message that a line holds, white space at its ends aside.
pub open spec fn line_holds<T: Wire>(line: Seq<char>) -> Option<T::V> {
    match json_read(trimmed(line)) {
        Some(j) => T::read(j),
        None => None,
    }
}

/// Write a message as one line.
pub fn encode_line<T: Wire>(msg: &T) -> (r: Result<String, ProtocolError>)
    ensures
        r matches Ok(s) && {
            &&& s@ == json_text(T::json(msg.deep_view()))
            &&& !s@.contains('\n')
            &&& trimmed(s@) == s@
            &&& plain(T::json(msg.deep_view()), depth_read()) && T::faithful(msg.deep_view())
                ==> line_holds::<T>(s@) == Some(msg.deep_view())
        },
{
    let s = print(&msg.to_json());
    proof {
        if T::faithful(msg.deep_view()) {
            T::round_trip(msg.deep_view());
        }
    }
    Ok(s)
}

/// Read the message that a line holds.
pub fn decode_line<T: Wire>(line: &str) -> (r: Result<T, ProtocolError>)
    ensures
        match r {
            Ok(t) => line_holds::<T>(line@) == Some(t.deep_view()),
            Err(e) => line_holds::<T>(line@) is None && e is Codec,
        },
{
    let t = trim(line);
    match parse(t.as_str()) {
        Ok(j) => match T::from_json(&j) {
            Some(v) => Ok(v),
            None => Err(ProtocolError::Codec("unexpected shape".to_owned())),
        },
        Err(e) => Err(ProtocolError::Codec(e)),
    }
}

/// Write a request as one line; reading the line gives the request back.
pub fn encode_submission(sub: &Submission) -> (r: Result<String, ProtocolError>)
    ensures
        r matches Ok(s) && {
            &&& s@ == json_text(Submission::json(sub.deep_view()))
            &&& !s@.contains('\n')
            &&& line_holds::<Submission>(s@) == Some(sub.deep_view())
        },
{
    proof {
        lemma_submission_plain(sub.deep_view());
    }
    encode_line(sub)
}

/// Read a request.
pub fn decode_submission(line: &str) -> (r: Result<Submission, ProtocolError>)
    ensures
        match r {
            Ok(t) => line_holds::<Submission>(line@) == Some(t.deep_view()),
            Err(e) => line_holds::<Submission>(line@) is None && e is Codec,
        },
{
    decode_line::<Submission>(line)
}

/// Write an event as one line; reading the line gives the event back, unless the
/// event holds a fractional number, a null summary or too deep a history.
pub fn encode_event(ev: &Event) -> (r: Result<String, ProtocolError>)
    ensures
        r matches Ok(s) && {
            &&& s@ == json_text(Event::json(ev.deep_view()))
            &&& !s@.contains('\n')
            &&& plain(Event::json(ev.deep_view()), depth_read()) && Event::faithful(ev.deep_view())
                ==> line_holds::<Event>(s@) == Some(ev.deep_view())
        },
{
    encode_line(ev)
}

/// Read an event.
pub fn decode_event(line: &str) -> (r: Result<Event, ProtocolError>)
    ensures
        match r {
            Ok(t) => line_holds::<Event>(line@) == Some(t.deep_view()),
            Err(e) => line_holds::<Event>(line@) is None && e is Codec,
        },
{
    decode_line::<Event>(line)
}

/// The first message of a connection.
pub fn hello() -> (r: Submission)
    ensures
        r.deep_view() == (SubmissionView {
            id: "hello"@,
            op: OpView::Hello { protocol_version: PROTOCOL_VERSION },
        }),
{
    Submission {
        id: "hello".to_owned(),
        op: Op::Hello { protocol_version: PROTOCOL_VERSION },
    }
}

// ---- laws ----

/// A line feed at the end of a line does not change what the line holds.
pub proof fn law_trailing_newline<T: Wire>(line: Seq<char>)
    ensures
        line_holds::<T>(line.push('\n')) == line_holds::<T>(line),
{
    lemma_trim_push(line);
}

proof fn lemma_trim_push(s: Seq<char>)
    ensures
        trimmed(s.push('\n')) == trimmed(s),
    decreases s.len(),
{
    let t = s.push('\n');
    assert(is_space('\n'));
    if s.len() == 0 {
        assert(t.skip(1) =~= s);
        assert(trim_start(t) == trim_start(s));
    } else if is_space(s[0]) {
        assert(t.skip(1) =~= s.skip(1).push('\n'));
        lemma_trim_push(s.skip(1));
    } else {
        assert(trim_start(t) == t);
        assert(t.drop_last() =~= s);
    }
}

/// A request nests little and holds no fractional number.
pub proof fn lemma_submission_plain(v: SubmissionView)
    ensures
        plain(Submission::json(v), depth_read()),
{
    lemma_op_plain(v.op);
    lemma_plain_more(Op::json(v.op), 4, 126);
    let j = Submission::json(v);
    let m = j->Object_0;
    assert forall|k: Seq<char>| #[trigger] m.contains_key(k) implies plain(m[k], 126) by {
        assert(k == "id"@ || k == "op"@);
    }
}

proof fn lemma_op_plain(v: OpView)
    ensures
        plain(Op::json(v), 4),
{
    let m = Op::json(v)->Object_0;
    match v {
        OpView::UserTurn { turn_id, input } => {
            let j = <Vec<UserInput> as Wire>::json(input);
            let s = j->List_0;
            assert forall|i: int| 0 <= i < s.len() implies plain(#[trigger] s[i], 2) by {
                let o = s[i]->Object_0;
                assert forall|k: Seq<char>| #[trigger] o.contains_key(k) implies plain(o[k], 1) by {}
            }
            assert(plain(j, 3));
            assert forall|k: Seq<char>| #[trigger] m.contains_key(k) implies plain(m[k], 3) by {}
        },
        OpView::AddPermissionRule { rule, scope } => {
            let o = PermissionRule::json(rule)->Object_0;
            assert forall|k: Seq<char>| #[trigger] o.contains_key(k) implies plain(o[k], 2) by {}
            assert(plain(PermissionRule::json(rule), 3));
            assert forall|k: Seq<char>| #[trigger] m.contains_key(k) implies plain(m[k], 3) by {}
        },
        _ => {
            assert forall|k: Seq<char>| #[trigger] m.contains_key(k) implies plain(m[k], 3) by {}
        },
    }
}

} // verus!
