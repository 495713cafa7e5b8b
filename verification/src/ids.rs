//! Identifiers.
use vstd::prelude::*;

use crate::codec::Wire;
use crate::dup::Dup;
use crate::json::Json;
use crate::json::JsonView;
use crate::json::text_in;

verus! {

/// A session.
#[derive(Debug, PartialEq, Eq, Hash)]
pub struct SessionId(pub String);

impl DeepView for SessionId {
    type V = Seq<char>;

    open spec fn deep_view(&self) -> Seq<char> {
        self.0@
    }
}

impl SessionId {
    /// The identifier with the given text.
    pub fn new(s: &str) -> (r: Self)
        ensures
            r.deep_view() == s@,
    {
        SessionId(s.to_owned())
    }

    /// The identifier's text.
    pub fn as_str(&self) -> (r: &str)
        ensures
            r@ == self.deep_view(),
    {
        self.0.as_str()
    }
}

impl Clone for SessionId {
    fn clone(&self) -> (r: Self)
        ensures
            r.deep_view() == self.deep_view(),
    {
        SessionId(self.0.clone())
    }
}

impl Dup for SessionId {
    fn dup(&self) -> (r: Self) {
        SessionId(self.0.clone())
    }
}

impl Wire for SessionId {
    open spec fn json(v: Seq<char>) -> JsonView {
        JsonView::Text(v)
    }

    open spec fn read(j: JsonView) -> Option<Seq<char>> {
        text_in(Some(j))
    }

    fn to_json(&self) -> (r: Json) {
        Json::Text(self.0.clone())
    }

    fn from_json(j: &Json) -> (r: Option<Self>) {
        match j.as_str() {
            Some(s) => Some(SessionId(s.to_owned())),
            None => None,
        }
    }

    open spec fn faithful(v: Seq<char>) -> bool {
        true
    }

    proof fn round_trip(v: Seq<char>) {
    }
}

/// A turn; the client that starts it picks the identifier.
#[derive(Debug, PartialEq, Eq, Hash)]
pub struct TurnId(pub String);

impl DeepView for TurnId {
    type V = Seq<char>;

    open spec fn deep_view(&self) -> Seq<char> {
        self.0@
    }
}

impl TurnId {
    /// The identifier with the given text.
    pub fn new(s: &str) -> (r: Self)
        ensures
            r.deep_view() == s@,
    {
        TurnId(s.to_owned())
    }

    /// The identifier's text.
    pub fn as_str(&self) -> (r: &str)
        ensures
            r@ == self.deep_view(),
    {
        self.0.as_str()
    }
}

impl Clone for TurnId {
    fn clone(&self) -> (r: Self)
        ensures
            r.deep_view() == self.deep_view(),
    {
        TurnId(self.0.clone())
    }
}

impl Dup for TurnId {
    fn dup(&self) -> (r: Self) {
        TurnId(self.0.clone())
    }
}

impl Wire for TurnId {
    open spec fn json(v: Seq<char>) -> JsonView {
        JsonView::Text(v)
    }

    open spec fn read(j: JsonView) -> Option<Seq<char>> {
        text_in(Some(j))
    }

    fn to_json(&self) -> (r: Json) {
        Json::Text(self.0.clone())
    }

    fn from_json(j: &Json) -> (r: Option<Self>) {
        match j.as_str() {
            Some(s) => Some(TurnId(s.to_owned())),
            None => None,
        }
    }

    open spec fn faithful(v: Seq<char>) -> bool {
        true
    }

    proof fn round_trip(v: Seq<char>) {
    }
}

/// One tool call, or one request for approval.
#[derive(Debug, PartialEq, Eq, Hash)]
pub struct CallId(pub String);

impl DeepView for CallId {
    type V = Seq<char>;

    open spec fn deep_view(&self) -> Seq<char> {
        self.0@
    }
}

impl CallId {
    /// The identifier with the given text.
    pub fn new(s: &str) -> (r: Self)
        ensures
            r.deep_view() == s@,
    {
        CallId(s.to_owned())
    }

    /// The identifier's text.
    pub fn as_str(&self) -> (r: &str)
        ensures
            r@ == self.deep_view(),
    {
        self.0.as_str()
    }
}

impl Clone for CallId {
    fn clone(&self) -> (r: Self)
        ensures
            r.deep_view() == self.deep_view(),
    {
        CallId(self.0.clone())
    }
}

impl Dup for CallId {
    fn dup(&self) -> (r: Self) {
        CallId(self.0.clone())
    }
}

impl Wire for CallId {
    open spec fn json(v: Seq<char>) -> JsonView {
        JsonView::Text(v)
    }

    open spec fn read(j: JsonView) -> Option<Seq<char>> {
        text_in(Some(j))
    }

    fn to_json(&self) -> (r: Json) {
        Json::Text(self.0.clone())
    }

    fn from_json(j: &Json) -> (r: Option<Self>) {
        match j.as_str() {
            Some(s) => Some(CallId(s.to_owned())),
            None => None,
        }
    }

    open spec fn faithful(v: Seq<char>) -> bool {
        true
    }

    proof fn round_trip(v: Seq<char>) {
    }
}

/// One snapshot of the files.
#[derive(Debug, PartialEq, Eq, Hash)]
pub struct CheckpointId(pub String);

impl DeepView for CheckpointId {
    type V = Seq<char>;

    open spec fn deep_view(&self) -> Seq<char> {
        self.0@
    }
}

impl CheckpointId {
    /// The identifier with the given text.
    pub fn new(s: &str) -> (r: Self)
        ensures
            r.deep_view() == s@,
    {
        CheckpointId(s.to_owned())
    }

    /// The identifier's text.
    pub fn as_str(&self) -> (r: &str)
        ensures
            r@ == self.deep_view(),
    {
        self.0.as_str()
    }
}

impl Clone for CheckpointId {
    fn clone(&self) -> (r: Self)
        ensures
            r.deep_view() == self.deep_view(),
    {
        CheckpointId(self.0.clone())
    }
}

impl Dup for CheckpointId {
    fn dup(&self) -> (r: Self) {
        CheckpointId(self.0.clone())
    }
}

impl Wire for CheckpointId {
    open spec fn json(v: Seq<char>) -> JsonView {
        JsonView::Text(v)
    }

    open spec fn read(j: JsonView) -> Option<Seq<char>> {
        text_in(Some(j))
    }

    fn to_json(&self) -> (r: Json) {
        Json::Text(self.0.clone())
    }

    fn from_json(j: &Json) -> (r: Option<Self>) {
        match j.as_str() {
            Some(s) => Some(CheckpointId(s.to_owned())),
            None => None,
        }
    }

    open spec fn faithful(v: Seq<char>) -> bool {
        true
    }

    proof fn round_trip(v: Seq<char>) {
    }
}

} // verus!
