//! What a request is answered.

use vstd::prelude::*;

verus! {

/// How a request went.
#[derive(Clone, Copy, Debug, PartialEq, Eq, Structural)]
pub enum Status {
    Success,
    BadRequest,
    Unauthorized,
    NotFound,
    TooManyRequests,
    InternalServerError,
}

impl Status {
    /// The HTTP status code.
    pub open spec fn number(self) -> u16 {
        match self {
            Status::Success => 200,
            Status::BadRequest => 400,
            Status::Unauthorized => 401,
            Status::NotFound => 404,
            Status::TooManyRequests => 429,
            Status::InternalServerError => 500,
        }
    }

    /// The HTTP status code.
    pub fn code(self) -> (res: u16)
        ensures
            res == self.number(),
    {
        match self {
            Status::Success => 200,
            Status::BadRequest => 400,
            Status::Unauthorized => 401,
            Status::NotFound => 404,
            Status::TooManyRequests => 429,
            Status::InternalServerError => 500,
        }
    }
}

/// What the header of an answer says of its body.
#[derive(Clone, Copy, Debug, PartialEq, Eq, Structural)]
pub enum ContentType {
    /// Nothing.
    Unset,
    /// `text/plain; charset=utf-8`.
    Plain,
    /// `text/text`.
    Text,
}

/// An answer with a text for a body.
#[derive(Debug, PartialEq, Eq)]
pub struct Reply {
    pub status: Status,
    pub content_type: ContentType,
    pub body: String,
}

/// What an answer says.
pub struct ReplyView {
    pub status: Status,
    pub content_type: ContentType,
    pub body: Seq<char>,
}

impl View for Reply {
    type V = ReplyView;

    open spec fn view(&self) -> ReplyView {
        ReplyView { status: self.status, content_type: self.content_type, body: self.body@ }
    }
}

/// An answer of plain text.
pub open spec fn plain(status: Status, body: Seq<char>) -> ReplyView {
    ReplyView { status, content_type: ContentType::Plain, body }
}

/// An answer of text that the header says nothing of.
pub open spec fn bare(status: Status, body: Seq<char>) -> ReplyView {
    ReplyView { status, content_type: ContentType::Unset, body }
}

/// An answer of the type `text/text`.
pub open spec fn typed(status: Status, body: Seq<char>) -> ReplyView {
    ReplyView { status, content_type: ContentType::Text, body }
}

/// An answer with the given body.
pub fn reply(status: Status, content_type: ContentType, body: &str) -> (res: Reply)
    ensures
        res@ == (ReplyView { status, content_type, body: body@ }),
{
    Reply { status, content_type, body: body.to_owned() }
}

/// The three kinds of answers keep the status and the body that they are given; only the header
/// tells them apart.
pub proof fn lemma_answers_keep_their_parts(status: Status, body: Seq<char>)
    ensures
        plain(status, body).status == status && plain(status, body).body == body,
        bare(status, body).status == status && bare(status, body).body == body,
        typed(status, body).status == status && typed(status, body).body == body,
        plain(status, body).content_type is Plain,
        bare(status, body).content_type is Unset,
        typed(status, body).content_type is Text,
{
}

/// Different statuses have different codes, and only success has one below 400.
pub proof fn lemma_codes_differ(one: Status, other: Status)
    ensures
        one.number() == other.number() ==> one == other,
        one.number() < 400 <==> one is Success,
        one.number() >= 500 <==> one is InternalServerError,
{
}

} // verus!
