//! What a request is answered.
use crate::json;
use crate::json::{object, put_text, Json, JsonView};
use vstd::prelude::*;

verus! {

/// The answer to a request: its HTTP status and its body.
#[derive(Debug)]
pub struct Reply {
    pub status: u16,
    pub body: Json,
}

/// The view of a [`Reply`].
#[verifier::ext_equal]
pub struct ReplyView {
    pub status: u16,
    pub body: JsonView,
}

impl DeepView for Reply {
    type V = ReplyView;

    open spec fn deep_view(&self) -> ReplyView {
        ReplyView { status: self.status, body: self.body.deep_view() }
    }
}

/// A success with the given body.
pub open spec fn done(body: JsonView) -> ReplyView {
    ReplyView { status: 200, body }
}

/// A failure with the given status and message.
pub open spec fn failed(status: u16, message: Seq<char>) -> ReplyView {
    ReplyView { status, body: JsonView::Object(seq![("error"@, JsonView::Text(message))]) }
}

/// What a caller is told of something that is not there.
pub open spec fn missing(what: Seq<char>) -> ReplyView {
    failed(404, what + " not found"@)
}

/// What a caller is told of a post that already stands in the campaign.
pub open spec fn taken() -> ReplyView {
    failed(409, "this post has already been submitted to this campaign"@)
}

/// A success with the given body.
pub fn success(body: Json) -> (r: Reply)
    ensures
        r.deep_view() == done(body.deep_view()),
{
    Reply { status: 200, body }
}

/// A failure with the given status and message.
pub fn failure(status: u16, message: &str) -> (r: Reply)
    ensures
        r.deep_view() == failed(status, message@),
{
    let mut m: Vec<(String, Json)> = Vec::new();
    put_text(&mut m, "error", message);
    assert(json::members(m@) =~= seq![("error"@, JsonView::Text(message@))]);
    Reply { status, body: object(m) }
}

/// The caller's mistake.
pub fn bad_request(msg: &str) -> (r: Reply)
    ensures
        r.deep_view() == failed(400, msg@),
{
    failure(400, msg)
}

/// There is no such thing.
pub fn not_found(what: &str) -> (r: Reply)
    ensures
        r.deep_view() == missing(what@),
{
    let mut msg = what.to_string();
    msg.append(" not found");
    failure(404, msg.as_str())
}

/// The app's own failure.
pub fn internal(msg: &str) -> (r: Reply)
    ensures
        r.deep_view() == failed(500, msg@),
{
    failure(500, msg)
}

/// The post is already in this campaign, and a second row would be paid a second time.
pub fn duplicate_post() -> (r: Reply)
    ensures
        r.deep_view() == taken(),
{
    failure(409, "this post has already been submitted to this campaign")
}

} // verus!
