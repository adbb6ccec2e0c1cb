//! The app-owned Composio credential: where its key comes from, and the three requests about it.
//! The key is write-only: no answer ever holds it.
use crate::json;
use crate::json::{object, put, put_text, Json, JsonView};
use crate::replies;
use crate::replies::{bad_request, internal, success, Reply, ReplyView};
use crate::text;
use crate::text::{contains_str, is_blank, trim};
use vstd::prelude::*;

verus! {

/// Which source backs the Composio API key that is active. Nothing here carries the key, a part
/// of it or its length.
#[derive(Debug, Clone, Copy, PartialEq, Eq, Structural)]
pub enum ComposioKeySource {
    /// The key this app persisted itself.
    App,
    /// No app key; the environment supplies one.
    Env,
    /// No key at all: refreshes fail until one is set.
    Missing,
}

impl ComposioKeySource {
    /// The wire value.
    pub open spec fn text(self) -> Seq<char> {
        match self {
            ComposioKeySource::App => "app"@,
            ComposioKeySource::Env => "env"@,
            ComposioKeySource::Missing => "none"@,
        }
    }

    /// The wire value.
    pub fn as_str(self) -> (r: &'static str)
        ensures
            r@ == self.text(),
    {
        match self {
            ComposioKeySource::App => "app",
            ComposioKeySource::Env => "env",
            ComposioKeySource::Missing => "none",
        }
    }

    /// Whether a key resolves at all.
    pub fn is_configured(self) -> (b: bool)
        ensures
            b == (self != ComposioKeySource::Missing),
    {
        match self {
            ComposioKeySource::Missing => false,
            _ => true,
        }
    }
}

/// The source that is active: the app's own key comes first, then any key that resolves.
pub open spec fn key_source(app_persisted: bool, any_key_resolves: bool) -> ComposioKeySource {
    if app_persisted {
        ComposioKeySource::App
    } else if any_key_resolves {
        ComposioKeySource::Env
    } else {
        ComposioKeySource::Missing
    }
}

/// Decides which source is active.
pub fn resolve_key_source(app_persisted: bool, any_key_resolves: bool) -> (r: ComposioKeySource)
    ensures
        r == key_source(app_persisted, any_key_resolves),
{
    if app_persisted {
        ComposioKeySource::App
    } else if any_key_resolves {
        ComposioKeySource::Env
    } else {
        ComposioKeySource::Missing
    }
}

/// What the app needs of the process that hosts it: where its Composio API key is persisted. The
/// key never leaves through this trait, and implementations keep it out of their messages.
pub trait UgcHost: Send + Sync {
    /// Persists `key` as the app's own credential and makes it active for this process. Refuses
    /// a blank key.
    fn set_composio_key(&self, key: &str) -> (r: Result<ComposioKeySource, String>);

    /// Forgets the app's own key and returns the source that is active afterwards. A key that was
    /// not there is no error.
    fn clear_composio_key(&self) -> (r: Result<ComposioKeySource, String>);

    /// Which source backs the active key right now.
    fn composio_key_source(&self) -> (r: ComposioKeySource);
}

/// The view of what a host answers.
pub open spec fn host_answer(r: Result<ComposioKeySource, String>) -> Result<
    ComposioKeySource,
    Seq<char>,
> {
    match r {
        Ok(s) => Ok(s),
        Err(e) => Err(e@),
    }
}

/// What every settings request is answered: whether a key resolves, and what backs it.
pub open spec fn settings_reply(source: ComposioKeySource) -> ReplyView {
    replies::done(
        JsonView::Object(
            seq![
                (
                    "composio_configured"@,
                    JsonView::Bool(source != ComposioKeySource::Missing),
                ),
                ("composio_key_source"@, JsonView::Text(source.text())),
            ],
        ),
    )
}

/// What every settings request is answered.
pub fn settings_body(source: ComposioKeySource) -> (r: Reply)
    ensures
        r.deep_view() == settings_reply(source),
{
    let mut m: Vec<(String, Json)> = Vec::new();
    put(&mut m, "composio_configured", Json::Bool(source.is_configured()));
    put_text(&mut m, "composio_key_source", source.as_str());
    assert(json::members(m@) =~= settings_reply(source).body->Object_0);
    success(object(m))
}

/// The whole message that stands in for one that quotes the key.
pub open spec fn withheld() -> Seq<char> {
    "could not store the Composio API key"@
}

/// The message, unless it quotes the key.
pub open spec fn unquoted(message: Seq<char>, key: Seq<char>) -> Seq<char> {
    if !text::blank(key) && text::holds_text(message, text::trimmed(key)) {
        withheld()
    } else {
        message
    }
}

/// Refuses to hand back a message that quotes the credential: the whole message is replaced,
/// since a part of it would tell about the value that it hides.
pub fn without_key(message: String, key: &str) -> (r: String)
    ensures
        r@ == unquoted(message@, key@),
{
    if !is_blank(key) && contains_str(message.as_str(), trim(key)) {
        return "could not store the Composio API key".to_string();
    }
    message
}

/// No message that is handed back quotes the key, whatever the host said, for every key that is
/// not itself a piece of the stand-in message.
pub proof fn law_no_message_quotes_the_key(message: Seq<char>, key: Seq<char>)
    requires
        !text::blank(key),
        !text::holds_text(withheld(), text::trimmed(key)),
    ensures
        !text::holds_text(unquoted(message, key), text::trimmed(key)),
{
}

/// `GET /settings`: is a key configured, and whose is it?
pub fn get_settings<H: UgcHost>(host: &H) -> (r: Reply)
    ensures
        exists|source: ComposioKeySource| #[trigger]
            call_ensures(H::composio_key_source, (host,), source) && r.deep_view()
                == settings_reply(source),
{
    settings_body(host.composio_key_source())
}

/// The body that sets the key; a missing key reads as an empty one.
#[derive(Debug)]
pub struct ComposioKeyBody {
    pub api_key: String,
}

/// What storing a key is answered, by what the host said.
pub open spec fn stored_reply(
    answer: Result<ComposioKeySource, Seq<char>>,
    key: Seq<char>,
) -> ReplyView {
    match answer {
        Ok(source) => settings_reply(source),
        Err(e) => replies::failed(500, unquoted(e, key)),
    }
}

/// What storing a key is answered, by what the host said.
pub fn stored_key_reply(answer: Result<ComposioKeySource, String>, key: &str) -> (r: Reply)
    ensures
        r.deep_view() == stored_reply(host_answer(answer), key@),
{
    match answer {
        Ok(source) => settings_body(source),
        Err(e) => internal(without_key(e, key).as_str()),
    }
}

/// `PUT /settings/composio-key`: hands the key to the host as it came, and reports the host's
/// answer. A blank one is refused before the host hears of it, since it would clear a working key.
pub fn put_composio_key<H: UgcHost>(host: &H, body: &ComposioKeyBody) -> (r: Reply)
    ensures
        text::blank(body.api_key@) ==> r.deep_view() == replies::failed(
            400,
            "api_key is required"@,
        ),
        !text::blank(body.api_key@) ==> exists|k: &str, answer: Result<ComposioKeySource, String>|
            k@ == body.api_key@ && #[trigger] call_ensures(H::set_composio_key, (host, k), answer)
                && r.deep_view() == stored_reply(host_answer(answer), body.api_key@),
{
    if is_blank(body.api_key.as_str()) {
        return bad_request("api_key is required");
    }
    stored_key_reply(host.set_composio_key(body.api_key.as_str()), body.api_key.as_str())
}

/// What forgetting the key is answered, by what the host said.
pub open spec fn cleared_reply(answer: Result<ComposioKeySource, Seq<char>>) -> ReplyView {
    match answer {
        Ok(source) => settings_reply(source),
        Err(e) => replies::failed(500, e),
    }
}

/// What forgetting the key is answered, by what the host said.
pub fn cleared_key_reply(answer: Result<ComposioKeySource, String>) -> (r: Reply)
    ensures
        r.deep_view() == cleared_reply(host_answer(answer)),
{
    match answer {
        Ok(source) => settings_body(source),
        Err(e) => internal(e.as_str()),
    }
}

/// `DELETE /settings/composio-key`: forgets the key, and reports what is active afterwards.
pub fn delete_composio_key<H: UgcHost>(host: &H) -> (r: Reply)
    ensures
        exists|answer: Result<ComposioKeySource, String>| #[trigger]
            call_ensures(H::clear_composio_key, (host,), answer) && r.deep_view()
                == cleared_reply(host_answer(answer)),
{
    cleared_key_reply(host.clear_composio_key())
}

} // verus!
