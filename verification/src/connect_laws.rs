//! What is asked of the outside services, where they are reached, and what their answers come to.
use crate::app_events;
use crate::app_events::{HostRequestView, NotifyView, ManagedProviderCall, ToolUsageReport};
use crate::catalog;
use crate::connect;
use crate::connect::ConnectStepView;
use crate::json;
use crate::json::JsonView;
use crate::rows;
use crate::text;
use crate::text_laws;
use crate::weburl;
use crate::weburl::UrlView;
use crate::wire_laws;
use vstd::prelude::*;

verus! {

// ---- where the key may go ---------------------------------------------------------------------

proof fn lemma_without_slashes(s: Seq<char>) -> (tail: Seq<char>)
    ensures
        s == catalog::without_slashes(s) + tail,
        forall|i: int| 0 <= i < tail.len() ==> #[trigger] tail[i] == '/',
        catalog::without_slashes(s).len() > 0 ==> catalog::without_slashes(s).last() != '/',
    decreases s.len(),
{
    if s.len() > 0 && s.last() == '/' {
        let t = lemma_without_slashes(s.drop_last());
        assert(s =~= s.drop_last().push('/'));
        assert(catalog::without_slashes(s) + t.push('/') =~= s);
        t.push('/')
    } else {
        assert(s + Seq::<char>::empty() =~= s);
        Seq::empty()
    }
}

/// The base URL is the one that is configured, without the slashes at its end, or the default where
/// none is.
pub proof fn law_the_base_url(configured: Seq<char>)
    ensures
        catalog::base_of(None) == "https://backend.composio.dev/api/v3.1"@,
        configured.len() == 0 ==> catalog::base_of(Some(configured))
            == "https://backend.composio.dev/api/v3.1"@,
        configured.len() > 0 ==> exists|tail: Seq<char>|
            configured == #[trigger] (catalog::base_of(Some(configured)) + tail) && (forall|i: int|
                0 <= i < tail.len() ==> #[trigger] tail[i] == '/'),
        configured.len() > 0 && catalog::base_of(Some(configured)).len() > 0 ==> catalog::base_of(
            Some(configured),
        ).last() != '/',
{
    let tail = lemma_without_slashes(configured);
    if configured.len() > 0 {
        assert(configured == catalog::base_of(Some(configured)) + tail);
    }
}

/// The key goes to two hosts and to no other, whatever the case of their name, and only over
/// `https`; the connect endpoints lie on the same host.
pub proof fn law_where_the_key_may_go(u: UrlView)
    ensures
        ({
            let known = u.host is Some && (text::lower(u.host->0) == "backend.composio.dev"@
                || text::lower(u.host->0) == "api.composio.dev"@);
            let fine = u.scheme == "https"@ && known;
            &&& catalog::base_verdict(Ok(u)) is Ok <==> fine
            &&& connect::connect_base(Ok(u)) is Ok <==> fine
            &&& fine ==> connect::connect_base(Ok(u)) == Ok::<_, Seq<char>>(
                "https://"@ + u.host->0 + "/api/v3"@,
            )
        }),
        forall|e: Seq<char>| #[trigger] catalog::base_verdict(Err(e)) is Err,
        forall|e: Seq<char>| #[trigger] connect::connect_base(Err(e)) is Err,
{
    reveal_strlit("backend.composio.dev");
    reveal_strlit("api.composio.dev");
    assert(text::lower("backend.composio.dev"@) =~= "backend.composio.dev"@);
    assert(text::lower("api.composio.dev"@) =~= "api.composio.dev"@);
}

/// A read and a write carry the key to the path below the base; without a key, or with a base that
/// may not receive it, nothing is sent.
pub proof fn law_what_a_request_carries(
    key: Seq<char>,
    configured: Option<Seq<char>>,
    path: Seq<char>,
    query: Seq<(Seq<char>, Seq<char>)>,
    body: JsonView,
)
    ensures
        ({
            let base = catalog::base_of(configured);
            let parsed = weburl::parsed_url(base);
            let read = catalog::asked(Some(key), configured, path, query);
            let get = connect::asked(Some(key), configured, path, query);
            let post = connect::posted(Some(key), configured, path, body);
            &&& read is Ok <==> catalog::base_verdict(parsed) is Ok
            &&& read is Ok ==> read->Ok_0.url == base + path && read->Ok_0.key == key
                && read->Ok_0.pairs == query.filter(
                |p: (Seq<char>, Seq<char>)| p.1.len() > 0,
            )
            &&& get is Ok <==> connect::connect_base(parsed) is Ok
            &&& get is Ok ==> get->Ok_0.url == connect::connect_base(parsed)->Ok_0 + path
                && get->Ok_0.key == key && get->Ok_0.pairs == query.filter(
                |p: (Seq<char>, Seq<char>)| p.1.len() > 0,
            )
            &&& post is Ok <==> connect::connect_base(parsed) is Ok
            &&& post is Ok ==> post->Ok_0.url == connect::connect_base(parsed)->Ok_0 + path
                && post->Ok_0.key == key && post->Ok_0.body == body
        }),
        catalog::asked(None, configured, path, query) is Err,
        connect::asked(None, configured, path, query) is Err,
        connect::posted(None, configured, path, body) is Err,
{
    rows::lemma_kept_is_filter(
        query,
        catalog::sent_pair(),
        |p: (Seq<char>, Seq<char>)| p.1.len() > 0,
    );
}

// ---- reading records ----------------------------------------------------------------------------

/// A field is read from the record itself, else from its `meta`; text that is empty, and anything
/// that is no text, is no field.
pub proof fn law_where_a_field_stands(item: JsonView, key: Seq<char>, t: Seq<char>)
    ensures
        ({
            let own = item.get(key);
            let meta = item.get("meta"@);
            let inner = match meta {
                Some(m) => m.get(key),
                None => None,
            };
            let filled = own is Some && own->0 is Text && own->0->Text_0.len() > 0;
            &&& own == Some(JsonView::Text(t)) && t.len() > 0 ==> json::field_of(item, key)
                == Some(t)
            &&& !filled && inner == Some(JsonView::Text(t)) && t.len() > 0 ==> json::field_of(
                item,
                key,
            ) == Some(t)
            &&& !filled && !(inner is Some && inner->0 is Text && inner->0->Text_0.len() > 0)
                ==> json::field_of(item, key) is None
        }),
{
}

/// Of several names the first that holds something is read.
pub proof fn law_the_first_name_counts(item: JsonView, key: Seq<char>, rest: Seq<Seq<char>>)
    ensures
        json::field_of(item, key) is Some ==> json::first_field(item, seq![key] + rest)
            == json::field_of(item, key),
        json::field_of(item, key) is None ==> json::first_field(item, seq![key] + rest)
            == json::first_field(item, rest),
        json::first_field(item, Seq::empty()) is None,
{
    assert((seq![key] + rest).skip(1) =~= rest);
}

/// The items of a list answer stand under the first name that holds a list, else the answer is the
/// list itself, else there are none.
pub proof fn law_where_the_items_stand(v: JsonView, items: Seq<JsonView>)
    ensures
        ({
            let a = v.get("items"@);
            let b = v.get("data"@);
            let c = v.get("connected_accounts"@);
            let d = v.get("accounts"@);
            let plain = json::list_items(v, catalog::list_keys());
            let accounts = json::list_items(v, connect::connection_keys());
            &&& a == Some(JsonView::Array(items)) ==> plain == items && accounts == items
            &&& !is_list(a) && b == Some(JsonView::Array(items)) ==> plain == items && accounts
                == items
            &&& !is_list(a) && !is_list(b) && c == Some(JsonView::Array(items)) ==> accounts
                == items
            &&& !is_list(a) && !is_list(b) && !is_list(c) && d == Some(JsonView::Array(items))
                ==> accounts == items
            &&& v == JsonView::Array(items) ==> plain == items && accounts == items
            &&& !(v is Array) && !is_list(a) && !is_list(b) ==> plain.len() == 0
            &&& !(v is Array) && !is_list(a) && !is_list(b) && !is_list(c) && !is_list(d)
                ==> accounts.len() == 0
        }),
{
    reveal_with_fuel(json::list_items, 5);
    let k = catalog::list_keys();
    assert(k.skip(1)[0] == k[1] && k.skip(1).skip(1).len() == 0);
    let n = connect::connection_keys();
    assert(n.skip(1)[0] == n[1] && n.skip(1).skip(1)[0] == n[2] && n.skip(1).skip(1).skip(1)[0]
        == n[3] && n.skip(1).skip(1).skip(1).skip(1).len() == 0);
}

/// A list.
pub open spec fn is_list(v: Option<JsonView>) -> bool {
    v is Some && v->0 is Array
}

/// Text, or empty text.
pub open spec fn text_or_empty(s: Option<Seq<char>>) -> Seq<char> {
    if s is Some {
        s->0
    } else {
        Seq::empty()
    }
}

/// A toolkit is listed where it has a slug, under it, with its name, description, logo and
/// categories.
pub proof fn law_what_is_listed_of_a_toolkit(t: JsonView)
    ensures
        ({
            let slug = json::first_field(t, seq!["slug"@, "key"@, "name"@]);
            let entry = catalog::toolkit_entry()(t);
            &&& entry is Some <==> slug is Some && slug->0.len() > 0
            &&& entry is Some ==> {
                &&& wire_laws::says(entry->0, "slug"@, slug->0)
                &&& wire_laws::says(
                    entry->0,
                    "name"@,
                    text_or_empty(json::first_field(t, seq!["name"@, "display_name"@, "slug"@])),
                )
                &&& wire_laws::says_or_null(
                    entry->0,
                    "description"@,
                    json::first_field(t, seq!["description"@, "desc"@]),
                )
                &&& wire_laws::says_or_null(
                    entry->0,
                    "logo"@,
                    json::first_field(t, seq!["logo"@, "logo_url"@, "icon"@]),
                )
                &&& wire_laws::holds(
                    entry->0,
                    "categories"@,
                    if t.get("categories"@) is Some {
                        t.get("categories"@)->0
                    } else {
                        JsonView::Null
                    },
                )
            }
        }),
{
    let entry = catalog::toolkit_entry()(t);
    if entry is Some {
        let m = entry->0->Object_0;
        assert(m[0].0 == "slug"@ && m[1].0 == "name"@ && m[2].0 == "description"@ && m[3].0
            == "logo"@ && m[4].0 == "categories"@);
    }
}

/// An action and a trigger type are listed where they have a name, with their display name and
/// description and the toolkit that they name, or the one that was asked for; an action says
/// whether it works without an account, a trigger what it is configured with.
pub proof fn law_what_is_listed_of_an_action(a: JsonView, toolkit: Seq<char>)
    ensures
        ({
            let name = json::first_field(a, seq!["slug"@, "name"@, "enum"@]);
            let kit = json::first_field(a, seq!["toolkit_slug"@, "toolkit"@, "app_name"@]);
            let action = catalog::action_entry(toolkit)(a);
            let trigger = catalog::trigger_entry(toolkit)(a);
            &&& action is Some <==> name is Some
            &&& trigger is Some <==> name is Some
            &&& name is Some ==> forall|e: JsonView|
                e == action->0 || e == trigger->0 ==> {
                    &&& #[trigger] wire_laws::says(e, "name"@, name->0)
                    &&& wire_laws::says(
                        e,
                        "display_name"@,
                        text_or_empty(
                            json::first_field(a, seq!["display_name"@, "name"@, "slug"@]),
                        ),
                    )
                    &&& wire_laws::says_or_null(
                        e,
                        "description"@,
                        json::first_field(a, seq!["description"@, "desc"@]),
                    )
                    &&& wire_laws::says(
                        e,
                        "toolkit"@,
                        if kit is Some {
                            kit->0
                        } else {
                            toolkit
                        },
                    )
                }
            &&& name is Some ==> wire_laws::holds(
                action->0,
                "no_auth"@,
                JsonView::Bool(a.get("no_auth"@) == Some(JsonView::Bool(true))),
            )
            &&& name is Some ==> wire_laws::holds(
                trigger->0,
                "config"@,
                if a.get("config"@) is Some {
                    a.get("config"@)->0
                } else {
                    JsonView::Null
                },
            )
        }),
{
    let action = catalog::action_entry(toolkit)(a);
    let trigger = catalog::trigger_entry(toolkit)(a);
    if action is Some {
        let m = action->0->Object_0;
        assert(m[0].0 == "name"@ && m[1].0 == "display_name"@ && m[2].0 == "description"@ && m[3].0
            == "toolkit"@ && m[4].0 == "no_auth"@);
        let n = trigger->0->Object_0;
        assert(n[0].0 == "name"@ && n[1].0 == "display_name"@ && n[2].0 == "description"@ && n[3].0
            == "toolkit"@ && n[4].0 == "config"@);
    }
}

// ---- connecting an account ----------------------------------------------------------------------

/// A list is answered as a list that holds the entries, with the toolkit where one was asked for.
pub proof fn law_what_a_list_answer_holds(toolkit: Seq<char>, data: Seq<JsonView>)
    ensures
        wire_laws::says(catalog::plain_list(data), "object"@, "list"@),
        wire_laws::holds(catalog::plain_list(data), "data"@, JsonView::Array(data)),
        wire_laws::says(catalog::toolkit_list(toolkit, data), "object"@, "list"@),
        wire_laws::says(catalog::toolkit_list(toolkit, data), "toolkit"@, toolkit),
        wire_laws::holds(catalog::toolkit_list(toolkit, data), "data"@, JsonView::Array(data)),
{
    let m = catalog::plain_list(data)->Object_0;
    assert(m[0].0 == "object"@ && m[1].0 == "data"@);
    let n = catalog::toolkit_list(toolkit, data)->Object_0;
    assert(n[0].0 == "object"@ && n[1].0 == "toolkit"@ && n[2].0 == "data"@);
}

/// A connection is listed where it has an id, with its toolkit and its status, and is active
/// exactly where its status is `ACTIVE`, in whatever case.
pub proof fn law_what_is_listed_of_a_connection(item: JsonView)
    ensures
        ({
            let id = json::first_field(item, seq!["id"@, "connected_account_id"@, "nanoid"@]);
            let status = text_or_empty(
                json::first_field(item, seq!["status"@, "state"@, "connectionStatus"@]),
            );
            let kit = json::first_field(
                item,
                seq!["toolkit_slug"@, "toolkit"@, "app_name"@, "appName"@, "appUniqueId"@],
            );
            let entry = connect::listed_connection()(item);
            &&& entry is Some <==> id is Some && id->0.len() > 0
            &&& entry is Some ==> {
                &&& wire_laws::says(entry->0, "id"@, id->0)
                &&& wire_laws::says(entry->0, "status"@, status)
                &&& wire_laws::holds(
                    entry->0,
                    "active"@,
                    JsonView::Bool(text::lower(status) == text::lower("ACTIVE"@)),
                )
                &&& kit is Some ==> wire_laws::says(entry->0, "toolkit"@, kit->0)
                &&& kit is None ==> wire_laws::says(
                    entry->0,
                    "toolkit"@,
                    match item.get("toolkit"@) {
                        Some(o) => match o.get("slug"@) {
                            Some(JsonView::Text(t)) => t,
                            _ => Seq::empty(),
                        },
                        None => Seq::empty(),
                    },
                )
            }
        }),
{
    let entry = connect::listed_connection()(item);
    if entry is Some {
        let m = entry->0->Object_0;
        assert(m[0].0 == "id"@ && m[1].0 == "toolkit"@ && m[2].0 == "status"@ && m[3].0
            == "active"@);
    }
}

/// Connecting uses the first config that has an id, creates one where there is none or none can be listed,
/// links the account through it, and fails where the config or the link cannot be had.
pub proof fn law_the_steps_of_connecting(
    raw: JsonView,
    e: Seq<char>,
    toolkit: Seq<char>,
    items: Seq<JsonView>,
    k: int,
)
    requires
        json::list_items(raw, connect::connection_keys()) == items,
    ensures
        0 <= k < items.len() && json::first_field(
            items[k],
            seq!["id"@, "nanoid"@, "auth_config_id"@],
        ) is Some && (forall|i: int|
            0 <= i < k ==> json::first_field(
                #[trigger] items[i],
                seq!["id"@, "nanoid"@, "auth_config_id"@],
            ) is None) ==> connect::listed_step(Ok(raw)) == ConnectStepView::Link(
            json::first_field(items[k], seq!["id"@, "nanoid"@, "auth_config_id"@])->0,
        ),
        (forall|i: int|
            0 <= i < items.len() ==> json::first_field(
                #[trigger] items[i],
                seq!["id"@, "nanoid"@, "auth_config_id"@],
            ) is None) ==> connect::listed_step(Ok(raw)) is Create,
        connect::listed_step(Err(e)) is Create,
        connect::created_step(Err(e)) == ConnectStepView::Failed(e),
        connect::linked_step(Err(e), toolkit) == ConnectStepView::Failed(e),
{
    if forall|i: int|
        0 <= i < items.len() ==> json::first_field(
            #[trigger] items[i],
            seq!["id"@, "nanoid"@, "auth_config_id"@],
        ) is None {
        lemma_no_id(items);
    }
    if 0 <= k < items.len() && json::first_field(
        items[k],
        seq!["id"@, "nanoid"@, "auth_config_id"@],
    ) is Some && forall|i: int|
        0 <= i < k ==> json::first_field(
            #[trigger] items[i],
            seq!["id"@, "nanoid"@, "auth_config_id"@],
        ) is None {
        lemma_first_id(items, k);
    }
}

proof fn lemma_first_id(items: Seq<JsonView>, k: int)
    requires
        0 <= k < items.len(),
        json::first_field(items[k], seq!["id"@, "nanoid"@, "auth_config_id"@]) is Some,
        forall|i: int|
            0 <= i < k ==> json::first_field(
                #[trigger] items[i],
                seq!["id"@, "nanoid"@, "auth_config_id"@],
            ) is None,
    ensures
        connect::first_id(items) == json::first_field(
            items[k],
            seq!["id"@, "nanoid"@, "auth_config_id"@],
        ),
    decreases k,
{
    if k > 0 {
        let rest = items.skip(1);
        assert(rest[k - 1] == items[k]);
        assert forall|i: int| 0 <= i < k - 1 implies json::first_field(
            #[trigger] rest[i],
            seq!["id"@, "nanoid"@, "auth_config_id"@],
        ) is None by {
            assert(rest[i] == items[i + 1]);
        }
        lemma_first_id(rest, k - 1);
        assert(json::first_field(items[0], seq!["id"@, "nanoid"@, "auth_config_id"@]) is None);
    }
}

proof fn lemma_no_id(items: Seq<JsonView>)
    requires
        forall|i: int|
            0 <= i < items.len() ==> json::first_field(
                #[trigger] items[i],
                seq!["id"@, "nanoid"@, "auth_config_id"@],
            ) is None,
    ensures
        connect::first_id(items) is None,
    decreases items.len(),
{
    if items.len() > 0 {
        let rest = items.skip(1);
        assert forall|i: int| 0 <= i < rest.len() implies json::first_field(
            #[trigger] rest[i],
            seq!["id"@, "nanoid"@, "auth_config_id"@],
        ) is None by {
            assert(rest[i] == items[i + 1]);
        }
        lemma_no_id(rest);
    }
}

/// The id of a new config is read at the top of the answer, else under `auth_config`, else under
/// `data`; without one, connecting fails.
pub proof fn law_where_a_new_config_has_its_id(created: JsonView)
    ensures
        ({
            let keys = seq!["id"@, "nanoid"@, "auth_config_id"@];
            let (a, b) = (created.get("auth_config"@), created.get("data"@));
            let top = json::first_field(created, keys);
            let under = match a {
                Some(v) => json::first_field(v, keys),
                None => None,
            };
            let deep = match b {
                Some(v) => json::first_field(v, keys),
                None => None,
            };
            let step = connect::created_step(Ok(created));
            &&& top is Some ==> step == ConnectStepView::Link(top->0)
            &&& top is None && under is Some ==> step == ConnectStepView::Link(under->0)
            &&& top is None && under is None && deep is Some ==> step == ConnectStepView::Link(
                deep->0,
            )
            &&& top is None && under is None && deep is None ==> step is Failed
        }),
{
}

/// A link answer gives the redirect to open, with the connection's id and its status, where a
/// redirect is found that begins with `http`; without one, connecting fails.
pub proof fn law_what_a_link_answer_gives(resp: JsonView, toolkit: Seq<char>, url: Seq<char>)
    ensures
        ({
            let urls = seq!["redirect_url"@, "redirectUrl"@, "auth_url"@, "authUrl"@];
            let ids = seq!["id"@, "connected_account_id"@, "connectedAccountId"@, "nanoid"@];
            let (b, c, d) = (
                resp.get("connection_data"@),
                resp.get("connectionData"@),
                resp.get("data"@),
            );
            let link = connect::linked(resp, toolkit);
            let status = json::first_field(resp, seq!["status"@, "state"@]);
            let id = json::first_field(resp, ids);
            let lists_none = !is_web(json::first_field(resp, urls));
            &&& json::first_field(resp, urls) == Some(url) && text::begins_with(url, "http"@) ==> {
                &&& link is Ok
                &&& wire_laws::says(link->Ok_0, "redirect_url"@, url)
            }
            &&& lists_none && b is Some && json::first_field(b->0, urls) == Some(url)
                && text::begins_with(url, "http"@) ==> link is Ok && wire_laws::says(
                link->Ok_0,
                "redirect_url"@,
                url,
            )
            &&& lists_none && b is None && c is Some && json::first_field(c->0, urls) == Some(url)
                && text::begins_with(url, "http"@) ==> link is Ok && wire_laws::says(
                link->Ok_0,
                "redirect_url"@,
                url,
            )
            &&& lists_none && b is None && c is None && d is Some && json::first_field(d->0, urls)
                == Some(url) && text::begins_with(url, "http"@) ==> link is Ok && wire_laws::says(
                link->Ok_0,
                "redirect_url"@,
                url,
            )
            &&& link is Ok && id is Some ==> wire_laws::says(link->Ok_0, "connection_id"@, id->0)
            &&& link is Ok && status is Some ==> wire_laws::says(link->Ok_0, "status"@, status->0)
            &&& link is Ok && status is None ==> wire_laws::says(
                link->Ok_0,
                "status"@,
                "INITIATED"@,
            )
            &&& lists_none && b is None && c is None && d is None ==> link is Err
            &&& link is Ok ==> connect::linked_step(Ok(resp), toolkit) == ConnectStepView::Finished(
                link->Ok_0,
            )
            &&& link is Err ==> connect::linked_step(Ok(resp), toolkit) is Failed
        }),
{
    let link = connect::linked(resp, toolkit);
    if link is Ok {
        let m = link->Ok_0->Object_0;
        assert(m[0].0 == "connection_id"@ && m[1].0 == "redirect_url"@ && m[2].0 == "status"@);
    }
}

/// Text that begins with `http`.
pub open spec fn is_web(s: Option<Seq<char>>) -> bool {
    s is Some && text::begins_with(s->0, "http"@)
}

/// A config is asked for by the toolkit, managed by the service, and an account is linked by the
/// config and the user.
pub proof fn law_what_connecting_sends(toolkit: Seq<char>, config: Seq<char>, entity: Seq<char>)
    ensures
        wire_laws::holds(
            connect::managed_config(toolkit),
            "toolkit"@,
            JsonView::Object(seq![("slug"@, JsonView::Text(toolkit))]),
        ),
        wire_laws::holds(
            connect::managed_config(toolkit),
            "auth_config"@,
            JsonView::Object(seq![("type"@, JsonView::Text("use_composio_managed_auth"@))]),
        ),
        wire_laws::says(connect::account_link(config, entity), "auth_config_id"@, config),
        wire_laws::says(connect::account_link(config, entity), "user_id"@, entity),
{
    let m = connect::managed_config(toolkit)->Object_0;
    assert(m[0].0 == "toolkit"@ && m[1].0 == "auth_config"@);
    let n = connect::account_link(config, entity)->Object_0;
    assert(n[0].0 == "auth_config_id"@ && n[1].0 == "user_id"@);
}

/// The record in a status answer stands under `account_details`, else under `data`, else it is the
/// answer.
pub proof fn law_where_the_status_stands(raw: JsonView)
    ensures
        raw.get("account_details"@) is Some ==> connect::status_record(raw) == raw.get(
            "account_details"@,
        )->0,
        raw.get("account_details"@) is None && raw.get("data"@) is Some ==> connect::status_record(
            raw,
        ) == raw.get("data"@)->0,
        raw.get("account_details"@) is None && raw.get("data"@) is None ==> connect::status_record(
            raw,
        ) == raw,
{
}

// ---- calls to the host ---------------------------------------------------------------------------

/// The host is reached on the loopback address, at the port that was injected, else at the port
/// behind the last colon of its bind address; a text that spells no port names none.
pub proof fn law_where_the_host_is_reached(
    n: int,
    bind: Option<Seq<char>>,
    host: Seq<char>,
    capability: Seq<char>,
)
    requires
        0 <= n <= 65535,
    ensures
        ({
            let port = text::int_text(n);
            let url = "http://127.0.0.1:"@ + port + "/api/host/capability/"@ + capability;
            &&& app_events::endpoint(capability, Some(port), bind) == Some(url)
            &&& app_events::endpoint(capability, None, Some(host + seq![':'] + port)) == Some(url)
            &&& app_events::endpoint(capability, None, None) is None
            &&& !host.contains(':') ==> app_events::endpoint(capability, None, Some(host)) is None
        }),
{
    let port = text::int_text(n);
    text_laws::law_numerals_read_back(n);
    lemma_last_piece(host, port);
    text_laws::law_pieces_join_to_the_text(host, ':');
    if !host.contains(':') {
        lemma_no_separator(host);
    }
}

proof fn lemma_no_separator(s: Seq<char>)
    requires
        !s.contains(':'),
    ensures
        text::pieces(s, ':').len() == 1,
    decreases s.len(),
{
    if s.len() > 0 {
        let init = s.drop_last();
        assert(!init.contains(':')) by {
            if init.contains(':') {
                let i = choose|i: int| 0 <= i < init.len() && init[i] == ':';
                assert(s[i] == ':');
            }
        }
        lemma_no_separator(init);
        assert(s[s.len() - 1] != ':');
    }
}

proof fn lemma_last_piece(host: Seq<char>, t: Seq<char>)
    requires
        forall|i: int| 0 <= i < t.len() ==> text::is_digit(#[trigger] t[i]),
    ensures
        text::pieces(host + seq![':'] + t, ':').len() > 1,
        text::pieces(host + seq![':'] + t, ':').last() == t,
    decreases t.len(),
{
    let all = host + seq![':'] + t;
    if t.len() == 0 {
        assert(all.drop_last() =~= host);
        text_laws::law_pieces_join_to_the_text(host, ':');
        assert(text::pieces(all, ':').last() =~= t);
    } else {
        let init = t.drop_last();
        lemma_last_piece(host, init);
        assert(all.drop_last() =~= host + seq![':'] + init);
        assert(all.last() == t.last());
        assert(text::is_digit(t[t.len() - 1]));
        assert(init.push(t.last()) =~= t);
    }
}

/// A call is made where the host can be reached and there is a token that is not blank, and only
/// then; it carries the plugin, the token and the body as they are.
pub proof fn law_when_the_host_is_called(
    plugin: Seq<char>,
    url: Option<Seq<char>>,
    raw: Option<Seq<char>>,
    body: JsonView,
)
    ensures
        ({
            let call = app_events::addressed(plugin, url, app_events::token_held(raw), body);
            &&& call is Some <==> url is Some && raw is Some && text::trimmed(raw->0).len() > 0
            &&& call is Some ==> call->0 == (HostRequestView {
                url: url->0,
                plugin_id: plugin,
                token: raw->0,
                body,
            })
        }),
        forall|status: u16| #[trigger]
            app_events::is_success(status) <==> 200 <= status <= 299,
{
}

/// An event is sent with its name and payload, with the conversation where there is one, and with
/// the hint where there is one, of which what it does not say is left out.
pub proof fn law_what_is_sent_of_an_event(
    event: Seq<char>,
    payload: JsonView,
    conversation: Option<Seq<char>>,
    notify: NotifyView,
)
    ensures
        ({
            let plain = app_events::emit_body(event, payload, conversation, None);
            let hinted = app_events::emit_body(event, payload, conversation, Some(notify));
            let hint = notify.wire();
            &&& wire_laws::says(plain, "event"@, event)
            &&& wire_laws::holds(plain, "payload"@, payload)
            &&& wire_laws::may_say(plain, "conversation_id"@, conversation)
            &&& plain->Object_0.len() == 2 + wire_laws::one_of(conversation)
            &&& hinted->Object_0 == plain->Object_0.push(("notify"@, hint))
            &&& wire_laws::says(hint, "title"@, notify.title)
            &&& wire_laws::may_say(hint, "body"@, notify.body)
            &&& wire_laws::may_say(hint, "level"@, notify.level)
            &&& wire_laws::may_say(hint, "target_user_id"@, notify.target_user_id)
            &&& hint->Object_0.len() == 1 + wire_laws::one_of(notify.body) + wire_laws::one_of(
                notify.level,
            ) + wire_laws::one_of(notify.target_user_id)
        }),
{
    let m = app_events::emit_body(event, payload, conversation, None)->Object_0;
    assert(m[0].0 == "event"@ && m[1].0 == "payload"@);
    if conversation is Some {
        assert(m[2].0 == "conversation_id"@);
    }
    let n = notify.wire()->Object_0;
    assert(n[0].0 == "title"@);
    let (a, b) = (wire_laws::one_of(notify.body), wire_laws::one_of(notify.level));
    if notify.body is Some {
        assert(n[1].0 == "body"@);
    }
    if notify.level is Some {
        assert(n[1 + a].0 == "level"@);
    }
    if notify.target_user_id is Some {
        assert(n[1 + a + b].0 == "target_user_id"@);
    }
}

/// A name of at most so many bytes that is not blank.
pub open spec fn fits_in(s: Seq<char>, most: nat) -> bool {
    text::trimmed(s).len() > 0 && vstd::utf8::encode_utf8(s).len() <= most
}

/// Text of at most so many bytes, or none.
pub open spec fn may_fit_in(s: Option<Seq<char>>, most: nat) -> bool {
    s is None || vstd::utf8::encode_utf8(s->0).len() <= most
}

/// A charge is accepted where its names are there and not too long and it charges for something; a
/// provider call where its names are.
pub proof fn law_what_the_host_is_spared(r: ToolUsageReport, c: ManagedProviderCall)
    ensures
        r.fault() is None <==> fits_in(r.provider@, 64) && fits_in(r.tool_id@, 256) && fits_in(
            r.request_id@,
            256,
        ) && may_fit_in(r.transaction_id.deep_view(), 256) && may_fit_in(
            r.task_label.deep_view(),
            256,
        ) && r.tool_calls > 0,
        c.fault() is None <==> fits_in(c.provider@, 64) && fits_in(c.tool_id@, 256) && fits_in(
            c.method@,
            16,
        ) && fits_in(c.request_id@, 256) && may_fit_in(c.idempotency_key.deep_view(), 256)
            && may_fit_in(c.task_label.deep_view(), 256),
{
}

/// A charge is sent with every value under its own name; what it does not say is left out.
pub proof fn law_what_is_sent_of_a_charge(r: ToolUsageReport)
    ensures
        ({
            let sent = r.wire_view();
            &&& wire_laws::says(sent, "provider"@, r.provider@)
            &&& wire_laws::says(sent, "toolId"@, r.tool_id@)
            &&& r.cost_micro_usd is Some ==> wire_laws::holds(
                sent,
                "costMicroUsd"@,
                json::integer(r.cost_micro_usd->0 as int),
            )
            &&& wire_laws::holds(sent, "estimated"@, JsonView::Bool(r.estimated))
            &&& wire_laws::may_say(sent, "transactionId"@, r.transaction_id.deep_view())
            &&& wire_laws::says(sent, "requestId"@, r.request_id@)
            &&& wire_laws::holds(sent, "toolCalls"@, json::integer(r.tool_calls as int))
            &&& wire_laws::may_say(sent, "taskLabel"@, r.task_label.deep_view())
            &&& sent->Object_0.len() == 5 + wire_laws::one_of(r.cost_micro_usd) + wire_laws::one_of(
                r.transaction_id,
            ) + wire_laws::one_of(r.task_label)
        }),
{
    let m = r.wire_view()->Object_0;
    let (a, b) = (wire_laws::one_of(r.cost_micro_usd), wire_laws::one_of(r.transaction_id));
    assert(m[0].0 == "provider"@ && m[1].0 == "toolId"@);
    if r.cost_micro_usd is Some {
        assert(m[2].0 == "costMicroUsd"@);
    }
    assert(m[2 + a].0 == "estimated"@);
    if r.transaction_id is Some {
        assert(m[3 + a].0 == "transactionId"@);
    }
    assert(m[3 + a + b].0 == "requestId"@ && m[4 + a + b].0 == "toolCalls"@);
    if r.task_label is Some {
        assert(m[5 + a + b].0 == "taskLabel"@);
    }
}

/// A provider call is sent with every value under its own name, and null for what it does not say.
pub proof fn law_what_is_sent_of_a_call(c: ManagedProviderCall)
    ensures
        ({
            let sent = c.wire_view();
            &&& wire_laws::says(sent, "provider"@, c.provider@)
            &&& wire_laws::says(sent, "toolId"@, c.tool_id@)
            &&& wire_laws::says_or_null(sent, "operation"@, c.operation.deep_view())
            &&& wire_laws::says_or_null(sent, "accountId"@, c.account_id.deep_view())
            &&& wire_laws::says(sent, "method"@, c.method@)
            &&& wire_laws::holds(
                sent,
                "query"@,
                JsonView::Array(
                    c.query.deep_view().map_values(
                        |p: (Seq<char>, Seq<char>)|
                            JsonView::Array(seq![JsonView::Text(p.0), JsonView::Text(p.1)]),
                    ),
                ),
            )
            &&& wire_laws::holds(
                sent,
                "body"@,
                match c.body.deep_view() {
                    Some(b) => b,
                    None => JsonView::Null,
                },
            )
            &&& wire_laws::says_or_null(sent, "idempotencyKey"@, c.idempotency_key.deep_view())
            &&& wire_laws::says(sent, "requestId"@, c.request_id@)
            &&& wire_laws::holds(
                sent,
                "fallbackCostMicroUsd"@,
                match c.fallback_cost_micro_usd {
                    Some(n) => json::integer(n as int),
                    None => JsonView::Null,
                },
            )
            &&& wire_laws::says_or_null(sent, "taskLabel"@, c.task_label.deep_view())
        }),
{
    let m = c.wire_view()->Object_0;
    assert(m[0].0 == "provider"@ && m[1].0 == "toolId"@ && m[2].0 == "operation"@ && m[3].0
        == "accountId"@ && m[4].0 == "method"@ && m[5].0 == "query"@);
    assert(m[6].0 == "body"@ && m[7].0 == "idempotencyKey"@ && m[8].0 == "requestId"@ && m[9].0
        == "fallbackCostMicroUsd"@ && m[10].0 == "taskLabel"@);
    let f = |p: (Seq<char>, Seq<char>)|
        JsonView::Array(seq![JsonView::Text(p.0), JsonView::Text(p.1)]);
    let q = c.query.deep_view();
    assert(app_events::query_json(q)->Array_0 =~= q.map_values(f));
}

} // verus!
