//! A JSON value as plain data: what the Composio readers look into and what the app sends.
use crate::text::str_eq;
use vstd::prelude::*;

verus! {

/// A JSON value. A number keeps what a counter needs of it: an integer that fits in 64 bits,
/// another integer, or a fraction by its text and its whole part.
#[derive(Debug)]
pub enum Json {
    Null,
    Bool(bool),
    Int(i64),
    /// An integer outside the signed 64-bit range.
    Big(i128),
    /// A number that is no integer: as it is written, and cut to a whole number.
    Fraction { written: String, whole: i64 },
    Text(String),
    Array(Vec<Json>),
    /// The members in order; each name stands once.
    Object(Vec<(String, Json)>),
}

/// The view of a [`Json`].
pub enum JsonView {
    Null,
    Bool(bool),
    Int(i64),
    Big(i128),
    Fraction { written: Seq<char>, whole: i64 },
    Text(Seq<char>),
    Array(Seq<JsonView>),
    Object(Seq<(Seq<char>, JsonView)>),
}

impl Json {
    /// The value as mathematics sees it.
    pub open spec fn model(self) -> JsonView
        decreases self,
    {
        match self {
            Json::Null => JsonView::Null,
            Json::Bool(b) => JsonView::Bool(b),
            Json::Int(n) => JsonView::Int(n),
            Json::Big(n) => JsonView::Big(n),
            Json::Fraction { written, whole } => JsonView::Fraction { written: written@, whole },
            Json::Text(s) => JsonView::Text(s@),
            Json::Array(v) => JsonView::Array(
                Seq::new(
                    v@.len(),
                    |i: int|
                        if 0 <= i < v@.len() {
                            v@[i].model()
                        } else {
                            JsonView::Null
                        },
                ),
            ),
            Json::Object(m) => JsonView::Object(
                Seq::new(
                    m@.len(),
                    |i: int|
                        if 0 <= i < m@.len() {
                            (m@[i].0@, m@[i].1.model())
                        } else {
                            (Seq::empty(), JsonView::Null)
                        },
                ),
            ),
        }
    }
}

impl DeepView for Json {
    type V = JsonView;

    open spec fn deep_view(&self) -> JsonView {
        self.model()
    }
}

/// An integer as a JSON value.
pub open spec fn integer(n: int) -> JsonView {
    if i64::MIN <= n <= i64::MAX {
        JsonView::Int(n as i64)
    } else {
        JsonView::Big(n as i128)
    }
}

/// The member `key` stands at `i` and nowhere before.
pub open spec fn member_at(m: Seq<(Seq<char>, JsonView)>, key: Seq<char>, i: int) -> bool {
    0 <= i < m.len() && m[i].0 == key && forall|k: int| 0 <= k < i ==> (#[trigger] m[k]).0 != key
}

impl JsonView {
    /// The member `key` of an object.
    pub open spec fn get(self, key: Seq<char>) -> Option<JsonView> {
        match self {
            JsonView::Object(m) => if exists|i: int| member_at(m, key, i) {
                Some(m[choose|i: int| member_at(m, key, i)].1)
            } else {
                None
            },
            _ => None,
        }
    }

    /// The text of a string value.
    pub open spec fn as_text(self) -> Option<Seq<char>> {
        match self {
            JsonView::Text(s) => Some(s),
            _ => None,
        }
    }

    /// The truth value of a boolean.
    pub open spec fn as_bool(self) -> Option<bool> {
        match self {
            JsonView::Bool(b) => Some(b),
            _ => None,
        }
    }

    /// The items of an array.
    pub open spec fn as_array(self) -> Option<Seq<JsonView>> {
        match self {
            JsonView::Array(v) => Some(v),
            _ => None,
        }
    }
}

/// A member is found where it stands first.
pub proof fn lemma_member(m: Seq<(Seq<char>, JsonView)>, key: Seq<char>, i: int)
    requires
        member_at(m, key, i),
    ensures
        JsonView::Object(m).get(key) == Some(m[i].1),
{
}

impl Clone for Json {
    fn clone(&self) -> (r: Self)
        ensures
            r.deep_view() == self.deep_view(),
        decreases self,
    {
        match self {
            Json::Null => Json::Null,
            Json::Bool(b) => Json::Bool(*b),
            Json::Int(n) => Json::Int(*n),
            Json::Big(n) => Json::Big(*n),
            Json::Fraction { written, whole } => Json::Fraction {
                written: written.clone(),
                whole: *whole,
            },
            Json::Text(s) => Json::Text(s.clone()),
            Json::Array(v) => {
                let mut out: Vec<Json> = Vec::new();
                let mut i: usize = 0;
                while i < v.len()
                    invariant
                        *self == Json::Array(*v),
                        i <= v.len(),
                        out.len() == i,
                        forall|k: int| 0 <= k < i ==> (#[trigger] out@[k]).model() == v@[k].model(),
                    decreases v.len() - i,
                {
                    assert(decreases_to!(self->Array_0 => self->Array_0@));
                    out.push(v[i].clone());
                    i += 1;
                }
                let r = Json::Array(out);
                assert(r.model()->Array_0 =~= self.model()->Array_0);
                r
            },
            Json::Object(m) => {
                let mut out: Vec<(String, Json)> = Vec::new();
                let mut i: usize = 0;
                while i < m.len()
                    invariant
                        *self == Json::Object(*m),
                        i <= m.len(),
                        out.len() == i,
                        forall|k: int|
                            0 <= k < i ==> (#[trigger] out@[k]).0@ == m@[k].0@ && out@[k].1.model()
                                == m@[k].1.model(),
                    decreases m.len() - i,
                {
                    assert(decreases_to!(self->Object_0 => self->Object_0@));
                    out.push((m[i].0.clone(), m[i].1.clone()));
                    i += 1;
                }
                let r = Json::Object(out);
                assert(r.model()->Object_0 =~= self.model()->Object_0);
                r
            },
        }
    }
}

impl Json {
    /// The member `key` of an object.
    pub fn get(&self, key: &str) -> (r: Option<&Json>)
        ensures
            match r {
                Some(v) => self.deep_view().get(key@) == Some(v.deep_view()),
                None => self.deep_view().get(key@) is None,
            },
    {
        match self {
            Json::Object(m) => {
                let ghost mv = self.model()->Object_0;
                let mut i: usize = 0;
                while i < m.len()
                    invariant
                        *self == Json::Object(*m),
                        mv == self.model()->Object_0,
                        i <= m.len(),
                        forall|k: int| 0 <= k < i ==> (#[trigger] mv[k]).0 != key@,
                    decreases m.len() - i,
                {
                    if str_eq(m[i].0.as_str(), key) {
                        proof {
                            lemma_member(mv, key@, i as int);
                        }
                        return Some(&m[i].1);
                    }
                    i += 1;
                }
                None
            },
            _ => None,
        }
    }

    /// The text of a string value.
    pub fn as_str(&self) -> (r: Option<&str>)
        ensures
            r.deep_view() == self.deep_view().as_text(),
    {
        match self {
            Json::Text(s) => Some(s.as_str()),
            _ => None,
        }
    }

    /// The truth value of a boolean.
    pub fn as_bool(&self) -> (r: Option<bool>)
        ensures
            r == self.deep_view().as_bool(),
    {
        match self {
            Json::Bool(b) => Some(*b),
            _ => None,
        }
    }

    /// An integer.
    pub fn number(n: i128) -> (r: Json)
        ensures
            r.deep_view() == integer(n as int),
    {
        if n < i64::MIN as i128 || n > i64::MAX as i128 {
            Json::Big(n)
        } else {
            Json::Int(n as i64)
        }
    }

    /// A string value.
    pub fn text(s: &str) -> (r: Json)
        ensures
            r.deep_view() == JsonView::Text(s@),
    {
        Json::Text(s.to_string())
    }
}

/// The members with `key` set to `value`: in place where it stands, or after the others.
pub open spec fn with_member(
    m: Seq<(Seq<char>, JsonView)>,
    key: Seq<char>,
    value: JsonView,
) -> Seq<(Seq<char>, JsonView)> {
    if exists|i: int| member_at(m, key, i) {
        m.update(choose|i: int| member_at(m, key, i), (key, value))
    } else {
        m.push((key, value))
    }
}

/// The members of an object under construction.
pub open spec fn members(m: Seq<(String, Json)>) -> Seq<(Seq<char>, JsonView)> {
    Seq::new(m.len(), |i: int| (m[i].0@, m[i].1.model()))
}

/// Sets the member `key`.
pub fn set_member(m: &mut Vec<(String, Json)>, key: &str, value: Json)
    ensures
        members(final(m)@) == with_member(members(old(m)@), key@, value.deep_view()),
{
    let ghost before = members(m@);
    let mut i: usize = 0;
    while i < m.len()
        invariant
            before == members(m@),
            before == members(old(m)@),
            i <= m.len(),
            forall|k: int| 0 <= k < i ==> (#[trigger] before[k]).0 != key@,
        decreases m.len() - i,
    {
        if str_eq(m[i].0.as_str(), key) {
            proof {
                assert(member_at(before, key@, i as int));
                let k = choose|k: int| member_at(before, key@, k);
            }
            m[i] = (key.to_string(), value);
            return ;
        }
        i += 1;
    }
    m.push((key.to_string(), value));
}

/// The object with these members.
pub fn object(m: Vec<(String, Json)>) -> (r: Json)
    ensures
        r.deep_view() == JsonView::Object(members(m@)),
{
    let r = Json::Object(m);
    assert(r.model()->Object_0 =~= members(m@));
    r
}

/// Adds a member after the others.
pub fn put(m: &mut Vec<(String, Json)>, key: &str, value: Json)
    ensures
        members(final(m)@) == members(old(m)@).push((key@, value.deep_view())),
{
    m.push((key.to_string(), value));
}

/// Adds a string member after the others.
pub fn put_text(m: &mut Vec<(String, Json)>, key: &str, value: &str)
    ensures
        members(final(m)@) == members(old(m)@).push((key@, JsonView::Text(value@))),
{
    put(m, key, Json::text(value));
}

/// Adds an integer member after the others.
pub fn put_int(m: &mut Vec<(String, Json)>, key: &str, value: i64)
    ensures
        members(final(m)@) == members(old(m)@).push((key@, JsonView::Int(value))),
{
    put(m, key, Json::Int(value));
}

/// The members with a string member after them, where there is one.
pub open spec fn with_some(
    m: Seq<(Seq<char>, JsonView)>,
    key: Seq<char>,
    value: Option<Seq<char>>,
) -> Seq<(Seq<char>, JsonView)> {
    match value {
        Some(s) => m.push((key, JsonView::Text(s))),
        None => m,
    }
}

/// Adds a string member after the others, where there is one.
pub fn put_some(m: &mut Vec<(String, Json)>, key: &str, value: &Option<String>)
    ensures
        members(final(m)@) == with_some(members(old(m)@), key@, value.deep_view()),
{
    match value {
        Some(s) => put_text(m, key, s.as_str()),
        None => {},
    }
}

/// An array of strings.
pub open spec fn texts(v: Seq<Seq<char>>) -> JsonView {
    JsonView::Array(Seq::new(v.len(), |i: int| JsonView::Text(v[i])))
}

/// An array of strings.
pub fn text_array(v: &Vec<String>) -> (r: Json)
    ensures
        r.deep_view() == texts(v.deep_view()),
{
    let mut out: Vec<Json> = Vec::new();
    let mut i: usize = 0;
    while i < v.len()
        invariant
            i <= v.len(),
            out.len() == i,
            forall|k: int|
                0 <= k < i ==> (#[trigger] out@[k]).deep_view() == JsonView::Text(v@[k]@),
        decreases v.len() - i,
    {
        out.push(Json::text(v[i].as_str()));
        i += 1;
    }
    assert(out.deep_view() =~= texts(v.deep_view())->Array_0);
    array(out)
}

/// An integer, or null.
pub open spec fn int_or_null(n: Option<i64>) -> JsonView {
    match n {
        Some(x) => JsonView::Int(x),
        None => JsonView::Null,
    }
}

/// An integer, or null.
pub fn opt_int(n: Option<i64>) -> (r: Json)
    ensures
        r.deep_view() == int_or_null(n),
{
    match n {
        Some(x) => Json::Int(x),
        None => Json::Null,
    }
}

/// An array of these items.
pub fn array(v: Vec<Json>) -> (r: Json)
    ensures
        r.deep_view() == JsonView::Array(v.deep_view()),
{
    let r = Json::Array(v);
    assert(r.model()->Array_0 =~= v.deep_view());
    r
}

/// A string value, or null.
pub open spec fn text_or_null(s: Option<Seq<char>>) -> JsonView {
    match s {
        Some(t) => JsonView::Text(t),
        None => JsonView::Null,
    }
}

/// A string value, or null.
pub fn opt_text(s: Option<String>) -> (r: Json)
    ensures
        r.deep_view() == text_or_null(s.deep_view()),
{
    match s {
        Some(t) => Json::Text(t),
        None => Json::Null,
    }
}

// ---- tolerant reading of list responses ---------------------------------------------------------

/// Text that holds something.
pub open spec fn filled_text(v: Option<JsonView>) -> Option<Seq<char>> {
    match v {
        Some(JsonView::Text(s)) => if s.len() > 0 {
            Some(s)
        } else {
            None
        },
        _ => None,
    }
}

/// A field of the record, or of its `meta` object.
pub open spec fn field_of(item: JsonView, key: Seq<char>) -> Option<Seq<char>> {
    match filled_text(item.get(key)) {
        Some(s) => Some(s),
        None => match item.get("meta"@) {
            Some(meta) => filled_text(meta.get(key)),
            None => None,
        },
    }
}

/// The first of the fields that holds something.
pub open spec fn first_field(item: JsonView, keys: Seq<Seq<char>>) -> Option<Seq<char>>
    decreases keys.len(),
{
    if keys.len() == 0 {
        None
    } else {
        match field_of(item, keys[0]) {
            Some(s) => Some(s),
            None => first_field(item, keys.skip(1)),
        }
    }
}

/// The texts of a list of names.
pub open spec fn names(keys: Seq<&'static str>) -> Seq<Seq<char>> {
    Seq::new(keys.len(), |i: int| keys[i]@)
}

fn filled_str(v: Option<&Json>) -> (r: Option<String>)
    ensures
        r.deep_view() == filled_text(v.deep_view()),
{
    match v {
        Some(Json::Text(s)) => {
            if s.as_str().is_empty() {
                None
            } else {
                Some(s.clone())
            }
        },
        _ => None,
    }
}

/// First non-empty string among `keys`, also checking a nested `meta` object.
pub fn str_field(item: &Json, keys: &[&'static str]) -> (r: Option<String>)
    ensures
        r.deep_view() == first_field(item.deep_view(), names(keys@)),
{
    let ghost all = names(keys@);
    let mut i: usize = 0;
    assert(all.skip(0) =~= all);
    while i < keys.len()
        invariant
            all == names(keys@),
            i <= keys@.len(),
            first_field(item.deep_view(), all) == first_field(
                item.deep_view(),
                all.skip(i as int),
            ),
        decreases keys.len() - i,
    {
        let ghost rest = all.skip(i as int);
        assert(rest.skip(1) =~= all.skip(i + 1));
        let own = filled_str(item.get(keys[i]));
        match own {
            Some(s) => {
                return Some(s);
            },
            None => {},
        }
        match item.get("meta") {
            Some(meta) => {
                let nested = filled_str(meta.get(keys[i]));
                match nested {
                    Some(s) => {
                        return Some(s);
                    },
                    None => {},
                }
            },
            None => {},
        }
        i += 1;
    }
    None
}

/// The first of the members that is an array, else the value itself where it is one, else
/// nothing.
pub open spec fn list_items(v: JsonView, keys: Seq<Seq<char>>) -> Seq<JsonView>
    decreases keys.len(),
{
    if keys.len() == 0 {
        match v.as_array() {
            Some(items) => items,
            None => Seq::empty(),
        }
    } else {
        match v.get(keys[0]) {
            Some(JsonView::Array(items)) => items,
            _ => list_items(v, keys.skip(1)),
        }
    }
}

/// Copies the items of an array.
fn copy_items(v: &Vec<Json>) -> (out: Vec<Json>)
    ensures
        out.deep_view() == v.deep_view(),
{
    let mut out: Vec<Json> = Vec::new();
    let mut i: usize = 0;
    while i < v.len()
        invariant
            i <= v.len(),
            out.len() == i,
            forall|k: int| 0 <= k < i ==> (#[trigger] out@[k]).deep_view() == v@[k].deep_view(),
        decreases v.len() - i,
    {
        out.push(v[i].clone());
        i += 1;
    }
    out
}

/// Pulls the result array out of a list response: the first of the members that is an array,
/// or the bare array.
pub fn items_under(v: &Json, keys: &[&'static str]) -> (out: Vec<Json>)
    ensures
        out.deep_view() == list_items(v.deep_view(), names(keys@)),
{
    let ghost all = names(keys@);
    let mut i: usize = 0;
    assert(all.skip(0) =~= all);
    while i < keys.len()
        invariant
            all == names(keys@),
            i <= keys@.len(),
            list_items(v.deep_view(), all) == list_items(v.deep_view(), all.skip(i as int)),
        decreases keys.len() - i,
    {
        let ghost rest = all.skip(i as int);
        assert(rest.skip(1) =~= all.skip(i + 1));
        match v.get(keys[i]) {
            Some(member) => match member {
                Json::Array(items) => {
                    return copy_items(items);
                },
                _ => {},
            },
            None => {},
        }
        i += 1;
    }
    match v {
        Json::Array(items) => {
            copy_items(items)
        },
        _ => {
            let out: Vec<Json> = Vec::new();
            out
        },
    }
}

} // verus!
