//! A JSON value as the library's logic reads and builds it. The HTTP, LLM and MCP
//! edges convert between this type and the wire format.

use vstd::prelude::*;

verus! {

/// A JSON value. Object members keep their order; integers are held as
/// such, other numbers as the decimal text they were written with.
#[derive(Debug)]
pub enum JsonValue {
    Null,
    Bool(bool),
    Number(i64),
    Decimal(String),
    Str(String),
    Array(Vec<JsonValue>),
    Object(Vec<(String, JsonValue)>),
}

/// Mathematical value of a JSON value.
pub enum JsonView {
    Null,
    Bool(bool),
    Number(int),
    Decimal(Seq<char>),
    Str(Seq<char>),
    Array(Seq<JsonView>),
    Object(Seq<(Seq<char>, JsonView)>),
}

/// The value of a JSON value.
pub open spec fn json_view(x: JsonValue) -> JsonView
    decreases x,
{
    match x {
        JsonValue::Null => JsonView::Null,
        JsonValue::Bool(b) => JsonView::Bool(b),
        JsonValue::Number(n) => JsonView::Number(n as int),
        JsonValue::Decimal(d) => JsonView::Decimal(d@),
        JsonValue::Str(s) => JsonView::Str(s@),
        JsonValue::Array(v) => JsonView::Array(json_seq_view(v@)),
        JsonValue::Object(e) => JsonView::Object(json_members_view(e@)),
    }
}

/// The values of a list of JSON values.
pub open spec fn json_seq_view(s: Seq<JsonValue>) -> Seq<JsonView>
    decreases s,
{
    if s.len() == 0 {
        Seq::empty()
    } else {
        json_seq_view(s.subrange(0, s.len() - 1)).push(json_view(s[s.len() - 1]))
    }
}

/// The values of a list of object members.
pub open spec fn json_members_view(s: Seq<(String, JsonValue)>) -> Seq<(Seq<char>, JsonView)>
    decreases s,
{
    if s.len() == 0 {
        Seq::empty()
    } else {
        json_members_view(s.subrange(0, s.len() - 1)).push(
            (s[s.len() - 1].0@, json_view(s[s.len() - 1].1)),
        )
    }
}

impl View for JsonValue {
    type V = JsonView;

    open spec fn view(&self) -> JsonView {
        json_view(*self)
    }
}

/// The value of each element of a list of JSON values, by position.
pub proof fn lemma_json_seq_view(s: Seq<JsonValue>)
    ensures
        json_seq_view(s).len() == s.len(),
        forall|i: int| 0 <= i < s.len() ==> #[trigger] json_seq_view(s)[i] == json_view(s[i]),
    decreases s.len(),
{
    if s.len() > 0 {
        lemma_json_seq_view(s.subrange(0, s.len() - 1));
    }
}

/// The value of each member of an object, by position.
pub proof fn lemma_json_members_view(s: Seq<(String, JsonValue)>)
    ensures
        json_members_view(s).len() == s.len(),
        forall|i: int| 0 <= i < s.len() ==> #[trigger] json_members_view(s)[i] == (s[i].0@, json_view(s[i].1)),
    decreases s.len(),
{
    if s.len() > 0 {
        lemma_json_members_view(s.subrange(0, s.len() - 1));
    }
}

/// Two lists with equal values, by position, have equal list values.
pub proof fn lemma_json_seq_view_ext(a: Seq<JsonValue>, b: Seq<JsonView>)
    requires
        a.len() == b.len(),
        forall|i: int| 0 <= i < a.len() ==> json_view(#[trigger] a[i]) == b[i],
    ensures
        json_seq_view(a) == b,
{
    lemma_json_seq_view(a);
    assert(json_seq_view(a) =~= b);
}

/// Two member lists with equal values, by position, have equal member values.
pub proof fn lemma_json_members_view_ext(a: Seq<(String, JsonValue)>, b: Seq<(Seq<char>, JsonView)>)
    requires
        a.len() == b.len(),
        forall|i: int| 0 <= i < a.len() ==> (#[trigger] a[i]).0@ == b[i].0 && json_view(a[i].1) == b[i].1,
    ensures
        json_members_view(a) == b,
{
    lemma_json_members_view(a);
    assert(json_members_view(a) =~= b);
}

/// The value of the first member named `key`, if any.
pub open spec fn member_lookup(ms: Seq<(Seq<char>, JsonView)>, key: Seq<char>) -> Option<JsonView>
    decreases ms.len(),
{
    if ms.len() == 0 {
        None
    } else if ms[0].0 == key {
        Some(ms[0].1)
    } else {
        member_lookup(ms.subrange(1, ms.len() as int), key)
    }
}

/// `v.get(key)`: the member `key` of an object; `None` for other values.
pub open spec fn json_get(v: JsonView, key: Seq<char>) -> Option<JsonView> {
    match v {
        JsonView::Object(ms) => member_lookup(ms, key),
        _ => None,
    }
}

/// `v[key].as_str()`: the member `key` when it is a string.
pub open spec fn json_field_str(v: JsonView, key: Seq<char>) -> Option<Seq<char>> {
    match json_get(v, key) {
        Some(JsonView::Str(s)) => Some(s),
        _ => None,
    }
}

/// `v[key].as_bool()`: the member `key` when it is a boolean.
pub open spec fn json_field_bool(v: JsonView, key: Seq<char>) -> Option<bool> {
    match json_get(v, key) {
        Some(JsonView::Bool(b)) => Some(b),
        _ => None,
    }
}

/// The first member lookup finds the first position holding the key.
proof fn lemma_member_lookup_at(ms: Seq<(Seq<char>, JsonView)>, key: Seq<char>, i: int)
    requires
        0 <= i <= ms.len(),
        forall|j: int| 0 <= j < i ==> ms[j].0 != key,
    ensures
        i < ms.len() && ms[i].0 == key ==> member_lookup(ms, key) == Some(ms[i].1),
        i == ms.len() ==> member_lookup(ms, key) is None,
    decreases i,
{
    if i > 0 {
        let t = ms.subrange(1, ms.len() as int);
        assert forall|j: int| 0 <= j < i - 1 implies t[j].0 != key by {
            assert(t[j] == ms[j + 1]);
        }
        assert(ms[0].0 != key);
        lemma_member_lookup_at(t, key, i - 1);
        if i < ms.len() {
            assert(t[i - 1] == ms[i]);
        }
    }
}

impl JsonValue {
    /// The member `key` of an object (`None` for other values or a missing key).
    #[verifier::loop_isolation(false)]
    pub fn get(&self, key: &str) -> (r: Option<&JsonValue>)
        ensures
            r matches Some(v) ==> json_get(self@, key@) == Some(v@),
            r is None ==> json_get(self@, key@) is None,
    {
        match self {
            JsonValue::Object(members) => {
                proof {
                    lemma_json_members_view(members@);
                }
                let ghost ms = json_members_view(members@);
                assert(self@ == JsonView::Object(ms));
                let mut i: usize = 0;
                while i < members.len()
                    invariant
                        i <= members@.len(),
                        ms == json_members_view(members@),
                        ms.len() == members@.len(),
                        forall|j: int| 0 <= j < members@.len() ==> #[trigger] ms[j] == (members@[j].0@, json_view(members@[j].1)),
                        forall|j: int| 0 <= j < i ==> ms[j].0 != key@,
                    decreases members.len() - i,
                {
                    if crate::text::str_equal(members[i].0.as_str(), key) {
                        proof {
                            assert(ms[i as int].0 == key@);
                            lemma_member_lookup_at(ms, key@, i as int);
                            assert(member_lookup(ms, key@) == Some(json_view(members@[i as int].1)));
                            assert(json_get(self@, key@) == Some(json_view(members@[i as int].1)));
                        }
                        let r = &members[i].1;
                        assert(r@ == json_view(members@[i as int].1));
                        return Some(r);
                    }
                    i = i + 1;
                }
                proof {
                    lemma_member_lookup_at(ms, key@, i as int);
                }
                None
            },
            _ => None,
        }
    }

    /// The text of a string value.
    pub fn as_str(&self) -> (r: Option<&str>)
        ensures
            r matches Some(s) ==> self@ == JsonView::Str(s@),
            r is None ==> !(self@ is Str),
    {
        match self {
            JsonValue::Str(s) => Some(s.as_str()),
            _ => None,
        }
    }

    /// Whether the value is an object.
    pub fn is_object(&self) -> (b: bool)
        ensures
            b == (self@ is Object),
    {
        match self {
            JsonValue::Object(_) => true,
            _ => false,
        }
    }

    /// `self[key].as_str()`, copied.
    pub fn field_str(&self, key: &str) -> (r: Option<String>)
        ensures
            r matches Some(s) ==> json_field_str(self@, key@) == Some(s@),
            r is None ==> json_field_str(self@, key@) is None,
    {
        match self.get(key) {
            Some(v) => match v {
                JsonValue::Str(s) => Some(s.clone()),
                _ => None,
            },
            None => None,
        }
    }

    /// `self[key].as_bool()`.
    pub fn field_bool(&self, key: &str) -> (r: Option<bool>)
        ensures
            r == json_field_bool(self@, key@),
    {
        match self.get(key) {
            Some(v) => match v {
                JsonValue::Bool(b) => Some(*b),
                _ => None,
            },
            None => None,
        }
    }

    /// A string value holding `s`.
    pub fn from_str_slice(s: &str) -> (v: JsonValue)
        ensures
            v@ == JsonView::Str(s@),
    {
        JsonValue::Str(s.to_string())
    }

    /// A deep copy with the same value.
    #[verifier::loop_isolation(false)]
    pub fn duplicate(&self) -> (r: JsonValue)
        ensures
            r@ == self@,
        decreases self,
    {
        match self {
            JsonValue::Null => JsonValue::Null,
            JsonValue::Bool(b) => JsonValue::Bool(*b),
            JsonValue::Number(n) => JsonValue::Number(*n),
            JsonValue::Decimal(d) => JsonValue::Decimal(d.clone()),
            JsonValue::Str(s) => JsonValue::Str(s.clone()),
            JsonValue::Array(items) => {
                let mut out: Vec<JsonValue> = Vec::new();
                let mut i: usize = 0;
                while i < items.len()
                    invariant
                        i <= items@.len(),
                        out@.len() == i,
                        forall|j: int| 0 <= j < i ==> json_view(#[trigger] out@[j]) == json_view(items@[j]),
                    decreases items.len() - i,
                {
                    assert(decreases_to!(*items => items@));
                    assert(decreases_to!(items@ => items@[i as int]));
                    assert(decreases_to!(*self => items@[i as int]));
                    out.push(items[i].duplicate());
                    i = i + 1;
                }
                proof {
                    lemma_json_seq_view(items@);
                    lemma_json_seq_view_ext(out@, json_seq_view(items@));
                }
                JsonValue::Array(out)
            },
            JsonValue::Object(members) => {
                let mut out: Vec<(String, JsonValue)> = Vec::new();
                let mut i: usize = 0;
                while i < members.len()
                    invariant
                        i <= members@.len(),
                        out@.len() == i,
                        forall|j: int| 0 <= j < i ==> (#[trigger] out@[j]).0@ == members@[j].0@ && json_view(out@[j].1) == json_view(members@[j].1),
                    decreases members.len() - i,
                {
                    assert(decreases_to!(*members => members@));
                    assert(decreases_to!(members@ => members@[i as int]));
                    assert(decreases_to!(members@[i as int] => members@[i as int].1));
                    assert(decreases_to!(*self => members@[i as int].1));
                    let v = members[i].1.duplicate();
                    out.push((members[i].0.clone(), v));
                    i = i + 1;
                }
                proof {
                    lemma_json_members_view(members@);
                    lemma_json_members_view_ext(out@, json_members_view(members@));
                }
                JsonValue::Object(out)
            },
        }
    }
}

/// A string, or null.
pub open spec fn opt_str_json(o: Option<Seq<char>>) -> JsonView {
    match o {
        Some(s) => JsonView::Str(s),
        None => JsonView::Null,
    }
}

/// An array of strings.
pub open spec fn str_array_json(v: Seq<Seq<char>>) -> JsonView {
    JsonView::Array(v.map_values(|s: Seq<char>| JsonView::Str(s)))
}

/// A string value, or null when there is none.
pub fn opt_string_value(o: &Option<String>) -> (v: JsonValue)
    ensures
        v@ == opt_str_json(match o { Some(s) => Some(s@), None => None }),
{
    match o {
        Some(s) => JsonValue::Str(s.clone()),
        None => JsonValue::Null,
    }
}

/// An array of string values.
pub fn string_array_value(v: &Vec<String>) -> (a: JsonValue)
    ensures
        a@ == str_array_json(v@.map_values(|s: String| s@)),
{
    let mut items: Vec<JsonValue> = Vec::new();
    let mut i: usize = 0;
    while i < v.len()
        invariant
            i <= v@.len(),
            items@.len() == i,
            forall|j: int| 0 <= j < i ==> json_view(#[trigger] items@[j]) == JsonView::Str(v@[j]@),
        decreases v.len() - i,
    {
        items.push(JsonValue::Str(v[i].clone()));
        i = i + 1;
    }
    proof {
        lemma_json_seq_view_ext(items@, v@.map_values(|s: String| s@).map_values(|s: Seq<char>| JsonView::Str(s)));
    }
    JsonValue::Array(items)
}

} // verus!
