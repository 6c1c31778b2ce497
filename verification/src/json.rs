//! JSON values as the server and the client read and build them.

use vstd::prelude::*;

use crate::text::same;

verus! {

/// `serde_json::Number`, carried through as it is.
#[verifier::external_type_specification]
#[verifier::external_body]
pub struct ExNumber(serde_json::Number);

/// A JSON value.
#[derive(Debug)]
pub enum Json {
    Null,
    Bool(bool),
    Number(serde_json::Number),
    Text(String),
    Array(Vec<Json>),
    /// The members of an object. Of two members with one key the later counts.
    Object(Vec<(String, Json)>),
}

/// What a JSON value says.
pub enum JsonView {
    Null,
    Bool(bool),
    Number(serde_json::Number),
    Text(Seq<char>),
    Array(Seq<JsonView>),
    Object(Map<Seq<char>, JsonView>),
}

/// What the members of an object say.
pub open spec fn members_view(members: Seq<(String, Json)>, n: nat) -> Map<Seq<char>, JsonView>
    decreases members, n,
{
    if n == 0 || n > members.len() {
        Map::empty()
    } else {
        members_view(members, (n - 1) as nat).insert(
            members[n - 1].0@,
            json_view(members[n - 1].1),
        )
    }
}

/// What a value says.
pub open spec fn json_view(value: Json) -> JsonView
    decreases value, 0nat,
{
    match value {
        Json::Null => JsonView::Null,
        Json::Bool(b) => JsonView::Bool(b),
        Json::Number(n) => JsonView::Number(n),
        Json::Text(s) => JsonView::Text(s@),
        Json::Array(items) => JsonView::Array(
            Seq::new(
                items@.len(),
                |i: int|
                    if 0 <= i < items@.len() {
                        json_view(items@[i])
                    } else {
                        JsonView::Null
                    },
            ),
        ),
        Json::Object(members) => JsonView::Object(members_view(members@, members@.len())),
    }
}

impl View for Json {
    type V = JsonView;

    open spec fn view(&self) -> JsonView {
        json_view(*self)
    }
}

impl DeepView for Json {
    type V = JsonView;

    open spec fn deep_view(&self) -> JsonView {
        self@
    }
}

/// The number that `serde_json` makes of an integer.
pub uninterp spec fn integer_number(n: int) -> serde_json::Number;

/// `serde_json::Number::from`, of a `u64`: the number that stands for it.
#[verifier::external_body]
fn number_from_u64(n: u64) -> (r: serde_json::Number)
    ensures
        r == integer_number(n as int),
{
    serde_json::Number::from(n)
}

/// `serde_json::Number::from`, of an `i64`: the number that stands for it. An
/// integer that both types hold is one number, whichever it was made from.
#[verifier::external_body]
fn number_from_i64(n: i64) -> (r: serde_json::Number)
    ensures
        r == integer_number(n as int),
{
    serde_json::Number::from(n)
}

/// `serde_json::Number::clone`: the same number.
#[verifier::external_body]
pub(crate) fn number_clone(number: &serde_json::Number) -> (r: serde_json::Number)
    ensures
        r == *number,
{
    number.clone()
}

/// `serde_json::Number::as_u64`: the integer that the number stands for, where it
/// stands for one that is not negative; nothing for any other number.
#[verifier::external_body]
fn number_as_u64(number: &serde_json::Number) -> (r: Option<u64>)
    ensures
        r matches Some(n) ==> *number == integer_number(n as int),
        forall|n: u64| *number == #[trigger] integer_number(n as int) ==> r == Some(n),
{
    number.as_u64()
}

/// Members that say the same, key by key and value by value, say the same together.
proof fn lemma_members_equal(a: Seq<(String, Json)>, b: Seq<(String, Json)>, n: nat)
    requires
        n <= a.len(),
        n <= b.len(),
        forall|i: int| 0 <= i < n ==> (#[trigger] a[i]).0@ == b[i].0@,
        forall|i: int| 0 <= i < n ==> json_view((#[trigger] a[i]).1) == json_view(b[i].1),
    ensures
        members_view(a, n) == members_view(b, n),
    decreases n,
{
    if n > 0 {
        lemma_members_equal(a, b, (n - 1) as nat);
    }
}

/// The member that a key names, if the value is an object that has one.
pub open spec fn member(value: JsonView, key: Seq<char>) -> Option<JsonView> {
    match value {
        JsonView::Object(members) => if members.contains_key(key) {
            Some(members[key])
        } else {
            None
        },
        _ => None,
    }
}

/// The text that a value is, if it is one.
pub open spec fn text_value(value: Option<JsonView>) -> Option<Seq<char>> {
    match value {
        Some(JsonView::Text(s)) => Some(s),
        _ => None,
    }
}

/// Whether a value is the given integer.
pub open spec fn is_unsigned(value: JsonView, n: u64) -> bool {
    value == JsonView::Number(integer_number(n as int))
}

/// The integer that a value is, if it is one from 0 to `u64::MAX`.
pub open spec fn unsigned_value(value: Option<JsonView>) -> Option<u64> {
    match value {
        Some(v) => if exists|n: u64| is_unsigned(v, n) {
            Some(choose|n: u64| is_unsigned(v, n))
        } else {
            None
        },
        None => None,
    }
}

/// A JSON text.
pub open spec fn text_json(s: Seq<char>) -> JsonView {
    JsonView::Text(s)
}

/// A JSON integer.
pub open spec fn integer_json(n: int) -> JsonView {
    JsonView::Number(integer_number(n))
}

impl Json {
    /// A JSON text.
    pub fn text(s: &str) -> (r: Json)
        ensures
            r@ == text_json(s@),
    {
        Json::Text(s.to_owned())
    }

    /// A JSON text, or `null` for none.
    pub fn optional_text(s: &Option<String>) -> (r: Json)
        ensures
            r@ == (match *s {
                Some(t) => text_json(t@),
                None => JsonView::Null,
            }),
    {
        match s {
            Some(t) => Json::Text(t.clone()),
            None => Json::Null,
        }
    }

    /// A JSON integer that is not negative.
    pub fn unsigned(n: u64) -> (r: Json)
        ensures
            r@ == integer_json(n as int),
            unsigned_value(Some(r@)) == Some(n),
    {
        let number = number_from_u64(n);
        // Read back, the number tells that it stands for no other integer.
        let read: Option<u64> = number_as_u64(&number);
        proof {
            assert(read == Some(n));
            assert(is_unsigned(integer_json(n as int), n));
        }
        Json::Number(number)
    }

    /// A JSON integer.
    pub fn signed(n: i64) -> (r: Json)
        ensures
            r@ == integer_json(n as int),
    {
        Json::Number(number_from_i64(n))
    }

    /// An object without members.
    pub fn object() -> (r: Json)
        ensures
            r is Object,
            r@ == JsonView::Object(Map::empty()),
    {
        let members: Vec<(String, Json)> = Vec::new();
        assert(members_view(members@, 0) == Map::<Seq<char>, JsonView>::empty());
        Json::Object(members)
    }

    /// The object with one more member, or with another value for its key.
    pub fn with(self, key: &str, value: Json) -> (r: Json)
        requires
            self is Object,
        ensures
            r is Object,
            r@ == JsonView::Object(self@->Object_0.insert(key@, value@)),
    {
        match self {
            Json::Object(members) => {
                let mut members = members;
                let ghost before = members@;
                let name = key.to_owned();
                members.push((name, value));
                proof {
                    lemma_members_equal(before, members@, before.len());
                    assert(self@ == JsonView::Object(members_view(before, before.len())));
                    assert(members_view(members@, members@.len()) == members_view(
                        before,
                        before.len(),
                    ).insert(key@, value@));
                }
                Json::Object(members)
            },
            other => other,
        }
    }

    /// A list of values.
    pub fn array(items: Vec<Json>) -> (r: Json)
        ensures
            r is Array,
            r@ == JsonView::Array(items@.map_values(|item: Json| item@)),
    {
        let r = Json::Array(items);
        assert(r@->Array_0 == items@.map_values(|item: Json| item@));
        r
    }

    /// The member that a key names, if this is an object that has one.
    pub fn get(&self, key: &str) -> (r: Option<&Json>)
        ensures
            match r {
                Some(value) => member(self@, key@) == Some(value@),
                None => member(self@, key@) is None,
            },
    {
        match self {
            Json::Object(members) => {
                let mut i: usize = members.len();
                while i > 0
                    invariant
                        i <= members.len(),
                        self@ == JsonView::Object(members_view(members@, members@.len())),
                        members_view(members@, members@.len()).contains_key(key@)
                            == members_view(members@, i as nat).contains_key(key@),
                        members_view(members@, i as nat).contains_key(key@)
                            ==> members_view(members@, members@.len())[key@] == members_view(
                            members@,
                            i as nat,
                        )[key@],
                    decreases i,
                {
                    i = i - 1;
                    if same(members[i].0.as_str(), key) {
                        return Some(&members[i].1);
                    }
                }
                None
            },
            _ => None,
        }
    }

    /// The text that this is, if it is one.
    pub fn as_str(&self) -> (r: Option<&str>)
        ensures
            match r {
                Some(s) => self@ == text_json(s@),
                None => !(self@ is Text),
            },
    {
        match self {
            Json::Text(s) => Some(s.as_str()),
            _ => None,
        }
    }

    /// The truth value that this is, if it is one.
    pub fn as_bool(&self) -> (r: Option<bool>)
        ensures
            match r {
                Some(b) => self@ == JsonView::Bool(b),
                None => !(self@ is Bool),
            },
    {
        match self {
            Json::Bool(b) => Some(*b),
            _ => None,
        }
    }

    /// The integer that this is, if it is one and not negative.
    pub fn as_u64(&self) -> (r: Option<u64>)
        ensures
            r == unsigned_value(Some(self@)),
    {
        match self {
            Json::Number(n) => {
                let r = number_as_u64(n);
                proof {
                    if let Some(k) = r {
                        assert(is_unsigned(self@, k));
                    }
                }
                r
            },
            _ => None,
        }
    }

    /// A copy of this value.
    pub fn duplicate(&self) -> (r: Json)
        ensures
            r@ == self@,
        decreases self,
    {
        match self {
            Json::Null => Json::Null,
            Json::Bool(b) => Json::Bool(*b),
            Json::Number(n) => Json::Number(number_clone(n)),
            Json::Text(s) => Json::Text(s.clone()),
            Json::Array(items) => {
                let mut copies: Vec<Json> = Vec::new();
                let mut i: usize = 0;
                while i < items.len()
                    invariant
                        i <= items.len(),
                        copies.len() == i,
                        decreases_to!(self => items@),
                        forall|k: int|
                            0 <= k < i ==> json_view(#[trigger] copies@[k]) == json_view(items@[k]),
                    decreases items.len() - i,
                {
                    copies.push(items[i].duplicate());
                    i = i + 1;
                }
                let r = Json::Array(copies);
                assert(r@->Array_0 == self@->Array_0);
                r
            },
            Json::Object(members) => {
                let mut copies: Vec<(String, Json)> = Vec::new();
                let mut i: usize = 0;
                while i < members.len()
                    invariant
                        i <= members.len(),
                        copies.len() == i,
                        decreases_to!(self => members@),
                        forall|k: int| 0 <= k < i ==> (#[trigger] copies@[k]).0@ == members@[k].0@,
                        forall|k: int|
                            0 <= k < i ==> json_view((#[trigger] copies@[k]).1) == json_view(
                                members@[k].1,
                            ),
                    decreases members.len() - i,
                {
                    copies.push((members[i].0.clone(), members[i].1.duplicate()));
                    i = i + 1;
                }
                proof {
                    lemma_members_equal(copies@, members@, copies@.len());
                }
                Json::Object(copies)
            },
        }
    }

    /// The items of this, if it is a list.
    pub fn as_array(&self) -> (r: Option<&Vec<Json>>)
        ensures
            match r {
                Some(items) => self@ == JsonView::Array(items@.map_values(|item: Json| item@)),
                None => !(self@ is Array),
            },
    {
        match self {
            Json::Array(items) => {
                assert(self@->Array_0 == items@.map_values(|item: Json| item@));
                Some(items)
            },
            _ => None,
        }
    }
}

/// Of the members with one key, the last counts.
proof fn lemma_last_member_counts(members: Seq<(String, Json)>, i: int, n: nat)
    requires
        0 <= i < n <= members.len(),
        forall|j: int| i < j < n ==> (#[trigger] members[j]).0@ != members[i].0@,
    ensures
        members_view(members, n).contains_key(members[i].0@),
        members_view(members, n)[members[i].0@] == json_view(members[i].1),
    decreases n,
{
    if i < n - 1 {
        lemma_last_member_counts(members, i, (n - 1) as nat);
        assert(members[n - 1].0@ != members[i].0@);
    }
}

/// A key that no member has names none.
proof fn lemma_no_such_member(members: Seq<(String, Json)>, key: Seq<char>, n: nat)
    requires
        n <= members.len(),
        forall|j: int| 0 <= j < n ==> (#[trigger] members[j]).0@ != key,
    ensures
        !members_view(members, n).contains_key(key),
    decreases n,
{
    if n > 0 {
        lemma_no_such_member(members, key, (n - 1) as nat);
        assert(members[n - 1].0@ != key);
    }
}

/// A key names the value that stands with it in the object, the last one if there are more,
/// and nothing where no member has the key.
pub proof fn members_are_found_by_their_keys(members: Vec<(String, Json)>, i: int, key: Seq<char>)
    ensures
        0 <= i < members@.len() && members@[i].0@ == key && (forall|j: int|
            i < j < members@.len() ==> (#[trigger] members@[j]).0@ != key) ==> member(
            Json::Object(members)@,
            key,
        ) == Some(members@[i].1@),
        (forall|j: int| 0 <= j < members@.len() ==> (#[trigger] members@[j]).0@ != key) ==> member(
            Json::Object(members)@,
            key,
        ) is None,
{
    if 0 <= i < members@.len() && members@[i].0@ == key && (forall|j: int|
        i < j < members@.len() ==> (#[trigger] members@[j]).0@ != key) {
        lemma_last_member_counts(members@, i, members@.len());
    }
    if forall|j: int| 0 <= j < members@.len() ==> (#[trigger] members@[j]).0@ != key {
        lemma_no_such_member(members@, key, members@.len());
    }
}

/// A value says what it holds: a text its characters, a list each of its items in their
/// order, an integer the number that stands for it. What is no object has no members, and
/// what is no text is read as none.
pub proof fn values_say_what_they_hold(
    b: bool,
    text: String,
    items: Vec<Json>,
    key: Seq<char>,
    n: int,
    value: JsonView,
)
    ensures
        Json::Null@ == JsonView::Null,
        Json::Bool(b)@ == JsonView::Bool(b),
        Json::Text(text)@ == JsonView::Text(text@),
        Json::Array(items)@ matches JsonView::Array(said) && said.len() == items@.len() && forall|
            i: int,
        |
            0 <= i < said.len() ==> #[trigger] said[i] == items@[i]@,
        !(value is Object) ==> member(value, key) is None,
        text_json(text@) == JsonView::Text(text@),
        text_value(Some(JsonView::Text(text@))) == Some(text@),
        !(value is Text) ==> text_value(Some(value)) is None,
        text_value(None) is None,
        integer_json(n) == JsonView::Number(integer_number(n)),
{
}

} // verus!
