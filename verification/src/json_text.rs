//! JSON values as text, written by `serde_json`.

use vstd::prelude::*;

use crate::json::{integer_number, json_view, members_view, number_clone, Json, JsonView};

verus! {

/// `serde_json::Value`, as `serde_json` prints it.
#[verifier::external_type_specification]
#[verifier::external_body]
pub struct ExValue(serde_json::Value);

/// `serde_json::Error`.
#[verifier::external_type_specification]
#[verifier::external_body]
pub struct ExJsonError(serde_json::Error);

/// `serde_json::Map`, the members of an object.
#[verifier::external_type_specification]
#[verifier::external_body]
#[verifier::reject_recursive_types(K)]
#[verifier::reject_recursive_types(V)]
pub struct ExJsonMap<K, V>(serde_json::Map<K, V>);

/// The members that a `serde_json::Map` holds.
pub uninterp spec fn held_members(map: serde_json::Map<String, serde_json::Value>) -> Map<
    Seq<char>,
    JsonView,
>;

/// What a `serde_json::Value` holds.
pub uninterp spec fn held(value: serde_json::Value) -> JsonView;

/// The text of a JSON value without white space between its parts.
pub uninterp spec fn compact_json(value: JsonView) -> Seq<char>;

/// The indented text of a JSON value, or nothing where `serde_json` refuses to write it.
pub uninterp spec fn pretty_json(value: JsonView) -> Option<Seq<char>>;

/// What `serde_json::from_str` reads a text as, or the message of its error.
pub uninterp spec fn parsed_json(text: Seq<char>) -> Result<JsonView, Seq<char>>;

/// Whether a text is read as the given value.
pub open spec fn reads_as(text: Seq<char>, value: JsonView) -> bool {
    parsed_json(text) == Ok::<JsonView, Seq<char>>(value)
}

/// How many arrays and objects may be nested in a text that is read.
pub const NESTING_LIMIT: u8 = 127;

/// Whether a number is an integer that `i64` or `u64` holds.
pub open spec fn is_integer(number: serde_json::Number) -> bool {
    exists|n: int| i64::MIN <= n <= u64::MAX && number == #[trigger] integer_number(n)
}

/// Whether the numbers in a value are integers, and no more than so many arrays and
/// objects are nested in it.
pub open spec fn plain(value: JsonView, levels: nat) -> bool
    decreases levels,
{
    match value {
        JsonView::Number(n) => is_integer(n),
        JsonView::Array(items) => levels > 0 && forall|i: int|
            0 <= i < items.len() ==> plain(#[trigger] items[i], (levels - 1) as nat),
        JsonView::Object(members) => levels > 0 && forall|key: Seq<char>|
            members.contains_key(key) ==> plain(#[trigger] members[key], (levels - 1) as nat),
        _ => true,
    }
}

/// Whether a value comes back from its text. Fractions may be rounded, and deep nesting
/// is refused.
pub open spec fn comes_back(value: JsonView) -> bool {
    plain(value, NESTING_LIMIT as nat)
}

/// `serde_json::Value::Null`.
#[verifier::external_body]
fn null_value() -> (r: serde_json::Value)
    ensures
        held(r) == JsonView::Null,
{
    serde_json::Value::Null
}

/// `serde_json::Value::Bool`: holds the truth value.
#[verifier::external_body]
fn bool_value(b: bool) -> (r: serde_json::Value)
    ensures
        held(r) == JsonView::Bool(b),
{
    serde_json::Value::Bool(b)
}

/// `serde_json::Value::Number`: holds the number.
#[verifier::external_body]
fn number_value(n: serde_json::Number) -> (r: serde_json::Value)
    ensures
        held(r) == JsonView::Number(n),
{
    serde_json::Value::Number(n)
}

/// `serde_json::Value::String`: holds the text.
#[verifier::external_body]
fn text_value(s: String) -> (r: serde_json::Value)
    ensures
        held(r) == JsonView::Text(s@),
{
    serde_json::Value::String(s)
}

/// `serde_json::Value::Array`: holds the values, in their order.
#[verifier::external_body]
fn array_value(items: Vec<serde_json::Value>) -> (r: serde_json::Value)
    ensures
        held(r) == JsonView::Array(items@.map_values(|item: serde_json::Value| held(item))),
{
    serde_json::Value::Array(items)
}

/// An object without members.
pub open spec fn no_members() -> Map<Seq<char>, JsonView> {
    Map::empty()
}

/// `serde_json::Map::new`: a map without members.
#[verifier::external_body]
fn new_map() -> (r: serde_json::Map<String, serde_json::Value>)
    ensures
        held_members(r) == no_members(),
{
    serde_json::Map::new()
}

/// `serde_json::Map::insert`: puts a member in, in place of the one that has its key, and
/// gives the value that it replaces, if there is one.
#[verifier::external_body]
fn insert_member(
    map: &mut serde_json::Map<String, serde_json::Value>,
    key: String,
    value: serde_json::Value,
) -> (r: Option<serde_json::Value>)
    ensures
        held_members(*final(map)) == held_members(*old(map)).insert(key@, held(value)),
        match r {
            Some(v) => held_members(*old(map)).contains_key(key@) && held_members(*old(map))[key@]
                == held(v),
            None => !held_members(*old(map)).contains_key(key@),
        },
{
    map.insert(key, value)
}

/// `serde_json::Value::Object`: holds the members.
#[verifier::external_body]
fn object_value(members: serde_json::Map<String, serde_json::Value>) -> (r: serde_json::Value)
    ensures
        held(r) == JsonView::Object(held_members(members)),
{
    serde_json::Value::Object(members)
}

/// `serde_json::Value::to_string`: the compact text of what the value holds. Objects
/// list their members in the order of their keys, whatever order they came in. What is
/// read of the text is what the value holds, if its numbers are integers and it is not
/// nested too deeply.
#[verifier::external_body]
fn value_to_string(value: &serde_json::Value) -> (r: String)
    ensures
        r@ == compact_json(held(*value)),
        comes_back(held(*value)) ==> reads_as(r@, held(*value)),
{
    value.to_string()
}

/// `serde_json::to_string_pretty`: the indented text of what the value holds. What is read
/// of the text is what the value holds, if its numbers are integers and it is not nested
/// too deeply.
#[verifier::external_body]
fn value_to_string_pretty(value: &serde_json::Value) -> (r: Result<String, serde_json::Error>)
    ensures
        match r {
            Ok(s) => pretty_json(held(*value)) == Some(s@),
            Err(_) => pretty_json(held(*value)) is None,
        },
        comes_back(held(*value)) ==> (r matches Ok(s) ==> reads_as(s@, held(*value))),
{
    serde_json::to_string_pretty(value)
}

/// The `serde_json` value that holds what a value says.
pub fn to_value(json: &Json) -> (r: serde_json::Value)
    ensures
        held(r) == json@,
    decreases json,
{
    match json {
        Json::Null => null_value(),
        Json::Bool(b) => bool_value(*b),
        Json::Number(n) => number_value(number_clone(n)),
        Json::Text(s) => text_value(s.clone()),
        Json::Array(items) => {
            let mut values: Vec<serde_json::Value> = Vec::new();
            let mut i: usize = 0;
            while i < items.len()
                invariant
                    i <= items.len(),
                    values.len() == i,
                    decreases_to!(json => items@),
                    forall|k: int|
                        0 <= k < i ==> held(#[trigger] values@[k]) == json_view(items@[k]),
                decreases items.len() - i,
            {
                values.push(to_value(&items[i]));
                i = i + 1;
            }
            assert(values@.map_values(|item: serde_json::Value| held(item)) == json@->Array_0);
            array_value(values)
        },
        Json::Object(members) => {
            let mut map = new_map();
            let mut i: usize = 0;
            while i < members.len()
                invariant
                    i <= members.len(),
                    decreases_to!(json => members@),
                    held_members(map) == members_view(members@, i as nat),
                decreases members.len() - i,
            {
                let _ = insert_member(&mut map, members[i].0.clone(), to_value(&members[i].1));
                i = i + 1;
            }
            object_value(map)
        },
    }
}

/// The compact text of a value.
pub fn compact_text(json: &Json) -> (r: String)
    ensures
        r@ == compact_json(json@),
        comes_back(json@) ==> reads_as(compact_json(json@), json@),
{
    let value = to_value(json);
    value_to_string(&value)
}

/// The text that shows a value to a reader: indented, or compact where it cannot be
/// indented.
pub open spec fn readable(value: JsonView) -> Seq<char> {
    match pretty_json(value) {
        Some(s) => s,
        None => compact_json(value),
    }
}

/// The text that shows a value to a reader.
pub fn readable_text(json: &Json) -> (r: String)
    ensures
        r@ == readable(json@),
        comes_back(json@) ==> reads_as(readable(json@), json@),
{
    let value = to_value(json);
    match value_to_string_pretty(&value) {
        Ok(s) => s,
        Err(_) => value_to_string(&value),
    }
}

/// A `serde_json::Value`, taken apart.
enum Parts {
    Null,
    Bool(bool),
    Number(serde_json::Number),
    Text(String),
    Array(Vec<serde_json::Value>),
    Object(Vec<(String, serde_json::Value)>),
}

/// Whether a list has the members of an object, and no others.
spec fn lists(list: Seq<(String, serde_json::Value)>, members: Map<Seq<char>, JsonView>) -> bool {
    &&& forall|i: int|
        0 <= i < list.len() ==> members.contains_key((#[trigger] list[i]).0@)
            && members[list[i].0@] == held(list[i].1)
    &&& forall|key: Seq<char>| #[trigger]
        members.contains_key(key) ==> exists|i: int|
            0 <= i < list.len() && (#[trigger] list[i]).0@ == key
}

/// Whether a value was taken apart.
spec fn parts_of(value: JsonView, parts: Parts) -> bool {
    match parts {
        Parts::Null => value == JsonView::Null,
        Parts::Bool(b) => value == JsonView::Bool(b),
        Parts::Number(n) => value == JsonView::Number(n),
        Parts::Text(s) => value == JsonView::Text(s@),
        Parts::Array(items) => value == JsonView::Array(
            items@.map_values(|item: serde_json::Value| held(item)),
        ),
        Parts::Object(list) => value matches JsonView::Object(members) && lists(list@, members),
    }
}

/// The variants of `serde_json::Value`, with what each of them holds; of an object, its
/// members by `serde_json::Map::into_iter`, in some order.
#[verifier::external_body]
fn take_apart(value: serde_json::Value) -> (r: Parts)
    ensures
        parts_of(held(value), r),
{
    match value {
        serde_json::Value::Null => Parts::Null,
        serde_json::Value::Bool(b) => Parts::Bool(b),
        serde_json::Value::Number(n) => Parts::Number(n),
        serde_json::Value::String(s) => Parts::Text(s),
        serde_json::Value::Array(items) => Parts::Array(items),
        serde_json::Value::Object(members) => Parts::Object(members.into_iter().collect()),
    }
}

/// Members that say what a list holds say what the object holds that it lists.
proof fn lemma_members_listed(
    members: Seq<(String, Json)>,
    list: Seq<(String, serde_json::Value)>,
    object: Map<Seq<char>, JsonView>,
    n: nat,
)
    requires
        n <= members.len(),
        members.len() == list.len(),
        lists(list, object),
        forall|i: int| 0 <= i < n ==> (#[trigger] members[i]).0@ == list[i].0@,
        forall|i: int| 0 <= i < n ==> json_view((#[trigger] members[i]).1) == held(list[i].1),
    ensures
        forall|key: Seq<char>| #[trigger]
            members_view(members, n).contains_key(key) ==> object.contains_key(key)
                && members_view(members, n)[key] == object[key],
        forall|i: int|
            0 <= i < n ==> members_view(members, n).contains_key((#[trigger] list[i]).0@),
    decreases n,
{
    if n > 0 {
        let m = (n - 1) as nat;
        lemma_members_listed(members, list, object, m);
        let earlier = members_view(members, m);
        assert(members[m as int].0@ == list[m as int].0@);
        assert(json_view(members[m as int].1) == held(list[m as int].1));
        assert(members_view(members, n) == earlier.insert(
            list[m as int].0@,
            held(list[m as int].1),
        ));
        assert forall|key: Seq<char>| #[trigger]
            members_view(members, n).contains_key(key) implies object.contains_key(key)
            && members_view(members, n)[key] == object[key] by {
            if key != list[m as int].0@ {
                assert(earlier.contains_key(key));
            }
        }
    }
}

/// An object that a list lists has finitely many members.
proof fn lemma_listed_is_finite(
    list: Seq<(String, serde_json::Value)>,
    object: Map<Seq<char>, JsonView>,
)
    requires
        lists(list, object),
    ensures
        object.dom().finite(),
{
    let keys = list.map_values(|entry: (String, serde_json::Value)| entry.0@);
    assert forall|key: Seq<char>| object.dom().contains(key) implies keys.to_set().contains(
        key,
    ) by {
        let i = choose|i: int| 0 <= i < list.len() && (#[trigger] list[i]).0@ == key;
        assert(keys[i] == key);
    }
    vstd::seq_lib::seq_to_set_is_finite(keys);
    vstd::set_lib::lemma_len_subset(object.dom(), keys.to_set());
}

/// The value that a `serde_json::Value` holds.
pub fn from_value(value: serde_json::Value) -> (r: Json)
    ensures
        r@ == held(value),
    decreases held(value),
{
    let ghost whole = held(value);
    match take_apart(value) {
        Parts::Null => Json::Null,
        Parts::Bool(b) => Json::Bool(b),
        Parts::Number(n) => Json::Number(n),
        Parts::Text(s) => Json::Text(s),
        Parts::Array(values) => {
            let ghost all = values@;
            let mut items: Vec<Json> = Vec::new();
            for v in it: values
                invariant
                    it.seq() == all,
                    whole == held(value),
                    items.len() == it.index(),
                    whole == JsonView::Array(
                        all.map_values(|item: serde_json::Value| held(item)),
                    ),
                    forall|k: int| 0 <= k < items.len() ==> (#[trigger] items@[k])@ == held(all[k]),
            {
                proof {
                    assert(whole->Array_0[it.index()] == held(v));
                    assert(decreases_to!(whole => whole->Array_0));
                    assert(decreases_to!(whole->Array_0 => whole->Array_0[it.index()]));
                }
                items.push(from_value(v));
            }
            assert(items@.map_values(|item: Json| item@) =~= all.map_values(
                |item: serde_json::Value| held(item),
            ));
            Json::array(items)
        },
        Parts::Object(list) => {
            let ghost all = list@;
            let ghost object = whole->Object_0;
            let mut members: Vec<(String, Json)> = Vec::new();
            for entry in it: list
                invariant
                    it.seq() == all,
                    whole == held(value),
                    members.len() == it.index(),
                    whole == JsonView::Object(object),
                    lists(all, object),
                    forall|k: int|
                        0 <= k < members.len() ==> (#[trigger] members@[k]).0@ == all[k].0@,
                    forall|k: int|
                        0 <= k < members.len() ==> json_view((#[trigger] members@[k]).1) == held(
                            all[k].1,
                        ),
            {
                let (key, v) = entry;
                proof {
                    assert(all[it.index()] == entry);
                    assert(object.contains_key(key@));
                    assert(object[key@] == held(v));
                    lemma_listed_is_finite(all, object);
                    assert(decreases_to!(whole => whole->Object_0));
                    assert(decreases_to!(whole->Object_0 => whole->Object_0[key@]));
                }
                members.push((key, from_value(v)));
            }
            proof {
                lemma_members_listed(members@, all, object, members@.len());
                assert(members_view(members@, members@.len()) =~= object);
            }
            Json::Object(members)
        },
    }
}

/// What came of reading a text.
pub open spec fn held_result(r: Result<serde_json::Value, String>) -> Result<
    JsonView,
    Seq<char>,
> {
    match r {
        Ok(value) => Ok(held(value)),
        Err(message) => Err(message@),
    }
}

/// `serde_json::from_str`, of a `serde_json::Value`: reads a text as JSON, or gives the
/// message of the error.
#[verifier::external_body]
fn parse_value(text: &str) -> (r: Result<serde_json::Value, String>)
    ensures
        held_result(r) == parsed_json(text@),
{
    serde_json::from_str(text).map_err(|e: serde_json::Error| e.to_string())
}

/// Reads a text as JSON.
pub fn parse_text(text: &str) -> (r: Result<Json, String>)
    ensures
        match r {
            Ok(json) => parsed_json(text@) == Ok::<JsonView, Seq<char>>(json@),
            Err(message) => parsed_json(text@) == Err::<JsonView, Seq<char>>(message@),
        },
{
    match parse_value(text) {
        Ok(value) => Ok(from_value(value)),
        Err(message) => Err(message),
    }
}

/// A reader is shown the indented text wherever there is one.
pub proof fn readers_see_indented_text(value: JsonView)
    ensures
        pretty_json(value) matches Some(text) ==> readable(value) == text,
        pretty_json(value) is None ==> readable(value) == compact_json(value),
{
}

} // verus!
