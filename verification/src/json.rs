//! JSON documents held as plain data: lookup, edits, and an estimate of their size.

use vstd::prelude::*;

use crate::text;

verus! {

/// Bytes charged for the structure of every retained container.
pub const RETAINED_CONTAINER_OVERHEAD_BYTES: usize = 32;

/// A JSON value. A number is kept as its JSON text; an object keeps its members in
/// the order in which they are iterated.
#[derive(Debug, PartialEq, Eq)]
pub enum JsonValue {
    Null,
    Bool(bool),
    Number(String),
    Text(String),
    Array(Vec<JsonValue>),
    Object(Vec<(String, JsonValue)>),
}

/// A JSON document as a mathematical value.
pub enum Json {
    Null,
    Bool(bool),
    Number(Seq<char>),
    Text(Seq<char>),
    Array(Seq<Json>),
    Object(Seq<(Seq<char>, Json)>),
}

/// The document that a value holds.
pub open spec fn json(value: JsonValue) -> Json
    decreases value, 0nat,
{
    match value {
        JsonValue::Null => Json::Null,
        JsonValue::Bool(b) => Json::Bool(b),
        JsonValue::Number(digits) => Json::Number(digits@),
        JsonValue::Text(s) => Json::Text(s@),
        JsonValue::Array(items) => Json::Array(json_items(items@)),
        JsonValue::Object(members) => Json::Object(json_members(members@)),
    }
}

/// The documents of a list of values.
pub open spec fn json_items(items: Seq<JsonValue>) -> Seq<Json>
    decreases items, 1nat,
{
    if items.len() == 0 {
        Seq::empty()
    } else {
        json_items(items.drop_last()).push(json(items.last()))
    }
}

/// The names and documents of a list of members.
pub open spec fn json_members(members: Seq<(String, JsonValue)>) -> Seq<(Seq<char>, Json)>
    decreases members, 1nat,
{
    if members.len() == 0 {
        Seq::empty()
    } else {
        json_members(members.drop_last()).push((members.last().0@, json(members.last().1)))
    }
}

impl View for JsonValue {
    type V = Json;

    open spec fn view(&self) -> Json {
        json(*self)
    }
}

/// The document of an optional value.
pub open spec fn opt_json(value: Option<JsonValue>) -> Option<Json> {
    match value {
        Some(found) => Some(found@),
        None => None,
    }
}

/// Where the first member named `name` stands; behind the last one where there is none.
pub open spec fn position(members: Seq<(Seq<char>, Json)>, name: Seq<char>) -> nat
    decreases members.len(),
{
    if members.len() == 0 || members[0].0 == name {
        0
    } else {
        1 + position(members.drop_first(), name)
    }
}

/// The document that an object holds under `name`; nothing but an object holds any.
pub open spec fn held(document: Json, name: Seq<char>) -> Option<Json> {
    match document {
        Json::Object(members) => if position(members, name) < members.len() {
            Some(members[position(members, name) as int].1)
        } else {
            None
        },
        _ => None,
    }
}

/// An object without its member `name`.
pub open spec fn without_member(members: Seq<(Seq<char>, Json)>, name: Seq<char>) -> Seq<(Seq<char>, Json)> {
    if position(members, name) < members.len() {
        members.remove(position(members, name) as int)
    } else {
        members
    }
}

/// An object whose member `name` is `value`: in its old place, or behind the last one
/// where it is new.
pub open spec fn with_member(members: Seq<(Seq<char>, Json)>, name: Seq<char>, value: Json) -> Seq<
    (Seq<char>, Json),
> {
    if position(members, name) < members.len() {
        members.update(position(members, name) as int, (name, value))
    } else {
        members.push((name, value))
    }
}

/// The characters of a JSON string.
pub open spec fn string_text(document: Json) -> Option<Seq<char>> {
    match document {
        Json::Text(s) => Some(s),
        _ => None,
    }
}

/// The characters of the JSON string that an object holds under `name`.
pub open spec fn held_text(document: Json, name: Seq<char>) -> Option<Seq<char>> {
    match held(document, name) {
        Some(found) => string_text(found),
        None => None,
    }
}

/// Members one by one: a list and its documents have the same length and order.
pub proof fn lemma_json_members(members: Seq<(String, JsonValue)>)
    ensures
        json_members(members).len() == members.len(),
        forall|i: int|
            0 <= i < members.len() ==> #[trigger] json_members(members)[i] == (members[i].0@, json(members[i].1)),
    decreases members.len(),
{
    if members.len() > 0 {
        lemma_json_members(members.drop_last());
    }
}

/// The position of a member is the first place where its name stands.
pub proof fn lemma_position(members: Seq<(Seq<char>, Json)>, name: Seq<char>)
    ensures
        position(members, name) <= members.len(),
        position(members, name) < members.len() ==> members[position(members, name) as int].0 == name,
        forall|i: int| 0 <= i < position(members, name) ==> (#[trigger] members[i]).0 != name,
    decreases members.len(),
{
    if members.len() > 0 && members[0].0 != name {
        let rest = members.drop_first();
        lemma_position(rest, name);
        assert forall|i: int| 0 <= i < position(members, name) implies (#[trigger] members[i]).0 != name by {
            if i > 0 {
                assert(rest[i - 1] == members[i]);
            }
        }
    }
}

/// Where the first member named `name` stands.
pub fn find(members: &Vec<(String, JsonValue)>, name: &str) -> (at: Option<usize>)
    ensures
        match at {
            Some(i) => i < members.len() && i == position(json_members(members@), name@),
            None => position(json_members(members@), name@) == members.len(),
        },
{
    let ghost documents = json_members(members@);
    proof {
        lemma_json_members(members@);
        lemma_position(documents, name@);
    }
    let mut i: usize = 0;
    while i < members.len()
        invariant
            i <= members.len(),
            documents == json_members(members@),
            documents.len() == members@.len(),
            forall|j: int| 0 <= j < members@.len() ==> #[trigger] documents[j] == (members@[j].0@, json(members@[j].1)),
            position(documents, name@) <= documents.len(),
            position(documents, name@) < documents.len() ==> documents[position(documents, name@) as int].0 == name@,
            forall|j: int| 0 <= j < position(documents, name@) ==> (#[trigger] documents[j]).0 != name@,
            forall|j: int| 0 <= j < i ==> (#[trigger] documents[j]).0 != name@,
        decreases members.len() - i,
    {
        assert(documents[i as int].0 == members@[i as int].0@);
        if text::same_text(members[i].0.as_str(), name) {
            return Some(i);
        }
        i = i + 1;
    }
    None
}

/// Take the member `name` out of an object.
pub fn remove_member(members: &mut Vec<(String, JsonValue)>, name: &str)
    ensures
        json_members(final(members)@) == without_member(json_members(old(members)@), name@),
{
    let ghost before = members@;
    if let Some(i) = find(members, name) {
        members.remove(i);
        proof {
            lemma_json_members(before);
            lemma_json_members(members@);
            assert(json_members(members@) =~= json_members(before).remove(i as int));
        }
    }
    proof {
        lemma_json_members(before);
    }
}

/// Make `value` the member `name` of an object.
pub fn set_member(members: &mut Vec<(String, JsonValue)>, name: &str, value: JsonValue)
    ensures
        json_members(final(members)@) == with_member(json_members(old(members)@), name@, value@),
{
    let ghost before = members@;
    proof {
        lemma_json_members(before);
    }
    match find(members, name) {
        Some(i) => {
            members.set(i, (name.to_owned(), value));
            proof {
                lemma_json_members(members@);
                assert(json_members(members@) =~= json_members(before).update(i as int, (name@, value@)));
            }
        },
        None => {
            members.push((name.to_owned(), value));
            proof {
                lemma_json_members(members@);
                assert(json_members(members@) =~= json_members(before).push((name@, value@)));
            }
        },
    }
}

impl JsonValue {
    /// The value held under `name`, where this is an object that has such a member.
    pub fn get(&self, name: &str) -> (r: Option<&JsonValue>)
        ensures
            (match r {
                Some(found) => Some(found@),
                None => None,
            }) == held(self@, name@),
    {
        match self {
            JsonValue::Object(members) => {
                proof {
                    lemma_json_members(members@);
                }
                match find(members, name) {
                    Some(i) => Some(&members[i].1),
                    None => None,
                }
            },
            _ => None,
        }
    }

    /// The text of a JSON string.
    pub fn as_str(&self) -> (r: Option<&str>)
        ensures
            text::opt_str(r) == string_text(self@),
    {
        match self {
            JsonValue::Text(s) => Some(s.as_str()),
            _ => None,
        }
    }
}

/// No two members of an object have the same name.
pub open spec fn names_are_distinct(members: Seq<(Seq<char>, Json)>) -> bool {
    forall|i: int, j: int| 0 <= i < j < members.len() ==> (#[trigger] members[i]).0 != (#[trigger] members[j]).0
}

/// The first place where a name stands is its position.
proof fn lemma_position_is(members: Seq<(Seq<char>, Json)>, name: Seq<char>, at: int)
    requires
        0 <= at <= members.len(),
        at < members.len() ==> members[at].0 == name,
        forall|i: int| 0 <= i < at ==> (#[trigger] members[i]).0 != name,
    ensures
        position(members, name) == at,
{
    lemma_position(members, name);
    if position(members, name) < at {
        assert(members[position(members, name) as int].0 != name);
    }
}

/// What is set is held, and every other member is held as before.
pub proof fn law_set_member_is_held(
    members: Seq<(Seq<char>, Json)>,
    name: Seq<char>,
    value: Json,
    other: Seq<char>,
)
    ensures
        held(Json::Object(with_member(members, name, value)), name) == Some(value),
        other != name ==> held(Json::Object(with_member(members, name, value)), other) == held(
            Json::Object(members),
            other,
        ),
{
    let after = with_member(members, name, value);
    let at = position(members, name);
    lemma_position(members, name);
    lemma_position(members, other);
    lemma_position_is(after, name, at as int);
    if other != name {
        let place = position(members, other);
        if place < members.len() {
            lemma_position_is(after, other, place as int);
        } else {
            lemma_position_is(after, other, after.len() as int);
        }
    }
}

/// What is taken out of an object whose names are distinct is no longer held, and every
/// other member is held as before.
pub proof fn law_removed_member_is_gone(members: Seq<(Seq<char>, Json)>, name: Seq<char>, other: Seq<char>)
    ensures
        names_are_distinct(members) ==> held(Json::Object(without_member(members, name)), name) is None,
        other != name ==> held(Json::Object(without_member(members, name)), other) == held(
            Json::Object(members),
            other,
        ),
{
    let after = without_member(members, name);
    let at = position(members, name);
    lemma_position(members, name);
    lemma_position(members, other);
    if names_are_distinct(members) {
        if at < members.len() {
            assert forall|i: int| 0 <= i < after.len() implies (#[trigger] after[i]).0 != name by {
                if i < at {
                    assert(after[i] == members[i]);
                } else {
                    assert(after[i] == members[i + 1]);
                    assert(members[at as int].0 != members[i + 1].0);
                }
            }
        }
        lemma_position_is(after, name, after.len() as int);
    }
    if other != name {
        let place = position(members, other);
        let moved = if at < members.len() && place > at {
            place - 1
        } else {
            place as int
        };
        assert forall|i: int| 0 <= i < moved implies (#[trigger] after[i]).0 != other by {
            if at < members.len() && i >= at {
                assert(after[i] == members[i + 1]);
            } else {
                assert(after[i] == members[i]);
            }
        }
        lemma_position_is(after, other, moved);
    }
}

/// The estimated size of a value: fixed charges for scalars, the UTF-8 bytes of text
/// and member names, and a structural charge for every array and object.
pub open spec fn json_bytes(value: JsonValue) -> nat
    decreases value, 0nat,
{
    match value {
        JsonValue::Null => 4,
        JsonValue::Bool(_) => 5,
        JsonValue::Number(_) => 8,
        JsonValue::Text(s) => text::utf8_len(s@),
        JsonValue::Array(items) => json_items_bytes(items@) + RETAINED_CONTAINER_OVERHEAD_BYTES as nat,
        JsonValue::Object(members) => json_members_bytes(members@) + RETAINED_CONTAINER_OVERHEAD_BYTES as nat,
    }
}

/// The estimated sizes of the values of a list, added up.
pub open spec fn json_items_bytes(items: Seq<JsonValue>) -> nat
    decreases items, 1nat,
{
    if items.len() == 0 {
        0
    } else {
        json_items_bytes(items.drop_last()) + json_bytes(items.last())
    }
}

/// The name lengths and estimated value sizes of a list of members, added up.
pub open spec fn json_members_bytes(members: Seq<(String, JsonValue)>) -> nat
    decreases members, 1nat,
{
    if members.len() == 0 {
        0
    } else {
        json_members_bytes(members.drop_last()) + text::utf8_len(members.last().0@) + json_bytes(
            members.last().1,
        )
    }
}

proof fn lemma_items_prefix(items: Seq<JsonValue>, i: int)
    requires
        0 <= i < items.len(),
    ensures
        json_items_bytes(items.take(i + 1)) == json_items_bytes(items.take(i)) + json_bytes(items[i]),
        json_items_bytes(items.take(i + 1)) <= json_items_bytes(items),
    decreases items.len() - i,
{
    assert(items.take(i + 1).drop_last() =~= items.take(i));
    if i + 1 < items.len() {
        lemma_items_prefix(items, i + 1);
    } else {
        assert(items.take(i + 1) =~= items);
    }
}

proof fn lemma_members_prefix(members: Seq<(String, JsonValue)>, i: int)
    requires
        0 <= i < members.len(),
    ensures
        json_members_bytes(members.take(i + 1)) == json_members_bytes(members.take(i)) + text::utf8_len(
            members[i].0@,
        ) + json_bytes(members[i].1),
        json_members_bytes(members.take(i + 1)) <= json_members_bytes(members),
    decreases members.len() - i,
{
    assert(members.take(i + 1).drop_last() =~= members.take(i));
    if i + 1 < members.len() {
        lemma_members_prefix(members, i + 1);
    } else {
        assert(members.take(i + 1) =~= members);
    }
}

/// Approximates the serialized byte footprint of an arbitrary JSON value, such as an
/// MCP schema or error, without serializing it.
pub fn estimate_json_value_bytes(val: &JsonValue) -> (n: usize)
    requires
        json_bytes(*val) <= usize::MAX,
    ensures
        n == json_bytes(*val),
    decreases *val,
{
    match val {
        JsonValue::Null => 4,
        JsonValue::Bool(_) => 5,
        JsonValue::Number(_) => 8,
        JsonValue::Text(s) => text::byte_len(s.as_str()),
        JsonValue::Array(items) => {
            let mut total: usize = 0;
            let mut i: usize = 0;
            while i < items.len()
                invariant
                    i <= items.len(),
                    *val == JsonValue::Array(*items),
                    total == json_items_bytes(items@.take(i as int)),
                    json_items_bytes(items@) + RETAINED_CONTAINER_OVERHEAD_BYTES <= usize::MAX,
                decreases items.len() - i,
            {
                proof {
                    lemma_items_prefix(items@, i as int);
                    assert(decreases_to!(*val => val->Array_0@[i as int]));
                }
                total = total + estimate_json_value_bytes(&items[i]);
                i = i + 1;
            }
            assert(items@.take(i as int) =~= items@);
            total + RETAINED_CONTAINER_OVERHEAD_BYTES
        },
        JsonValue::Object(members) => {
            let mut total: usize = 0;
            let mut i: usize = 0;
            while i < members.len()
                invariant
                    i <= members.len(),
                    *val == JsonValue::Object(*members),
                    total == json_members_bytes(members@.take(i as int)),
                    json_members_bytes(members@) + RETAINED_CONTAINER_OVERHEAD_BYTES <= usize::MAX,
                decreases members.len() - i,
            {
                proof {
                    lemma_members_prefix(members@, i as int);
                    assert(decreases_to!(*val => val->Object_0@[i as int]));
                    assert(decreases_to!(val->Object_0@[i as int] => val->Object_0@[i as int].1));
                }
                let member: &(String, JsonValue) = &members[i];
                total = total + text::byte_len(member.0.as_str()) + estimate_json_value_bytes(&member.1);
                i = i + 1;
            }
            assert(members@.take(i as int) =~= members@);
            total + RETAINED_CONTAINER_OVERHEAD_BYTES
        },
    }
}

/// The estimate of a scalar is fixed, or the bytes of its text.
pub proof fn law_scalars_have_fixed_estimates(b: bool, digits: String, text: String)
    ensures
        json_bytes(JsonValue::Null) == 4,
        json_bytes(JsonValue::Bool(b)) == 5,
        json_bytes(JsonValue::Number(digits)) == 8,
        json_bytes(JsonValue::Text(text)) == vstd::utf8::encode_utf8(text@).len(),
{
}

/// An empty array is charged its structure, and one more element raises the estimate by
/// exactly the element's, wherever it comes.
pub proof fn law_every_element_counts(items: Vec<JsonValue>, longer: Vec<JsonValue>, item: JsonValue)
    requires
        longer@ == items@.push(item),
    ensures
        items@.len() == 0 ==> json_bytes(JsonValue::Array(items)) == 32,
        json_bytes(JsonValue::Array(longer)) == json_bytes(JsonValue::Array(items)) + json_bytes(item),
{
    assert(longer@.drop_last() =~= items@);
}

/// An empty object is charged its structure, and one more member raises the estimate by
/// exactly the bytes of its name and the estimate of its value.
pub proof fn law_every_member_counts(
    members: Vec<(String, JsonValue)>,
    longer: Vec<(String, JsonValue)>,
    name: String,
    value: JsonValue,
)
    requires
        longer@ == members@.push((name, value)),
    ensures
        members@.len() == 0 ==> json_bytes(JsonValue::Object(members)) == 32,
        json_bytes(JsonValue::Object(longer)) == json_bytes(JsonValue::Object(members)) + vstd::utf8::encode_utf8(
            name@,
        ).len() + json_bytes(value),
{
    assert(longer@.drop_last() =~= members@);
}

/// A document shows its value whole: every element and member, in order, and every text
/// as it is.
pub proof fn law_documents_show_their_values(
    b: bool,
    text: String,
    items: Vec<JsonValue>,
    longer: Vec<JsonValue>,
    item: JsonValue,
    members: Vec<(String, JsonValue)>,
    more: Vec<(String, JsonValue)>,
    name: String,
)
    requires
        longer@ == items@.push(item),
        more@ == members@.push((name, item)),
    ensures
        JsonValue::Null@ == Json::Null,
        JsonValue::Bool(b)@ == Json::Bool(b),
        JsonValue::Number(text)@ == Json::Number(text@),
        JsonValue::Text(text)@ == Json::Text(text@),
        items@.len() == 0 ==> JsonValue::Array(items)@ == Json::Array(Seq::empty()),
        JsonValue::Array(items)@ matches Json::Array(shown) && JsonValue::Array(longer)@ == Json::Array(
            shown.push(item@),
        ),
        members@.len() == 0 ==> JsonValue::Object(members)@ == Json::Object(Seq::empty()),
        JsonValue::Object(members)@ matches Json::Object(shown) && JsonValue::Object(more)@ == Json::Object(
            shown.push((name@, item@)),
        ),
{
    assert(longer@.drop_last() =~= items@);
    assert(more@.drop_last() =~= members@);
}

/// An object holds under a name what its first member of that name holds, and nothing
/// where it has none; nothing but an object holds anything.
pub proof fn law_first_member_of_a_name_is_held(
    first: (Seq<char>, Json),
    rest: Seq<(Seq<char>, Json)>,
    name: Seq<char>,
    other: Json,
)
    ensures
        held(Json::Object(seq![first] + rest), first.0) == Some(first.1),
        name != first.0 ==> held(Json::Object(seq![first] + rest), name) == held(Json::Object(rest), name),
        held(Json::Object(Seq::empty()), name) is None,
        !(other is Object) ==> held(other, name) is None,
{
    assert((seq![first] + rest).drop_first() =~= rest);
}

/// Setting a member keeps the place of the first one of its name, and puts a new one
/// behind the last; taking one out takes the first of its name and nothing else.
pub proof fn law_members_keep_their_places(
    first: (Seq<char>, Json),
    rest: Seq<(Seq<char>, Json)>,
    name: Seq<char>,
    value: Json,
)
    ensures
        with_member(Seq::empty(), name, value) == seq![(name, value)],
        first.0 == name ==> with_member(seq![first] + rest, name, value) == seq![(name, value)] + rest,
        first.0 != name ==> with_member(seq![first] + rest, name, value) == seq![first] + with_member(
            rest,
            name,
            value,
        ),
        without_member(Seq::empty(), name) == Seq::<(Seq<char>, Json)>::empty(),
        first.0 == name ==> without_member(seq![first] + rest, name) == rest,
        first.0 != name ==> without_member(seq![first] + rest, name) == seq![first] + without_member(rest, name),
{
    let whole = seq![first] + rest;
    assert(whole.drop_first() =~= rest);
    lemma_position(rest, name);
    assert(with_member(Seq::empty(), name, value) =~= seq![(name, value)]);
    if first.0 == name {
        assert(with_member(whole, name, value) =~= seq![(name, value)] + rest);
        assert(without_member(whole, name) =~= rest);
    } else {
        assert(with_member(whole, name, value) =~= seq![first] + with_member(rest, name, value));
        assert(without_member(whole, name) =~= seq![first] + without_member(rest, name));
    }
}

/// Only a JSON string has text, and an object's text under a name is that of the string
/// that it holds there; what is asked of a value is what its document holds.
pub proof fn law_values_answer_for_their_documents(
    value: JsonValue,
    name: &str,
    found: Option<&JsonValue>,
    text: Option<&str>,
    estimate: usize,
)
    requires
        call_ensures(JsonValue::get, (&value, name), found),
        call_ensures(JsonValue::as_str, (&value,), text),
        call_ensures(estimate_json_value_bytes, (&value,), estimate),
    ensures
        match found {
            Some(member) => held(value@, name@) == Some(member@),
            None => held(value@, name@) is None,
        },
        match text {
            Some(read) => value matches JsonValue::Text(kept) && kept@ == read@,
            None => !(value is Text),
        },
        match held(value@, name@) {
            Some(Json::Text(read)) => held_text(value@, name@) == Some(read),
            _ => held_text(value@, name@) is None,
        },
        estimate == json_bytes(value),
{
}

/// Setting and taking out members of a list does to its documents what it does to the
/// documents alone.
pub proof fn law_edited_lists_show_their_edits(
    set: &mut Vec<(String, JsonValue)>,
    taken: &mut Vec<(String, JsonValue)>,
    name: &str,
    value: JsonValue,
    other: Seq<char>,
)
    requires
        call_ensures(set_member, (set, name, value), ()),
        call_ensures(remove_member, (taken, name), ()),
    ensures
        held(Json::Object(json_members(final(set)@)), name@) == Some(value@),
        other != name@ ==> held(Json::Object(json_members(final(set)@)), other) == held(
            Json::Object(json_members(old(set)@)),
            other,
        ),
        other != name@ ==> held(Json::Object(json_members(final(taken)@)), other) == held(
            Json::Object(json_members(old(taken)@)),
            other,
        ),
        json_members(final(set)@) == with_member(json_members(old(set)@), name@, value@),
        json_members(final(taken)@) == without_member(json_members(old(taken)@), name@),
{
    law_set_member_is_held(json_members(old(set)@), name@, value@, other);
    law_removed_member_is_gone(json_members(old(taken)@), name@, other);
}

} // verus!
