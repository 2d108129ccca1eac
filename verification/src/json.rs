//! JSON values as plain data, and the parser that produces them.

use vstd::prelude::*;

verus! {

/// A JSON number, by the three readings that a parsed number offers.
///
/// `signed` is the value as a signed integer, `unsigned` as an unsigned one,
/// and `bits` holds the bits of the double that stands for it.
#[derive(Clone, Copy, Debug, PartialEq, Eq, Structural)]
pub struct JsonNumber {
    pub signed: Option<i64>,
    pub unsigned: Option<u64>,
    pub bits: Option<u64>,
}

/// A JSON value.
#[derive(Debug)]
pub enum Json {
    Null,
    Bool(bool),
    Number(JsonNumber),
    String(String),
    Array(Vec<Json>),
    Object(Vec<(String, Json)>),
}

/// The mathematical value of a [`Json`].
pub enum JsonView {
    Null,
    Bool(bool),
    Number(JsonNumber),
    String(Seq<char>),
    Array(Seq<JsonView>),
    Object(Seq<(Seq<char>, JsonView)>),
}

/// The mathematical value of `json`.
pub open spec fn json_view(json: Json) -> JsonView
    decreases json,
{
    match json {
        Json::Null => JsonView::Null,
        Json::Bool(b) => JsonView::Bool(b),
        Json::Number(n) => JsonView::Number(n),
        Json::String(s) => JsonView::String(s@),
        Json::Array(items) => JsonView::Array(
            Seq::new(
                items.len() as nat,
                |i: int|
                    if 0 <= i < items.len() {
                        json_view(items[i])
                    } else {
                        JsonView::Null
                    },
            ),
        ),
        Json::Object(members) => JsonView::Object(
            Seq::new(
                members.len() as nat,
                |i: int|
                    if 0 <= i < members.len() {
                        (members[i].0@, json_view(members[i].1))
                    } else {
                        (Seq::empty(), JsonView::Null)
                    },
            ),
        ),
    }
}

impl View for Json {
    type V = JsonView;

    open spec fn view(&self) -> JsonView {
        json_view(*self)
    }
}

/// The value of the first of `members`, from position `from` on, whose key
/// is `key`.
pub open spec fn find_member(
    members: Seq<(Seq<char>, JsonView)>,
    key: Seq<char>,
    from: int,
) -> Option<JsonView>
    decreases members.len() - from,
{
    if from < 0 || from >= members.len() {
        None
    } else if members[from].0 == key {
        Some(members[from].1)
    } else {
        find_member(members, key, from + 1)
    }
}

impl JsonView {
    /// The members of an object; no members for any other value.
    pub open spec fn members(self) -> Seq<(Seq<char>, JsonView)> {
        match self {
            JsonView::Object(members) => members,
            _ => Seq::empty(),
        }
    }

    /// The keys of an object, in the order of its members.
    pub open spec fn keys(self) -> Seq<Seq<char>> {
        Seq::new(self.members().len(), |i: int| self.members()[i].0)
    }

    /// The value under `key` in an object: that of the first member with
    /// that key. `None` for a missing key and for a value that is no object.
    pub open spec fn member(self, key: Seq<char>) -> Option<JsonView> {
        find_member(self.members(), key, 0)
    }
}

/// The position of the first of `members`, from `from` on, whose key is
/// `key`.
pub open spec fn member_position(
    members: Seq<(Seq<char>, JsonView)>,
    key: Seq<char>,
    from: int,
) -> Option<int>
    decreases members.len() - from,
{
    if from < 0 || from >= members.len() {
        None
    } else if members[from].0 == key {
        Some(from)
    } else {
        member_position(members, key, from + 1)
    }
}

/// The members after `value` was put under `key`: in place of the first
/// member with that key, or at the end where there is none.
pub open spec fn put(members: Seq<(Seq<char>, JsonView)>, key: Seq<char>, value: JsonView) -> Seq<
    (Seq<char>, JsonView),
> {
    match member_position(members, key, 0) {
        Some(at) => members.update(at, (key, value)),
        None => members.push((key, value)),
    }
}

/// The members of `base` after each of `updates` was put, in order.
pub open spec fn overlay(
    base: Seq<(Seq<char>, JsonView)>,
    updates: Seq<(Seq<char>, JsonView)>,
) -> Seq<(Seq<char>, JsonView)>
    decreases updates.len(),
{
    if updates.len() == 0 {
        base
    } else {
        put(overlay(base, updates.drop_last()), updates.last().0, updates.last().1)
    }
}

/// What [`member_position`] finds is a member with the key, and the first
/// one; what [`find_member`] finds is its value.
pub proof fn lemma_member_position(members: Seq<(Seq<char>, JsonView)>, key: Seq<char>, from: int)
    requires
        0 <= from <= members.len(),
    ensures
        match member_position(members, key, from) {
            Some(at) => from <= at < members.len() && members[at].0 == key && find_member(
                members,
                key,
                from,
            ) == Some(members[at].1) && forall|earlier: int|
                from <= earlier < at ==> members[earlier].0 != key,
            None => find_member(members, key, from) is None && forall|at: int|
                from <= at < members.len() ==> members[at].0 != key,
        },
    decreases members.len() - from,
{
    if from < members.len() && members[from].0 != key {
        lemma_member_position(members, key, from + 1);
    }
}

/// A member with the key and none with it before is what [`find_member`]
/// finds.
pub proof fn lemma_find_member_is(
    members: Seq<(Seq<char>, JsonView)>,
    key: Seq<char>,
    from: int,
    at: int,
)
    requires
        0 <= from <= at < members.len(),
        members[at].0 == key,
        forall|earlier: int| from <= earlier < at ==> members[earlier].0 != key,
    ensures
        find_member(members, key, from) == Some(members[at].1),
    decreases at - from,
{
    if from < at {
        lemma_find_member_is(members, key, from + 1, at);
    }
}

/// Where no member has the key, [`find_member`] finds none.
pub proof fn lemma_find_member_none(members: Seq<(Seq<char>, JsonView)>, key: Seq<char>, from: int)
    requires
        0 <= from <= members.len(),
        forall|at: int| from <= at < members.len() ==> members[at].0 != key,
    ensures
        find_member(members, key, from) is None,
    decreases members.len() - from,
{
    if from < members.len() {
        lemma_find_member_none(members, key, from + 1);
    }
}

/// After `value` was put under `key`, `key` holds `value` and every other
/// key holds what it held.
pub proof fn lemma_put(
    members: Seq<(Seq<char>, JsonView)>,
    key: Seq<char>,
    value: JsonView,
    other: Seq<char>,
)
    ensures
        find_member(put(members, key, value), other, 0) == (if other == key {
            Some(value)
        } else {
            find_member(members, other, 0)
        }),
{
    let after = put(members, key, value);
    lemma_member_position(members, key, 0);
    lemma_member_position(members, other, 0);
    if other == key {
        match member_position(members, key, 0) {
            Some(at) => {
                lemma_find_member_is(after, key, 0, at);
            },
            None => {
                lemma_find_member_is(after, key, 0, members.len() as int);
            },
        }
    } else {
        match member_position(members, other, 0) {
            Some(found) => {
                lemma_find_member_is(after, other, 0, found);
            },
            None => {
                lemma_find_member_none(after, other, 0);
            },
        }
    }
}

/// After an overlay, a key that the updates hold has the value of the last
/// update with that key, and every other key holds what it held.
pub proof fn lemma_overlay(
    base: Seq<(Seq<char>, JsonView)>,
    updates: Seq<(Seq<char>, JsonView)>,
    key: Seq<char>,
)
    ensures
        (forall|at: int| 0 <= at < updates.len() ==> updates[at].0 != key) ==> find_member(
            overlay(base, updates),
            key,
            0,
        ) == find_member(base, key, 0),
        forall|at: int|
            0 <= at < updates.len() && updates[at].0 == key && (forall|later: int|
                at < later < updates.len() ==> updates[later].0 != key) ==> find_member(
                overlay(base, updates),
                key,
                0,
            ) == Some(updates[at].1),
    decreases updates.len(),
{
    if updates.len() > 0 {
        let before = updates.drop_last();
        lemma_overlay(base, before, key);
        lemma_put(overlay(base, before), updates.last().0, updates.last().1, key);
        assert forall|at: int|
            0 <= at < updates.len() && updates[at].0 == key && (forall|later: int|
                at < later < updates.len() ==> updates[later].0 != key) implies find_member(
            overlay(base, updates),
            key,
            0,
        ) == Some(updates[at].1) by {
            if at < updates.len() - 1 {
                assert(before[at] == updates[at]);
            }
        }
    }
}

/// The values of a list of members.
pub open spec fn member_views(members: Seq<(String, Json)>) -> Seq<(Seq<char>, JsonView)> {
    Seq::new(members.len(), |i: int| (members[i].0@, members[i].1@))
}

/// Puts `value` under `key`: in place of the first member with that key,
/// or at the end where there is none.
pub fn put_member(members: &mut Vec<(String, Json)>, key: String, value: Json)
    ensures
        member_views(final(members)@) == put(member_views(old(members)@), key@, value@),
{
    let ghost before = member_views(members@);
    let mut i: usize = 0;
    while i < members.len()
        invariant
            i <= members.len(),
            members@ == old(members)@,
            before == member_views(members@),
            member_position(before, key@, 0) == member_position(before, key@, i as int),
        decreases members.len() - i,
    {
        if members[i].0 == key {
            members[i] = (key, value);
            return ;
        }
        i += 1;
    }
    members.push((key, value));
}

/// Puts each of `updates` into `base`, in order.
pub fn overlay_members(base: &mut Vec<(String, Json)>, updates: Vec<(String, Json)>)
    ensures
        member_views(final(base)@) == overlay(member_views(old(base)@), member_views(updates@)),
{
    let ghost start = member_views(base@);
    let ghost all = member_views(updates@);
    for member in iter: updates
        invariant
            iter.seq() == updates@,
            all == member_views(updates@),
            member_views(base@) == overlay(start, all.take(iter.index() as int)),
    {
        proof {
            let done = iter.index() as int;
            assert(all.take(done + 1).drop_last() =~= all.take(done));
        }
        put_member(base, member.0, member.1);
    }
    proof {
        assert(all.take(all.len() as int) =~= all);
    }
}

/// The view of an object is the views of its members.
pub proof fn lemma_object_view(members: Vec<(String, Json)>)
    ensures
        Json::Object(members)@ == JsonView::Object(member_views(members@)),
{
    assert(Json::Object(members)@->Object_0 =~= member_views(members@));
}

/// The values of a list of items.
pub open spec fn item_views(items: Seq<Json>) -> Seq<JsonView> {
    Seq::new(items.len(), |i: int| items[i]@)
}

/// The view of an array is the views of its items.
pub proof fn lemma_array_view(items: Vec<Json>)
    ensures
        Json::Array(items)@ == JsonView::Array(item_views(items@)),
{
    assert(Json::Array(items)@->Array_0 =~= item_views(items@));
}

/// `==` on `str`: whether the two texts hold the same characters.
#[verifier::external_body]
pub(crate) fn same_text(a: &str, b: &str) -> (same: bool)
    ensures
        same == (a@ == b@),
{
    a == b
}

impl Json {
    /// Whether this value is an object.
    pub fn is_object(&self) -> (object: bool)
        ensures
            object == (self@ is Object),
    {
        match self {
            Json::Object(_) => true,
            _ => false,
        }
    }

    /// Whether this value is `null`.
    pub fn is_null(&self) -> (null: bool)
        ensures
            null == (self@ is Null),
    {
        match self {
            Json::Null => true,
            _ => false,
        }
    }

    /// The value under `key`, where this value is an object that has it.
    pub fn get(&self, key: &str) -> (found: Option<&Json>)
        ensures
            match found {
                Some(value) => self@.member(key@) == Some(value@),
                None => self@.member(key@) is None,
            },
    {
        match self {
            Json::Object(members) => {
                let mut i: usize = 0;
                while i < members.len()
                    invariant
                        i <= members.len(),
                        self@.members().len() == members.len(),
                        forall|k: int|
                            0 <= k < members.len() ==> self@.members()[k] == (
                                #[trigger] members[k].0@,
                                members[k].1@,
                            ),
                        self@.member(key@) == find_member(self@.members(), key@, i as int),
                    decreases members.len() - i,
                {
                    if same_text(members[i].0.as_str(), key) {
                        return Some(&members[i].1);
                    }
                    i += 1;
                }
                None
            },
            _ => None,
        }
    }
}

/// The tree of values that `serde_json` holds for a parsed text.
#[verifier::external_type_specification]
#[verifier::external_body]
pub struct ExValue(serde_json::Value);

/// The error that `serde_json` reports for a text that is no JSON.
#[verifier::external_type_specification]
#[verifier::external_body]
pub struct ExError(serde_json::Error);

/// What a `serde_json::Value` holds: the tree that copying it variant by
/// variant gives.
pub uninterp spec fn json_of_value(value: serde_json::Value) -> JsonView;

/// What `serde_json` reads out of a text: `None` where the text is no JSON.
pub uninterp spec fn json_of_text(text: Seq<char>) -> Option<JsonView>;

/// `serde_json::from_str`, read as a `serde_json::Value`: the text parses
/// exactly when `json_of_text` is defined on it, and the value then holds
/// what `json_of_text` names.
#[verifier::external_body]
pub(crate) fn parse_value(text: &str) -> (parsed: Result<serde_json::Value, serde_json::Error>)
    ensures
        match parsed {
            Ok(value) => json_of_text(text@) == Some(json_of_value(value)),
            Err(_) => json_of_text(text@) is None,
        },
{
    serde_json::from_str::<serde_json::Value>(text)
}

/// Copies a `serde_json::Value` into a [`Json`], variant by variant. A
/// number is read by `Number::as_i64`, `Number::as_u64` and
/// `Number::as_f64`, the last by its bits; the members of an object come in
/// the order in which `Map::iter` walks them. The claim is that the copy
/// holds what [`json_of_value`] names, which is what fixes that name.
#[verifier::external_body]
pub(crate) fn value_to_json(value: &serde_json::Value) -> (json: Json)
    ensures
        json@ == json_of_value(*value),
{
    match value {
        serde_json::Value::Null => Json::Null,
        serde_json::Value::Bool(b) => Json::Bool(*b),
        serde_json::Value::Number(n) => {
            let bits = n.as_f64().map(|x| x.to_bits());
            Json::Number(JsonNumber { signed: n.as_i64(), unsigned: n.as_u64(), bits })
        },
        serde_json::Value::String(s) => Json::String(s.clone()),
        serde_json::Value::Array(items) => Json::Array(items.iter().map(value_to_json).collect()),
        serde_json::Value::Object(map) => {
            Json::Object(map.iter().map(|(key, item)| (key.clone(), value_to_json(item))).collect())
        },
    }
}

/// `Display` of a `serde_json::Error`: the message, with line and column.
#[verifier::external_body]
pub(crate) fn error_message(error: &serde_json::Error) -> (message: String)
{
    error.to_string()
}

/// Parses a JSON text.
pub fn parse_json(text: &str) -> (parsed: Result<Json, String>)
    ensures
        match parsed {
            Ok(json) => json_of_text(text@) == Some(json@),
            Err(_) => json_of_text(text@) is None,
        },
{
    match parse_value(text) {
        Ok(value) => Ok(value_to_json(&value)),
        Err(error) => Err(error_message(&error)),
    }
}

} // verus!
