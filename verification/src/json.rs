//! A JSON value held as plain data: the shape that Firestore's REST replies
//! take and that the conversion works on.

use vstd::prelude::*;
use crate::text::str_equal;

verus! {

/// The mathematical model of a JSON value.
#[verifier::ext_equal]
pub enum Json {
    Null,
    Bool(bool),
    Number(Seq<char>),
    Str(Seq<char>),
    Array(Seq<Json>),
    Object(Seq<(Seq<char>, Json)>),
}

/// A JSON value. A number is held as its JSON text (such as `42` or `1.5`);
/// an object as its members in order. serde_json's objects never repeat a
/// member name; `names_unique` states that of a model, and the Firestore
/// conversions keep it.
#[derive(Debug, PartialEq)]
pub enum JsonValue {
    Null,
    Bool(bool),
    Number(String),
    String(String),
    Array(Vec<JsonValue>),
    Object(Vec<(String, JsonValue)>),
}

/// The model of a JSON value.
pub open spec fn model(v: JsonValue) -> Json
    decreases v, 0nat,
{
    match v {
        JsonValue::Null => Json::Null,
        JsonValue::Bool(b) => Json::Bool(b),
        JsonValue::Number(t) => Json::Number(t@),
        JsonValue::String(t) => Json::Str(t@),
        JsonValue::Array(items) => {
            proof {
                assert(decreases_to!(items => items@));
            }
            Json::Array(items_model(items@))
        },
        JsonValue::Object(fields) => {
            proof {
                assert(decreases_to!(fields => fields@));
            }
            Json::Object(members_model(fields@))
        },
    }
}

/// The models of the items `s`, in order.
pub open spec fn items_model(s: Seq<JsonValue>) -> Seq<Json>
    decreases s, 1nat,
{
    if s.len() == 0 {
        Seq::empty()
    } else {
        items_model(s.drop_last()).push(model(s.last()))
    }
}

/// The models of the members `s`: each name's characters with its value's model.
pub open spec fn members_model(s: Seq<(String, JsonValue)>) -> Seq<(Seq<char>, Json)>
    decreases s, 1nat,
{
    if s.len() == 0 {
        Seq::empty()
    } else {
        proof {
            assert(decreases_to!(s[s.len() - 1] => s[s.len() - 1].1));
        }
        members_model(s.drop_last()).push((s.last().0@, model(s.last().1)))
    }
}

impl View for JsonValue {
    type V = Json;

    open spec fn view(&self) -> Json {
        model(*self)
    }
}

/// `items_model` keeps the length and models each item.
pub proof fn lemma_items_model(s: Seq<JsonValue>)
    ensures
        items_model(s).len() == s.len(),
        forall|i: int| 0 <= i < s.len() ==> #[trigger] items_model(s)[i] == s[i]@,
    decreases s.len(),
{
    if s.len() > 0 {
        lemma_items_model(s.drop_last());
    }
}

/// `members_model` keeps the length, the names, and models each value.
pub proof fn lemma_members_model(s: Seq<(String, JsonValue)>)
    ensures
        members_model(s).len() == s.len(),
        forall|i: int|
            0 <= i < s.len() ==> #[trigger] members_model(s)[i] == (s[i].0@, s[i].1@),
    decreases s.len(),
{
    if s.len() > 0 {
        lemma_members_model(s.drop_last());
    }
}

/// Whether the members `m` have pairwise different names.
pub open spec fn distinct_names(m: Seq<(Seq<char>, Json)>) -> bool {
    forall|i: int, j: int| 0 <= i < j < m.len() ==> #[trigger] m[i].0 != #[trigger] m[j].0
}

/// Whether no object in `v`, at any depth, has two members of one name, as
/// in every value that serde_json's map can hold.
pub open spec fn names_unique(v: Json) -> bool
    decreases v, 0nat,
{
    match v {
        Json::Array(items) => items_names_unique(items),
        Json::Object(members) => distinct_names(members) && members_names_unique(members),
        _ => true,
    }
}

/// Whether every item of `s` has unique names.
pub open spec fn items_names_unique(s: Seq<Json>) -> bool
    decreases s, 1nat,
{
    s.len() == 0 || (items_names_unique(s.drop_last()) && names_unique(s.last()))
}

/// Whether the value of every member of `s` has unique names.
pub open spec fn members_names_unique(s: Seq<(Seq<char>, Json)>) -> bool
    decreases s, 1nat,
{
    s.len() == 0 || ({
        proof {
            assert(decreases_to!(s[s.len() - 1] => s[s.len() - 1].1));
        }
        members_names_unique(s.drop_last()) && names_unique(s.last().1)
    })
}

/// `items_names_unique` holds exactly when each item has unique names.
pub proof fn lemma_items_names_unique(s: Seq<Json>)
    ensures
        items_names_unique(s) <==> forall|i: int| 0 <= i < s.len() ==> #[trigger] names_unique(s[i]),
    decreases s.len(),
{
    if s.len() > 0 {
        lemma_items_names_unique(s.drop_last());
        if forall|i: int| 0 <= i < s.len() ==> #[trigger] names_unique(s[i]) {
            assert forall|i: int| 0 <= i < s.drop_last().len() implies #[trigger] names_unique(s.drop_last()[i]) by {
                assert(names_unique(s[i]));
            }
            assert(names_unique(s[s.len() - 1]));
        }
        if items_names_unique(s) {
            assert forall|i: int| 0 <= i < s.len() implies #[trigger] names_unique(s[i]) by {
                if i < s.len() - 1 {
                    assert(names_unique(s.drop_last()[i]));
                }
            }
        }
    }
}

/// `members_names_unique` holds exactly when each member's value has unique names.
pub proof fn lemma_members_names_unique(s: Seq<(Seq<char>, Json)>)
    ensures
        members_names_unique(s) <==> forall|i: int| 0 <= i < s.len() ==> #[trigger] names_unique(s[i].1),
    decreases s.len(),
{
    if s.len() > 0 {
        lemma_members_names_unique(s.drop_last());
        if forall|i: int| 0 <= i < s.len() ==> #[trigger] names_unique(s[i].1) {
            assert forall|i: int| 0 <= i < s.drop_last().len() implies #[trigger] names_unique(s.drop_last()[i].1) by {
                assert(names_unique(s[i].1));
            }
            assert(names_unique(s[s.len() - 1].1));
        }
        if members_names_unique(s) {
            assert forall|i: int| 0 <= i < s.len() implies #[trigger] names_unique(s[i].1) by {
                if i < s.len() - 1 {
                    assert(names_unique(s.drop_last()[i].1));
                }
            }
        }
    }
}

/// A member of a value with unique names has unique names.
pub proof fn lemma_member_names_unique(v: Json, key: Seq<char>)
    requires
        names_unique(v),
    ensures
        member(v, key) matches Some(x) ==> names_unique(x),
{
    if let Json::Object(members) = v {
        lemma_key_position(members, key);
        lemma_members_names_unique(members);
        let i = key_position(members, key);
        if i < members.len() {
            assert(names_unique(members[i].1));
        }
    }
}

/// The position of the first member of `fields` named `key`, or the length
/// of `fields` when there is none.
pub open spec fn key_position(fields: Seq<(Seq<char>, Json)>, key: Seq<char>) -> int
    decreases fields.len(),
{
    if fields.len() == 0 {
        0
    } else if fields[0].0 == key {
        0
    } else {
        1 + key_position(fields.drop_first(), key)
    }
}

/// The value of the member `key` of `v`: `None` when `v` is no object or has
/// no member of that name; the first one when it has several.
pub open spec fn member(v: Json, key: Seq<char>) -> Option<Json> {
    match v {
        Json::Object(fields) => {
            let i = key_position(fields, key);
            if i < fields.len() {
                Some(fields[i].1)
            } else {
                None
            }
        },
        _ => None,
    }
}

/// `key_position` finds the first member with that name.
pub proof fn lemma_key_position(fields: Seq<(Seq<char>, Json)>, key: Seq<char>)
    ensures
        0 <= key_position(fields, key) <= fields.len(),
        key_position(fields, key) < fields.len() ==> fields[key_position(fields, key)].0 == key,
        forall|j: int| 0 <= j < key_position(fields, key) ==> fields[j].0 != key,
    decreases fields.len(),
{
    if fields.len() > 0 && fields[0].0 != key {
        lemma_key_position(fields.drop_first(), key);
        assert forall|j: int| 0 <= j < key_position(fields, key) implies fields[j].0 != key by {
            if j > 0 {
                assert(fields[j] == fields.drop_first()[j - 1]);
            }
        }
    }
}

/// Looking up `key` in an object gives the value of its first member of
/// that name, and nothing exactly when no member has that name; a value that
/// is no object has no members.
pub proof fn lemma_member_is_first_match(fields: Seq<(Seq<char>, Json)>, key: Seq<char>, v: Json)
    ensures
        member(Json::Object(fields), key) is None <==> forall|j: int| 0 <= j < fields.len() ==> fields[j].0 != key,
        forall|i: int|
            0 <= i < fields.len() && fields[i].0 == key && (forall|j: int| 0 <= j < i ==> fields[j].0 != key)
                ==> member(Json::Object(fields), key) == Some(#[trigger] fields[i].1),
        !(v is Object) ==> member(v, key) is None,
{
    lemma_key_position(fields, key);
    let k = key_position(fields, key);
    assert forall|i: int|
        0 <= i < fields.len() && fields[i].0 == key && (forall|j: int| 0 <= j < i ==> fields[j].0 != key)
            implies member(Json::Object(fields), key) == Some(#[trigger] fields[i].1) by {
        if k < i {
            assert(fields[k].0 == key);
        } else if k > i {
            assert(fields[i].0 != key);
        }
    }
    if member(Json::Object(fields), key) is Some {
        assert(fields[k].0 == key);
    }
}

/// A member of `v` is smaller than `v`.
pub proof fn lemma_member_decreases(v: Json, key: Seq<char>)
    ensures
        member(v, key) matches Some(x) ==> decreases_to!(v => x),
{
    if let Json::Object(fields) = v {
        lemma_key_position(fields, key);
        let i = key_position(fields, key);
        if i < fields.len() {
            assert(decreases_to!(v => fields));
            assert(decreases_to!(fields => fields[i]));
            assert(decreases_to!(fields[i] => fields[i].1));
        }
    }
}

impl Clone for JsonValue {
    fn clone(&self) -> (r: JsonValue)
        ensures
            r@ == self@,
    {
        self.duplicate()
    }
}

impl JsonValue {
    /// A copy of `self`, with the same model.
    pub fn duplicate(&self) -> (r: JsonValue)
        ensures
            r@ == self@,
        decreases self,
    {
        proof {
            lemma_view_parts(*self);
        }
        match self {
            JsonValue::Null => JsonValue::Null,
            JsonValue::Bool(b) => JsonValue::Bool(*b),
            JsonValue::Number(t) => JsonValue::Number(t.clone()),
            JsonValue::String(t) => JsonValue::String(t.clone()),
            JsonValue::Array(items) => {
                let mut out: Vec<JsonValue> = Vec::new();
                let n = items.len();
                let mut i: usize = 0;
                while i < n
                    invariant
                        n == items@.len(),
                        *self == JsonValue::Array(*items),
                        i <= n,
                        out@.len() == i,
                        forall|j: int| 0 <= j < i ==> (#[trigger] out@[j])@ == items@[j]@,
                    decreases n - i,
                {
                    proof {
                        lemma_vec_item_decreases(*self, i as int);
                    }
                    let item = items[i].duplicate();
                    out.push(item);
                    i = i + 1;
                }
                let r = JsonValue::Array(out);
                proof {
                    lemma_view_parts(r);
                    lemma_view_parts(*self);
                    assert forall|j: int| 0 <= j < n implies r@->Array_0[j] == self@->Array_0[j] by {
                        assert(out@[j]@ == items@[j]@);
                    }
                }
                assert(r@->Array_0 =~= self@->Array_0);
                r
            },
            JsonValue::Object(fields) => {
                let mut out: Vec<(String, JsonValue)> = Vec::new();
                let n = fields.len();
                let mut i: usize = 0;
                while i < n
                    invariant
                        n == fields@.len(),
                        *self == JsonValue::Object(*fields),
                        i <= n,
                        out@.len() == i,
                        forall|j: int|
                            0 <= j < i ==> (#[trigger] out@[j]).0@ == fields@[j].0@ && out@[j].1@
                                == fields@[j].1@,
                    decreases n - i,
                {
                    proof {
                        lemma_vec_member_decreases(*self, i as int);
                    }
                    let key = fields[i].0.clone();
                    let value = fields[i].1.duplicate();
                    out.push((key, value));
                    i = i + 1;
                }
                let r = JsonValue::Object(out);
                proof {
                    lemma_view_parts(r);
                    lemma_view_parts(*self);
                    assert forall|j: int| 0 <= j < n implies r@->Object_0[j] == self@->Object_0[j] by {
                        assert(out@[j].0@ == fields@[j].0@ && out@[j].1@ == fields@[j].1@);
                    }
                }
                assert(r@->Object_0 =~= self@->Object_0);
                r
            },
        }
    }

    /// The value of the member `key` when `self` is an object that has one
    /// (the first, when it has several).
    pub fn get(&self, key: &str) -> (r: Option<&JsonValue>)
        ensures
            match r {
                Some(x) => member(self@, key@) == Some(x@),
                None => member(self@, key@) is None,
            },
    {
        match self {
            JsonValue::Object(fields) => {
                let ghost model = self@->Object_0;
                proof {
                    lemma_view_parts(*self);
                    lemma_key_position(model, key@);
                }
                let n = fields.len();
                let mut i: usize = 0;
                while i < n
                    invariant
                        n == fields@.len(),
                        *self == JsonValue::Object(*fields),
                        model == self@->Object_0,
                        model.len() == n,
                        forall|j: int| 0 <= j < n ==> (#[trigger] model[j]).0 == fields@[j].0@ && model[j].1 == fields@[j].1@,
                        i <= n,
                        i <= key_position(model, key@),
                        0 <= key_position(model, key@) <= n,
                        key_position(model, key@) < n ==> model[key_position(model, key@)].0 == key@,
                        forall|j: int| 0 <= j < key_position(model, key@) ==> model[j].0 != key@,
                    decreases n - i,
                {
                    if str_equal(fields[i].0.as_str(), key) {
                        assert(model[i as int].0 == key@);
                        return Some(&fields[i].1);
                    }
                    i = i + 1;
                }
                None
            },
            _ => None,
        }
    }

    /// The text of `self` when it is a JSON string.
    pub fn as_str(&self) -> (r: Option<&String>)
        ensures
            match r {
                Some(t) => self@ == Json::Str(t@),
                None => !(self@ is Str),
            },
    {
        match self {
            JsonValue::String(t) => Some(t),
            _ => None,
        }
    }

    /// The items of `self` when it is a JSON array.
    pub fn as_array(&self) -> (r: Option<&Vec<JsonValue>>)
        ensures
            match r {
                Some(items) => self@ is Array && self@->Array_0.len() == items@.len()
                    && forall|j: int| 0 <= j < items@.len() ==> #[trigger] items@[j]@ == self@->Array_0[j],
                None => !(self@ is Array),
            },
    {
        proof {
            lemma_view_parts(*self);
        }
        match self {
            JsonValue::Array(items) => Some(items),
            _ => None,
        }
    }
}

/// The model of an array or object, item by item.
pub proof fn lemma_view_parts(v: JsonValue)
    ensures
        v matches JsonValue::Array(items) ==> {
            &&& v@ is Array
            &&& v@->Array_0.len() == items@.len()
            &&& forall|j: int| 0 <= j < items@.len() ==> #[trigger] v@->Array_0[j] == items@[j]@
        },
        v matches JsonValue::Object(fields) ==> {
            &&& v@ is Object
            &&& v@->Object_0.len() == fields@.len()
            &&& forall|j: int|
                0 <= j < fields@.len() ==> #[trigger] v@->Object_0[j] == (fields@[j].0@, fields@[j].1@)
        },
{
    match v {
        JsonValue::Array(items) => lemma_items_model(items@),
        JsonValue::Object(fields) => lemma_members_model(fields@),
        _ => {},
    }
}

/// An item of an array is smaller than the array.
pub proof fn lemma_vec_item_decreases(v: JsonValue, i: int)
    requires
        v is Array,
        0 <= i < v->Array_0@.len(),
    ensures
        decreases_to!(v => v->Array_0@[i]),
{
    if let JsonValue::Array(items) = v {
        assert(decreases_to!(v => items));
        assert(decreases_to!(items => items@));
        assert(decreases_to!(items@ => items@[i]));
    }
}

/// The value of a member of an object is smaller than the object.
pub proof fn lemma_vec_member_decreases(v: JsonValue, i: int)
    requires
        v is Object,
        0 <= i < v->Object_0@.len(),
    ensures
        decreases_to!(v => v->Object_0@[i].1),
{
    if let JsonValue::Object(fields) = v {
        assert(decreases_to!(v => fields));
        assert(decreases_to!(fields => fields@));
        assert(decreases_to!(fields@ => fields@[i]));
        assert(decreases_to!(fields@[i] => fields@[i].1));
    }
}

} // verus!
