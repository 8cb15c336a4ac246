//! Firestore: the document conversion from typed REST values to plain JSON,
//! and the request plans of the document reads.

use vstd::prelude::*;
use crate::error::ApiError;
use crate::json::{
    Json, JsonValue, distinct_names, items_names_unique, key_position, lemma_items_names_unique,
    lemma_member_decreases, lemma_member_names_unique, lemma_members_names_unique, lemma_view_parts,
    member, members_names_unique, names_unique,
};
use crate::text::{
    decimal_digits, join, i64_to_text, int_text, lemma_int_text_parses_back, parse_i64, parse_i64_spec,
    push_decimal,
};

verus! {

/// The plain value of the Firestore integer text `t`: the number it reads
/// as an `i64`, else `n` itself.
pub open spec fn integer_value(n: Json) -> Json {
    match n {
        Json::Str(t) => match parse_i64_spec(t) {
            Some(i) => Json::Number(int_text(i as int)),
            None => n,
        },
        _ => n,
    }
}

/// The items of `v.arrayValue.values`, when that is an array.
pub open spec fn array_values(v: Json) -> Option<Seq<Json>> {
    match member(v, "arrayValue"@) {
        Some(a) => match member(a, "values"@) {
            Some(Json::Array(items)) => Some(items),
            _ => None,
        },
        None => None,
    }
}

/// `v.mapValue.fields`, when it is there.
pub open spec fn map_fields(v: Json) -> Option<Json> {
    match member(v, "mapValue"@) {
        Some(m) => member(m, "fields"@),
        None => None,
    }
}

/// The plain JSON value of the Firestore typed value `v`: the first that
/// applies of `stringValue`, `integerValue` (read as an `i64` when it can be),
/// `booleanValue`, `doubleValue`, an `arrayValue` with a `values` array (its
/// items, each converted), a `mapValue` with `fields` (converted as fields),
/// `nullValue` (giving null) and `timestampValue`. When none applies, an
/// `arrayValue` member gives the empty array (Firestore leaves `values` out
/// of an empty array), else a `mapValue` member the empty object, else the
/// value is `v` itself.
pub open spec fn convert_value(v: Json) -> Json
    decreases v, 0nat,
{
    if let Some(s) = member(v, "stringValue"@) {
        s
    } else if let Some(n) = member(v, "integerValue"@) {
        integer_value(n)
    } else if let Some(b) = member(v, "booleanValue"@) {
        b
    } else if let Some(d) = member(v, "doubleValue"@) {
        d
    } else if let Some(items) = array_values(v) {
        proof {
            lemma_array_values_decreases(v);
        }
        Json::Array(convert_items(items))
    } else if let Some(f) = map_fields(v) {
        proof {
            lemma_map_fields_decreases(v);
        }
        convert_fields(f)
    } else if member(v, "nullValue"@) is Some {
        Json::Null
    } else if let Some(ts) = member(v, "timestampValue"@) {
        ts
    } else if member(v, "arrayValue"@) is Some {
        Json::Array(Seq::empty())
    } else if member(v, "mapValue"@) is Some {
        Json::Object(Seq::empty())
    } else {
        v
    }
}

/// Each item converted, in order.
pub open spec fn convert_items(s: Seq<Json>) -> Seq<Json>
    decreases s, 1nat,
{
    if s.len() == 0 {
        Seq::empty()
    } else {
        convert_items(s.drop_last()).push(convert_value(s.last()))
    }
}

/// The plain JSON of a Firestore `fields` map: an object keeps its member
/// names, in order, with each value converted; anything else stays as it is.
pub open spec fn convert_fields(f: Json) -> Json
    decreases f, 0nat,
{
    match f {
        Json::Object(members) => Json::Object(convert_members(members)),
        _ => f,
    }
}

/// Each member's value converted, names and order kept.
pub open spec fn convert_members(s: Seq<(Seq<char>, Json)>) -> Seq<(Seq<char>, Json)>
    decreases s, 1nat,
{
    if s.len() == 0 {
        Seq::empty()
    } else {
        proof {
            assert(decreases_to!(s[s.len() - 1] => s[s.len() - 1].1));
        }
        convert_members(s.drop_last()).push((s.last().0, convert_value(s.last().1)))
    }
}

/// The items of `arrayValue.values` lie inside `v`.
pub proof fn lemma_array_values_decreases(v: Json)
    ensures
        array_values(v) matches Some(items) ==> decreases_to!(v => items),
{
    if let Some(a) = member(v, "arrayValue"@) {
        lemma_member_decreases(v, "arrayValue"@);
        lemma_member_decreases(a, "values"@);
        if let Some(Json::Array(items)) = member(a, "values"@) {
            let vals = Json::Array(items);
            assert(decreases_to!(vals => items));
        }
    }
}

/// `mapValue.fields` lies inside `v`.
pub proof fn lemma_map_fields_decreases(v: Json)
    ensures
        map_fields(v) matches Some(f) ==> decreases_to!(v => f),
{
    if let Some(m) = member(v, "mapValue"@) {
        lemma_member_decreases(v, "mapValue"@);
        lemma_member_decreases(m, "fields"@);
    }
}

/// The members of an object lie inside it.
pub proof fn lemma_object_members_decreases(v: Json)
    requires
        v is Object,
    ensures
        decreases_to!(v => v->Object_0),
{
    if let Json::Object(members) = v {
        assert(decreases_to!(v => members));
    }
}

/// `convert_items` converts item by item.
pub proof fn lemma_convert_items(s: Seq<Json>)
    ensures
        convert_items(s).len() == s.len(),
        forall|i: int| 0 <= i < s.len() ==> #[trigger] convert_items(s)[i] == convert_value(s[i]),
    decreases s.len(),
{
    if s.len() > 0 {
        lemma_convert_items(s.drop_last());
    }
}

/// `convert_members` converts member by member and keeps the names.
pub proof fn lemma_convert_members(s: Seq<(Seq<char>, Json)>)
    ensures
        convert_members(s).len() == s.len(),
        forall|i: int|
            0 <= i < s.len() ==> #[trigger] convert_members(s)[i] == (s[i].0, convert_value(s[i].1)),
    decreases s.len(),
{
    if s.len() > 0 {
        lemma_convert_members(s.drop_last());
    }
}

/// Converts a Firestore `fields` map to plain JSON: an object keeps its
/// member names, in order, with each value converted by
/// [`convert_firestore_value`]; anything else is returned unchanged.
pub fn convert_firestore_fields(fields: &JsonValue) -> (r: JsonValue)
    ensures
        r@ == convert_fields(fields@),
        names_unique(fields@) ==> names_unique(r@),
    decreases fields@, 1nat,
{
    proof {
        lemma_view_parts(*fields);
        if names_unique(fields@) {
            lemma_convert_fields_keeps_names_unique(fields@);
        }
    }
    match fields {
        JsonValue::Object(members) => {
            let ghost model = fields@->Object_0;
            proof {
                lemma_object_members_decreases(fields@);
            }
            let mut out: Vec<(String, JsonValue)> = Vec::new();
            let n = members.len();
            let mut i: usize = 0;
            while i < n
                invariant
                    n == members@.len(),
                    model == fields@->Object_0,
                    decreases_to!(fields@ => model),
                    model.len() == n,
                    forall|j: int|
                        0 <= j < n ==> #[trigger] model[j] == (members@[j].0@, members@[j].1@),
                    i <= n,
                    out@.len() == i,
                    forall|j: int|
                        0 <= j < i ==> (#[trigger] out@[j]).0@ == model[j].0 && out@[j].1@
                            == convert_value(model[j].1),
                decreases n - i,
            {
                proof {
                    assert(model[i as int] == (members@[i as int].0@, members@[i as int].1@));
                    assert(decreases_to!(model => model[i as int]));
                    assert(decreases_to!(model[i as int] => model[i as int].1));
                }
                let key = members[i].0.clone();
                let value = convert_firestore_value(&members[i].1);
                out.push((key, value));
                i = i + 1;
            }
            let r = JsonValue::Object(out);
            proof {
                lemma_view_parts(r);
                lemma_convert_members(model);
                assert(r@->Object_0 =~= convert_members(model));
            }
            r
        },
        _ => fields.duplicate(),
    }
}

/// Converts one Firestore typed value to plain JSON (see [`convert_value`]).
pub fn convert_firestore_value(val: &JsonValue) -> (r: JsonValue)
    ensures
        r@ == convert_value(val@),
        names_unique(val@) ==> names_unique(r@),
    decreases val@, 0nat,
{
    proof {
        if names_unique(val@) {
            lemma_convert_value_keeps_names_unique(val@);
        }
    }
    if let Some(s) = val.get("stringValue") {
        return s.duplicate();
    }
    if let Some(n) = val.get("integerValue") {
        if let Some(t) = n.as_str() {
            if let Some(i) = parse_i64(t.as_str()) {
                return JsonValue::Number(i64_to_text(i));
            }
        }
        return n.duplicate();
    }
    if let Some(b) = val.get("booleanValue") {
        return b.duplicate();
    }
    if let Some(d) = val.get("doubleValue") {
        return d.duplicate();
    }
    if let Some(a) = val.get("arrayValue") {
        if let Some(vs) = a.get("values") {
            if let Some(items) = vs.as_array() {
                let ghost model = vs@->Array_0;
                proof {
                    lemma_array_values_decreases(val@);
                    assert(array_values(val@) == Some(model));
                }
                let mut out: Vec<JsonValue> = Vec::new();
                let n = items.len();
                let mut i: usize = 0;
                while i < n
                    invariant
                        n == items@.len(),
                        model.len() == n,
                        forall|j: int| 0 <= j < n ==> #[trigger] items@[j]@ == model[j],
                        decreases_to!(val@ => model),
                        i <= n,
                        out@.len() == i,
                        forall|j: int| 0 <= j < i ==> (#[trigger] out@[j])@ == convert_value(model[j]),
                    decreases n - i,
                {
                    proof {
                        assert(items@[i as int]@ == model[i as int]);
                        assert(decreases_to!(model => model[i as int]));
                    }
                    let item = convert_firestore_value(&items[i]);
                    out.push(item);
                    i = i + 1;
                }
                let r = JsonValue::Array(out);
                proof {
                    lemma_view_parts(r);
                    lemma_convert_items(model);
                    assert(r@->Array_0 =~= convert_items(model));
                }
                return r;
            }
        }
    }
    if let Some(m) = val.get("mapValue") {
        if let Some(f) = m.get("fields") {
            proof {
                lemma_map_fields_decreases(val@);
            }
            return convert_firestore_fields(f);
        }
    }
    if val.get("nullValue").is_some() {
        return JsonValue::Null;
    }
    if let Some(ts) = val.get("timestampValue") {
        return ts.duplicate();
    }
    if val.get("arrayValue").is_some() {
        let r = JsonValue::Array(Vec::new());
        proof {
            lemma_view_parts(r);
            assert(r@->Array_0 =~= Seq::<Json>::empty());
        }
        return r;
    }
    if val.get("mapValue").is_some() {
        let r = JsonValue::Object(Vec::new());
        proof {
            lemma_view_parts(r);
            assert(r@->Object_0 =~= Seq::<(Seq<char>, Json)>::empty());
        }
        return r;
    }
    val.duplicate()
}

/// A Firestore typed value with the single member `key` holding `x`.
pub open spec fn typed(key: Seq<char>, x: Json) -> Json {
    Json::Object(seq![(key, x)])
}

/// Converting a `fields` map keeps it an object with the same member names,
/// in the same order, each value converted.
pub proof fn lemma_fields_keep_names(f: Json)
    requires
        f is Object,
    ensures
        convert_fields(f) is Object,
        convert_fields(f)->Object_0.len() == f->Object_0.len(),
        forall|i: int|
            0 <= i < f->Object_0.len() ==> (#[trigger] convert_fields(f)->Object_0[i]).0
                == f->Object_0[i].0 && convert_fields(f)->Object_0[i].1 == convert_value(
                f->Object_0[i].1,
            ),
{
    lemma_convert_members(f->Object_0);
}

/// Converting a value whose objects have unique member names gives a value
/// whose objects have unique member names.
pub proof fn lemma_convert_value_keeps_names_unique(v: Json)
    requires
        names_unique(v),
    ensures
        names_unique(convert_value(v)),
    decreases v, 0nat,
{
    lemma_member_names_unique(v, "stringValue"@);
    lemma_member_names_unique(v, "integerValue"@);
    lemma_member_names_unique(v, "booleanValue"@);
    lemma_member_names_unique(v, "doubleValue"@);
    lemma_member_names_unique(v, "timestampValue"@);
    if member(v, "stringValue"@) is Some {
    } else if let Some(n) = member(v, "integerValue"@) {
    } else if member(v, "booleanValue"@) is Some {
    } else if member(v, "doubleValue"@) is Some {
    } else if let Some(items) = array_values(v) {
        let a = member(v, "arrayValue"@)->Some_0;
        lemma_array_values_decreases(v);
        lemma_member_names_unique(v, "arrayValue"@);
        lemma_member_names_unique(a, "values"@);
        lemma_items_names_unique(items);
        lemma_convert_items(items);
        assert forall|i: int| 0 <= i < items.len() implies #[trigger] names_unique(convert_items(items)[i]) by {
            assert(decreases_to!(items => items[i]));
            lemma_convert_value_keeps_names_unique(items[i]);
        }
        lemma_items_names_unique(convert_items(items));
    } else if let Some(f) = map_fields(v) {
        let m = member(v, "mapValue"@)->Some_0;
        lemma_map_fields_decreases(v);
        lemma_member_names_unique(v, "mapValue"@);
        lemma_member_names_unique(m, "fields"@);
        lemma_convert_fields_keeps_names_unique(f);
    } else if member(v, "nullValue"@) is Some {
    } else if member(v, "timestampValue"@) is Some {
    } else if member(v, "arrayValue"@) is Some {
        lemma_items_names_unique(Seq::<Json>::empty());
    } else if member(v, "mapValue"@) is Some {
        lemma_members_names_unique(Seq::<(Seq<char>, Json)>::empty());
    }
}

/// Converting a `fields` map whose objects have unique member names gives
/// a value whose objects have unique member names.
pub proof fn lemma_convert_fields_keeps_names_unique(f: Json)
    requires
        names_unique(f),
    ensures
        names_unique(convert_fields(f)),
    decreases f, 1nat,
{
    if let Json::Object(members) = f {
        lemma_convert_members(members);
        lemma_members_names_unique(members);
        let out = convert_members(members);
        assert forall|i: int| 0 <= i < out.len() implies #[trigger] names_unique(out[i].1) by {
            assert(decreases_to!(f => members));
            assert(decreases_to!(members => members[i]));
            assert(decreases_to!(members[i] => members[i].1));
            lemma_convert_value_keeps_names_unique(members[i].1);
        }
        lemma_members_names_unique(out);
        assert(distinct_names(out)) by {
            assert forall|i: int, j: int| 0 <= i < j < out.len() implies #[trigger] out[i].0 != #[trigger] out[j].0 by {
                assert(members[i].0 != members[j].0);
            }
        }
    }
}

/// A `fields` member that is no object is kept as it is.
pub proof fn lemma_non_object_fields_pass(f: Json)
    requires
        !(f is Object),
    ensures
        convert_fields(f) == f,
{
}

/// A value that is no object has no typed member and passes through unchanged.
pub proof fn lemma_plain_values_pass(v: Json)
    requires
        !(v is Object),
    ensures
        convert_value(v) == v,
{
}

/// A `stringValue`, `booleanValue`, `doubleValue` or `timestampValue`
/// wrapper gives the value it wraps; a `nullValue` wrapper gives null.
pub proof fn lemma_wrappers_unwrap(x: Json)
    ensures
        convert_value(typed("stringValue"@, x)) == x,
        convert_value(typed("booleanValue"@, x)) == x,
        convert_value(typed("doubleValue"@, x)) == x,
        convert_value(typed("timestampValue"@, x)) == x,
        convert_value(typed("nullValue"@, x)) == Json::Null,
{
    lemma_typed_names_differ();
    lemma_typed_members(x, "stringValue"@);
    lemma_typed_members(x, "booleanValue"@);
    lemma_typed_members(x, "doubleValue"@);
    lemma_typed_members(x, "timestampValue"@);
    lemma_typed_members(x, "nullValue"@);
}

/// Which of the typed member names `typed(key, x)` answers to.
pub proof fn lemma_typed_members(x: Json, key: Seq<char>)
    ensures
        member(typed(key, x), "stringValue"@) == (if key == "stringValue"@ { Some(x) } else { None }),
        member(typed(key, x), "integerValue"@) == (if key == "integerValue"@ { Some(x) } else { None }),
        member(typed(key, x), "booleanValue"@) == (if key == "booleanValue"@ { Some(x) } else { None }),
        member(typed(key, x), "doubleValue"@) == (if key == "doubleValue"@ { Some(x) } else { None }),
        member(typed(key, x), "arrayValue"@) == (if key == "arrayValue"@ { Some(x) } else { None }),
        member(typed(key, x), "mapValue"@) == (if key == "mapValue"@ { Some(x) } else { None }),
        member(typed(key, x), "nullValue"@) == (if key == "nullValue"@ { Some(x) } else { None }),
        member(typed(key, x), "timestampValue"@) == (if key == "timestampValue"@ { Some(x) } else { None }),
{
    lemma_single_member(key, x, "stringValue"@);
    lemma_single_member(key, x, "integerValue"@);
    lemma_single_member(key, x, "booleanValue"@);
    lemma_single_member(key, x, "doubleValue"@);
    lemma_single_member(key, x, "arrayValue"@);
    lemma_single_member(key, x, "mapValue"@);
    lemma_single_member(key, x, "nullValue"@);
    lemma_single_member(key, x, "timestampValue"@);
}

/// The typed member names differ from one another.
pub proof fn lemma_typed_names_differ()
    ensures
        "stringValue"@ != "integerValue"@,
        "stringValue"@ != "booleanValue"@,
        "stringValue"@ != "doubleValue"@,
        "stringValue"@ != "timestampValue"@,
        "stringValue"@ != "nullValue"@,
        "integerValue"@ != "booleanValue"@,
        "integerValue"@ != "doubleValue"@,
        "integerValue"@ != "timestampValue"@,
        "integerValue"@ != "nullValue"@,
        "booleanValue"@ != "doubleValue"@,
        "booleanValue"@ != "timestampValue"@,
        "booleanValue"@ != "nullValue"@,
        "doubleValue"@ != "timestampValue"@,
        "doubleValue"@ != "nullValue"@,
        "arrayValue"@ != "stringValue"@,
        "arrayValue"@ != "booleanValue"@,
        "arrayValue"@ != "doubleValue"@,
        "arrayValue"@ != "timestampValue"@,
        "arrayValue"@ != "nullValue"@,
        "mapValue"@ != "stringValue"@,
        "mapValue"@ != "booleanValue"@,
        "mapValue"@ != "doubleValue"@,
        "mapValue"@ != "timestampValue"@,
        "mapValue"@ != "nullValue"@,
        "timestampValue"@ != "nullValue"@,
        "arrayValue"@ != "integerValue"@,
        "mapValue"@ != "integerValue"@,
        "mapValue"@ != "arrayValue"@,
{
    reveal_strlit("stringValue");
    reveal_strlit("integerValue");
    reveal_strlit("booleanValue");
    reveal_strlit("doubleValue");
    reveal_strlit("arrayValue");
    reveal_strlit("mapValue");
    reveal_strlit("nullValue");
    reveal_strlit("timestampValue");
    assert("arrayValue"@.len() == 10);
    assert("timestampValue"@.len() == 14);
    assert("nullValue"@.len() == 9);
    assert("integerValue"@.len() == 12);
    assert("mapValue"@.len() == 8);
    assert("stringValue"@[0] != "doubleValue"@[0]);
    assert("integerValue"@[0] != "booleanValue"@[0]);
}

/// The single member of `typed(key, x)` is found under `key` and no other name.
pub proof fn lemma_single_member(key: Seq<char>, x: Json, q: Seq<char>)
    ensures
        member(typed(key, x), q) == (if key == q { Some(x) } else { None }),
{
    let f = typed(key, x)->Object_0;
    assert(f[0] == (key, x));
    assert(f.drop_first().len() == 0);
    assert(key_position(f.drop_first(), q) == 0);
}

/// An `arrayValue` wrapper without `values` is an empty array and a
/// `mapValue` wrapper without `fields` is an empty object: Firestore's
/// encodings of both.
pub proof fn lemma_empty_wrappers()
    ensures
        convert_value(typed("arrayValue"@, Json::Object(Seq::empty()))) == Json::Array(Seq::empty()),
        convert_value(typed("mapValue"@, Json::Object(Seq::empty()))) == Json::Object(Seq::empty()),
{
    let e = Json::Object(Seq::empty());
    lemma_typed_names_differ();
    lemma_typed_members(e, "arrayValue"@);
    lemma_typed_members(e, "mapValue"@);
    assert(member(e, "values"@) is None);
    assert(member(e, "fields"@) is None);
}

/// An `integerValue` wrapper around the decimal text of an `i64` gives that
/// number; one around text that is no `i64` gives the text unchanged.
pub proof fn lemma_integer_wrapper(i: i64, t: Seq<char>)
    ensures
        convert_value(typed("integerValue"@, Json::Str(int_text(i as int)))) == Json::Number(int_text(i as int)),
        parse_i64_spec(t) is None ==> convert_value(typed("integerValue"@, Json::Str(t))) == Json::Str(t),
{
    lemma_typed_names_differ();
    lemma_int_text_parses_back(i);
    lemma_typed_members(Json::Str(int_text(i as int)), "integerValue"@);
    lemma_typed_members(Json::Str(t), "integerValue"@);
}

/// A value whose first typed member is an `arrayValue` with a `values`
/// array converts to an array of the same length, item by item: the i-th
/// item of the result is the i-th item converted, whatever the item count.
pub proof fn lemma_array_converts_item_by_item(v: Json, items: Seq<Json>)
    requires
        member(v, "stringValue"@) is None,
        member(v, "integerValue"@) is None,
        member(v, "booleanValue"@) is None,
        member(v, "doubleValue"@) is None,
        array_values(v) == Some(items),
    ensures
        convert_value(v) is Array,
        convert_value(v)->Array_0.len() == items.len(),
        forall|i: int| 0 <= i < items.len() ==> #[trigger] convert_value(v)->Array_0[i] == convert_value(items[i]),
{
    lemma_convert_items(items);
}

/// `{"arrayValue": {"values": items}}` converts to the array of the items,
/// each converted; in particular a one-item array stays a one-item array.
pub proof fn lemma_array_wrapper(items: Seq<Json>, x: Json)
    ensures
        convert_value(typed("arrayValue"@, typed("values"@, Json::Array(items)))) is Array,
        convert_value(typed("arrayValue"@, typed("values"@, Json::Array(items))))->Array_0.len() == items.len(),
        forall|i: int|
            0 <= i < items.len() ==> #[trigger] convert_value(
                typed("arrayValue"@, typed("values"@, Json::Array(items))),
            )->Array_0[i] == convert_value(items[i]),
        convert_value(typed("arrayValue"@, typed("values"@, Json::Array(seq![x])))) == Json::Array(
            seq![convert_value(x)],
        ),
{
    let a = typed("values"@, Json::Array(items));
    lemma_typed_names_differ();
    lemma_typed_members(a, "arrayValue"@);
    lemma_single_member("values"@, Json::Array(items), "values"@);
    lemma_array_converts_item_by_item(typed("arrayValue"@, a), items);
    let one = seq![x];
    let b = typed("values"@, Json::Array(one));
    lemma_typed_members(b, "arrayValue"@);
    lemma_single_member("values"@, Json::Array(one), "values"@);
    lemma_array_converts_item_by_item(typed("arrayValue"@, b), one);
    assert(convert_value(typed("arrayValue"@, b))->Array_0 =~= seq![convert_value(x)]);
}

/// A value whose first typed member is a `mapValue` with an object of
/// `fields` converts to an object with the same member names, in order,
/// each value converted.
pub proof fn lemma_map_converts_member_by_member(v: Json, f: Json)
    requires
        member(v, "stringValue"@) is None,
        member(v, "integerValue"@) is None,
        member(v, "booleanValue"@) is None,
        member(v, "doubleValue"@) is None,
        array_values(v) is None,
        map_fields(v) == Some(f),
        f is Object,
    ensures
        convert_value(v) is Object,
        convert_value(v)->Object_0.len() == f->Object_0.len(),
        forall|i: int|
            0 <= i < f->Object_0.len() ==> (#[trigger] convert_value(v)->Object_0[i]).0 == f->Object_0[i].0
                && convert_value(v)->Object_0[i].1 == convert_value(f->Object_0[i].1),
{
    lemma_convert_members(f->Object_0);
}

/// Which typed member decides a conversion, in order: `stringValue`, then
/// `integerValue` (the number of an `i64` text, else the member unchanged),
/// `booleanValue`, `doubleValue`, an array with `values`, a map with
/// `fields`, `nullValue`, `timestampValue`; a value with none of the typed
/// members passes through unchanged.
pub proof fn lemma_typed_member_order(v: Json)
    ensures
        member(v, "stringValue"@) matches Some(s) ==> convert_value(v) == s,
        member(v, "stringValue"@) is None ==> (member(v, "integerValue"@) matches Some(n) ==> convert_value(v)
            == (match n {
            Json::Str(t) => match parse_i64_spec(t) {
                Some(i) => Json::Number(int_text(i as int)),
                None => n,
            },
            _ => n,
        })),
        member(v, "stringValue"@) is None && member(v, "integerValue"@) is None ==> (member(
            v,
            "booleanValue"@,
        ) matches Some(b) ==> convert_value(v) == b),
        member(v, "stringValue"@) is None && member(v, "integerValue"@) is None && member(v, "booleanValue"@) is None
            ==> (member(v, "doubleValue"@) matches Some(d) ==> convert_value(v) == d),
        member(v, "stringValue"@) is None && member(v, "integerValue"@) is None && member(v, "booleanValue"@) is None
            && member(v, "doubleValue"@) is None && array_values(v) is None && map_fields(v) is None ==> (
        member(v, "nullValue"@) is Some ==> convert_value(v) == Json::Null),
        member(v, "stringValue"@) is None && member(v, "integerValue"@) is None && member(v, "booleanValue"@) is None
            && member(v, "doubleValue"@) is None && array_values(v) is None && map_fields(v) is None && member(
            v,
            "nullValue"@,
        ) is None ==> (member(v, "timestampValue"@) matches Some(t) ==> convert_value(v) == t),
        member(v, "stringValue"@) is None && member(v, "integerValue"@) is None && member(v, "booleanValue"@) is None
            && member(v, "doubleValue"@) is None && member(v, "arrayValue"@) is None && member(v, "mapValue"@)
            is None && member(v, "nullValue"@) is None && member(v, "timestampValue"@) is None ==> convert_value(v)
            == v,
        !(v is Object) ==> convert_value(v) == v,
{
}

/// A document with an object of `fields` reads to an object with the same
/// member names, in order, each value converted; a document without
/// `fields` is refused with "Document missing 'fields'". Nothing else can
/// make a read fail.
pub proof fn lemma_document_reads_fields(doc: Json, r: Result<JsonValue, ApiError>)
    requires
        document_outcome(doc, r),
    ensures
        r is Err <==> member(doc, "fields"@) is None,
        r matches Err(e) ==> e.message@ == "Document missing 'fields'"@,
        member(doc, "fields"@) matches Some(Json::Object(m)) ==> (r matches Ok(v) && v@ is Object
            && v@->Object_0.len() == m.len() && forall|i: int|
            0 <= i < m.len() ==> (#[trigger] v@->Object_0[i]).0 == m[i].0 && v@->Object_0[i].1
                == convert_value(m[i].1)),
{
    if let Some(Json::Object(m)) = member(doc, "fields"@) {
        lemma_convert_members(m);
    }
}

/// What reading the Firestore document `doc` gives: the plain JSON of its
/// `fields` member, or, without one, the error "Document missing 'fields'".
pub open spec fn document_outcome(doc: Json, r: Result<JsonValue, ApiError>) -> bool {
    match member(doc, "fields"@) {
        Some(f) => r matches Ok(v) && v@ == convert_fields(f),
        None => r matches Err(e) && e.message@ == "Document missing 'fields'"@,
    }
}

/// Reads a Firestore document: the plain JSON of its `fields` member, or the
/// error "Document missing 'fields'" when it has none.
pub fn parse_firestore_document(doc: &JsonValue) -> (r: Result<JsonValue, ApiError>)
    ensures
        document_outcome(doc@, r),
{
    match doc.get("fields") {
        Some(fields) => Ok(convert_firestore_fields(fields)),
        None => Err(ApiError::new(String::from_str("Document missing 'fields'"))),
    }
}

/// What decoding the plain fields of a document gives: the decoded value,
/// or the decoder's complaint `d` as the error "Deserialization error: "
/// followed by `d`.
pub open spec fn decoded_outcome<T>(decoded: Result<T, String>, r: Result<T, ApiError>) -> bool {
    match decoded {
        Ok(t) => r == Ok::<T, ApiError>(t),
        Err(d) => r matches Err(e) && e.message@ == "Deserialization error: "@ + d@,
    }
}

/// Decoding fails exactly when the decoder fails, and a success hands back
/// what the decoder gave.
pub proof fn lemma_decoded_outcome_fails_iff<T>(decoded: Result<T, String>, r: Result<T, ApiError>)
    requires
        decoded_outcome(decoded, r),
    ensures
        r is Err <==> decoded is Err,
        decoded matches Ok(t) ==> r == Ok::<T, ApiError>(t),
        decoded matches Err(d) ==> (r matches Err(e) && e.message@.len() == 23 + d@.len()
            && e.message@.subrange(23, e.message@.len() as int) == d@
            && e.message@.subrange(0, 23) == "Deserialization error: "@),
{
    reveal_strlit("Deserialization error: ");
    if let Err(d) = decoded {
        if let Err(e) = r {
            assert(e.message@.subrange(23, e.message@.len() as int) =~= d@);
            assert(e.message@.subrange(0, 23) =~= "Deserialization error: "@);
        }
    }
}

/// Two documents with the same `fields` member are read alike: the other
/// members of a document (`name`, `createTime`, `updateTime`, ...) have no
/// effect on what reading it gives.
pub proof fn lemma_only_fields_matter(d1: Json, d2: Json, r: Result<JsonValue, ApiError>)
    requires
        member(d1, "fields"@) == member(d2, "fields"@),
    ensures
        document_outcome(d1, r) == document_outcome(d2, r),
{
}

/// The outcome of decoding a document's plain fields into the caller's type
/// (see [`decoded_outcome`]).
pub fn finish_document<T>(decoded: Result<T, String>) -> (r: Result<T, ApiError>)
    ensures
        decoded_outcome(decoded, r),
{
    match decoded {
        Ok(t) => Ok(t),
        Err(d) => Err(ApiError::new(join("Deserialization error: ", d.as_str()))),
    }
}

/// Reads a Firestore document into the caller's type: without a `fields`
/// member, the error "Document missing 'fields'"; else `decode` is handed
/// the plain JSON of the fields, and its outcome is returned as
/// [`finish_document`] gives it. Members other than `fields` play no part.
pub fn read_document<T, F: Fn(&JsonValue) -> Result<T, String>>(doc: &JsonValue, decode: F) -> (r: Result<T, ApiError>)
    requires
        forall|v: &JsonValue| decode.requires((v,)),
    ensures
        match member(doc@, "fields"@) {
            None => r matches Err(e) && e.message@ == "Document missing 'fields'"@,
            Some(f) => exists|flat: JsonValue, d: Result<T, String>|
                flat@ == convert_fields(f) && #[trigger] decode.ensures((&flat,), d) && decoded_outcome(d, r),
        },
{
    match parse_firestore_document(doc) {
        Ok(flat) => {
            let d = decode(&flat);
            finish_document(d)
        },
        Err(e) => Err(e),
    }
}

/// The documents of a list reply: the items of its `documents` member when
/// that is an array, else none.
pub open spec fn listed_documents(body: Json) -> Seq<Json> {
    match member(body, "documents"@) {
        Some(Json::Array(items)) => items,
        _ => Seq::empty(),
    }
}

/// A list reply whose `documents` member is an array lists its items, in
/// order; any other reply lists no document.
pub proof fn lemma_listed_documents(body: Json)
    ensures
        member(body, "documents"@) matches Some(Json::Array(items)) ==> listed_documents(body) == items,
        !(member(body, "documents"@) matches Some(Json::Array(_))) ==> listed_documents(body).len() == 0,
{
}

/// Reads each document of a list reply, in order (see
/// [`parse_firestore_document`]).
pub fn parse_document_list(body: &JsonValue) -> (r: Vec<Result<JsonValue, ApiError>>)
    ensures
        r@.len() == listed_documents(body@).len(),
        forall|i: int| 0 <= i < r@.len() ==> document_outcome(listed_documents(body@)[i], #[trigger] r@[i]),
{
    let mut out: Vec<Result<JsonValue, ApiError>> = Vec::new();
    if let Some(docs) = body.get("documents") {
        if let Some(items) = docs.as_array() {
            let ghost model = docs@->Array_0;
            let n = items.len();
            let mut i: usize = 0;
            while i < n
                invariant
                    n == items@.len(),
                    model.len() == n,
                    forall|j: int| 0 <= j < n ==> #[trigger] items@[j]@ == model[j],
                    i <= n,
                    out@.len() == i,
                    forall|j: int| 0 <= j < i ==> document_outcome(model[j], #[trigger] out@[j]),
                decreases n - i,
            {
                proof {
                    assert(items@[i as int]@ == model[i as int]);
                }
                let outcome = parse_firestore_document(&items[i]);
                out.push(outcome);
                i = i + 1;
            }
            return out;
        }
    }
    out
}

/// A Firestore query filter operator.
#[derive(Debug, Clone, Copy, PartialEq, Eq)]
pub enum FilterOp {
    Equal,
    NotEqual,
    LessThan,
    LessThanOrEqual,
    GreaterThan,
    GreaterThanOrEqual,
    ArrayContains,
    In,
}

/// A Firestore query filter: a field, an operator and a value.
#[derive(Debug, Clone)]
pub struct Filter {
    pub field: String,
    pub op: FilterOp,
    pub value: JsonValue,
}

/// A read of the Firestore REST API: the URL and the `Authorization` header.
#[derive(Debug, PartialEq, Eq)]
pub struct DocumentRead {
    pub url: String,
    pub authorization: String,
}

/// The documents path of `project` under the Firestore REST base URL.
pub open spec fn documents_root(project: Seq<char>) -> Seq<char> {
    "https://firestore.googleapis.com/v1"@ + "/projects/"@ + project + "/databases/(default)/documents/"@
}

/// The `Authorization` header value of the ID token `token`.
pub open spec fn bearer(token: Seq<char>) -> Seq<char> {
    "Bearer "@ + token
}

/// Every read goes to `https://firestore.googleapis.com/v1/projects/`, the
/// project, then `/databases/(default)/documents/`; the document read of a
/// collection is the collection read followed by `/` and the document's id;
/// the header is `Bearer ` followed by the token.
pub proof fn lemma_read_paths(project: Seq<char>, collection: Seq<char>, doc_id: Seq<char>, token: Seq<char>)
    ensures
        documents_root(project) == "https://firestore.googleapis.com/v1/projects/"@ + project
            + "/databases/(default)/documents/"@,
        documents_root(project) + collection + "/"@ + doc_id == (documents_root(project) + collection) + (seq!['/']
            + doc_id),
        bearer(token).len() == token.len() + 7,
        bearer(token).subrange(0, 7) == seq!['B', 'e', 'a', 'r', 'e', 'r', ' '],
        bearer(token).subrange(7, bearer(token).len() as int) == token,
{
    reveal_strlit("https://firestore.googleapis.com/v1");
    reveal_strlit("/projects/");
    reveal_strlit("https://firestore.googleapis.com/v1/projects/");
    reveal_strlit("/");
    reveal_strlit("Bearer ");
    assert("https://firestore.googleapis.com/v1"@ + "/projects/"@ =~= "https://firestore.googleapis.com/v1/projects/"@);
    assert(documents_root(project) + collection + "/"@ + doc_id =~= (documents_root(project) + collection) + (seq!['/']
        + doc_id));
    assert(bearer(token).subrange(0, 7) =~= seq!['B', 'e', 'a', 'r', 'e', 'r', ' ']);
    assert(bearer(token).subrange(7, bearer(token).len() as int) =~= token);
}

/// The configuration of the Firestore REST client: the project it reads.
#[derive(Debug, PartialEq, Eq)]
pub struct FirestoreClient {
    pub project_id: String,
}

impl FirestoreClient {
    /// A client of the default project, `nexvigilant-digital-clubhouse`.
    pub fn new() -> (r: FirestoreClient)
        ensures
            r.project_id@ == "nexvigilant-digital-clubhouse"@,
    {
        FirestoreClient { project_id: String::from_str("nexvigilant-digital-clubhouse") }
    }

    /// A client of the project `project_id`.
    pub fn with_project(project_id: String) -> (r: FirestoreClient)
        ensures
            r.project_id@ == project_id@,
    {
        FirestoreClient { project_id }
    }

    /// The read of the document `doc_id` of `collection`, authorized by `token`.
    pub fn document_read(&self, collection: &str, doc_id: &str, token: &str) -> (r: DocumentRead)
        ensures
            r.url@ == documents_root(self.project_id@) + collection@ + "/"@ + doc_id@,
            r.authorization@ == bearer(token@),
    {
        let mut url = join("https://firestore.googleapis.com/v1", "/projects/");
        url.append(self.project_id.as_str());
        url.append("/databases/(default)/documents/");
        url.append(collection);
        url.append("/");
        url.append(doc_id);
        assert(url@ =~= documents_root(self.project_id@) + collection@ + "/"@ + doc_id@);
        DocumentRead { url, authorization: join("Bearer ", token) }
    }

    /// The read of the documents of `collection`, authorized by `token`; with
    /// a page size, the query `?pageSize=` and its decimal digits follow.
    pub fn collection_read(&self, collection: &str, token: &str, page_size: Option<u32>) -> (r: DocumentRead)
        ensures
            r.url@ == documents_root(self.project_id@) + collection@ + match page_size {
                Some(size) => "?pageSize="@ + decimal_digits(size as nat),
                None => Seq::<char>::empty(),
            },
            r.authorization@ == bearer(token@),
    {
        let mut url = join("https://firestore.googleapis.com/v1", "/projects/");
        url.append(self.project_id.as_str());
        url.append("/databases/(default)/documents/");
        url.append(collection);
        let ghost base = url@;
        if let Some(size) = page_size {
            url.append("?pageSize=");
            push_decimal(&mut url, size as u64);
            assert(url@ =~= base + ("?pageSize="@ + decimal_digits(size as nat)));
        } else {
            assert(url@ =~= base + Seq::<char>::empty());
        }
        assert(base =~= documents_root(self.project_id@) + collection@);
        DocumentRead { url, authorization: join("Bearer ", token) }
    }
}

impl Default for FirestoreClient {
    fn default() -> (r: FirestoreClient)
        ensures
            r.project_id@ == "nexvigilant-digital-clubhouse"@,
    {
        FirestoreClient::new()
    }
}

} // verus!
