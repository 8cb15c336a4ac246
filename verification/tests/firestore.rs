use firebase_rest::firestore::{
    convert_firestore_fields, convert_firestore_value, finish_document, parse_document_list,
    parse_firestore_document, read_document, DocumentRead, Filter, FilterOp, FirestoreClient,
};
use firebase_rest::json::JsonValue;

fn text(s: &str) -> JsonValue {
    JsonValue::String(s.to_string())
}

fn number(s: &str) -> JsonValue {
    JsonValue::Number(s.to_string())
}

fn object(members: Vec<(&str, JsonValue)>) -> JsonValue {
    JsonValue::Object(members.into_iter().map(|(k, v)| (k.to_string(), v)).collect())
}

#[test]
fn string_value_unwraps() {
    assert_eq!(convert_firestore_value(&object(vec![("stringValue", text("hi"))])), text("hi"));
}

#[test]
fn integer_value_text_becomes_a_number() {
    assert_eq!(convert_firestore_value(&object(vec![("integerValue", text("42"))])), number("42"));
    assert_eq!(convert_firestore_value(&object(vec![("integerValue", text("-7"))])), number("-7"));
    assert_eq!(convert_firestore_value(&object(vec![("integerValue", text("+007"))])), number("7"));
}

#[test]
fn integer_value_that_is_no_i64_stays() {
    assert_eq!(convert_firestore_value(&object(vec![("integerValue", text("abc"))])), text("abc"));
    assert_eq!(
        convert_firestore_value(&object(vec![("integerValue", text("9223372036854775808"))])),
        text("9223372036854775808")
    );
    assert_eq!(convert_firestore_value(&object(vec![("integerValue", number("5"))])), number("5"));
}

#[test]
fn boolean_double_timestamp_and_null() {
    assert_eq!(convert_firestore_value(&object(vec![("booleanValue", JsonValue::Bool(true))])), JsonValue::Bool(true));
    assert_eq!(convert_firestore_value(&object(vec![("doubleValue", number("2.5"))])), number("2.5"));
    assert_eq!(
        convert_firestore_value(&object(vec![("timestampValue", text("2024-01-01T00:00:00Z"))])),
        text("2024-01-01T00:00:00Z")
    );
    assert_eq!(convert_firestore_value(&object(vec![("nullValue", JsonValue::Null)])), JsonValue::Null);
    assert_eq!(convert_firestore_value(&object(vec![("nullValue", text("NULL_VALUE"))])), JsonValue::Null);
}

#[test]
fn array_value_converts_each_item() {
    let v = object(vec![(
        "arrayValue",
        object(vec![(
            "values",
            JsonValue::Array(vec![
                object(vec![("stringValue", text("a"))]),
                object(vec![("integerValue", text("3"))]),
            ]),
        )]),
    )]);
    assert_eq!(convert_firestore_value(&v), JsonValue::Array(vec![text("a"), number("3")]));
}

#[test]
fn empty_array_wrapper_is_an_empty_array() {
    let v = object(vec![("arrayValue", object(vec![]))]);
    assert_eq!(convert_firestore_value(&v), JsonValue::Array(vec![]));
    let x = object(vec![("arrayValue", object(vec![("values", JsonValue::Array(vec![]))]))]);
    assert_eq!(convert_firestore_value(&x), JsonValue::Array(vec![]));
}

#[test]
fn later_wrappers_come_before_an_empty_array_or_map() {
    let w = object(vec![("arrayValue", object(vec![])), ("nullValue", JsonValue::Null)]);
    assert_eq!(convert_firestore_value(&w), JsonValue::Null);
    let t = object(vec![("mapValue", object(vec![])), ("timestampValue", text("2024-01-01T00:00:00Z"))]);
    assert_eq!(convert_firestore_value(&t), text("2024-01-01T00:00:00Z"));
    let m = object(vec![
        ("arrayValue", object(vec![])),
        ("mapValue", object(vec![("fields", object(vec![("a", object(vec![("booleanValue", JsonValue::Bool(true))]))]))])),
    ]);
    assert_eq!(convert_firestore_value(&m), object(vec![("a", JsonValue::Bool(true))]));
}

#[test]
fn empty_map_wrapper_is_an_empty_object() {
    let v = object(vec![("mapValue", object(vec![]))]);
    assert_eq!(convert_firestore_value(&v), object(vec![]));
    let w = object(vec![("mapValue", object(vec![("fields", object(vec![]))]))]);
    assert_eq!(convert_firestore_value(&w), object(vec![]));
}

#[test]
fn map_value_converts_its_fields() {
    let v = object(vec![(
        "mapValue",
        object(vec![(
            "fields",
            object(vec![
                ("name", object(vec![("stringValue", text("Ada"))])),
                ("age", object(vec![("integerValue", text("36"))])),
            ]),
        )]),
    )]);
    assert_eq!(convert_firestore_value(&v), object(vec![("name", text("Ada")), ("age", number("36"))]));
}

#[test]
fn first_typed_member_decides() {
    let v = object(vec![("booleanValue", JsonValue::Bool(false)), ("stringValue", text("s"))]);
    assert_eq!(convert_firestore_value(&v), text("s"));
    let w = object(vec![("doubleValue", number("1.0")), ("integerValue", text("2"))]);
    assert_eq!(convert_firestore_value(&w), number("2"));
}

#[test]
fn untyped_values_pass_unchanged() {
    assert_eq!(convert_firestore_value(&text("plain")), text("plain"));
    assert_eq!(convert_firestore_value(&number("3")), number("3"));
    let o = object(vec![("other", text("x"))]);
    assert_eq!(convert_firestore_value(&o), o);
    let a = JsonValue::Array(vec![object(vec![("stringValue", text("x"))])]);
    assert_eq!(convert_firestore_value(&a), a);
}

#[test]
fn fields_keep_their_names_in_order() {
    let f = object(vec![
        ("z", object(vec![("stringValue", text("last"))])),
        ("a", object(vec![("booleanValue", JsonValue::Bool(true))])),
    ]);
    assert_eq!(convert_firestore_fields(&f), object(vec![("z", text("last")), ("a", JsonValue::Bool(true))]));
    assert_eq!(convert_firestore_fields(&text("x")), text("x"));
    assert_eq!(convert_firestore_fields(&object(vec![])), object(vec![]));
}

#[test]
fn document_with_fields_is_flattened() {
    let doc = object(vec![
        ("name", text("projects/p/databases/(default)/documents/users/u1")),
        ("fields", object(vec![("email", object(vec![("stringValue", text("a@b.c"))]))])),
    ]);
    assert_eq!(parse_firestore_document(&doc), Ok(object(vec![("email", text("a@b.c"))])));
}

#[test]
fn document_without_fields_is_an_error() {
    let doc = object(vec![("name", text("x"))]);
    let err = parse_firestore_document(&doc).unwrap_err();
    assert_eq!(err.message, "Document missing 'fields'");
    assert!(parse_firestore_document(&text("x")).is_err());
}

#[test]
fn document_list_reads_each_document() {
    let body = object(vec![(
        "documents",
        JsonValue::Array(vec![
            object(vec![("fields", object(vec![("n", object(vec![("integerValue", text("1"))]))]))]),
            object(vec![("name", text("broken"))]),
        ]),
    )]);
    let out = parse_document_list(&body);
    assert_eq!(out.len(), 2);
    assert_eq!(out[0], Ok(object(vec![("n", number("1"))])));
    assert_eq!(out[1].as_ref().unwrap_err().message, "Document missing 'fields'");
}

#[test]
fn document_list_without_documents_is_empty() {
    assert!(parse_document_list(&object(vec![])).is_empty());
    assert!(parse_document_list(&object(vec![("documents", text("x"))])).is_empty());
}

#[test]
fn default_project_reads() {
    let c = FirestoreClient::new();
    assert_eq!(c.project_id, "nexvigilant-digital-clubhouse");
    assert_eq!(FirestoreClient::default(), c);
    let r = c.document_read("users", "u1", "tok");
    assert_eq!(
        r,
        DocumentRead {
            url: "https://firestore.googleapis.com/v1/projects/nexvigilant-digital-clubhouse/databases/(default)/documents/users/u1"
                .to_string(),
            authorization: "Bearer tok".to_string(),
        }
    );
}

#[test]
fn collection_reads_with_and_without_page_size() {
    let c = FirestoreClient::with_project("demo".to_string());
    assert_eq!(
        c.collection_read("posts", "t", None).url,
        "https://firestore.googleapis.com/v1/projects/demo/databases/(default)/documents/posts"
    );
    assert_eq!(
        c.collection_read("posts", "t", Some(25)).url,
        "https://firestore.googleapis.com/v1/projects/demo/databases/(default)/documents/posts?pageSize=25"
    );
    assert_eq!(
        c.collection_read("posts", "t", Some(0)).url,
        "https://firestore.googleapis.com/v1/projects/demo/databases/(default)/documents/posts?pageSize=0"
    );
    assert_eq!(c.collection_read("posts", "t", Some(u32::MAX)).authorization, "Bearer t");
    assert!(c.collection_read("posts", "t", Some(u32::MAX)).url.ends_with("?pageSize=4294967295"));
}

#[test]
fn filters_hold_their_parts() {
    let f = Filter { field: "age".to_string(), op: FilterOp::GreaterThan, value: number("18") };
    let g = f.clone();
    assert_eq!(g.field, "age");
    assert_eq!(g.op, FilterOp::GreaterThan);
    assert_eq!(g.value, number("18"));
}

#[test]
fn finish_document_passes_a_value_and_prefixes_a_complaint() {
    assert_eq!(finish_document::<u32>(Ok(5)), Ok(5));
    let e = finish_document::<u32>(Err("missing field `age`".to_string())).unwrap_err();
    assert_eq!(e.message, "Deserialization error: missing field `age`");
}

fn name_of(v: &JsonValue) -> Result<String, String> {
    match v.get("name") {
        Some(JsonValue::String(s)) => Ok(s.clone()),
        _ => Err("missing field `name`".to_string()),
    }
}

#[test]
fn read_document_decodes_the_plain_fields() {
    let doc = object(vec![
        ("name", text("projects/p/databases/(default)/documents/users/u1")),
        ("fields", object(vec![("name", object(vec![("stringValue", text("Ada"))]))])),
        ("createTime", text("2024-01-01T00:00:00Z")),
    ]);
    assert_eq!(read_document(&doc, name_of), Ok("Ada".to_string()));
}

#[test]
fn read_document_reports_missing_fields_and_decoder_complaints() {
    let bare = object(vec![("name", text("x"))]);
    assert_eq!(read_document(&bare, name_of).unwrap_err().message, "Document missing 'fields'");
    let other = object(vec![("fields", object(vec![("age", object(vec![("integerValue", text("3"))]))]))]);
    assert_eq!(read_document(&other, name_of).unwrap_err().message, "Deserialization error: missing field `name`");
}
