use did_you_actually_do_that::json_path::extract_json_path;

fn parse_json(text: &str) -> serde_json::Value {
    serde_json::from_str(text).unwrap()
}

fn document() -> serde_json::Value {
    parse_json("{\"a\":{\"b\":[10,20,30]}}")
}

fn number(n: u64) -> serde_json::Value {
    serde_json::Value::from(n)
}

#[test]
fn field_then_index() {
    let doc = document();
    assert_eq!(extract_json_path(&doc, ".a.b[1]"), Some(&number(20)));
    assert_eq!(extract_json_path(&doc, ".a.b[0]"), Some(&number(10)));
    assert_eq!(extract_json_path(&doc, "a.b[2]"), Some(&number(30)));
}

#[test]
fn absent_field_does_not_resolve() {
    let doc = document();
    assert_eq!(extract_json_path(&doc, ".a.c"), None);
    assert_eq!(extract_json_path(&doc, ".x"), None);
}

#[test]
fn index_out_of_range_does_not_resolve() {
    let doc = document();
    assert_eq!(extract_json_path(&doc, ".a.b[9]"), None);
    assert_eq!(extract_json_path(&doc, ".a.b[3]"), None);
    assert_eq!(extract_json_path(&doc, ".a.b[99999999999999999999999999999999]"), None);
}

#[test]
fn empty_path_is_the_whole_document() {
    let doc = document();
    assert_eq!(extract_json_path(&doc, ""), Some(&doc));
    assert_eq!(extract_json_path(&doc, "."), Some(&doc));
    assert_eq!(extract_json_path(&doc, "..."), Some(&doc));
}

#[test]
fn separators_are_skipped() {
    let doc = document();
    assert_eq!(extract_json_path(&doc, "..a..b[1]."), Some(&number(20)));
    assert_eq!(extract_json_path(&doc, "a.b."), extract_json_path(&doc, ".a.b"));
}

#[test]
fn kind_mismatch_does_not_resolve() {
    let doc = document();
    // an index into an object, a field of an array, a field of a number
    assert_eq!(extract_json_path(&doc, ".a[0]"), None);
    assert_eq!(extract_json_path(&doc, ".a.b.c"), None);
    assert_eq!(extract_json_path(&doc, ".a.b[0].c"), None);
    assert_eq!(extract_json_path(&doc, ".a.b[0][0]"), None);
}

#[test]
fn index_at_the_root() {
    let doc = parse_json("[[1,2],[3,4]]");
    assert_eq!(extract_json_path(&doc, "[1]"), Some(&parse_json("[3,4]")));
    assert_eq!(extract_json_path(&doc, "[1][0]"), Some(&number(3)));
    assert_eq!(extract_json_path(&doc, "[0][1]"), Some(&number(2)));
    assert_eq!(extract_json_path(&doc, "[2]"), None);
}

#[test]
fn several_indices_in_one_segment() {
    let doc = parse_json("{\"m\":[[1,2,3],[4,5,6]]}");
    assert_eq!(extract_json_path(&doc, ".m[1][2]"), Some(&number(6)));
    assert_eq!(extract_json_path(&doc, ".m[0][0]"), Some(&number(1)));
    assert_eq!(extract_json_path(&doc, ".m[1][3]"), None);
}

#[test]
fn malformed_indices_do_not_resolve() {
    let doc = document();
    assert_eq!(extract_json_path(&doc, ".a.b[1"), None);
    assert_eq!(extract_json_path(&doc, ".a.b[]"), None);
    assert_eq!(extract_json_path(&doc, ".a.b[x]"), None);
    assert_eq!(extract_json_path(&doc, ".a.b[-1]"), None);
    assert_eq!(extract_json_path(&doc, ".a.b[1 ]"), None);
    assert_eq!(extract_json_path(&doc, ".a.b[+]"), None);
    assert_eq!(extract_json_path(&doc, ".a.b]1["), None);
    assert_eq!(extract_json_path(&doc, ".a.b[1]["), None);
    assert_eq!(extract_json_path(&doc, ".a.b[1][x]"), None);
    assert_eq!(extract_json_path(&doc, ".a.b[١]"), None);
}

#[test]
fn index_with_sign_and_leading_zeros() {
    let doc = document();
    assert_eq!(extract_json_path(&doc, ".a.b[+1]"), Some(&number(20)));
    assert_eq!(extract_json_path(&doc, ".a.b[002]"), Some(&number(30)));
}

#[test]
fn text_after_the_last_index_is_ignored() {
    let doc = document();
    assert_eq!(extract_json_path(&doc, ".a.b[1]rest"), Some(&number(20)));
}

#[test]
fn field_names_need_not_be_ascii() {
    let doc = parse_json("{\"näme\":{\"ключ\":[true]}}");
    assert_eq!(
        extract_json_path(&doc, ".näme.ключ[0]"),
        Some(&serde_json::Value::Bool(true))
    );
}

#[test]
fn paths_compose() {
    let doc = parse_json("{\"a\":{\"b\":[10,{\"c\":[true,false]}]},\"d\":1}");
    let pairs = [
        ("a", "b[1].c[0]"),
        ("a.b", "[1].c"),
        ("a.b[1]", "c[1]"),
        ("", "a.b"),
        ("a.b[0]", ""),
        ("a.x", "b"),
        ("d", "e"),
    ];
    for (first, second) in pairs.iter() {
        let whole = format!("{}.{}", first, second);
        let stepwise = extract_json_path(&doc, first)
            .and_then(|inner| extract_json_path(inner, second));
        assert_eq!(extract_json_path(&doc, &whole), stepwise, "at {:?}", whole);
    }
    assert_eq!(
        extract_json_path(&doc, "a.b[1].c[0]"),
        Some(&serde_json::Value::Bool(true))
    );
}
