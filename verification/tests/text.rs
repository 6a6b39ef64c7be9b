use notecli::json::Json;
use notecli::table::Table;
use notecli::text;

#[test]
fn texts_are_searched() {
    assert!(text::same("あい", "あい"));
    assert!(!text::same("a", "A"));
    assert!(text::starts_with("isNoteInX", "isNoteIn"));
    assert!(!text::starts_with("is", "isNoteIn"));
    assert!(text::ends_with("isNoteInXMode", "Mode"));
    assert!(text::ends_with("x", ""));
    assert!(text::contains("misskey.io", "key"));
    assert!(text::contains("misskey.io", ""));
    assert!(!text::contains("misskey.io", "misskey.iox"));
    assert!(text::eq_ignore_ascii_case("TaKa", "tAkA"));
    assert!(!text::eq_ignore_ascii_case("É", "é"));
}

#[test]
fn texts_are_taken_apart() {
    assert_eq!(
        text::split_once("a@b@c", '@'),
        Some(("a".to_string(), "b@c".to_string()))
    );
    assert_eq!(text::split_once("abc", '@'), None);
    assert_eq!(text::strip_first("@a", '@').as_deref(), Some("a"));
    assert_eq!(text::strip_first("a@", '@'), None);
    assert_eq!(text::strip_first("", '@'), None);
    assert!(text::can_cut("あい", 3));
    assert!(!text::can_cut("あい", 4));
    assert!(!text::can_cut("あ", 4));
    assert_eq!(text::take_bytes("あい", 3), "あ");
}

#[test]
fn texts_are_put_together() {
    let parts = vec!["a".to_string(), "".to_string(), "b".to_string()];
    assert_eq!(text::join(&parts, ", "), "a, , b");
    assert_eq!(text::join(&Vec::new(), ", "), "");
    assert_eq!(text::replace_char("aTbT", 'T', "--"), "a--b--");
    assert_eq!(text::pad_right("あb", 4), "あb  ");
    assert_eq!(text::pad_right("abcd", 3), "abcd");
    assert_eq!(text::decimal_of(0), "0");
    assert_eq!(text::decimal_of(-907), "-907");
    assert_eq!(text::decimal_of(i64::MIN), "-9223372036854775808");
    assert_eq!(text::decimal_of(i64::MAX), "9223372036854775807");
    assert_eq!(text::collapse_spaces(" a\t\nb\u{3000}c "), "a b c");
    assert_eq!(text::collapse_spaces("\n"), "");
}

#[test]
fn texts_are_ordered_like_strings() {
    let words = ["", "a", "aa", "ab", "b", "Z", "あ", "é"];
    for x in words {
        for y in words {
            assert_eq!(text::comes_before(x, y), x < y);
        }
    }
}

#[test]
fn a_table_holds_one_value_for_a_key() {
    let mut t: Table<i64> = Table::new();
    t.insert("a", 1);
    t.insert("b", 2);
    t.insert("a", 3);
    assert_eq!(t.len(), 2);
    assert_eq!(t.get("a"), Some(&3));
    assert!(t.contains_key("b"));
    assert_eq!(t.remove("b"), Some(2));
    assert_eq!(t.remove("b"), None);
    assert_eq!(t.get("b"), None);
    assert_eq!(t.key_at(0), "a");
    assert_eq!(*t.value_at(0), 3);
    assert_eq!(t.remove_at(0), 3);
    assert_eq!(t.len(), 0);
}

#[test]
fn a_table_keeps_the_order_of_first_insertion() {
    let mut t: Table<i64> = Table::new();
    for (key, value) in [("b", 1), ("a", 2), ("c", 3), ("a", 4)] {
        t.insert(key, value);
    }
    let keys = |t: &Table<i64>| -> Vec<String> {
        (0..t.len()).map(|i| t.key_at(i).to_string()).collect()
    };
    assert_eq!(keys(&t), vec!["b", "a", "c"]);
    assert_eq!(*t.value_at(1), 4);
    t.remove("b");
    assert_eq!(keys(&t), vec!["a", "c"]);
    t.insert("b", 5);
    assert_eq!(keys(&t), vec!["a", "c", "b"]);
}

#[test]
fn json_is_read_and_written() {
    let j = Json::parse(" {\"b\" : [1, -2, 2.50, true, null, \"x\\n\"], \"a\": {} } ").unwrap();
    assert_eq!(j.render(), "{\"a\":{},\"b\":[1,-2,2.5,true,null,\"x\\n\"]}");
    let list = j.get("b").unwrap().as_array().unwrap();
    assert_eq!(list[0], Json::Int(1));
    assert_eq!(list[2], Json::Decimal("2.5".to_string()));
    assert!(list[4].is_null());
    assert_eq!(list[5].as_str(), Some("x\n"));
    assert_eq!(j.get("a").unwrap().as_object().unwrap().len(), 0);
    assert_eq!(Json::parse("{").unwrap_err().code(), "JSON");
    assert_eq!(Json::parse("1 2").unwrap_err().code(), "JSON");
    let last = Json::parse("{\"a\":1,\"a\":2}").unwrap();
    assert_eq!(last.get("a").unwrap().as_i64(), Some(2));
}

#[test]
fn json_objects_are_built() {
    let mut o = Json::object();
    o.set_str("s", "x");
    o.set_int("n", 1);
    o.set_bool("b", true);
    o.set_opt_str("none", None);
    o.set_opt_int("some", Some(2));
    o.set_int("n", 5);
    assert_eq!(o.render(), "{\"b\":true,\"n\":5,\"s\":\"x\",\"some\":2}");
    assert_eq!(o.copy(), o);
    assert_eq!(o.str_at("s"), Some("x"));
    assert_eq!(o.str_at("n"), None);
    assert_eq!(o.get("b").unwrap().as_bool(), Some(true));
    assert_eq!(Json::text("x").get("s"), None);
}

#[test]
fn lists_of_strings_are_read_whole() {
    let read = |t: &str| Json::parse(t).unwrap().string_list();
    assert_eq!(read("[\"a\",\"b\"]").unwrap(), vec!["a", "b"]);
    assert!(read("[]").unwrap().is_empty());
    assert_eq!(read("[\"a\",1]").unwrap_err().code(), "JSON");
    assert_eq!(read("{}").unwrap_err().code(), "JSON");
    assert_eq!(Json::Null.not_a_list().code(), "JSON");
}
