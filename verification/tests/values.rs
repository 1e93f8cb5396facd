use mcp_atlassian::json::{take_entry, Json};
use mcp_atlassian::json_codec::{decode_json, parse_json};
use mcp_atlassian::string_set::StringSet;
use mcp_atlassian::text::{
    comes_before, contains, contains_char, decimal_text, join, prefix_before, replace_char, split,
    to_ascii_lowercase, trim, trim_end_char, trim_start_char,
};

fn texts(items: &[&str]) -> Vec<String> {
    items.iter().map(|item| item.to_string()).collect()
}

#[test]
fn trimmed_text_stays_trimmed() {
    for text in ["", " ", "\u{85}a\u{3000}b\u{a0}", "a b", "\t\r\na"] {
        assert_eq!(trim(text), text.trim());
        assert_eq!(trim(&trim(text)), trim(text));
    }
    assert_eq!(trim_start_char("//a/", '/'), "a/");
    assert_eq!(trim_end_char("//a//", '/'), "//a");
}

#[test]
fn text_is_split_and_joined() {
    assert_eq!(split("a,,b,", ','), texts(&["a", "", "b", ""]));
    assert_eq!(split("", ','), texts(&[""]));
    assert_eq!(join(&texts(&["a", "b", "c"]), ", "), "a, b, c");
    assert_eq!(join(&texts(&[]), ","), "");
    assert_eq!(prefix_before("a-b-c", '-'), Some("a"));
    assert_eq!(prefix_before("-a", '-'), Some(""));
    assert_eq!(prefix_before("abc", '-'), None);
}

#[test]
fn text_is_searched_and_replaced() {
    assert!(contains("abcabd", "abd"));
    assert!(contains("abc", ""));
    assert!(contains("", ""));
    assert!(!contains("ab", "abc"));
    assert!(contains_char("a/b", '/'));
    assert!(!contains_char("", '/'));
    assert_eq!(replace_char("a\"b\"", '"', "\\\""), "a\\\"b\\\"");
    assert_eq!(to_ascii_lowercase("ÄbC Z[@"), "Äbc z[@");
}

#[test]
fn numbers_are_written_in_decimal() {
    for number in [0, 7, 10, 1009, u64::MAX] {
        assert_eq!(decimal_text(number), number.to_string());
    }
}

#[test]
fn texts_are_ordered_as_their_characters() {
    assert!(comes_before("", "a"));
    assert!(comes_before("a", "ab"));
    assert!(comes_before("a_", "as"));
    assert!(comes_before("Z", "a"));
    assert!(!comes_before("a", "a"));
    assert!(!comes_before("b", "a"));
    assert!(comes_before("\u{ffff}", "\u{10000}"));
}

#[test]
fn sets_list_each_text_once_in_order() {
    let set = StringSet::from_texts(&texts(&["b", "a", "b", "c"]));
    assert_eq!(set.to_texts(), texts(&["a", "b", "c"]));
    assert!(set.contains("b"));
    assert!(!set.contains("d"));
    assert!(!set.is_empty());
    assert!(StringSet::new().is_empty());
    assert_eq!(set.clone().with("aa").to_texts(), texts(&["a", "aa", "b", "c"]));
    assert_eq!(set.with("a").to_texts(), texts(&["a", "b", "c"]));
}

#[test]
fn json_text_is_parsed() {
    assert_eq!(
        parse_json(r#" {"b": [null, true, -1.5e3, "x"], "a": {}} "#),
        Some(Json::Object(vec![
            ("a".to_string(), Json::Object(vec![])),
            (
                "b".to_string(),
                Json::Array(vec![
                    Json::Null,
                    Json::Bool(true),
                    Json::Number("-1500.0".to_string()),
                    Json::Text("x".to_string()),
                ])
            ),
        ]))
    );
    assert_eq!(parse_json(""), None);
    assert_eq!(parse_json("{'a': 1}"), None);
    assert_eq!(decode_json(&b"[1]".to_vec()), Ok(Json::Array(vec![Json::Number("1".to_string())])));
    assert_eq!(
        decode_json(&b"".to_vec()),
        Err("EOF while parsing a value at line 1 column 0".to_string())
    );
}

#[test]
fn the_last_member_of_a_key_counts() {
    let mut object = Json::Object(vec![
        ("a".to_string(), Json::Null),
        ("b".to_string(), Json::Bool(true)),
        ("a".to_string(), Json::Bool(false)),
    ]);
    assert_eq!(object.get("a"), Some(&Json::Bool(false)));
    assert_eq!(object.get("c"), None);
    object.set("a", Json::text("x"));
    assert_eq!(
        object,
        Json::Object(vec![
            ("b".to_string(), Json::Bool(true)),
            ("a".to_string(), Json::text("x")),
        ])
    );
    let mut entries = match object {
        Json::Object(entries) => entries,
        _ => unreachable!(),
    };
    assert_eq!(take_entry(&mut entries, "a"), Some(Json::text("x")));
    assert_eq!(take_entry(&mut entries, "a"), None);
    let mut plain = Json::text("x");
    plain.set("a", Json::Null);
    assert_eq!(plain, Json::text("x"));
    assert_eq!(Json::text("x").merge(Json::new_object()), None);
}
