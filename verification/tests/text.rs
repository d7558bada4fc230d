use cargo_status::table::Table;
use cargo_status::text::{
    chars_of, count_occurrences, find_text, has_name, includes, join_texts, occurs_at,
    same_text, split_words, string_of,
};

fn c(s: &str) -> Vec<char> {
    s.chars().collect()
}

#[test]
fn characters_round_trip() {
    let text = "héllo \u{1F600} wörld";
    assert_eq!(chars_of(text), c(text));
    assert_eq!(string_of(&c(text)), text);
    assert_eq!(chars_of(""), Vec::<char>::new());
}

#[test]
fn same_text_compares_characters() {
    assert!(same_text("abc", "abc"));
    assert!(same_text("", ""));
    assert!(!same_text("abc", "abd"));
    assert!(!same_text("abc", "ab"));
    assert!(!same_text("é", "e"));
}

#[test]
fn searching() {
    let hay = c("abcabcabc");
    assert!(occurs_at(&hay, &c("bca"), 1));
    assert!(!occurs_at(&hay, &c("bca"), 2));
    assert!(!occurs_at(&hay, &c("abc"), 7));
    assert!(occurs_at(&hay, &c(""), 9));
    assert!(!occurs_at(&hay, &c(""), 10));
    assert_eq!(find_text(&hay, &c("cab"), 0), Some(2));
    assert_eq!(find_text(&hay, &c("cab"), 3), Some(5));
    assert_eq!(find_text(&hay, &c("cab"), 6), None);
    assert_eq!(find_text(&hay, &c("x"), 0), None);
    assert_eq!(find_text(&hay, &c(""), 9), Some(9));
    assert_eq!(find_text(&hay, &c("abcabcabcabc"), 0), None);
    assert!(includes(&hay, &c("cabc")));
    assert!(!includes(&hay, &c("cc")));
    assert!(includes(&c(""), &c("")));
}

#[test]
fn counting_matches_the_standard_library() {
    let cases = [
        ("abcabcabc", "abc"),
        ("aaaaa", "aa"),
        ("aaaa", "a"),
        ("abc", ""),
        ("", ""),
        ("", "a"),
        ("error: x\nerror[E]: y", "error"),
        ("ababab", "aba"),
        ("short", "much longer"),
    ];
    for (hay, needle) in cases {
        assert_eq!(
            count_occurrences(&c(hay), &c(needle)),
            hay.matches(needle).count(),
            "{:?} in {:?}",
            needle,
            hay
        );
    }
}

#[test]
fn words_match_the_standard_library() {
    for text in [
        "",
        "   ",
        "one",
        " one  two\tthree\n",
        "--test-threads 4   --nocapture",
        "a\u{a0}b\u{2003}c\u{3000}d\u{85}e",
        "zero\u{200b}width is no space",
    ] {
        let expected: Vec<String> = text.split_whitespace().map(|w| w.to_string()).collect();
        assert_eq!(split_words(text), expected, "{:?}", text);
    }
}

#[test]
fn joining_and_finding_names() {
    let items = vec!["fmt".to_string(), "check".to_string(), "test".to_string()];
    assert_eq!(join_texts(&items, ", "), "fmt, check, test");
    assert_eq!(join_texts(&items[..1], ", "), "fmt");
    assert_eq!(join_texts(&[], ", "), "");
    assert!(has_name(&items, "check"));
    assert!(!has_name(&items, "chec"));
    assert!(!has_name(&[], ""));
}

#[test]
fn table_keeps_one_value_per_key() {
    let mut table: Table<i32> = Table::new();
    assert_eq!(table.len(), 0);
    table.set("a".to_string(), 1);
    table.set("b".to_string(), 2);
    table.set("a".to_string(), 3);
    assert_eq!(table.len(), 2);
    assert_eq!(table.get("a"), Some(&3));
    assert_eq!(table.get("b"), Some(&2));
    assert_eq!(table.get("c"), None);
    assert_eq!(table.position("b"), Some(1));
    assert_eq!(table.key_at(0), "a");
    assert_eq!(table.value_at(1), &2);

    table.set_at(1, 20);
    assert_eq!(table.get("b"), Some(&20));

    table.remove("a");
    assert_eq!(table.len(), 1);
    assert_eq!(table.get("a"), None);
    assert_eq!(table.position("b"), Some(0));
    table.remove("missing");
    assert_eq!(table.len(), 1);

    table.set("c".to_string(), 5);
    table.remove_at(0);
    assert_eq!(table.key_at(0), "c");
    table.clear();
    assert_eq!(table.len(), 0);
    assert_eq!(table.get("c"), None);
}
