use frontend::contacts::{platform_label, score_contact, Contact};
use frontend::text::{
    capitalize, cut_at_first, cut_out_first, dec2_chars, dec_int_chars, join_strs, parse_i32,
    parse_i64, piece, split_words, string_of, strip_first_of, take_until_any, trim_end_matching,
    trimmed, utf8_len_below,
};

fn cs(s: &str) -> Vec<char> {
    s.chars().collect()
}

fn st(v: &[char]) -> String {
    v.iter().collect()
}

#[test]
fn case_changes_go_through_std() {
    let c = Contact {
        id: "1".to_string(),
        display_name: "ÅSA Smith".to_string(),
        subtitle: None,
        platform: None,
        is_group: false,
        source: "signal".to_string(),
    };
    assert_eq!(score_contact("åsa smith", &c), Some(3));
    assert_eq!(platform_label("ßig"), "SSig");
    assert_eq!(platform_label("discord"), "Discord");
    assert_eq!(string_of(&cs("abö")), "abö");
}

#[test]
fn trimming_and_words() {
    assert_eq!(st(&trimmed(&cs("  a b \n"))), "a b");
    let w: Vec<String> = split_words(&cs(" one  two\tthree ")).iter().map(|w| st(w)).collect();
    assert_eq!(w, vec!["one", "two", "three"]);
    assert_eq!(st(&trim_end_matching(&cs("abc...."), '.')), "abc");
}

#[test]
fn pieces_and_cuts() {
    assert_eq!(piece(&cs("a@b@c"), &cs("@"), 1).map(|v| st(&v)), Some("b".to_string()));
    assert_eq!(piece(&cs("a@b@c"), &cs("@"), 3), None);
    assert_eq!(st(&take_until_any(&cs("abc?x=1#y"), &['?', '#'])), "abc");
    assert_eq!(st(&cut_out_first(&cs("a--b--c"), &cs("--"))), "ab--c");
    assert_eq!(st(&cut_at_first(&cs("a--b--c"), &cs("--"))), "a");
    assert_eq!(st(&strip_first_of(&cs("https://x.y"), &["http://", "https://"])), "x.y");
    assert_eq!(st(&strip_first_of(&cs("ftp://x.y"), &["http://", "https://"])), "ftp://x.y");
}

#[test]
fn numbers_parse_and_print() {
    assert_eq!(parse_i64("-42"), Some(-42));
    assert_eq!(parse_i64("+7"), Some(7));
    assert_eq!(parse_i64(" 7"), None);
    assert_eq!(parse_i64("9223372036854775808"), None);
    assert_eq!(parse_i32("2147483648"), None);
    assert_eq!(parse_i32("-2147483648"), Some(i32::MIN));
    assert_eq!(st(&dec_int_chars(i64::MIN)), "-9223372036854775808");
    assert_eq!(st(&dec2_chars(7)), "07");
    assert_eq!(st(&dec2_chars(123)), "123");
}

#[test]
fn joins_capitals_and_byte_lengths() {
    assert_eq!(st(&join_strs(&vec!["a", "b", "c"], ", ")), "a, b, c");
    assert_eq!(st(&join_strs(&Vec::new(), ", ")), "");
    assert_eq!(st(&capitalize(&cs("ßig"))), "SSig");
    assert_eq!(st(&capitalize(&cs(""))), "");
    assert!(utf8_len_below(&cs("ab"), 3));
    assert!(!utf8_len_below(&cs("äb"), 3));
    assert!(!utf8_len_below(&cs(""), 0));
}
