use fcplug::text::{contains, join, prefix_before, prefix_before_last, replace_char_str, replace_str, split_char, starts_with, trim_end_char, trim_end_str, trim_start_char, trim_start_str};

#[test]
fn text_utilities() {
    assert!(contains("hello world", "o w"));
    assert!(contains("abc", ""));
    assert!(!contains("abc", "abcd"));
    assert_eq!(split_char("a-b--c", '-'), vec!["a", "b", "", "c"]);
    assert_eq!(split_char("", '-'), vec![""]);
    assert_eq!(join(&split_char("x-y-", '-'), "-"), "x-y-");
    assert_eq!(replace_char_str("a.b.c", '.', '_'), "a_b_c");
    assert_eq!(replace_str("${a}+${a}", "${a}", "x"), "x+x");
    assert_eq!(replace_str("aaa", "aa", "b"), "ba");
    assert_eq!(trim_start_char("__a_", '_'), "a_");
    assert_eq!(trim_end_char("_a__", '_'), "_a");
    assert_eq!(trim_start_str("ababx", "ab"), "x");
    assert_eq!(trim_end_str("x.h.h", ".h"), "x");
    assert_eq!(prefix_before("gust@v1", '@'), "gust");
    assert_eq!(prefix_before("gust", '@'), "gust");
    assert_eq!(prefix_before_last("a.b.c", '.'), Some("a.b".to_string()));
    assert!(starts_with("ffi_pb_x", "ffi_pb_"));
}
