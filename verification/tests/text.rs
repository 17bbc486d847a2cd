use pause::text::{after_last_exec, int_to_string, replace, str_eq, to_ascii_lowercase, trim};

#[test]
fn text_helpers() {
    assert_eq!(trim(" \t a b \n"), "a b");
    assert_eq!(trim("   "), "");
    assert_eq!(replace("{m}+{m}={mm}", "{m}", "1"), "1+1={mm}");
    assert_eq!(replace("aaa", "aa", "b"), "ba");
    assert_eq!(to_ascii_lowercase("HeLLo-Ä"), "hello-Ä");
    assert_eq!(after_last_exec("a@b@c", '@'), "c");
    assert_eq!(after_last_exec("abc", '@'), "abc");
    assert_eq!(int_to_string(-45), "-45");
    assert_eq!(int_to_string(0), "0");
    assert_eq!(int_to_string(i64::MIN), "-9223372036854775808");
    assert!(str_eq("休一下", "休一下"));
    assert!(!str_eq("ab", "abc"));
}
