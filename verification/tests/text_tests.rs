use mars::text::clone_strings;
use mars::text::dedup_strings;
use mars::text::join_space;
use mars::text::list_contains;
use mars::text::str_contains;
use mars::text::str_eq;
use mars::text::str_starts_with;
use mars::text::trim_str;
use mars::text::u32_to_decimal;

fn strings(v: &[&str]) -> Vec<String> {
    v.iter().map(|s| s.to_string()).collect()
}

#[test]
fn str_eq_basic() {
    assert!(str_eq("abc", "abc"));
    assert!(!str_eq("abc", "abd"));
    assert!(!str_eq("abc", "abcd"));
    assert!(str_eq("", ""));
}

#[test]
fn str_contains_basic() {
    assert!(str_contains("aarch64-linux-android", "android"));
    assert!(str_contains("x86_64-uwp-windows-msvc", "uwp"));
    assert!(!str_contains("x86_64-unknown-linux-gnu", "uwp"));
    assert!(str_contains("anything", ""));
    assert!(!str_contains("ab", "abc"));
    assert!(str_contains("abc", "abc"));
}

#[test]
fn str_starts_with_basic() {
    assert!(str_starts_with("-Ztimings=info", "-Ztimings"));
    assert!(str_starts_with("-Ztimings", "-Ztimings"));
    assert!(!str_starts_with("-Ztiming", "-Ztimings"));
    assert!(!str_starts_with("x-Ztimings", "-Ztimings"));
}

#[test]
fn trim_removes_surrounding_whitespace() {
    assert_eq!(trim_str(" \t nightly-2020-06-15\n"), "nightly-2020-06-15");
    assert_eq!(trim_str("already-trimmed"), "already-trimmed");
    assert_eq!(trim_str("  \n\t "), "");
    assert_eq!(trim_str(""), "");
    assert_eq!(trim_str("a b"), "a b");
}

#[test]
fn decimal_formatting() {
    assert_eq!(u32_to_decimal(0), "0");
    assert_eq!(u32_to_decimal(7), "7");
    assert_eq!(u32_to_decimal(10), "10");
    assert_eq!(u32_to_decimal(1234), "1234");
    assert_eq!(u32_to_decimal(4294967295), "4294967295");
}

#[test]
fn join_with_spaces() {
    assert_eq!(join_space(&strings(&[])), "");
    assert_eq!(join_space(&strings(&["one"])), "one");
    assert_eq!(join_space(&strings(&["a", "b", "c"])), "a b c");
}

#[test]
fn dedup_keeps_first_occurrences() {
    let v = strings(&["egl", "media-dummy", "egl", "layout-2013", "media-dummy"]);
    assert_eq!(dedup_strings(&v), strings(&["egl", "media-dummy", "layout-2013"]));
}

#[test]
fn list_contains_exact_match() {
    let v = strings(&["egl", "media-dummy"]);
    assert!(list_contains(&v, "egl"));
    assert!(!list_contains(&v, "Egl"));
    assert!(!list_contains(&v, "eg"));
}

#[test]
fn clone_strings_copies() {
    let v = strings(&["a", "b"]);
    assert_eq!(clone_strings(&v), v);
}
