use fastdl_mirror::strutil::{
    concat_str, drop_last_char, rfind_char, str_contains, str_ends_with, str_eq, substring_copy,
};

#[test]
fn contains_finds_substrings() {
    assert!(str_contains("/cstrike/maps/ze_tower.bsp", "maps/"));
    assert!(str_contains("abc", ""));
    assert!(str_contains("abc", "abc"));
    assert!(!str_contains("abc", "abcd"));
    assert!(!str_contains("/cstrike/sound/", "maps/"));
    assert!(str_contains("aab", "ab"));
}

#[test]
fn ends_with_checks_suffix() {
    assert!(str_ends_with("tune.wav.bz2", ".bz2"));
    assert!(!str_ends_with("tune.bz2.wav", ".bz2"));
    assert!(str_ends_with("x", ""));
    assert!(!str_ends_with("", ".bz2"));
}

#[test]
fn rfind_locates_last_occurrence() {
    assert_eq!(rfind_char("/a/b/c.ext", '/'), Some(4));
    assert_eq!(rfind_char("abc", '/'), None);
    assert_eq!(rfind_char("/", '/'), Some(0));
}

#[test]
fn drop_last_removes_one_char() {
    assert_eq!(drop_last_char("/cstrike/").as_str(), "/cstrike");
    assert_eq!(drop_last_char("").as_str(), "");
    assert_eq!(drop_last_char("x").as_str(), "");
}

#[test]
fn substring_and_concat() {
    assert_eq!(substring_copy("/a/b/c", 1, 4).as_str(), "a/b");
    assert_eq!(concat_str("https://h", "/a/b").as_str(), "https://h/a/b");
    assert!(str_eq("same", "same"));
    assert!(!str_eq("same", "Same"));
    assert!(!str_eq("same", "sam"));
}
