use look::matcher::{find, find_bytes, find_in, searched_form};

#[test]
fn find_returns_first_occurrence() {
    assert_eq!(find("banana", "an", true), Some((1, 3)));
    assert_eq!(find("banana", "na", true), Some((2, 4)));
}

#[test]
fn find_returns_none_without_occurrence() {
    assert_eq!(find("abc", "x", true), None);
    assert_eq!(find("abc", "abcd", true), None);
    assert_eq!(find("", "a", false), None);
}

#[test]
fn find_empty_pattern_matches_at_start() {
    assert_eq!(find("abc", "", true), Some((0, 0)));
    assert_eq!(find("", "", true), Some((0, 0)));
}

#[test]
fn find_respects_case_when_asked() {
    assert_eq!(find("README.md", "readme", true), None);
    assert_eq!(find("README.md", "README", true), Some((0, 6)));
}

#[test]
fn find_ignores_case_when_asked() {
    assert_eq!(find("README.md", "readme", false), Some((0, 6)));
    assert_eq!(find("abc", "ABC", false), Some((0, 3)));
    assert_eq!(find("xAbC", "bc", false), Some((2, 4)));
}

#[test]
fn find_case_flip_gives_same_span() {
    assert_eq!(find("AbC.txt", "b", false), find("aBc.TXT", "B", false));
    assert_eq!(find("Notes", "OTE", false), find("nOTES", "ote", false));
}

#[test]
fn find_measures_bytes_of_multibyte_names() {
    assert_eq!(find("héllo", "llo", true), Some((3, 6)));
    assert_eq!(find("日本語", "語", true), Some((6, 9)));
}

#[test]
fn find_bytes_first_and_absent() {
    assert_eq!(find_bytes(b"aaab", b"ab"), Some(2));
    assert_eq!(find_bytes(b"aaab", b"ba"), None);
    assert_eq!(find_bytes(b"", b""), Some(0));
}

#[test]
fn find_in_compares_exact_bytes() {
    assert_eq!(find_in("a.txt", "txt"), Some((2, 5)));
    assert_eq!(find_in("a.txt", "TXT"), None);
}

#[test]
fn searched_form_lowercases_without_case() {
    assert_eq!(searched_form("MiXeD", false), "mixed");
    assert_eq!(searched_form("MiXeD", true), "MiXeD");
}
