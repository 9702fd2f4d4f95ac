use gym_signup::text::replace_all;

#[test]
fn replaces_a_single_occurrence() {
    assert_eq!(replace_all("hello PRICE!", "PRICE", "12"), "hello 12!");
}

#[test]
fn replaces_every_occurrence() {
    assert_eq!(replace_all("aXbXc", "X", "YY"), "aYYbYYc");
}

#[test]
fn leaves_text_without_the_pattern_alone() {
    assert_eq!(replace_all("nothing here", "PRICE", "12"), "nothing here");
}

#[test]
fn empty_pattern_changes_nothing() {
    assert_eq!(replace_all("abc", "", "zzz"), "abc");
}

#[test]
fn pattern_longer_than_text_changes_nothing() {
    assert_eq!(replace_all("ab", "abc", "z"), "ab");
}

#[test]
fn scans_left_to_right_without_overlap() {
    assert_eq!(replace_all("aaa", "aa", "b"), "ba");
}

#[test]
fn does_not_rescan_the_replacement() {
    assert_eq!(replace_all("X", "X", "XX"), "XX");
}

#[test]
fn replacement_may_be_empty() {
    assert_eq!(replace_all("a-b-c", "-", ""), "abc");
}

#[test]
fn empty_text_stays_empty() {
    assert_eq!(replace_all("", "PRICE", "12"), "");
}
