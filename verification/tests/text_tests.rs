use password_manager_backend::ids::{common_ids, holds_id, insert_id, remove_id, unique_ids};
use password_manager_backend::text::{contains_text, eq_ignore_ascii_case, text_le, trim};

#[test]
fn trimming_cuts_white_space_off_both_ends() {
    assert_eq!(trim("  Work \t\n"), "Work");
    assert_eq!(trim("Work"), "Work");
    assert_eq!(trim(" two words "), "two words");
    assert_eq!(trim(""), "");
    assert_eq!(trim(" \t \n"), "");
    assert_eq!(trim("\u{2003}wide\u{00a0}"), "wide");
    assert_eq!(trim(" é "), "é");
}

#[test]
fn ascii_case_is_ignored_and_nothing_else() {
    assert!(eq_ignore_ascii_case("Work", "wORK"));
    assert!(eq_ignore_ascii_case("", ""));
    assert!(eq_ignore_ascii_case("a1!", "A1!"));
    assert!(!eq_ignore_ascii_case("Work", "Works"));
    assert!(!eq_ignore_ascii_case("Work", "Work "));
    assert!(!eq_ignore_ascii_case("É", "é"));
    assert!(eq_ignore_ascii_case("École", "école") == false);
    assert!(eq_ignore_ascii_case("éCOLE", "école"));
    assert!(!eq_ignore_ascii_case("@", "`"));
    assert!(!eq_ignore_ascii_case("[", "{"));
}

#[test]
fn finding_a_text_in_a_text() {
    assert!(contains_text("mail.example.com", "example"));
    assert!(contains_text("mail.example.com", "mail"));
    assert!(contains_text("mail.example.com", ".com"));
    assert!(contains_text("mail.example.com", ""));
    assert!(contains_text("", ""));
    assert!(contains_text("abc", "abc"));
    assert!(!contains_text("abc", "abcd"));
    assert!(!contains_text("", "a"));
    assert!(!contains_text("mail.example.com", "Example"));
    assert!(contains_text("aab", "ab"));
    assert!(contains_text("日本語のテキスト", "のテ"));
}

#[test]
fn texts_are_ordered_byte_by_byte() {
    assert!(text_le("", ""));
    assert!(text_le("", "a"));
    assert!(!text_le("a", ""));
    assert!(text_le("Bank", "Work"));
    assert!(!text_le("Work", "Bank"));
    assert!(text_le("Work", "Work"));
    assert!(text_le("Work", "Works"));
    assert!(!text_le("Works", "Work"));
    assert!(text_le("Z", "a"));
    assert!(text_le("a", "é"));
    for (left, right) in [("a", "b"), ("ab", "a"), ("", "x"), ("é", "z"), ("same", "same")] {
        assert_eq!(text_le(left, right), left <= right);
        assert_eq!(text_le(right, left), right <= left);
    }
}

#[test]
fn lists_of_identifiers_kept_as_sets() {
    let mut ids = vec![3u128, 1];
    assert!(holds_id(&ids, 3));
    assert!(!holds_id(&ids, 2));
    assert!(insert_id(&mut ids, 2));
    assert!(!insert_id(&mut ids, 3));
    assert_eq!(ids, vec![3, 1, 2]);
    assert!(remove_id(&mut ids, 1));
    assert!(!remove_id(&mut ids, 1));
    assert_eq!(ids, vec![3, 2]);
    let mut repeated = vec![5u128, 6, 5, 7, 5];
    assert!(remove_id(&mut repeated, 5));
    assert_eq!(repeated, vec![6, 7]);
    assert_eq!(unique_ids(&vec![4, 4, 2, 4, 2, 9]), vec![4, 2, 9]);
    assert_eq!(unique_ids(&Vec::new()), Vec::<u128>::new());
    assert_eq!(common_ids(&vec![1, 2, 3, 4], &vec![4, 2, 8]), vec![2, 4]);
    assert_eq!(common_ids(&vec![1, 2], &Vec::new()), Vec::<u128>::new());
}
