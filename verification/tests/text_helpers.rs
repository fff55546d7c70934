use trmnl_plugin_server::text::{chars_eq, chars_less, chars_of, find_char, slice_contains};

fn chars(s: &str) -> Vec<char> {
    s.chars().collect()
}

#[test]
fn characters_of_a_string_in_order() {
    assert_eq!(chars_of("A10-1"), vec!['A', '1', '0', '-', '1']);
    assert_eq!(chars_of(""), Vec::<char>::new());
    assert_eq!(chars_of("Zürich"), vec!['Z', 'ü', 'r', 'i', 'c', 'h']);
}

#[test]
fn first_position_of_a_character() {
    assert_eq!(find_char(&chars("M16-1-2"), '-'), Some(3));
    assert_eq!(find_char(&chars("-M16"), '-'), Some(0));
    assert_eq!(find_char(&chars("M16"), '-'), None);
    assert_eq!(find_char(&chars(""), '-'), None);
}

#[test]
fn equality_of_character_sequences() {
    assert!(chars_eq(&chars("abc"), &chars("abc")));
    assert!(chars_eq(&chars(""), &chars("")));
    assert!(!chars_eq(&chars("abc"), &chars("abd")));
    assert!(!chars_eq(&chars("abc"), &chars("ab")));
    assert!(!chars_eq(&chars("ab"), &chars("abc")));
}

#[test]
fn part_of_a_character_sequence() {
    assert!(slice_contains(&chars("west oakland"), &chars("oakland")));
    assert!(slice_contains(&chars("west oakland"), &chars("west")));
    assert!(slice_contains(&chars("west oakland"), &chars("t o")));
    assert!(slice_contains(&chars("west oakland"), &chars("")));
    assert!(slice_contains(&chars(""), &chars("")));
    assert!(slice_contains(&chars("aab"), &chars("ab")));
    assert!(!slice_contains(&chars("west oakland"), &chars("oaklands")));
    assert!(!slice_contains(&chars("oak"), &chars("oakland")));
    assert!(!slice_contains(&chars(""), &chars("a")));
    assert!(!slice_contains(&chars("west oakland"), &chars("Oakland")));
}

#[test]
fn dictionary_order_of_character_sequences() {
    assert!(chars_less(&chars("12TH"), &chars("A10")));
    assert!(chars_less(&chars("A10"), &chars("A20")));
    assert!(chars_less(&chars("A10"), &chars("EMBR")));
    assert!(chars_less(&chars("EMBR"), &chars("M10")));
    assert!(chars_less(&chars("A1"), &chars("A10")));
    assert!(chars_less(&chars(""), &chars("A")));
    assert!(!chars_less(&chars("A10"), &chars("A10")));
    assert!(!chars_less(&chars("A10"), &chars("A1")));
    assert!(!chars_less(&chars("M10"), &chars("EMBR")));
    assert!(!chars_less(&chars(""), &chars("")));
    assert!(!chars_less(&chars("a"), &chars("Z")));
}
