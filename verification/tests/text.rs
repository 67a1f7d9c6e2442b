use mb_tray::text::{
    is_blank, lex_le_chars, lowercase_chars, push_decimal, sort_case_insensitive,
    trim_white_space, white_space,
};

fn names(v: &[&str]) -> Vec<String> {
    v.iter().map(|s| s.to_string()).collect()
}

#[test]
fn sort_orders_names_ignoring_ascii_case() {
    let sorted = sort_case_insensitive(&names(&["carol", "Bob", "alice", "Dave"]));
    assert_eq!(sorted, names(&["alice", "Bob", "carol", "Dave"]));
}

#[test]
fn sort_keeps_every_name_including_case_twins() {
    let input = names(&["bob", "Zed", "BOB", "amy"]);
    let sorted = sort_case_insensitive(&input);
    assert_eq!(sorted.len(), 4);
    assert_eq!(sorted[0], "amy");
    let mut middle = vec![sorted[1].clone(), sorted[2].clone()];
    middle.sort();
    assert_eq!(middle, names(&["BOB", "bob"]));
    assert_eq!(sorted[3], "Zed");
}

#[test]
fn sort_of_nothing_is_nothing() {
    assert!(sort_case_insensitive(&Vec::new()).is_empty());
}

#[test]
fn sort_puts_a_prefix_first_and_orders_by_code_point() {
    let sorted = sort_case_insensitive(&names(&["Steve_2", "steve", "_x", "Éva", "zoe"]));
    assert_eq!(sorted, names(&["_x", "steve", "Steve_2", "zoe", "Éva"]));
}

#[test]
fn lowercase_touches_only_ascii_letters() {
    assert_eq!(lowercase_chars("AbÉ-Z9"), vec!['a', 'b', 'É', '-', 'z', '9']);
}

#[test]
fn lexicographic_comparison() {
    let a = vec!['a', 'b'];
    let ab = vec!['a', 'b', 'c'];
    let b = vec!['b'];
    assert!(lex_le_chars(&a, &ab));
    assert!(!lex_le_chars(&ab, &a));
    assert!(lex_le_chars(&a, &b));
    assert!(!lex_le_chars(&b, &a));
    assert!(lex_le_chars(&a, &a));
}

#[test]
fn decimal_rendering() {
    let mut s = String::from("n=");
    push_decimal(&mut s, 0);
    assert_eq!(s, "n=0");
    let mut s = String::new();
    push_decimal(&mut s, 1234567890);
    assert_eq!(s, "1234567890");
    let mut s = String::new();
    push_decimal(&mut s, u64::MAX);
    assert_eq!(s, u64::MAX.to_string());
}

#[test]
fn trimming_matches_str_trim() {
    for s in ["  a b  ", "\t\nx\u{3000}", "", "   ", "\u{a0}y\u{2009}", "plain", "\u{85}"] {
        assert_eq!(trim_white_space(s), s.trim());
        assert_eq!(is_blank(s), s.trim().is_empty());
    }
}

#[test]
fn white_space_matches_char_is_whitespace() {
    for u in 0u32..0x3100 {
        if let Some(c) = char::from_u32(u) {
            assert_eq!(white_space(c), c.is_whitespace(), "{u:#x}");
        }
    }
}
