use chat_core::chat::Chat;
use chat_core::color::{color_index, palette_color, PALETTE_LEN};

const PALETTE: [&str; 16] = [
    "#EF4444", "#F97316", "#F59E0B", "#EAB308", "#84CC16", "#22C55E", "#10B981", "#14B8A6",
    "#06B6D4", "#0EA5E9", "#3B82F6", "#6366F1", "#8B5CF6", "#A855F7", "#D946EF", "#EC4899",
];

#[test]
fn palette_has_sixteen_fixed_entries() {
    assert_eq!(PALETTE_LEN, 16);
    for (i, expected) in PALETTE.iter().enumerate() {
        assert_eq!(palette_color(i), *expected);
    }
}

#[test]
fn empty_name_takes_first_entry() {
    assert_eq!(color_index(""), 0);
    assert_eq!(Chat::get_user_color(""), "#EF4444");
}

#[test]
fn color_is_code_point_sum_modulo_sixteen() {
    // 'a' = 97, and 97 % 16 = 1
    assert_eq!(Chat::get_user_color("a"), "#F97316");
    // 97 + 108 + 105 + 99 + 101 = 510, and 510 % 16 = 14
    assert_eq!(color_index("alice"), 14);
    assert_eq!(Chat::get_user_color("alice"), "#D946EF");
    // 98 + 111 + 98 = 307, and 307 % 16 = 3
    assert_eq!(Chat::get_user_color("bob"), "#EAB308");
}

#[test]
fn non_ascii_is_summed_by_code_point() {
    // U+00E9 = 233, and 233 % 16 = 9; its two bytes would give 12
    assert_eq!(color_index("\u{e9}"), 9);
    assert_eq!(Chat::get_user_color("\u{e9}"), "#0EA5E9");
    // U+1F600 = 128512, a multiple of 16
    assert_eq!(color_index("\u{1F600}"), 0);
}

#[test]
fn names_with_equal_sums_collide() {
    assert_eq!(Chat::get_user_color("ab"), Chat::get_user_color("ba"));
    // 'q' = 113 = 97 + 16
    assert_eq!(Chat::get_user_color("a"), Chat::get_user_color("q"));
}

#[test]
fn color_is_stable_and_in_palette() {
    let long = "x".repeat(5000);
    let names = ["", "alice", "bob", "Zo\u{eb}", "\u{4f60}\u{597d}", "a b c", long.as_str()];
    for name in names {
        let first = Chat::get_user_color(name);
        let second = Chat::get_user_color(name);
        assert_eq!(first, second);
        assert!(PALETTE.contains(&first.as_str()));
        let expected = name.chars().map(|c| c as usize).sum::<usize>() % 16;
        assert_eq!(color_index(name), expected);
        assert_eq!(first, PALETTE[expected]);
    }
}
