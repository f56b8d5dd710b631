use termedit::width::{char_width, chars_width, str_width};

#[test]
fn printable_ascii_is_one_column() {
    assert_eq!(char_width('a'), 1);
    assert_eq!(char_width(' '), 1);
    assert_eq!(char_width('~'), 1);
    assert_eq!(char_width('0'), 1);
}

#[test]
fn wide_glyphs_are_two_columns() {
    assert_eq!(char_width('あ'), 2);
    assert_eq!(char_width('漢'), 2);
    assert_eq!(char_width('Ｈ'), 2);
    assert_eq!(char_width('한'), 2);
}

#[test]
fn control_characters_are_zero_columns() {
    assert_eq!(char_width('\u{0}'), 0);
    assert_eq!(char_width('\t'), 0);
    assert_eq!(char_width('\n'), 0);
    assert_eq!(char_width('\u{1b}'), 0);
    assert_eq!(char_width('\u{7f}'), 0);
    assert_eq!(char_width('\u{9f}'), 0);
}

#[test]
fn combining_marks_are_zero_columns() {
    assert_eq!(char_width('\u{301}'), 0);
    assert_eq!(char_width('\u{200b}'), 0);
}

#[test]
fn no_character_is_wider_than_three_columns() {
    assert_eq!(char_width('\u{17d8}'), 3);
    let mut widest = 0;
    for code in 0u32..0x11_0000 {
        if let Some(c) = char::from_u32(code) {
            let w = char_width(c);
            if w > widest {
                widest = w;
            }
        }
    }
    assert_eq!(widest, 3);
}

#[test]
fn string_width_is_the_sum_of_character_widths() {
    for s in ["", "hello", "aあb", "漢字かな", "e\u{301}", "a\tb", "Ｈｅｌｌｏ, ｗｏｒｌｄ!", "\r\n"] {
        let sum: usize = s.chars().map(char_width).sum();
        assert_eq!(str_width(s), sum, "{:?}", s);
    }
}

#[test]
fn string_width_values() {
    assert_eq!(str_width(""), 0);
    assert_eq!(str_width("hello"), 5);
    assert_eq!(str_width("aあb"), 4);
    assert_eq!(str_width("漢字"), 4);
    assert_eq!(str_width("e\u{301}"), 1);
    assert_eq!(str_width("a\tb"), 2);
}

#[test]
fn width_of_a_concatenation_is_the_sum_of_the_parts() {
    let a = "ab漢";
    let b = "字cd";
    let joined = format!("{}{}", a, b);
    assert_eq!(str_width(&joined), str_width(a) + str_width(b));
}

#[test]
fn slice_width_matches_string_width() {
    let s = "aあb漢";
    let v: Vec<char> = s.chars().collect();
    assert_eq!(chars_width(&v), str_width(s));
    assert_eq!(chars_width(&v), 6);
    assert_eq!(chars_width(&[]), 0);
}
