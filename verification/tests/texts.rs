use catalog::text::{blank, characters, find_in, like, white_space};

#[test]
fn white_space_is_what_the_standard_library_says() {
    let mut c = '\0';
    loop {
        assert_eq!(white_space(c), c.is_whitespace(), "{:?}", c);
        if c == char::MAX {
            break;
        }
        c = char::from_u32(c as u32 + 1).unwrap_or('\u{E000}');
    }
}

#[test]
fn blank_is_what_trimming_to_nothing_is() {
    for text in ["", " ", "\t \n", "\u{2003}\u{3000}", " a ", "a", "\u{200B}", "é "] {
        assert_eq!(blank(text), text.trim().is_empty(), "{text:?}");
    }
}

#[test]
fn characters_of_a_text() {
    assert_eq!(characters("aé€"), vec!['a', 'é', '€']);
    assert!(characters("").is_empty());
}

#[test]
fn bev_is_found_in_beverages() {
    assert!(find_in("Beverages", "bev"));
    assert!(find_in("Beverages", "AGES"));
    assert!(find_in("Beverages", "Beverages"));
    assert!(find_in("beverages", "BEVERAGES"));
    assert!(find_in("Beverages", ""));
    assert!(find_in("", ""));
    assert!(!find_in("Beverages", "Beveragess"));
    assert!(!find_in("Beverages", "bevs"));
    assert!(!find_in("", "a"));
}

#[test]
fn case_is_ignored_beyond_the_letters_a_to_z() {
    assert!(find_in("é", "É"));
    assert!(find_in("É", "é"));
    assert!(find_in("Café au lait", "É AU"));
    assert!(find_in("CAFÉ", "café"));
    assert!(find_in("ΩMEGA", "ωmega"));
    assert!(find_in("Żółć", "żÓŁĆ"));
    assert!(!find_in("Cafe", "é"));
    for (hay, needle) in [("Straße", "STRASSE"), ("İstanbul", "i"), ("ΟΔΟΣ", "οδοσ")] {
        assert_eq!(
            find_in(hay, needle),
            hay.to_lowercase().contains(&needle.to_lowercase()),
            "{hay} {needle}"
        );
    }
}

#[test]
fn wildcards_in_the_text_stay_wildcards() {
    assert!(find_in("100% juice", "_"));
    assert!(!find_in("", "_"));
    assert!(find_in("", "%"));
    assert!(find_in("Beverages", "b_v"));
    assert!(find_in("Beverages", "B%S"));
    assert!(!find_in("Beverages", "b__v"));
    assert!(find_in("100% juice", "0\\%"));
    assert!(!find_in("100 juice", "0\\%"));
    assert!(find_in("a_b", "A\\_B"));
    assert!(!find_in("axb", "a\\_b"));
    assert!(find_in("back\\slash", "K\\\\S"));
    assert!(find_in("ends in %", "\\"));
    assert!(!find_in("ends in x", "\\"));
}

#[test]
fn like_is_what_the_pattern_stands_for() {
    let cases = [
        ("", "", true),
        ("a", "", false),
        ("", "%", true),
        ("abc", "%", true),
        ("abc", "abc", true),
        ("abc", "ABC", false),
        ("abc", "a_c", true),
        ("ac", "a_c", false),
        ("abc", "a%", true),
        ("abc", "%c", true),
        ("abc", "%b%", true),
        ("abc", "%d%", false),
        ("abc", "a%b%c", true),
        ("abc", "a%c%b", false),
        ("aaab", "%a_b", true),
        ("aaab", "%%ab%%", true),
        ("abc", "___", true),
        ("abc", "____", false),
        ("a%c", "a\\%c", true),
        ("abc", "a\\%c", false),
        ("a_c", "a\\_c", true),
        ("a\\c", "a\\\\c", true),
        ("abc", "a\\bc", true),
        ("abc", "abc\\", false),
        ("abc\\", "abc\\", false),
        ("é€", "_€", true),
        ("mississippi", "%iss%ipp_", true),
        ("mississippi", "%iss%ipp", false),
    ];
    for (text, pattern, expected) in cases {
        assert_eq!(like(text, pattern), expected, "{text:?} LIKE {pattern:?}");
    }
}
