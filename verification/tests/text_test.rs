use togen::ToGen;

#[test]
fn scenario_text_a() {
    let t = ToGen::new("A");
    let exact = xxhash_rust::xxh3::xxh3_64(b"A") >> 16;
    assert_eq!(t.get_header(), 0x01);
    assert_eq!(t.get_meta(), 0x00);
    assert_eq!(t.get_semantico(), 0x0000_0041);
    assert_eq!(t.get_estructural(), 0x0000_0041);
    assert_eq!(t.get_exacto(), exact);
    assert_eq!(t.0, 0x01u128 | (65u128 << 16) | (65u128 << 48) | ((exact as u128) << 80));
}

#[test]
fn text_of_the_empty_string() {
    let t = ToGen::new("");
    assert_eq!(t.get_header(), 0x01);
    assert_eq!(t.get_meta(), 0);
    assert_eq!(t.get_semantico(), 0);
    assert_eq!(t.get_estructural(), 0);
    assert_eq!(t.get_exacto(), 0x2D06_8005_38D3);
}

#[test]
fn calculate_meta_is_the_length_class_moved_eight_bits_up() {
    assert_eq!(ToGen::calculate_meta(""), 0);
    assert_eq!(ToGen::calculate_meta("a"), 0);
    assert_eq!(ToGen::calculate_meta("ab"), 1 << 8);
    assert_eq!(ToGen::calculate_meta("abc"), 2 << 8);
    assert_eq!(ToGen::calculate_meta("abcd"), 2 << 8);
    assert_eq!(ToGen::calculate_meta("abcde"), 3 << 8);
    assert_eq!(ToGen::calculate_meta("12345678"), 3 << 8);
    assert_eq!(ToGen::calculate_meta("123456789"), 4 << 8);
    assert_eq!(ToGen::calculate_meta(&"x".repeat(1024)), 10 << 8);
    assert_eq!(ToGen::calculate_meta(&"x".repeat(1025)), 11 << 8);
}

#[test]
fn length_class_is_the_least_power_of_two_that_reaches_the_length() {
    let cases: [(usize, u8); 12] = [
        (0, 0),
        (1, 0),
        (2, 1),
        (3, 2),
        (4, 2),
        (5, 3),
        (8, 3),
        (9, 4),
        (16, 4),
        (17, 5),
        (65535, 16),
        (65537, 17),
    ];
    for (length, class) in cases {
        assert_eq!(ToGen::calculate_length_class(&"q".repeat(length)), class);
    }
}

#[test]
fn calculate_meta_counts_bytes_not_characters() {
    assert_eq!(ToGen::calculate_meta("á"), 1 << 8);
    assert_eq!(ToGen::calculate_meta("áé"), 2 << 8);
}

#[test]
fn text_meta_field_is_zero_for_every_length() {
    for length in [0usize, 1, 2, 3, 4, 5, 7, 8, 9, 255, 256, 257, 1000, 70000] {
        let input = "z".repeat(length);
        assert_eq!(ToGen::new(&input).get_meta(), 0);
        assert_eq!(ToGen::new_code(&input).get_meta(), 0);
    }
}

#[test]
fn code_hashes_the_path_as_given() {
    let t = ToGen::new_code("src/main.rs");
    assert_eq!(t.get_header(), 0x02);
    assert_eq!(t.get_meta(), 0);
    assert_eq!(t.get_semantico() as u128, ToGen::calculate_simhash("src/main.rs"));
    assert_eq!(t.get_estructural() as u128, ToGen::calculate_metaphone("src/main.rs"));
    assert_eq!(t.get_exacto() as u128, ToGen::calculate_xxh3("src/main.rs"));
}

#[test]
fn text_and_code_differ_in_the_header_only() {
    let text = ToGen::new("lib.rs");
    let code = ToGen::new_code("lib.rs");
    assert_eq!(text.0 >> 8, code.0 >> 8);
    assert_eq!(text.get_header(), 0x01);
    assert_eq!(code.get_header(), 0x02);
}

#[test]
fn same_input_gives_the_same_fingerprint() {
    for input in ["", "A", "genesis", "El hash no conserva similitud estructural"] {
        assert_eq!(ToGen::new(input), ToGen::new(input));
        assert_eq!(ToGen::new_code(input), ToGen::new_code(input));
        assert_eq!(ToGen::new_action(input), ToGen::new_action(input));
    }
}

#[test]
fn header_does_not_depend_on_the_content() {
    let pairs = [("genesis", "genesys"), ("a", "b"), ("", "x"), ("KeyDown", "KeyDowm")];
    for (first, second) in pairs {
        assert_eq!(ToGen::new(first).get_header(), ToGen::new(second).get_header());
        assert_eq!(ToGen::new_code(first).get_header(), ToGen::new_code(second).get_header());
        assert_eq!(ToGen::new_action(first).get_header(), ToGen::new_action(second).get_header());
    }
}

#[test]
fn text_fields_are_the_three_hashes() {
    let t = ToGen::new("genesis");
    assert_eq!(t.get_semantico(), 0xfb39_0da8);
    assert_eq!(t.get_estructural(), 0x8799_c0dc);
    assert_eq!(t.get_exacto(), xxhash_rust::xxh3::xxh3_64(b"genesis") >> 16);
}
