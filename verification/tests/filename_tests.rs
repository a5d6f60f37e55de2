use paper_renamer::filename::clean;
use paper_renamer::filename::generate_filename;
use paper_renamer::filename::has_pdf_extension;
use paper_renamer::filename::sanitize;
use paper_renamer::filename::validate_filename;
use paper_renamer::llm::PaperMetadata;
use paper_renamer::text::is_space;
use paper_renamer::text::is_word;
use paper_renamer::text::lower_letter;
use paper_renamer::text::to_lower;

fn metadata(author: &str, year: &str, title: &str) -> PaperMetadata {
    PaperMetadata {
        first_author: author.to_string(),
        year: year.to_string(),
        title: title.to_string(),
    }
}

#[test]
fn test_sanitize() {
    assert_eq!(sanitize("Hello World"), "hello-world");
    assert_eq!(sanitize("Test_File-Name"), "test-file-name");
    assert_eq!(sanitize("Special!@#$%Chars"), "specialchars");
    assert_eq!(sanitize("Multiple   Spaces"), "multiple-spaces");
    assert_eq!(sanitize("Vaswani"), "vaswani");
}

#[test]
fn test_generate_filename() {
    let metadata = PaperMetadata {
        first_author: "Vaswani".to_string(),
        year: "2017".to_string(),
        title: "Attention Is All You Need".to_string(),
    };

    let filename = generate_filename(&metadata);
    assert_eq!(filename, "vaswani-2017-attention-is-all-you-need.pdf");
}

#[test]
fn test_validate_filename() {
    assert!(validate_filename("valid-filename.pdf"));
    assert!(!validate_filename("../etc/passwd.pdf"));
    assert!(!validate_filename("path/to/file.pdf"));
    assert!(!validate_filename(""));
    assert!(!validate_filename("no-extension"));
}

#[test]
fn sanitize_of_nothing_is_nothing() {
    assert_eq!(sanitize(""), "");
    assert_eq!(sanitize("---"), "");
    assert_eq!(sanitize("  _  "), "");
    assert_eq!(sanitize("!?."), "");
}

#[test]
fn sanitize_trims_and_collapses_dashes() {
    assert_eq!(sanitize("-a-"), "a");
    assert_eq!(sanitize("--a----b--"), "a-b");
    assert_eq!(sanitize(" a _ b "), "a-b");
    assert_eq!(sanitize("a-!-b"), "a-b");
    assert_eq!(sanitize("a!b"), "ab");
}

#[test]
fn sanitize_turns_every_whitespace_into_a_dash() {
    assert_eq!(sanitize("a\tb"), "a-b");
    assert_eq!(sanitize("a\nb"), "a-b");
    assert_eq!(sanitize("a\u{a0}b"), "a-b");
    assert_eq!(sanitize("a\u{3000}\t b"), "a-b");
}

#[test]
fn sanitize_lowers_and_keeps_letters_of_any_script() {
    assert_eq!(sanitize("ABC"), "abc");
    assert_eq!(sanitize("Émile Zola"), "émile-zola");
    assert_eq!(sanitize("ΟΔΟΣ"), "οδος");
    assert_eq!(sanitize("藏 7"), "藏-7");
}

#[test]
fn clean_does_not_lower() {
    assert_eq!(clean("Hello World"), "Hello-World");
    assert_eq!(clean("a_b c"), "a-b-c");
}

#[test]
fn sanitize_is_idempotent_on_samples() {
    let samples = [
        "Hello World",
        "Test_File-Name",
        "Special!@#$%Chars",
        "Multiple   Spaces",
        "",
        "--x--",
        "İstanbul",
        "ΟΔΟΣ ΟΔΟΣ",
        "a\tb\u{a0}c",
        "Straße_42",
    ];
    for sample in samples {
        let once = sanitize(sample);
        let twice = sanitize(&once);
        assert_eq!(twice, once);
        assert_eq!(once.to_lowercase(), once);
        assert_eq!(clean(&once), once);
    }
}

#[test]
fn generate_filename_with_empty_fields() {
    assert_eq!(generate_filename(&metadata("", "", "")), "--.pdf");
    assert_eq!(generate_filename(&metadata("Le Cun", "1998", "")), "le-cun-1998-.pdf");
}

#[test]
fn generated_names_are_valid() {
    let name = generate_filename(&metadata("O'Neil", "2016", "Weapons of Math/Destruction.."));
    assert_eq!(name, "oneil-2016-weapons-of-mathdestruction.pdf");
    assert!(validate_filename(&name));
}

#[test]
fn validate_filename_rejects_each_unsafe_form() {
    assert!(!validate_filename("a..b.pdf"));
    assert!(!validate_filename("...pdf"));
    assert!(!validate_filename("a\\b.pdf"));
    assert!(!validate_filename("/a.pdf"));
    assert!(!validate_filename("a.pdf/"));
    assert!(!validate_filename("a.PDF"));
    assert!(!validate_filename("pdf"));
    assert!(!validate_filename("a.pdf "));
}

#[test]
fn validate_filename_accepts_safe_names() {
    assert!(validate_filename(".pdf"));
    assert!(validate_filename("a.b.pdf"));
    assert!(validate_filename("with space.pdf"));
    assert!(validate_filename("vaswani-2017-attention-is-all-you-need.pdf"));
}

#[test]
fn has_pdf_extension_looks_at_the_end_only() {
    assert!(has_pdf_extension("a.pdf"));
    assert!(has_pdf_extension("/dir/a.pdf"));
    assert!(has_pdf_extension(".pdf"));
    assert!(!has_pdf_extension("a.pdf.txt"));
    assert!(!has_pdf_extension("pdf"));
    assert!(!has_pdf_extension(""));
    assert!(!has_pdf_extension("é"));
}

#[test]
fn character_classes_are_those_of_unicode() {
    for code in 0..=0x10ffffu32 {
        if let Some(c) = char::from_u32(code) {
            assert_eq!(is_word(c), c.is_alphanumeric(), "letter or digit: U+{:04X}", code);
            assert_eq!(is_space(c), c.is_whitespace(), "whitespace: U+{:04X}", code);
        }
    }
}

#[test]
fn character_classes_within_ascii() {
    for c in ['a', 'z', 'A', 'Z', '0', '9'] {
        assert!(is_word(c));
        assert!(!is_space(c));
    }
    for c in ['`', '{', '@', '[', '/', ':', '_', '-', '.', '\\', '\u{7f}', '\0'] {
        assert!(!is_word(c));
        assert!(!is_space(c));
    }
    for c in [' ', '\t', '\n', '\u{b}', '\u{c}', '\r'] {
        assert!(is_space(c));
        assert!(!is_word(c));
    }
    for c in ['\u{8}', '\u{e}', '\u{1f}', '!'] {
        assert!(!is_space(c));
    }
}

#[test]
fn character_classes_beyond_ascii() {
    for c in ['é', 'Σ', '藏', '٣', '¾', '①'] {
        assert!(is_word(c));
    }
    for c in ['\u{85}', '\u{a0}', '\u{2003}', '\u{3000}'] {
        assert!(is_space(c));
    }
    for c in ['\u{80}', '€', '😀', '\u{307}', '\u{200b}'] {
        assert!(!is_word(c));
        assert!(!is_space(c));
    }
}

#[test]
fn lower_letter_changes_capitals_of_ascii_only() {
    assert_eq!(lower_letter('A'), 'a');
    assert_eq!(lower_letter('Z'), 'z');
    assert_eq!(lower_letter('M'), 'm');
    assert_eq!(lower_letter('@'), '@');
    assert_eq!(lower_letter('['), '[');
    assert_eq!(lower_letter('a'), 'a');
    assert_eq!(lower_letter('É'), 'É');
    for code in 0..128u8 {
        let c = code as char;
        assert_eq!(lower_letter(c), c.to_ascii_lowercase());
    }
}

#[test]
fn to_lower_is_the_lowercase_of_unicode() {
    let ascii: String = (0..128u8).map(|code| code as char).collect();
    assert_eq!(to_lower(&ascii), ascii.to_lowercase());
    assert_eq!(to_lower("Hello World"), "hello world");
    assert_eq!(to_lower(""), "");
    assert_eq!(to_lower("ÉMILE"), "émile");
    assert_eq!(to_lower("ΟΔΟΣ ΟΔΟΣ"), "οδος οδος");
    assert_eq!(to_lower("İ"), "i\u{307}");
    assert_eq!(to_lower("ABC É"), "abc é");
    for sample in ["Straße", "ǅ", "Ⅷ", "ᲐᲑ", "A\u{3a3}"] {
        assert_eq!(to_lower(sample), sample.to_lowercase());
    }
}

#[test]
fn sanitize_agrees_with_the_rule_on_each_ascii_character() {
    for code in 0..128u8 {
        let c = code as char;
        let text = format!("x{}y", c);
        let expected = if c.is_whitespace() || c == '_' || c == '-' {
            "x-y".to_string()
        } else if c.is_alphanumeric() {
            format!("x{}y", c.to_ascii_lowercase())
        } else {
            "xy".to_string()
        };
        assert_eq!(sanitize(&text), expected, "U+{:04X}", code);
    }
}

fn assert_idempotent_on_range(from: u32, to: u32) {
    for code in from..to {
        if let Some(c) = char::from_u32(code) {
            for text in [format!("{}", c), format!("A{}b C", c)] {
                let once = sanitize(&text);
                assert_eq!(sanitize(&once), once, "U+{:04X}", code);
                assert_eq!(to_lower(&once), once, "U+{:04X}", code);
            }
        }
    }
}

#[test]
fn sanitize_is_idempotent_around_each_character_of_the_first_plane() {
    assert_idempotent_on_range(0, 0x10000);
}

#[test]
fn sanitize_is_idempotent_around_each_character_of_the_second_plane() {
    assert_idempotent_on_range(0x10000, 0x20000);
}

#[test]
fn sanitize_is_idempotent_around_each_character_of_the_third_plane() {
    assert_idempotent_on_range(0x20000, 0x30000);
}

#[test]
fn sanitize_is_idempotent_around_each_character_of_the_higher_planes() {
    assert_idempotent_on_range(0x30000, 0x40000);
    assert_idempotent_on_range(0xe0000, 0xe1000);
}
