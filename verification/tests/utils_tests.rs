use vibe_manager::text::{blank, chars_of, in_white_space_set, same_text, text_of};
use vibe_manager::utils::slug::slug_from_lowercase;
use vibe_manager::utils::{color_from_name, name_to_slug, parse_hex_color, report_color, Color};

#[test]
fn test_simple_name() {
    assert_eq!(name_to_slug("Alex Chen"), "alex-chen");
}

#[test]
fn test_accented_name() {
    assert_eq!(name_to_slug("María García"), "maria-garcia");
}

#[test]
fn test_extra_spaces() {
    assert_eq!(name_to_slug("  John   Doe  "), "john-doe");
}

#[test]
fn test_special_chars() {
    assert_eq!(name_to_slug("O'Brien"), "o-brien");
}

#[test]
fn test_slug_edges() {
    assert_eq!(name_to_slug(""), "");
    assert_eq!(name_to_slug("---"), "");
    assert_eq!(name_to_slug(" ! "), "");
    assert_eq!(name_to_slug("-a--b-"), "a-b");
    assert_eq!(name_to_slug("Åsa Öberg"), "sa-oberg");
    assert_eq!(name_to_slug("ÉMILE ÇELIK"), "emile-celik");
    assert_eq!(name_to_slug("Agent 007"), "agent-007");
    assert_eq!(name_to_slug("tab\tand\nbreak"), "tab-and-break");
    assert_eq!(name_to_slug("ÀÂÄÃ ÈÊË ÌÎÏ ÒÔÖÕ ÙÛÜ Ñ"), "aaaa-eee-iii-oooo-uuu-n");
    // the lowercase mapping comes first
    assert_eq!(name_to_slug("ALEX"), "alex");
    // without it capital letters stay, and capital accents become dashes
    assert_eq!(slug_from_lowercase("ALEX É"), "ALEX");
    assert_eq!(slug_from_lowercase("émile"), "emile");
}

#[test]
fn test_slug_is_tidy() {
    for name in ["  a  b  ", "--x--", "é-è", "a - b", "No.1 / No.2", "", " "] {
        let slug = name_to_slug(name);
        assert!(!slug.starts_with('-'));
        assert!(!slug.ends_with('-'));
        assert!(!slug.contains("--"));
    }
}

#[test]
fn test_color_from_name() {
    // the empty name hashes to 0
    assert_eq!(color_from_name(""), Color::Rgb(100, 149, 237));
    // "a" hashes to 97, "b" to 98
    assert_eq!(color_from_name("a"), Color::Rgb(178, 102, 102));
    assert_eq!(color_from_name("b"), Color::Rgb(70, 130, 180));
    // "ab" hashes to 97 * 31 + 98 = 3105
    assert_eq!(color_from_name("ab"), Color::Rgb(72, 61, 139));
    // a long name wraps round 32 bits, as in wrapping arithmetic
    let name = "Maximilian Alexander von Hohenzollern-Sigmaringen";
    let hash = name.bytes().fold(0u32, |acc, b| acc.wrapping_mul(31).wrapping_add(b as u32));
    let palette = [
        Color::Rgb(100, 149, 237),
        Color::Rgb(143, 188, 143),
        Color::Rgb(205, 133, 63),
        Color::Rgb(147, 112, 219),
        Color::Rgb(240, 128, 128),
        Color::Rgb(72, 61, 139),
        Color::Rgb(189, 183, 107),
        Color::Rgb(178, 102, 102),
        Color::Rgb(70, 130, 180),
        Color::Rgb(102, 178, 102),
    ];
    assert_eq!(color_from_name(name), palette[(hash as usize) % 10]);
    // non-ASCII names are hashed by their UTF-8 bytes
    let name = "Zoë Ångström";
    let hash = name.bytes().fold(0u32, |acc, b| acc.wrapping_mul(31).wrapping_add(b as u32));
    assert_eq!(color_from_name(name), palette[(hash as usize) % 10]);
}

#[test]
fn test_parse_hex_color() {
    assert_eq!(parse_hex_color("#6495ED"), Some(Color::Rgb(100, 149, 237)));
    assert_eq!(parse_hex_color("6495ed"), Some(Color::Rgb(100, 149, 237)));
    assert_eq!(parse_hex_color("##000000"), Some(Color::Rgb(0, 0, 0)));
    assert_eq!(parse_hex_color("#FFFFFF"), Some(Color::Rgb(255, 255, 255)));
    assert_eq!(parse_hex_color("#fFaA09"), Some(Color::Rgb(255, 170, 9)));
    // the integer parser takes a plus sign for the first digit
    assert_eq!(parse_hex_color("#+f+0+a"), Some(Color::Rgb(15, 0, 10)));
    assert_eq!(parse_hex_color(""), None);
    assert_eq!(parse_hex_color("#"), None);
    assert_eq!(parse_hex_color("#12345"), None);
    assert_eq!(parse_hex_color("#1234567"), None);
    assert_eq!(parse_hex_color("#12345g"), None);
    assert_eq!(parse_hex_color("#-12345"), None);
    assert_eq!(parse_hex_color("#1+2345"), None);
    assert_eq!(parse_hex_color("#++1234"), None);
    assert_eq!(parse_hex_color(" 123456"), None);
    assert_eq!(parse_hex_color("#12 456"), None);
    assert_eq!(parse_hex_color("123#45"), None);
    assert_eq!(parse_hex_color("#ééé"), None);
    assert_eq!(parse_hex_color("#ééé123"), None);
}

#[test]
fn test_report_color() {
    assert_eq!(report_color(Some("#102030"), "a"), Color::Rgb(16, 32, 48));
    assert_eq!(report_color(Some("blue"), "a"), color_from_name("a"));
    assert_eq!(report_color(None, "a"), Color::Rgb(178, 102, 102));
}

#[test]
fn test_text_helpers() {
    assert!(blank(""));
    assert!(blank(" \t\r\n\u{a0}\u{3000}"));
    assert!(!blank(" x "));
    assert!(!blank("\u{200b}"));
    assert!(same_text("é", "é"));
    assert!(!same_text("e", "é"));
    assert!(!same_text("a", "ab"));
    assert_eq!(chars_of("héé"), vec!['h', 'é', 'é']);
    assert_eq!(text_of(&chars_of("héllo"), 1, 4), "éll");
    assert_eq!(text_of(&chars_of("héllo"), 2, 2), "");
}

#[test]
fn test_white_space_set_is_the_one_of_the_standard_library() {
    let mut count = 0;
    for code in 0..=0x10FFFFu32 {
        if let Some(c) = char::from_u32(code) {
            assert_eq!(in_white_space_set(c), c.is_whitespace(), "U+{:04X}", code);
            if c.is_whitespace() {
                count += 1;
            }
        }
    }
    assert_eq!(count, 25);
    assert!(!blank("a"));
    assert!(!blank("-"));
    assert!(blank("\n"));
    assert!(!blank("\u{180e}"));
    assert!(!blank("\u{feff}"));
}
