use letter_maker::glyphs::get_letter_data;
use letter_maker::glyphs::lookup;
use letter_maker::glyphs::supported_chars;
use letter_maker::glyphs::GLYPH_ROWS;
use letter_maker::render::render;
use letter_maker::render::render_normalized;
use letter_maker::render::OUTPUT_LINES;

fn expected_line(chars: &str, row: usize) -> String {
    let mut line = String::new();
    for c in chars.chars() {
        if let Some(g) = lookup(c) {
            line.push_str(g[row]);
            line.push(' ');
        }
    }
    line
}

#[test]
fn every_supported_char_has_six_rows() {
    let chars = supported_chars();
    assert_eq!(chars.len(), 33);
    for c in chars {
        let g = lookup(c).unwrap();
        assert_eq!(g.len(), GLYPH_ROWS);
    }
}

#[test]
fn unsupported_chars_have_no_glyph() {
    assert!(lookup('#').is_none());
    assert!(lookup('a').is_none());
    assert!(lookup(' ').is_none());
    assert!(lookup('0').is_none());
}

#[test]
fn letter_data_matches_lookup() {
    let data = get_letter_data();
    assert_eq!(data.len(), 33);
    for c in supported_chars() {
        assert_eq!(data.get(&(c as u32)), Some(&lookup(c).unwrap()));
    }
    assert!(data.get(&('a' as u32)).is_none());
    assert!(data.get(&('#' as u32)).is_none());
}

#[test]
fn empty_input_renders_seven_blank_lines() {
    let r = render("");
    assert_eq!(r.lines.len(), OUTPUT_LINES);
    for line in &r.lines {
        assert_eq!(line, "");
    }
    assert!(r.unsupported.is_empty());
}

#[test]
fn single_letter_renders_its_glyph() {
    let r = render("A");
    assert_eq!(r.lines.len(), 7);
    for i in 0..6 {
        assert_eq!(r.lines[i], expected_line("A", i));
    }
    assert_eq!(r.lines[0], "    ███╗    ");
    assert_eq!(r.lines[6], "");
    assert!(r.unsupported.is_empty());
}

#[test]
fn supported_string_concatenates_columns_in_order() {
    let r = render("AB");
    for i in 0..6 {
        let a = lookup('A').unwrap()[i];
        let b = lookup('B').unwrap()[i];
        assert_eq!(r.lines[i], format!("{} {} ", a, b));
    }
    assert_eq!(r.lines[6], "");
}

#[test]
fn order_of_input_changes_output() {
    let ab = render("AB");
    let ba = render("BA");
    assert_ne!(ab.lines, ba.lines);
}

#[test]
fn unsupported_chars_are_dropped_with_one_diagnostic_each() {
    let with_hash = render("A#B");
    let without = render("AB");
    assert_eq!(with_hash.lines, without.lines);
    assert_eq!(with_hash.unsupported, vec!['#']);

    let two = render("#A?B");
    assert_eq!(two.lines, without.lines);
    assert_eq!(two.unsupported, vec!['#', '?']);
}

#[test]
fn fully_unsupported_input_renders_blank() {
    let r = render("#?*");
    assert_eq!(r.lines, render("").lines);
    assert_eq!(r.unsupported, vec!['#', '?', '*']);
}

#[test]
fn punctuation_renders() {
    let r = render("HI!");
    for i in 0..6 {
        assert_eq!(r.lines[i], expected_line("HI!", i));
    }
    assert!(r.unsupported.is_empty());
}

#[test]
fn lowercase_input_normalizes_to_uppercase() {
    let lower = render_normalized("a");
    let upper = render_normalized("A");
    assert_eq!(lower.lines, upper.lines);
    assert_eq!(lower.lines, render("A").lines);
}

#[test]
fn normalized_render_handles_mixed_input() {
    let mixed = render_normalized("Hello.World!");
    let upper = render("HELLO.WORLD!");
    assert_eq!(mixed.lines, upper.lines);
    assert!(mixed.unsupported.is_empty());
}

#[test]
fn unicode_letters_uppercase_before_lookup() {
    let sharp_s = render_normalized("ß");
    assert_eq!(sharp_s.lines, render("SS").lines);
    assert!(sharp_s.unsupported.is_empty());

    let accented = render_normalized("é");
    assert_eq!(accented.lines, render("").lines);
    assert_eq!(accented.unsupported, vec!['É']);
}

#[test]
fn every_supported_glyph_has_uniform_width() {
    for c in supported_chars() {
        let g = lookup(c).unwrap();
        let w = g[0].chars().count();
        for row in &g {
            assert_eq!(row.chars().count(), w);
        }
    }
}

#[test]
fn long_input_makes_one_wide_line_without_wrapping() {
    let r = render("AAAAAAAAAAAAAAAAAAAA");
    assert_eq!(r.lines.len(), 7);
    let width = "    ███╗    ".chars().count() * 20;
    assert_eq!(r.lines[0].chars().count(), width);
}
