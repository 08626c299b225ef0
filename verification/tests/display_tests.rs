use letter_maker::display::colour_style;
use letter_maker::display::get_big_help;
use letter_maker::display::show_banner;
use letter_maker::display::PrintStyle;
use letter_maker::display::TextColour;
use letter_maker::strutil::char_to_upper;
use letter_maker::strutil::str_eq;

#[test]
fn banner_is_the_fixed_logo() {
    let banner = show_banner();
    assert!(banner.starts_with("\n\t   @@"));
    assert!(banner.contains('█'));
}

#[test]
fn big_help_shows_a_sample_invocation() {
    assert_eq!(get_big_help(), "\n\t cargo run -- --output letter.md letter");
}

#[test]
fn colour_names_select_their_styles() {
    assert_eq!(
        colour_style("green"),
        PrintStyle { colour: TextColour::Green, line_feed: true, flush: false }
    );
    assert_eq!(
        colour_style("flush_green"),
        PrintStyle { colour: TextColour::Green, line_feed: false, flush: true }
    );
    assert_eq!(
        colour_style("green_noLineFeed"),
        PrintStyle { colour: TextColour::Green, line_feed: false, flush: false }
    );
    assert_eq!(
        colour_style("cyan"),
        PrintStyle { colour: TextColour::Cyan, line_feed: true, flush: false }
    );
    assert_eq!(
        colour_style("red"),
        PrintStyle { colour: TextColour::Red, line_feed: true, flush: false }
    );
    assert_eq!(
        colour_style("purple_noLineFeed"),
        PrintStyle { colour: TextColour::Purple, line_feed: false, flush: false }
    );
}

#[test]
fn unknown_colour_falls_back_to_yellow() {
    assert_eq!(
        colour_style("magenta"),
        PrintStyle { colour: TextColour::Yellow, line_feed: true, flush: false }
    );
    assert_eq!(
        colour_style(""),
        PrintStyle { colour: TextColour::Yellow, line_feed: true, flush: false }
    );
}

#[test]
fn str_eq_compares_contents() {
    assert!(str_eq("abc", "abc"));
    assert!(!str_eq("abc", "abd"));
    assert!(!str_eq("abc", "ab"));
    assert!(str_eq("", ""));
}

#[test]
fn char_to_upper_uppercases_ascii_letters_only() {
    assert_eq!(char_to_upper('a'), 'A');
    assert_eq!(char_to_upper('z'), 'Z');
    assert_eq!(char_to_upper('A'), 'A');
    assert_eq!(char_to_upper('!'), '!');
    assert_eq!(char_to_upper('é'), 'é');
}
