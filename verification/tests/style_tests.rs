use ansi_style::color::Color;
use ansi_style::parse::AnsiCodeIterator;
use ansi_style::parse::Element;
use ansi_style::sgr::AttributeSet;
use ansi_style::style::ansi_term_style_equality;
use ansi_style::style::git_default_minus_style;
use ansi_style::style::git_default_plus_style;
use ansi_style::style::line_has_style_other_than;
use ansi_style::style::Style;
use ansi_style::style::DecorationStyle;
use ansi_style::color::ansi_term_color_equality;
use ansi_style::color::color_to_string;

/// Reads a git-style configuration string ("bold #aabbcc ul 19 strike")
/// into a style, as the surrounding configuration layer would.
fn style_from_git_str(s: &str) -> Style {
    let mut style = Style::new();
    let mut colors: Vec<Color> = Vec::new();
    for word in s.split_whitespace() {
        match word {
            "bold" => style.ansi_term_style.is_bold = true,
            "dim" => style.ansi_term_style.is_dimmed = true,
            "italic" => style.ansi_term_style.is_italic = true,
            "ul" => style.ansi_term_style.is_underline = true,
            "blink" => style.ansi_term_style.is_blink = true,
            "reverse" => style.ansi_term_style.is_reverse = true,
            "strike" => style.ansi_term_style.is_strikethrough = true,
            "normal" => {}
            _ => {
                if let Some(color) = color_from_git_word(word) {
                    colors.push(color);
                }
            }
        }
    }
    let mut colors = colors.into_iter();
    style.ansi_term_style.foreground = colors.next();
    style.ansi_term_style.background = colors.next();
    style
}

fn color_from_git_word(word: &str) -> Option<Color> {
    let word = word.trim_matches('"');
    match word {
        "black" => Some(Color::Black),
        "red" => Some(Color::Red),
        "green" => Some(Color::Green),
        "yellow" => Some(Color::Yellow),
        "blue" => Some(Color::Blue),
        "purple" | "magenta" => Some(Color::Purple),
        "cyan" => Some(Color::Cyan),
        "white" => Some(Color::White),
        "brightblack" => Some(Color::Fixed(8)),
        "brightred" => Some(Color::Fixed(9)),
        "brightgreen" => Some(Color::Fixed(10)),
        "brightyellow" => Some(Color::Fixed(11)),
        "brightblue" => Some(Color::Fixed(12)),
        "brightmagenta" => Some(Color::Fixed(13)),
        "brightcyan" => Some(Color::Fixed(14)),
        "brightwhite" => Some(Color::Fixed(15)),
        _ => {
            if let Some(hex) = word.strip_prefix('#') {
                let r = u8::from_str_radix(&hex[0..2], 16).ok()?;
                let g = u8::from_str_radix(&hex[2..4], 16).ok()?;
                let b = u8::from_str_radix(&hex[4..6], 16).ok()?;
                Some(Color::RGB(r, g, b))
            } else {
                word.parse::<u8>().ok().map(Color::Fixed)
            }
        }
    }
}

#[test]
fn test_parse_git_style_string_and_ansi_code_iterator() {
    for (git_style_string, git_output) in &[
        // <git-default>                    "\x1b[32m+\x1b[m\x1b[32mtext\x1b[m\n"
        ("0",                               "\x1b[30m+\x1b[m\x1b[30mtext\x1b[m\n"),
        ("black",                           "\x1b[30m+\x1b[m\x1b[30mtext\x1b[m\n"),
        ("1",                               "\x1b[31m+\x1b[m\x1b[31mtext\x1b[m\n"),
        ("red",                             "\x1b[31m+\x1b[m\x1b[31mtext\x1b[m\n"),
        ("0 1",                             "\x1b[30;41m+\x1b[m\x1b[30;41mtext\x1b[m\n"),
        ("black red",                       "\x1b[30;41m+\x1b[m\x1b[30;41mtext\x1b[m\n"),
        ("19",                              "\x1b[38;5;19m+\x1b[m\x1b[38;5;19mtext\x1b[m\n"),
        ("black 19",                        "\x1b[30;48;5;19m+\x1b[m\x1b[30;48;5;19mtext\x1b[m\n"),
        ("19 black",                        "\x1b[38;5;19;40m+\x1b[m\x1b[38;5;19;40mtext\x1b[m\n"),
        ("19 20",                           "\x1b[38;5;19;48;5;20m+\x1b[m\x1b[38;5;19;48;5;20mtext\x1b[m\n"),
        ("#aabbcc",                         "\x1b[38;2;170;187;204m+\x1b[m\x1b[38;2;170;187;204mtext\x1b[m\n"),
        ("0 #aabbcc",                       "\x1b[30;48;2;170;187;204m+\x1b[m\x1b[30;48;2;170;187;204mtext\x1b[m\n"),
        ("#aabbcc 0",                       "\x1b[38;2;170;187;204;40m+\x1b[m\x1b[38;2;170;187;204;40mtext\x1b[m\n"),
        ("19 #aabbcc",                      "\x1b[38;5;19;48;2;170;187;204m+\x1b[m\x1b[38;5;19;48;2;170;187;204mtext\x1b[m\n"),
        ("#aabbcc 19",                      "\x1b[38;2;170;187;204;48;5;19m+\x1b[m\x1b[38;2;170;187;204;48;5;19mtext\x1b[m\n"),
        ("#aabbcc #ddeeff",                 "\x1b[38;2;170;187;204;48;2;221;238;255m+\x1b[m\x1b[38;2;170;187;204;48;2;221;238;255mtext\x1b[m\n"),
        ("bold #aabbcc #ddeeff",            "\x1b[1;38;2;170;187;204;48;2;221;238;255m+\x1b[m\x1b[1;38;2;170;187;204;48;2;221;238;255mtext\x1b[m\n"),
        ("bold #aabbcc ul #ddeeff",         "\x1b[1;4;38;2;170;187;204;48;2;221;238;255m+\x1b[m\x1b[1;4;38;2;170;187;204;48;2;221;238;255mtext\x1b[m\n"),
        ("bold #aabbcc ul #ddeeff strike",  "\x1b[1;4;9;38;2;170;187;204;48;2;221;238;255m+\x1b[m\x1b[1;4;9;38;2;170;187;204;48;2;221;238;255mtext\x1b[m\n"),
        ("bold 0 ul 1 strike",              "\x1b[1;4;9;30;41m+\x1b[m\x1b[1;4;9;30;41mtext\x1b[m\n"),
        ("bold 0 ul 19 strike",             "\x1b[1;4;9;30;48;5;19m+\x1b[m\x1b[1;4;9;30;48;5;19mtext\x1b[m\n"),
        ("bold 19 ul 0 strike",             "\x1b[1;4;9;38;5;19;40m+\x1b[m\x1b[1;4;9;38;5;19;40mtext\x1b[m\n"),
        ("bold #aabbcc ul 0 strike",        "\x1b[1;4;9;38;2;170;187;204;40m+\x1b[m\x1b[1;4;9;38;2;170;187;204;40mtext\x1b[m\n"),
        ("bold #aabbcc ul 19 strike",       "\x1b[1;4;9;38;2;170;187;204;48;5;19m+\x1b[m\x1b[1;4;9;38;2;170;187;204;48;5;19mtext\x1b[m\n"),
        ("bold 19 ul #aabbcc strike",       "\x1b[1;4;9;38;5;19;48;2;170;187;204m+\x1b[m\x1b[1;4;9;38;5;19;48;2;170;187;204mtext\x1b[m\n"),
        ("bold 0 ul #aabbcc strike",        "\x1b[1;4;9;30;48;2;170;187;204m+\x1b[m\x1b[1;4;9;30;48;2;170;187;204mtext\x1b[m\n"),
        (r##"black "#ddeeff""##,            "\x1b[30;48;2;221;238;255m+\x1b[m\x1b[30;48;2;221;238;255mtext\x1b[m\n"),
        ("brightred",                       "\x1b[91m+\x1b[m\x1b[91mtext\x1b[m\n"),
        ("normal",                          "\x1b[mtext\x1b[m\n"),
        ("blink",                           "\x1b[5m+\x1b[m\x1b[5mtext\x1b[m\n"),
    ] {
        assert!(style_from_git_str(git_style_string).is_applied_to(git_output));

        let mut it = AnsiCodeIterator::new(git_output);

        if *git_style_string == "normal" {
            // This one has a different pattern
            assert_eq!(
                vec![
                    (Element::Style(AttributeSet::new()), true),
                    (Element::Text("text".to_string()), false),
                    (Element::Style(AttributeSet::new()), true),
                ],
                collect_all(&mut it)
            );
            return;
        }

        // First element should be a style
        let (element, is_ansi) = it.next().unwrap();
        assert!(is_ansi);
        match element {
            Element::Style(style) => assert!(ansi_term_style_equality(
                style,
                style_from_git_str(git_style_string).ansi_term_style
            )),
            _ => assert!(false),
        }

        // Second element should be text: "+"
        assert_eq!((Element::Text("+".to_string()), false), it.next().unwrap());

        // Third element is the reset style
        assert_eq!(
            (Element::Style(AttributeSet::new()), true),
            it.next().unwrap()
        );

        // Fourth element should be a style
        let (element, is_ansi) = it.next().unwrap();
        assert!(is_ansi);
        match element {
            Element::Style(style) => assert!(ansi_term_style_equality(
                style,
                style_from_git_str(git_style_string).ansi_term_style
            )),
            _ => assert!(false),
        }

        // Fifth element should be text: "text"
        assert_eq!((Element::Text("text".to_string()), false), it.next().unwrap());

        // Sixth element is the reset style
        assert_eq!(
            (Element::Style(AttributeSet::new()), true),
            it.next().unwrap()
        );

        assert!(it.next().is_none());
    }
}

fn collect_all(it: &mut AnsiCodeIterator) -> Vec<(Element, bool)> {
    let mut elements = Vec::new();
    while let Some(e) = it.next() {
        elements.push(e);
    }
    elements
}

#[test]
fn test_is_applied_to_negative_assertion() {
    let style_string_from_24 = "bold #aabbcc ul 19 strike";
    let git_output_from_25 = "\x1b[1;4;9;38;5;19;48;2;170;187;204m+\x1b[m\x1b[1;4;9;38;5;19;48;2;170;187;204mtext\x1b[m\n";
    assert!(!style_from_git_str(style_string_from_24).is_applied_to(git_output_from_25));
}

#[test]
fn test_git_default_styles() {
    let minus_line_from_unconfigured_git = "\x1b[31m-____\x1b[m\n";
    let plus_line_from_unconfigured_git = "\x1b[32m+\x1b[m\x1b[32m____\x1b[m\n";
    assert!(git_default_minus_style().is_applied_to(minus_line_from_unconfigured_git));
    assert!(!git_default_minus_style().is_applied_to(plus_line_from_unconfigured_git));

    assert!(git_default_plus_style().is_applied_to(plus_line_from_unconfigured_git));
    assert!(!git_default_plus_style().is_applied_to(minus_line_from_unconfigured_git));
}

#[test]
fn test_line_has_style_other_than() {
    let minus_line_from_unconfigured_git = "\x1b[31m-____\x1b[m\n";
    let plus_line_from_unconfigured_git = "\x1b[32m+\x1b[m\x1b[32m____\x1b[m\n";

    // Unstyled lines should test negative, regardless of supplied styles.
    assert!(!line_has_style_other_than("", &vec![]));
    assert!(!line_has_style_other_than("", &vec![git_default_minus_style()]));

    // Lines from git should test negative when corresponding default is supplied
    assert!(!line_has_style_other_than(
        minus_line_from_unconfigured_git,
        &vec![git_default_minus_style()]
    ));
    assert!(!line_has_style_other_than(
        plus_line_from_unconfigured_git,
        &vec![git_default_plus_style()]
    ));

    // Styled lines should test positive when unless their style is supplied.
    assert!(line_has_style_other_than(
        minus_line_from_unconfigured_git,
        &vec![git_default_plus_style()]
    ));
    assert!(line_has_style_other_than(minus_line_from_unconfigured_git, &vec![]));
    assert!(line_has_style_other_than(
        plus_line_from_unconfigured_git,
        &vec![git_default_minus_style()]
    ));
    assert!(line_has_style_other_than(plus_line_from_unconfigured_git, &vec![]));
}

#[test]
fn test_is_applied_to_aliasing_both_directions() {
    let named_red_output = "\x1b[31m-\x1b[m\n";
    let palette_red_output = "\x1b[38;5;1m-\x1b[m\n";
    assert!(Style::from_colors(Some(Color::Fixed(1)), None).is_applied_to(named_red_output));
    assert!(Style::from_colors(Some(Color::Red), None).is_applied_to(palette_red_output));
}

#[test]
fn test_no_aliasing_beyond_the_base_colors() {
    // Bright palette indices have no named alias, and a truecolor value
    // never matches a palette index.
    assert!(!ansi_term_color_equality(Some(Color::Fixed(9)), Some(Color::Red)));
    assert!(!ansi_term_color_equality(Some(Color::RGB(0, 0, 0)), Some(Color::Black)));
    assert!(ansi_term_color_equality(Some(Color::Fixed(7)), Some(Color::White)));
    assert!(ansi_term_color_equality(None, None));
    assert!(!ansi_term_color_equality(Some(Color::Red), None));
}

#[test]
fn test_get_background_color_swaps_under_reverse() {
    let mut style = Style::from_colors(Some(Color::Red), Some(Color::Blue));
    assert_eq!(style.get_background_color(), Some(Color::Blue));
    style.ansi_term_style.is_reverse = true;
    assert_eq!(style.get_background_color(), Some(Color::Red));
}

#[test]
fn test_decoration_ansi_term_style() {
    let mut attrs = AttributeSet::new();
    attrs.is_underline = true;
    let mut style = Style::new();
    assert_eq!(style.decoration_ansi_term_style(), None);
    style.decoration_style = DecorationStyle::Box(attrs);
    assert_eq!(style.decoration_ansi_term_style(), Some(attrs));
}

#[test]
fn test_render_description_words_and_order() {
    assert_eq!(Style::new().render_description(), "normal");

    let mut style = Style::new();
    style.is_raw = true;
    assert_eq!(style.render_description(), "raw");

    let style = Style::from_colors(Some(Color::Fixed(19)), Some(Color::RGB(170, 187, 204)));
    assert_eq!(style.render_description(), "19 #aabbcc");

    let mut style = Style::from_colors(Some(Color::RGB(170, 187, 204)), Some(Color::Fixed(19)));
    style.ansi_term_style.is_bold = true;
    style.ansi_term_style.is_underline = true;
    style.ansi_term_style.is_strikethrough = true;
    assert_eq!(style.render_description(), "bold strike ul #aabbcc 19");

    let mut style = Style::new();
    style.is_omitted = true;
    style.ansi_term_style.is_blink = true;
    style.is_syntax_highlighted = true;
    assert_eq!(style.render_description(), "omit blink syntax");

    let style = Style::from_colors(None, Some(Color::Black));
    assert_eq!(style.render_description(), "normal black");
}

#[test]
fn test_render_description_is_stable() {
    let mut style = Style::from_colors(Some(Color::Yellow), None);
    style.ansi_term_style.is_dimmed = true;
    style.ansi_term_style.is_italic = true;
    style.ansi_term_style.is_reverse = true;
    let first = style.render_description();
    let second = style.render_description();
    assert_eq!(first, second);
    assert_eq!(first, "dim italic reverse yellow");
}

#[test]
fn test_color_to_string() {
    assert_eq!(color_to_string(Color::Black), "black");
    assert_eq!(color_to_string(Color::Purple), "purple");
    assert_eq!(color_to_string(Color::Fixed(0)), "0");
    assert_eq!(color_to_string(Color::Fixed(19)), "19");
    assert_eq!(color_to_string(Color::Fixed(255)), "255");
    assert_eq!(color_to_string(Color::RGB(170, 187, 204)), "#aabbcc");
    assert_eq!(color_to_string(Color::RGB(0, 10, 255)), "#000aff");
}
