use ptree::{Indent, IndentChars, PrintConfig, StaticIndentChars};

#[test]
fn indent_from_characters() {
    let indent = Indent::from_characters(4, &StaticIndentChars::utf().into());
    assert_eq!(indent.regular_prefix, "├── ");
    assert_eq!(indent.last_regular_prefix, "└── ");
    assert_eq!(indent.child_prefix, "│   ");
    assert_eq!(indent.last_child_prefix, "    ");
}

#[test]
fn indent_from_characters_ascii() {
    let indent = Indent::from_characters(6, &StaticIndentChars::ascii_tick().into());
    assert_eq!(indent.regular_prefix, "|---- ");
    assert_eq!(indent.last_regular_prefix, "`---- ");
    assert_eq!(indent.child_prefix, "|     ");
    assert_eq!(indent.last_child_prefix, "      ");
}

#[test]
fn output_indent_from_config() {
    let config = {
        let mut config = PrintConfig::default();
        config.indent = 3;
        config.characters = StaticIndentChars::utf().into();
        config
    };
    let indent = Indent::from_config(&config);
    assert_eq!(indent.regular_prefix, "├─ ");
    assert_eq!(indent.last_regular_prefix, "└─ ");
    assert_eq!(indent.child_prefix, "│  ");
    assert_eq!(indent.last_child_prefix, "   ");
}

#[test]
fn indent_from_characters_pad() {
    let indent = Indent::from_characters_and_padding(4, 0, &StaticIndentChars::utf().into());
    assert_eq!(indent.regular_prefix, "├───");
    assert_eq!(indent.last_regular_prefix, "└───");
    assert_eq!(indent.child_prefix, "│   ");
    assert_eq!(indent.last_child_prefix, "    ");

    let indent = Indent::from_characters_and_padding(4, 2, &StaticIndentChars::utf().into());
    assert_eq!(indent.regular_prefix, "├─  ");
    assert_eq!(indent.last_regular_prefix, "└─  ");
    assert_eq!(indent.child_prefix, "│   ");
    assert_eq!(indent.last_child_prefix, "    ");
}

#[test]
fn indent_from_chars() {
    let indent = Indent::from_chars(4, &StaticIndentChars::utf().into());
    assert_eq!(indent.regular_prefix, "├── ");
    assert_eq!(indent.last_regular_prefix, "└── ");
    assert_eq!(indent.child_prefix, "│   ");
    assert_eq!(indent.last_child_prefix, "    ");
}

#[test]
fn indent_from_chars_ascii() {
    let indent = Indent::from_chars(6, &StaticIndentChars::ascii_tick().into());
    assert_eq!(indent.regular_prefix, "|---- ");
    assert_eq!(indent.last_regular_prefix, "`---- ");
    assert_eq!(indent.child_prefix, "|     ");
    assert_eq!(indent.last_child_prefix, "      ");
}

#[test]
fn print_tree_indent_from_config() {
    let config = {
        let mut config = PrintConfig::default();
        config.indent = 3;
        config.characters = StaticIndentChars::utf().into();
        config
    };
    let indent = Indent::from_config(&config);
    assert_eq!(indent.regular_prefix, "├─ ");
    assert_eq!(indent.last_regular_prefix, "└─ ");
    assert_eq!(indent.child_prefix, "│  ");
    assert_eq!(indent.last_child_prefix, "   ");
}

#[test]
fn indent_narrow_has_no_fill() {
    for width in 0..3 {
        let indent = Indent::from_chars(width, &StaticIndentChars::utf().into());
        assert_eq!(indent.regular_prefix, "├ ");
        assert_eq!(indent.last_regular_prefix, "└ ");
        assert_eq!(indent.child_prefix, "│ ");
        assert_eq!(indent.last_child_prefix, "  ");
    }
    let indent = Indent::from_characters(2, &StaticIndentChars::ascii_plus().into());
    assert_eq!(indent.regular_prefix, "+ ");
    assert_eq!(indent.last_regular_prefix, "+ ");
    assert_eq!(indent.child_prefix, "| ");
    assert_eq!(indent.last_child_prefix, "  ");
}

#[test]
fn indent_custom_glyphs_repeat() {
    let chars = IndentChars {
        down_and_right: "<".to_string(),
        down: "!".to_string(),
        turn_right: "L".to_string(),
        right: "ab".to_string(),
        empty: ".".to_string(),
    };
    let indent = Indent::from_chars(5, &chars);
    assert_eq!(indent.regular_prefix, "<ababab ");
    assert_eq!(indent.child_prefix, "!... ");
    assert_eq!(indent.last_regular_prefix, "Lababab ");
    assert_eq!(indent.last_child_prefix, ".... ");
}

#[test]
fn indent_chars_by_name() {
    let utf: IndentChars = StaticIndentChars::utf().into();
    assert_eq!(IndentChars::by_name("utf"), Some(utf));
    let tick: IndentChars = StaticIndentChars::ascii_tick().into();
    assert_eq!(IndentChars::by_name("ascii"), Some(tick.clone()));
    assert_eq!(IndentChars::by_name("ascii-tick"), Some(tick));
    let double: IndentChars = StaticIndentChars::utf_double().into();
    assert_eq!("utf-double".parse::<IndentChars>(), Ok(double));
    let bold: IndentChars = StaticIndentChars::utf_bold().into();
    assert_eq!(IndentChars::by_name("utf-bold"), Some(bold));
    let dashed: IndentChars = StaticIndentChars::utf_dashed().into();
    assert_eq!(IndentChars::by_name("utf-dashed"), Some(dashed));
    let plus: IndentChars = StaticIndentChars::ascii_plus().into();
    assert_eq!(IndentChars::by_name("ascii-plus"), Some(plus));
    assert_eq!(IndentChars::by_name("utf8"), None);
    assert_eq!("".parse::<IndentChars>(), Err(()));
}

#[test]
fn default_empty_string_is_space() {
    assert_eq!(ptree::print_config::get_default_empty_string(), " ");
}

fn dotted_chars() -> IndentChars {
    IndentChars {
        down_and_right: "+".to_string(),
        down: "|".to_string(),
        turn_right: "`".to_string(),
        right: "-".to_string(),
        empty: ".".to_string(),
    }
}

#[test]
fn prefixes_end_in_a_space_whatever_the_blank() {
    let indent = Indent::from_characters(4, &dotted_chars());
    assert_eq!(indent.regular_prefix, "+-- ");
    assert_eq!(indent.child_prefix, "|.. ");
    assert_eq!(indent.last_regular_prefix, "`-- ");
    assert_eq!(indent.last_child_prefix, "... ");

    let mut config = PrintConfig::default();
    config.indent = 4;
    config.characters = dotted_chars();
    let indent = Indent::from_config(&config);
    assert_eq!(indent.last_child_prefix, "... ");

    let indent = Indent::from_characters_and_padding(5, 2, &dotted_chars());
    assert_eq!(indent.regular_prefix, "+--  ");
    assert_eq!(indent.last_child_prefix, "...  ");
}
