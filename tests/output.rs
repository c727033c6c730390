use ptree::{
    render_tree, write_tree, write_tree_with, Color, PrintConfig, StaticIndentChars, StringItem,
    Style, StyleWhen, TreeBuilder,
};

fn leaf(text: &str) -> StringItem {
    StringItem {
        text: text.to_string(),
        children: vec![],
    }
}

fn node(text: &str, children: Vec<StringItem>) -> StringItem {
    StringItem {
        text: text.to_string(),
        children,
    }
}

fn plain_config(indent: usize) -> PrintConfig {
    PrintConfig {
        indent,
        leaf: Style::default(),
        branch: Style::default(),
        ..PrintConfig::default()
    }
}

#[test]
fn item_small_graph_output() {
    let deps = StringItem {
        text: "petgraph".to_string(),
        children: vec![
            StringItem {
                text: "quickcheck".to_string(),
                children: vec![
                    StringItem {
                        text: "libc".to_string(),
                        children: vec![],
                    },
                    StringItem {
                        text: "rand".to_string(),
                        children: vec![StringItem {
                            text: "libc".to_string(),
                            children: vec![],
                        }],
                    },
                ],
            },
            StringItem {
                text: "fixedbitset".to_string(),
                children: vec![],
            },
        ],
    };

    let config = PrintConfig {
        indent: 4,
        leaf: Style::default(),
        branch: Style::default(),
        ..PrintConfig::default()
    };

    let mut out = String::new();
    write_tree_with(&deps, &mut out, &config);

    let expected = "\
            petgraph\n\
            ├── quickcheck\n\
            │   ├── libc\n\
            │   └── rand\n\
            │       └── libc\n\
            └── fixedbitset\n\
        ";
    assert_eq!(out, expected);
}

fn example_tree() -> StringItem {
    node(
        "root",
        vec![
            node("quickcheck", vec![leaf("libc"), node("rand", vec![leaf("libc")])]),
            leaf("fixedbitset"),
        ],
    )
}

#[test]
fn end_to_end_root_example() {
    let mut out = String::new();
    write_tree_with(&example_tree(), &mut out, &plain_config(4));
    assert_eq!(
        out,
        "root\n├── quickcheck\n│   ├── libc\n│   └── rand\n│       └── libc\n└── fixedbitset\n"
    );
}

#[test]
fn leaf_renders_one_line() {
    let mut out = String::new();
    write_tree_with(&leaf("alone"), &mut out, &plain_config(4));
    assert_eq!(out, "alone\n");
}

#[test]
fn depth_limit_one_stops_at_children() {
    let tree = node(
        "a",
        vec![node("b", vec![node("c", vec![leaf("d")])]), leaf("e")],
    );
    let mut config = plain_config(4);
    config.depth = 1;
    let mut out = String::new();
    write_tree_with(&tree, &mut out, &config);
    assert_eq!(out, "a\n├── b\n└── e\n");
}

#[test]
fn depth_limit_zero_prints_root_only() {
    let mut config = plain_config(4);
    config.depth = 0;
    let mut out = String::new();
    write_tree_with(&example_tree(), &mut out, &config);
    assert_eq!(out, "root\n");
}

#[test]
fn last_child_marking() {
    let tree = node(
        "p",
        vec![
            node("A", vec![leaf("a1")]),
            node("B", vec![leaf("b1")]),
            node("C", vec![leaf("c1"), leaf("c2")]),
        ],
    );
    let mut out = String::new();
    write_tree_with(&tree, &mut out, &plain_config(4));
    let lines: Vec<&str> = out.lines().collect();
    assert_eq!(
        lines,
        vec![
            "p",
            "├── A",
            "│   └── a1",
            "├── B",
            "│   └── b1",
            "└── C",
            "    ├── c1",
            "    └── c2",
        ]
    );
}

#[test]
fn single_child_is_last() {
    let tree = node("p", vec![leaf("only")]);
    let mut out = String::new();
    write_tree_with(&tree, &mut out, &plain_config(3));
    assert_eq!(out, "p\n└─ only\n");
}

#[test]
fn never_styled_equals_plain_styles() {
    let mut never = PrintConfig::default();
    never.indent = 4;
    never.styled = StyleWhen::Never;
    never.branch = Style {
        foreground: Some(Color::Red),
        bold: true,
        ..Style::default()
    };
    never.leaf = Style {
        underline: true,
        ..Style::default()
    };
    let mut plain = plain_config(4);
    plain.styled = StyleWhen::Always;

    let mut first = String::new();
    write_tree_with(&example_tree(), &mut first, &never);
    let mut second = String::new();
    write_tree_with(&example_tree(), &mut second, &plain);
    assert_eq!(first, second);
}

#[test]
fn rendering_twice_is_identical() {
    let tree = example_tree();
    let mut config = plain_config(4);
    config.styled = StyleWhen::Always;
    config.branch = Style {
        dimmed: true,
        ..Style::default()
    };
    let mut first = String::new();
    write_tree_with(&tree, &mut first, &config);
    let mut second = String::new();
    write_tree_with(&tree, &mut second, &config);
    assert_eq!(first, second);
}

#[test]
fn write_tree_uses_default_unstyled() {
    let tree = TreeBuilder::new("tree".to_string())
        .begin_child("branch".to_string())
        .add_empty_child("leaf".to_string())
        .end_child()
        .add_empty_child("empty branch".to_string())
        .build();
    let mut out = String::new();
    write_tree(&tree, &mut out);
    assert_eq!(out, "tree\n├─ branch\n│  └─ leaf\n└─ empty branch\n");
}

#[test]
fn write_tree_appends_to_existing_text() {
    let mut out = "> ".to_string();
    write_tree_with(&leaf("x"), &mut out, &plain_config(4));
    assert_eq!(out, "> x\n");
}

#[test]
fn tty_policy_is_unstyled_for_unknown_output() {
    let mut config = PrintConfig::default();
    config.indent = 4;
    config.styled = StyleWhen::Tty;
    let mut out = String::new();
    write_tree_with(&node("r", vec![leaf("c")]), &mut out, &config);
    assert_eq!(out, "r\n└── c\n");
}

#[test]
fn always_styles_branches_and_leaves() {
    let mut config = plain_config(4);
    config.styled = StyleWhen::Always;
    config.branch = Style {
        dimmed: true,
        ..Style::default()
    };
    config.leaf = Style {
        bold: true,
        ..Style::default()
    };
    let mut out = String::new();
    write_tree_with(&node("r", vec![leaf("c")]), &mut out, &config);
    assert_eq!(
        out,
        "\x1b[2m\x1b[0m\x1b[1mr\x1b[0m\n\x1b[2m└── \x1b[0m\x1b[1mc\x1b[0m\n"
    );
}

#[test]
fn render_tree_follows_styled_flag() {
    let mut config = plain_config(4);
    config.styled = StyleWhen::Never;
    config.leaf = Style {
        foreground: Some(Color::Red),
        ..Style::default()
    };
    let mut styled = String::new();
    render_tree(&leaf("x"), &mut styled, &config, true);
    assert_eq!(styled, "\x1b[31mx\x1b[0m\n");
    let mut unstyled = String::new();
    render_tree(&leaf("x"), &mut unstyled, &config, false);
    assert_eq!(unstyled, "x\n");
}

#[test]
fn padding_and_ascii_characters() {
    let mut config = plain_config(5);
    config.padding = 2;
    config.characters = StaticIndentChars::ascii_plus().into();
    let mut out = String::new();
    write_tree_with(&node("r", vec![node("a", vec![leaf("b")]), leaf("c")]), &mut out, &config);
    assert_eq!(out, "r\n+--  a\n|    +--  b\n+--  c\n");
}

#[test]
fn print_item_past_the_limit_prints_own_line() {
    let config = PrintConfig {
        depth: 1,
        ..plain_config(4)
    };
    let indent = ptree::Indent::from_config(&config);
    let mut out = String::new();
    ptree::output::print_item(
        &node("deep", vec![leaf("hidden")]),
        &mut out,
        "> ".to_string(),
        "  ".to_string(),
        &config,
        &indent,
        &Style::default(),
        &Style::default(),
        5,
    );
    assert_eq!(out, "> deep\n");
}

#[test]
fn copy_renders_like_source_tree() {
    let tree = example_tree();
    let copy = tree.clone();
    let mut first = String::new();
    write_tree_with(&tree, &mut first, &plain_config(4));
    let mut second = String::new();
    write_tree_with(&copy, &mut second, &plain_config(4));
    assert_eq!(first, second);
}
