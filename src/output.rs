use vstd::prelude::*;
use vstd::string::StringExecFns;

use crate::item::{StringItem, TreeItem};
use crate::print_config::{Glyphs, IndentChars, OutputKind, PrintConfig, StaticIndentChars, StyleWhen};
use crate::style::{painted, Style};

verus! {

/// The four prefixes of a tree's lines, as computed once per print: the branch
/// of a child that has a later sibling, the continuation below it, and the same
/// two for a last child.
pub struct Indent {
    /// Prefix of a child that has a later sibling (`├── `).
    pub regular_prefix: String,
    /// Continues the lines below a child that has a later sibling (`│   `).
    pub child_prefix: String,
    /// Prefix of a last child (`└── `).
    pub last_regular_prefix: String,
    /// Continues the lines below a last child (`    `).
    pub last_child_prefix: String,
}

/// The views of the four prefixes of an `Indent`, in the order of its fields.
pub type Prefixes = (Seq<char>, Seq<char>, Seq<char>, Seq<char>);

impl View for Indent {
    type V = Prefixes;

    open spec fn view(&self) -> Prefixes {
        (
            self.regular_prefix@,
            self.child_prefix@,
            self.last_regular_prefix@,
            self.last_child_prefix@,
        )
    }
}

/// `s` written `n` times.
pub open spec fn repeat_seq(s: Seq<char>, n: nat) -> Seq<char>
    decreases n,
{
    if n == 0 {
        Seq::empty()
    } else {
        repeat_seq(s, (n - 1) as nat) + s
    }
}

/// How many fill characters an indentation of `indent_size` leaves after
/// `reserved` characters, and none where it leaves none.
pub open spec fn fill_width(indent_size: int, reserved: int) -> nat {
    if indent_size > reserved {
        (indent_size - reserved) as nat
    } else {
        0
    }
}

/// The prefixes for an indentation size and a set of characters: the connector
/// character, fill up to the indentation size less two, and one space.
pub open spec fn spaced_prefixes(indent_size: nat, c: Glyphs) -> Prefixes {
    let n = fill_width(indent_size as int, 2);
    (
        c.0 + repeat_seq(c.3, n) + seq![' '],
        c.1 + repeat_seq(c.4, n) + seq![' '],
        c.2 + repeat_seq(c.3, n) + seq![' '],
        c.4 + repeat_seq(c.4, n) + seq![' '],
    )
}

/// The prefixes for an indentation size, a padding size and a set of characters:
/// the connector character, fill up to the indentation size less the padding and
/// the connector, and `padding` spaces. With a padding of one these are the
/// `spaced_prefixes`.
pub open spec fn padded_prefixes(indent_size: nat, padding: nat, c: Glyphs) -> Prefixes {
    let n = fill_width(indent_size as int, 1 + padding as int);
    let pad = repeat_seq(seq![' '], padding);
    (
        c.0 + repeat_seq(c.3, n) + pad,
        c.1 + repeat_seq(c.4, n) + pad,
        c.2 + repeat_seq(c.3, n) + pad,
        c.4 + repeat_seq(c.4, n) + pad,
    )
}

/// A padding of one space gives the spaced prefixes.
pub proof fn lemma_padding_one_is_spaced(indent_size: nat, c: Glyphs)
    ensures
        padded_prefixes(indent_size, 1, c) == spaced_prefixes(indent_size, c),
{
    assert(repeat_seq(seq![' '], 1) =~= seq![' ']) by {
        assert(repeat_seq(seq![' '], 0) =~= Seq::<char>::empty());
    }
}

fn repeat_str(s: &str, n: usize) -> (r: String)
    ensures
        r@ == repeat_seq(s@, n as nat),
{
    let mut r = String::new();
    let mut i: usize = 0;
    while i < n
        invariant
            i <= n,
            r@ == repeat_seq(s@, i as nat),
        decreases n - i,
    {
        r.append(s);
        i += 1;
    }
    r
}

fn concat3(a: &str, b: &str, c: &str) -> (r: String)
    ensures
        r@ == a@ + b@ + c@,
{
    let mut r = a.to_owned();
    r.append(b);
    r.append(c);
    r
}

impl Indent {
    /// The prefixes for a configuration's indentation, padding and characters.
    pub fn from_config(config: &PrintConfig) -> (r: Indent)
        ensures
            r@ == padded_prefixes(config.indent as nat, config.padding as nat, config.characters@),
    {
        Self::from_characters_and_padding(config.indent, config.padding, &config.characters)
    }

    /// The prefixes for an indentation size and a set of characters: each is the
    /// connector character, fill, and one space (a padding of one).
    pub fn from_characters(indent_size: usize, characters: &IndentChars) -> (r: Indent)
        ensures
            r@ == spaced_prefixes(indent_size as nat, characters@),
    {
        Self::from_chars(indent_size, characters)
    }

    /// The prefixes for an indentation size, a padding size and a set of characters.
    pub fn from_characters_and_padding(
        indent_size: usize,
        padding: usize,
        characters: &IndentChars,
    ) -> (r: Indent)
        ensures
            r@ == padded_prefixes(indent_size as nat, padding as nat, characters@),
    {
        let n: usize = if indent_size > padding && indent_size - padding > 1 {
            indent_size - padding - 1
        } else {
            0
        };
        let right_pad = repeat_str(characters.right.as_str(), n);
        let empty_pad = repeat_str(characters.empty.as_str(), n);
        let space = " ";
        proof {
            reveal_strlit(" ");
            assert(space@ =~= seq![' ']);
        }
        let item_pad = repeat_str(space, padding);
        Indent {
            regular_prefix: concat3(
                characters.down_and_right.as_str(),
                right_pad.as_str(),
                item_pad.as_str(),
            ),
            child_prefix: concat3(characters.down.as_str(), empty_pad.as_str(), item_pad.as_str()),
            last_regular_prefix: concat3(
                characters.turn_right.as_str(),
                right_pad.as_str(),
                item_pad.as_str(),
            ),
            last_child_prefix: concat3(
                characters.empty.as_str(),
                empty_pad.as_str(),
                item_pad.as_str(),
            ),
        }
    }

    /// The prefixes for an indentation size and a set of characters: each is the
    /// connector character, fill, and one space. An indentation size of two or
    /// less leaves no fill.
    pub fn from_chars(indent_size: usize, chars: &IndentChars) -> (r: Indent)
        ensures
            r@ == spaced_prefixes(indent_size as nat, chars@),
            indent_size <= 2 ==> r@ == (
                chars.down_and_right@ + seq![' '],
                chars.down@ + seq![' '],
                chars.turn_right@ + seq![' '],
                chars.empty@ + seq![' '],
            ),
    {
        let r = Self::from_characters_and_padding(indent_size, 1, chars);
        proof {
            lemma_padding_one_is_spaced(indent_size as nat, chars@);
            if indent_size <= 2 {
                assert(chars.down_and_right@ + repeat_seq(chars.right@, 0) =~= chars.down_and_right@);
                assert(chars.down@ + repeat_seq(chars.empty@, 0) =~= chars.down@);
                assert(chars.turn_right@ + repeat_seq(chars.right@, 0) =~= chars.turn_right@);
                assert(chars.empty@ + repeat_seq(chars.empty@, 0) =~= chars.empty@);
            }
        }
        r
    }
}

/// The lines that printing `item` writes: `prefix` painted in the branch style,
/// the item's own text in the leaf style and a line break; then, while
/// `remaining` levels are left, the lines of its children, each of whose prefix
/// extends `child_prefix`.
pub open spec fn item_lines<T: TreeItem>(
    item: T,
    prefix: Seq<char>,
    child_prefix: Seq<char>,
    remaining: nat,
    p: Prefixes,
    branch: Style,
    leaf: Style,
) -> Seq<char>
    decreases remaining, 0nat, 0nat,
{
    painted(branch, prefix) + item.written_self(leaf) + seq!['\n'] + if remaining == 0 {
        Seq::empty()
    } else {
        children_lines(
            item.child_items(),
            item.child_items().len(),
            child_prefix,
            (remaining - 1) as nat,
            p,
            branch,
            leaf,
        )
    }
}

/// The lines of the first `n` of the children `cs`. A child that has a later
/// sibling is prefixed with the regular branch and continued with the regular
/// continuation; the last child with the corner and the blank continuation.
pub open spec fn children_lines<T: TreeItem>(
    cs: Seq<T>,
    n: nat,
    child_prefix: Seq<char>,
    remaining: nat,
    p: Prefixes,
    branch: Style,
    leaf: Style,
) -> Seq<char>
    decreases remaining, 1nat, n,
{
    if n == 0 || n > cs.len() {
        Seq::empty()
    } else {
        let i = n - 1;
        let last = n == cs.len();
        children_lines(cs, (n - 1) as nat, child_prefix, remaining, p, branch, leaf) + item_lines(
            cs[i],
            child_prefix + if last {
                p.2
            } else {
                p.0
            },
            child_prefix + if last {
                p.3
            } else {
                p.1
            },
            remaining,
            p,
            branch,
            leaf,
        )
    }
}

/// The style that printing uses in place of `style`: itself where the output is
/// styled, else the plain style.
pub open spec fn style_used(style: Style, styled: bool) -> Style {
    if styled {
        style
    } else {
        Style::plain()
    }
}

/// What printing `item` with `config` writes, styled or not.
pub open spec fn rendered<T: TreeItem>(item: T, config: PrintConfig, styled: bool) -> Seq<char> {
    rendered_with(item, config, style_used(config.branch, styled), style_used(config.leaf, styled))
}

/// What printing `item` with `config` writes with the given branch and leaf styles.
pub open spec fn rendered_with<T: TreeItem>(
    item: T,
    config: PrintConfig,
    branch: Style,
    leaf: Style,
) -> Seq<char> {
    item_lines(
        item,
        Seq::empty(),
        Seq::empty(),
        config.depth as nat,
        padded_prefixes(config.indent as nat, config.padding as nat, config.characters@),
        branch,
        leaf,
    )
}

/// How many levels of descendants are printed below an item at depth `level`:
/// none at or past the depth limit.
pub open spec fn levels_below(depth: u32, level: u32) -> nat {
    if level < depth {
        (depth - level) as nat
    } else {
        0
    }
}

/// Writes `item` and, up to the configured depth, its descendants to `f`.
///
/// `prefix` comes before the item's own text, and `child_prefix` before the
/// prefixes of its children's lines; `level` is the item's depth in the tree.
pub fn print_item<T: TreeItem>(
    item: &T,
    f: &mut String,
    prefix: String,
    child_prefix: String,
    config: &PrintConfig,
    characters: &Indent,
    branch_style: &Style,
    leaf_style: &Style,
    level: u32,
)
    requires
        branch_style.is_resolved(),
        leaf_style.is_resolved(),
    ensures
        final(f)@ == old(f)@ + item_lines(
            *item,
            prefix@,
            child_prefix@,
            levels_below(config.depth, level),
            characters@,
            *branch_style,
            *leaf_style,
        ),
    decreases config.depth - level,
{
    let ghost start = f@;
    let painted_prefix = branch_style.paint(prefix.as_str());
    f.append(painted_prefix.as_str());
    item.write_self(f, leaf_style);
    let newline = "\n";
    proof {
        reveal_strlit("\n");
        assert(newline@ =~= seq!['\n']);
    }
    f.append(newline);
    let ghost line = f@;
    let ghost remaining = levels_below(config.depth, level);
    assert(line =~= start + (painted(*branch_style, prefix@) + item.written_self(*leaf_style) + seq!['\n']));
    if level < config.depth {
        let children = item.children();
        let n = children.len();
        let ghost cs = children@;
        let ghost p = characters@;
        if n > 0 {
            let rp = child_prefix.clone().concat(characters.regular_prefix.as_str());
            let cp = child_prefix.clone().concat(characters.child_prefix.as_str());
            let mut i: usize = 0;
            while i < n - 1
                invariant
                    0 < n == cs.len(),
                    cs == children@,
                    cs == item.child_items(),
                    p == characters@,
                    level < config.depth,
                    remaining == config.depth - level,
                    branch_style.is_resolved(),
                    leaf_style.is_resolved(),
                    rp@ == child_prefix@ + p.0,
                    cp@ == child_prefix@ + p.1,
                    i <= n - 1,
                    f@ == line + children_lines(cs, i as nat, child_prefix@, (remaining - 1) as nat, p, *branch_style, *leaf_style),
                decreases n - 1 - i,
            {
                print_item(
                    &children[i],
                    f,
                    rp.clone(),
                    cp.clone(),
                    config,
                    characters,
                    branch_style,
                    leaf_style,
                    level + 1,
                );
                i += 1;
                assert(f@ =~= line + children_lines(cs, i as nat, child_prefix@, (remaining - 1) as nat, p, *branch_style, *leaf_style));
            }
            let rp = child_prefix.clone().concat(characters.last_regular_prefix.as_str());
            let cp = child_prefix.clone().concat(characters.last_child_prefix.as_str());
            print_item(
                &children[n - 1],
                f,
                rp,
                cp,
                config,
                characters,
                branch_style,
                leaf_style,
                level + 1,
            );
            assert(f@ =~= line + children_lines(cs, n as nat, child_prefix@, (remaining - 1) as nat, p, *branch_style, *leaf_style));
        }
        assert(f@ =~= old(f)@ + item_lines(*item, prefix@, child_prefix@, remaining, p, *branch_style, *leaf_style));
    } else {
        assert(f@ =~= old(f)@ + item_lines(*item, prefix@, child_prefix@, remaining, characters@, *branch_style, *leaf_style));
    }
}

/// Writes the tree `item` to `f` with `config`, styled or not as `styled` says.
///
/// Where the output is styled, colour names are resolved first; where it is not,
/// both styles are plain. Whatever tint's colour table answers, the tree is
/// printed with styles that the configured ones resolve to; the result is exact
/// whenever the styles used hold no colour name.
pub fn render_tree<T: TreeItem>(item: &T, f: &mut String, config: &PrintConfig, styled: bool)
    ensures
        exists|b: Style, l: Style|
            style_used(config.branch, styled).resolves_to(b) && style_used(
                config.leaf,
                styled,
            ).resolves_to(l) && final(f)@ == old(f)@ + rendered_with(*item, *config, b, l),
        style_used(config.branch, styled).is_resolved() && style_used(config.leaf, styled).is_resolved()
            ==> final(f)@ == old(f)@ + rendered(*item, *config, styled),
{
    let branch_style = if styled {
        config.branch.resolved()
    } else {
        Style::default()
    };
    let leaf_style = if styled {
        config.leaf.resolved()
    } else {
        Style::default()
    };
    let characters = Indent::from_config(config);
    print_item(
        item,
        f,
        String::new(),
        String::new(),
        config,
        &characters,
        &branch_style,
        &leaf_style,
        0,
    );
    assert(levels_below(config.depth, 0) == config.depth as nat);
    assert(style_used(config.branch, styled).resolves_to(branch_style) && style_used(
        config.leaf,
        styled,
    ).resolves_to(leaf_style) && f@ == old(f)@ + rendered_with(*item, *config, branch_style, leaf_style));
}

/// Write the tree `item` to `f` using custom formatting
///
/// The output is styled only where `config.styled` is `Always`, since `f` is not
/// known to be a terminal.
pub fn write_tree_with<T: TreeItem>(item: &T, f: &mut String, config: &PrintConfig)
    ensures
        exists|b: Style, l: Style|
            style_used(config.branch, config.styled == StyleWhen::Always).resolves_to(b)
                && style_used(config.leaf, config.styled == StyleWhen::Always).resolves_to(l)
                && final(f)@ == old(f)@ + rendered_with(*item, *config, b, l),
        style_used(config.branch, config.styled == StyleWhen::Always).is_resolved()
            && style_used(config.leaf, config.styled == StyleWhen::Always).is_resolved()
            ==> final(f)@ == old(f)@ + rendered(*item, *config, config.styled == StyleWhen::Always),
{
    let styled = config.should_style_output(OutputKind::Unknown);
    render_tree(item, f, config, styled);
}

/// Write the tree `item` to `f` using default formatting
///
/// The default formatting is not styled here, so the output is exact.
pub fn write_tree<T: TreeItem>(item: &T, f: &mut String)
    ensures
        final(f)@ == old(f)@ + item_lines(
            *item,
            Seq::empty(),
            Seq::empty(),
            u32::MAX as nat,
            padded_prefixes(3, 1, StaticIndentChars::utf_spec()@),
            Style::plain(),
            Style::plain(),
        ),
{
    write_tree_with(item, f, &PrintConfig::default());
}

/// The single lines of the first `n` of the children `cs`, each its prefix (as in
/// `children_lines`), its own text and a line break.
pub open spec fn children_heads<T: TreeItem>(
    cs: Seq<T>,
    n: nat,
    child_prefix: Seq<char>,
    p: Prefixes,
    branch: Style,
    leaf: Style,
) -> Seq<char>
    decreases n,
{
    if n == 0 || n > cs.len() {
        Seq::empty()
    } else {
        let last = n == cs.len();
        children_heads(cs, (n - 1) as nat, child_prefix, p, branch, leaf) + painted(
            branch,
            child_prefix + if last {
                p.2
            } else {
                p.0
            },
        ) + cs[n - 1].written_self(leaf) + seq!['\n']
    }
}

/// An item with no children prints exactly one line: its prefix, its own text
/// and a line break, at any depth.
pub proof fn lemma_leaf_one_line<T: TreeItem>(
    item: T,
    prefix: Seq<char>,
    child_prefix: Seq<char>,
    remaining: nat,
    p: Prefixes,
    branch: Style,
    leaf: Style,
)
    requires
        item.child_items().len() == 0,
    ensures
        item_lines(item, prefix, child_prefix, remaining, p, branch, leaf) == painted(branch, prefix)
            + item.written_self(leaf) + seq!['\n'],
{
    let line = painted(branch, prefix) + item.written_self(leaf) + seq!['\n'];
    assert(line + Seq::<char>::empty() =~= line);
}

/// Printed unstyled, a tree whose root has no children is the root's own text
/// and a line break.
pub proof fn lemma_leaf_tree<T: TreeItem>(item: T, config: PrintConfig)
    requires
        item.child_items().len() == 0,
    ensures
        rendered(item, config, false) == item.written_self(Style::plain()) + seq!['\n'],
{
    let p = padded_prefixes(config.indent as nat, config.padding as nat, config.characters@);
    lemma_leaf_one_line(
        item,
        Seq::empty(),
        Seq::empty(),
        config.depth as nat,
        p,
        Style::plain(),
        Style::plain(),
    );
    assert(Seq::<char>::empty() + item.written_self(Style::plain()) + seq!['\n'] =~= item.written_self(
        Style::plain(),
    ) + seq!['\n']);
}

/// At the depth limit an item prints its own line only: its children are not
/// visited.
pub proof fn lemma_depth_limit_stops<T: TreeItem>(
    item: T,
    prefix: Seq<char>,
    child_prefix: Seq<char>,
    p: Prefixes,
    branch: Style,
    leaf: Style,
)
    ensures
        item_lines(item, prefix, child_prefix, 0, p, branch, leaf) == painted(branch, prefix)
            + item.written_self(leaf) + seq!['\n'],
{
    let line = painted(branch, prefix) + item.written_self(leaf) + seq!['\n'];
    assert(line + Seq::<char>::empty() =~= line);
}

/// Children printed at the depth limit are one line each.
pub proof fn lemma_children_at_limit<T: TreeItem>(
    cs: Seq<T>,
    n: nat,
    child_prefix: Seq<char>,
    p: Prefixes,
    branch: Style,
    leaf: Style,
)
    ensures
        children_lines(cs, n, child_prefix, 0, p, branch, leaf) == children_heads(
            cs,
            n,
            child_prefix,
            p,
            branch,
            leaf,
        ),
    decreases n,
{
    if n > 0 && n <= cs.len() {
        let last = n == cs.len();
        let bp = child_prefix + if last {
            p.2
        } else {
            p.0
        };
        let cp = child_prefix + if last {
            p.3
        } else {
            p.1
        };
        lemma_children_at_limit(cs, (n - 1) as nat, child_prefix, p, branch, leaf);
        lemma_depth_limit_stops(cs[n - 1], bp, cp, p, branch, leaf);
        let head = children_heads(cs, (n - 1) as nat, child_prefix, p, branch, leaf);
        assert(head + (painted(branch, bp) + cs[n - 1].written_self(leaf) + seq!['\n']) =~= head
            + painted(branch, bp) + cs[n - 1].written_self(leaf) + seq!['\n']);
    }
}

/// With a depth limit of one, the root's line is followed by one line for each
/// child, and by nothing of the grandchildren.
pub proof fn lemma_depth_one<T: TreeItem>(item: T, config: PrintConfig, styled: bool)
    requires
        config.depth == 1,
    ensures
        rendered(item, config, styled) == painted(style_used(config.branch, styled), Seq::empty())
            + item.written_self(style_used(config.leaf, styled)) + seq!['\n'] + children_heads(
            item.child_items(),
            item.child_items().len(),
            Seq::empty(),
            padded_prefixes(config.indent as nat, config.padding as nat, config.characters@),
            style_used(config.branch, styled),
            style_used(config.leaf, styled),
        ),
{
    lemma_children_at_limit(
        item.child_items(),
        item.child_items().len(),
        Seq::empty(),
        padded_prefixes(config.indent as nat, config.padding as nat, config.characters@),
        style_used(config.branch, styled),
        style_used(config.leaf, styled),
    );
}

/// Every child but the last is printed after the regular branch, and the lines
/// below it after the regular continuation; the last child is printed after the
/// corner, and the lines below it after the blank continuation.
pub proof fn lemma_last_child_marking<T: TreeItem>(
    cs: Seq<T>,
    i: nat,
    child_prefix: Seq<char>,
    remaining: nat,
    p: Prefixes,
    branch: Style,
    leaf: Style,
)
    requires
        i < cs.len(),
    ensures
        i + 1 < cs.len() ==> children_lines(cs, i + 1, child_prefix, remaining, p, branch, leaf)
            == children_lines(cs, i, child_prefix, remaining, p, branch, leaf) + item_lines(
            cs[i as int],
            child_prefix + p.0,
            child_prefix + p.1,
            remaining,
            p,
            branch,
            leaf,
        ),
        i + 1 == cs.len() ==> children_lines(cs, i + 1, child_prefix, remaining, p, branch, leaf)
            == children_lines(cs, i, child_prefix, remaining, p, branch, leaf) + item_lines(
            cs[i as int],
            child_prefix + p.2,
            child_prefix + p.3,
            remaining,
            p,
            branch,
            leaf,
        ),
{
}

/// Where the branch style paints nothing, an item's lines begin with its prefix.
pub proof fn lemma_lines_begin_with_prefix<T: TreeItem>(
    item: T,
    prefix: Seq<char>,
    child_prefix: Seq<char>,
    remaining: nat,
    p: Prefixes,
    branch: Style,
    leaf: Style,
)
    requires
        branch.paints_nothing(),
    ensures
        item_lines(item, prefix, child_prefix, remaining, p, branch, leaf).len() >= prefix.len(),
        item_lines(item, prefix, child_prefix, remaining, p, branch, leaf).subrange(
            0,
            prefix.len() as int,
        ) == prefix,
{
    let all = item_lines(item, prefix, child_prefix, remaining, p, branch, leaf);
    assert(all.subrange(0, prefix.len() as int) =~= prefix);
}

/// Printing unstyled is printing with plain styles: two configurations that
/// agree but for their styles and their policy, one never styled and the other
/// with plain styles, print the same text, whether the second is styled or not.
pub proof fn lemma_unstyled_is_plain<T: TreeItem>(
    item: T,
    never: PrintConfig,
    plain: PrintConfig,
    styled: bool,
)
    requires
        never.styled == StyleWhen::Never,
        plain.branch == Style::plain(),
        plain.leaf == Style::plain(),
        never.depth == plain.depth,
        never.indent == plain.indent,
        never.padding == plain.padding,
        never.characters@ == plain.characters@,
    ensures
        rendered(item, never, never.styled == StyleWhen::Always) == rendered(item, plain, styled),
{
}

/// Two trees with the same texts in the same shape print the same lines.
pub proof fn lemma_same_tree_same_lines(
    a: StringItem,
    b: StringItem,
    prefix: Seq<char>,
    child_prefix: Seq<char>,
    remaining: nat,
    p: Prefixes,
    branch: Style,
    leaf: Style,
)
    requires
        a.same_tree(b),
    ensures
        item_lines(a, prefix, child_prefix, remaining, p, branch, leaf) == item_lines(
            b,
            prefix,
            child_prefix,
            remaining,
            p,
            branch,
            leaf,
        ),
    decreases remaining, 0nat, 0nat,
{
    if remaining > 0 {
        lemma_same_children_same_lines(
            a.children@,
            b.children@,
            a.children@.len(),
            child_prefix,
            (remaining - 1) as nat,
            p,
            branch,
            leaf,
        );
    }
}

/// Children that are pairwise the same trees print the same lines.
pub proof fn lemma_same_children_same_lines(
    xs: Seq<StringItem>,
    ys: Seq<StringItem>,
    n: nat,
    child_prefix: Seq<char>,
    remaining: nat,
    p: Prefixes,
    branch: Style,
    leaf: Style,
)
    requires
        xs.len() == ys.len(),
        forall|i: int| 0 <= i < xs.len() ==> (#[trigger] xs[i]).same_tree(ys[i]),
    ensures
        children_lines(xs, n, child_prefix, remaining, p, branch, leaf) == children_lines(
            ys,
            n,
            child_prefix,
            remaining,
            p,
            branch,
            leaf,
        ),
    decreases remaining, 1nat, n,
{
    if n > 0 && n <= xs.len() {
        let last = n == xs.len();
        let bp = child_prefix + if last {
            p.2
        } else {
            p.0
        };
        let cp = child_prefix + if last {
            p.3
        } else {
            p.1
        };
        lemma_same_children_same_lines(xs, ys, (n - 1) as nat, child_prefix, remaining, p, branch, leaf);
        lemma_same_tree_same_lines(xs[n - 1], ys[n - 1], bp, cp, remaining, p, branch, leaf);
    }
}

/// Printing has no hidden state: printing a tree twice, or a tree and a copy of
/// it (as `StringItem::clone` gives), with the same configuration and styles
/// writes the same text both times.
pub proof fn lemma_render_stable(
    item: StringItem,
    copy: StringItem,
    config: PrintConfig,
    styled: bool,
    first: Seq<char>,
    second: Seq<char>,
)
    requires
        item.same_tree(copy),
        first == rendered(item, config, styled),
        second == rendered(copy, config, styled),
    ensures
        first == second,
{
    lemma_same_tree_same_lines(
        item,
        copy,
        Seq::empty(),
        Seq::empty(),
        config.depth as nat,
        padded_prefixes(config.indent as nat, config.padding as nat, config.characters@),
        style_used(config.branch, styled),
        style_used(config.leaf, styled),
    );
}

} // verus!
