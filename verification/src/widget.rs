//! UI widget builders: each returns a plain description of a node tree
//! (name, layout, lengths, colors, text, children) that the rendering layer
//! realizes on screen. Lengths carry their unit and are stored in tenths to
//! keep fractional sizes exact.

use crate::progress::ProgressObserver;
use crate::screen::Screen;
use vstd::prelude::*;

verus! {

/// A UI length: automatic, pixels, tenths of a percent of viewport width
/// (`VwTenths(35)` is 3.5% of the viewport width), or tenths of a percent
/// of the parent (`PercentTenths(600)` is 60%).
#[derive(Clone, Copy, Debug, PartialEq, Eq, Structural)]
pub enum Val {
    Auto,
    Px(i64),
    VwTenths(u64),
    PercentTenths(u64),
}

/// A named color of the UI theme.
#[derive(Clone, Copy, Debug, PartialEq, Eq, Structural)]
pub enum ThemeColor {
    BodyText,
    Primary,
    PrimaryText,
}

/// The flow a node lays its children out in.
#[derive(Clone, Copy, Debug, PartialEq, Eq, Structural)]
pub enum Layout {
    Plain,
    Block,
    Row,
    RowCenter,
    Column,
    ColumnCenter,
    ColumnMid,
}

/// Four per-edge lengths, as margins, padding or borders use them.
#[derive(Clone, Copy, Debug, PartialEq, Eq, Structural)]
pub struct UiEdges {
    pub left: Val,
    pub right: Val,
    pub top: Val,
    pub bottom: Val,
}

impl UiEdges {
    /// No length on any edge.
    pub open spec fn spec_zero() -> UiEdges {
        UiEdges { left: Val::Auto, right: Val::Auto, top: Val::Auto, bottom: Val::Auto }
    }

    /// The same length on all four edges.
    pub open spec fn spec_all(v: Val) -> UiEdges {
        UiEdges { left: v, right: v, top: v, bottom: v }
    }

    /// A length on top and bottom only.
    pub open spec fn spec_vertical(v: Val) -> UiEdges {
        UiEdges { left: Val::Auto, right: Val::Auto, top: v, bottom: v }
    }

    /// A length on the bottom edge only.
    pub open spec fn spec_bottom(v: Val) -> UiEdges {
        UiEdges { left: Val::Auto, right: Val::Auto, top: Val::Auto, bottom: v }
    }

    pub fn zero() -> (r: UiEdges)
        ensures
            r == UiEdges::spec_zero(),
    {
        UiEdges { left: Val::Auto, right: Val::Auto, top: Val::Auto, bottom: Val::Auto }
    }

    pub fn all(v: Val) -> (r: UiEdges)
        ensures
            r == UiEdges::spec_all(v),
    {
        UiEdges { left: v, right: v, top: v, bottom: v }
    }

    pub fn vertical(v: Val) -> (r: UiEdges)
        ensures
            r == UiEdges::spec_vertical(v),
    {
        UiEdges { left: Val::Auto, right: Val::Auto, top: v, bottom: v }
    }

    pub fn bottom(v: Val) -> (r: UiEdges)
        ensures
            r == UiEdges::spec_bottom(v),
    {
        UiEdges { left: Val::Auto, right: Val::Auto, top: Val::Auto, bottom: v }
    }
}

/// Everything a node tells the layout engine about its own box.
#[derive(Clone, Copy, Debug, PartialEq, Eq, Structural)]
pub struct NodeStyle {
    pub layout: Layout,
    pub width: Val,
    pub height: Val,
    /// Positioned absolutely over the whole viewport rather than in flow.
    pub absolute: bool,
    pub margin: UiEdges,
    pub padding: UiEdges,
    pub border: UiEdges,
    pub row_gap: Val,
    pub column_gap: Val,
    /// Grows to fill leftover space along the parent's main axis.
    pub grow: bool,
}

impl NodeStyle {
    /// The default box: plain flow, automatic size, no spacing.
    pub open spec fn spec_plain() -> NodeStyle {
        NodeStyle {
            layout: Layout::Plain,
            width: Val::Auto,
            height: Val::Auto,
            absolute: false,
            margin: UiEdges::spec_zero(),
            padding: UiEdges::spec_zero(),
            border: UiEdges::spec_zero(),
            row_gap: Val::Auto,
            column_gap: Val::Auto,
            grow: false,
        }
    }

    pub fn plain() -> (r: NodeStyle)
        ensures
            r == NodeStyle::spec_plain(),
    {
        NodeStyle {
            layout: Layout::Plain,
            width: Val::Auto,
            height: Val::Auto,
            absolute: false,
            margin: UiEdges::zero(),
            padding: UiEdges::zero(),
            border: UiEdges::zero(),
            row_gap: Val::Auto,
            column_gap: Val::Auto,
            grow: false,
        }
    }
}

/// What a node shows besides its children.
pub enum NodeContent {
    Empty,
    /// A text run with its font size and theme color.
    Text { text: String, font_size: Val, color: ThemeColor },
    /// An image filled with a theme color tint.
    Image { color: ThemeColor },
    /// The fill bar of a loading bar; `update_loading_bar_fill` drives its
    /// width from the progress tracked for the marker's screen.
    LoadingFill(IsLoadingBarFill),
}

/// Marker carried by the fill node of a loading bar: which screen's
/// tracked progress drives its width.
pub struct IsLoadingBarFill(pub Screen);

/// One node of the UI tree.
pub struct UiNode {
    pub name: String,
    pub style: NodeStyle,
    pub content: NodeContent,
    /// Transparent to pointer picking.
    pub pickable_ignore: bool,
    /// Blocks focus from passing through.
    pub focus_block: bool,
    /// Global stacking order.
    pub z_index: i64,
    pub border_color: Option<ThemeColor>,
    pub background: Option<ThemeColor>,
    pub children: Vec<UiNode>,
}

impl UiNode {
    fn bare(name: String, style: NodeStyle, children: Vec<UiNode>) -> (n: UiNode)
        ensures
            n == (UiNode {
                name,
                style,
                content: NodeContent::Empty,
                pickable_ignore: false,
                focus_block: false,
                z_index: 0,
                border_color: None::<ThemeColor>,
                background: None::<ThemeColor>,
                children,
            }),
    {
        UiNode {
            name,
            style,
            content: NodeContent::Empty,
            pickable_ignore: false,
            focus_block: false,
            z_index: 0,
            border_color: None,
            background: None,
            children,
        }
    }
}

/// A full-screen, absolutely positioned node at stacking order `z` that
/// pointer picking ignores.
pub fn overlay(z: i64) -> (n: UiNode)
    ensures
        n.name@ == "Overlay"@,
        n.style == (NodeStyle {
            width: Val::PercentTenths(1000),
            height: Val::PercentTenths(1000),
            absolute: true,
            ..NodeStyle::spec_plain()
        }),
        n.content is Empty,
        n.pickable_ignore,
        !n.focus_block,
        n.z_index == z,
        n.children@.len() == 0,
{
    let mut style = NodeStyle::plain();
    style.width = Val::PercentTenths(1000);
    style.height = Val::PercentTenths(1000);
    style.absolute = true;
    let mut n = UiNode::bare(String::from_str("Overlay"), style, Vec::new());
    n.pickable_ignore = true;
    n.z_index = z;
    n
}

/// A full-screen, absolutely positioned node at stacking order `z` that
/// blocks focus from whatever lies beneath it.
pub fn blocking_overlay(z: i64) -> (n: UiNode)
    ensures
        n.name@ == "BlockingOverlay"@,
        n.style == (NodeStyle {
            width: Val::PercentTenths(1000),
            height: Val::PercentTenths(1000),
            absolute: true,
            ..NodeStyle::spec_plain()
        }),
        n.content is Empty,
        !n.pickable_ignore,
        n.focus_block,
        n.z_index == z,
        n.children@.len() == 0,
{
    let mut style = NodeStyle::plain();
    style.width = Val::PercentTenths(1000);
    style.height = Val::PercentTenths(1000);
    style.absolute = true;
    let mut n = UiNode::bare(String::from_str("BlockingOverlay"), style, Vec::new());
    n.focus_block = true;
    n.z_index = z;
    n
}

/// The full-size block that holds a screen's content, padded all around.
pub fn body(children: Vec<UiNode>) -> (n: UiNode)
    ensures
        n.name@ == "Body"@,
        n.style == (NodeStyle {
            layout: Layout::Block,
            width: Val::PercentTenths(1000),
            height: Val::PercentTenths(1000),
            padding: UiEdges::spec_all(Val::VwTenths(35)),
            ..NodeStyle::spec_plain()
        }),
        n.content is Empty,
        n.children == children,
{
    let mut style = NodeStyle::plain();
    style.layout = Layout::Block;
    style.width = Val::PercentTenths(1000);
    style.height = Val::PercentTenths(1000);
    style.padding = UiEdges::all(Val::VwTenths(35));
    UiNode::bare(String::from_str("Body"), style, children)
}

/// A full-size column with its children centered.
pub fn column_center(children: Vec<UiNode>) -> (n: UiNode)
    ensures
        n.name@ == "ColumnCenter"@,
        n.style == (NodeStyle {
            layout: Layout::ColumnCenter,
            width: Val::PercentTenths(1000),
            height: Val::PercentTenths(1000),
            ..NodeStyle::spec_plain()
        }),
        n.content is Empty,
        n.children == children,
{
    let mut style = NodeStyle::plain();
    style.layout = Layout::ColumnCenter;
    style.width = Val::PercentTenths(1000);
    style.height = Val::PercentTenths(1000);
    UiNode::bare(String::from_str("ColumnCenter"), style, children)
}

/// A centered column of buttons with vertical margins and a gap between
/// rows.
pub fn column_of_buttons(children: Vec<UiNode>) -> (n: UiNode)
    ensures
        n.name@ == "ColumnOfButtons"@,
        n.style == (NodeStyle {
            layout: Layout::ColumnCenter,
            margin: UiEdges::spec_vertical(Val::VwTenths(25)),
            row_gap: Val::VwTenths(25),
            ..NodeStyle::spec_plain()
        }),
        n.content is Empty,
        n.children == children,
{
    let mut style = NodeStyle::plain();
    style.layout = Layout::ColumnCenter;
    style.margin = UiEdges::vertical(Val::VwTenths(25));
    style.row_gap = Val::VwTenths(25);
    UiNode::bare(String::from_str("ColumnOfButtons"), style, children)
}

/// A centered row of buttons with vertical margins and a gap between
/// columns.
pub fn row_of_buttons(children: Vec<UiNode>) -> (n: UiNode)
    ensures
        n.name@ == "RowOfButtons"@,
        n.style == (NodeStyle {
            layout: Layout::RowCenter,
            margin: UiEdges::spec_vertical(Val::VwTenths(25)),
            column_gap: Val::VwTenths(25),
            ..NodeStyle::spec_plain()
        }),
        n.content is Empty,
        n.children == children,
{
    let mut style = NodeStyle::plain();
    style.layout = Layout::RowCenter;
    style.margin = UiEdges::vertical(Val::VwTenths(25));
    style.column_gap = Val::VwTenths(25);
    UiNode::bare(String::from_str("RowOfButtons"), style, children)
}

/// A node that grows into leftover space and centers its children.
pub fn stretch(children: Vec<UiNode>) -> (n: UiNode)
    ensures
        n.name@ == "Stretch"@,
        n.style == (NodeStyle {
            layout: Layout::RowCenter,
            grow: true,
            ..NodeStyle::spec_plain()
        }),
        n.content is Empty,
        n.children == children,
{
    let mut style = NodeStyle::plain();
    style.layout = Layout::RowCenter;
    style.grow = true;
    UiNode::bare(String::from_str("Stretch"), style, children)
}

/// The name a label node carries: `Label("<text>")`.
pub open spec fn label_name(text: Seq<char>) -> Seq<char> {
    "Label(\""@ + text + "\")"@
}

/// The shared shape of every text label: a named node whose content is the
/// text at the given font size and color, with no children.
pub fn label_base(font_size: Val, text_color: ThemeColor, text: &str) -> (n: UiNode)
    ensures
        n.name@ == label_name(text@),
        n.style == NodeStyle::spec_plain(),
        n.content matches NodeContent::Text { text: t, font_size: f, color: c } && t@ == text@ && f
            == font_size && c == text_color,
        !n.pickable_ignore,
        !n.focus_block,
        n.z_index == 0,
        n.border_color is None,
        n.background is None,
        n.children@.len() == 0,
{
    let mut name = String::from_str("Label(\"");
    name.append(text);
    name.append("\")");
    let mut n = UiNode::bare(name, NodeStyle::plain(), Vec::new());
    n.content = NodeContent::Text { text: String::from_str(text), font_size, color: text_color };
    n
}

/// A heading label: large body text with a margin below it.
pub fn header(text: &str) -> (n: UiNode)
    ensures
        n.name@ == label_name(text@),
        n.style == (NodeStyle {
            margin: UiEdges::spec_bottom(Val::VwTenths(50)),
            ..NodeStyle::spec_plain()
        }),
        n.content matches NodeContent::Text { text: t, font_size: f, color: c } && t@ == text@ && f
            == Val::VwTenths(50) && c == ThemeColor::BodyText,
        n.children@.len() == 0,
{
    let mut n = label_base(Val::VwTenths(50), ThemeColor::BodyText, text);
    n.style.margin = UiEdges::bottom(Val::VwTenths(50));
    n
}

/// A large body-text label.
pub fn big_label(text: &str) -> (n: UiNode)
    ensures
        n.name@ == label_name(text@),
        n.style == NodeStyle::spec_plain(),
        n.content matches NodeContent::Text { text: t, font_size: f, color: c } && t@ == text@ && f
            == Val::VwTenths(50) && c == ThemeColor::BodyText,
        n.children@.len() == 0,
{
    label_base(Val::VwTenths(50), ThemeColor::BodyText, text)
}

/// A regular body-text label.
pub fn label(text: &str) -> (n: UiNode)
    ensures
        n.name@ == label_name(text@),
        n.style == NodeStyle::spec_plain(),
        n.content matches NodeContent::Text { text: t, font_size: f, color: c } && t@ == text@ && f
            == Val::VwTenths(35) && c == ThemeColor::BodyText,
        n.children@.len() == 0,
{
    label_base(Val::VwTenths(35), ThemeColor::BodyText, text)
}

/// Prepends `first` onto the first line of `rest`: the empty result when
/// both are empty, `rest` with `first` glued onto its head otherwise.
pub open spec fn glue(first: Seq<char>, rest: Seq<Seq<char>>) -> Seq<Seq<char>> {
    if rest.len() == 0 {
        if first.len() == 0 {
            Seq::empty()
        } else {
            seq![first]
        }
    } else {
        seq![first + rest[0]] + rest.drop_first()
    }
}

/// The lines of a text: pieces split at `'\n'` or `"\r\n"`, where a final
/// line terminator closes the last line rather than opening an empty one.
pub open spec fn spec_lines(s: Seq<char>) -> Seq<Seq<char>>
    decreases s.len(),
{
    if s.len() == 0 {
        Seq::empty()
    } else if s[0] == '\n' {
        seq![Seq::<char>::empty()] + spec_lines(s.drop_first())
    } else if s.len() >= 2 && s[0] == '\r' && s[1] == '\n' {
        seq![Seq::<char>::empty()] + spec_lines(s.skip(2))
    } else {
        glue(seq![s[0]], spec_lines(s.drop_first()))
    }
}

proof fn lemma_glue_concat(a: Seq<char>, b: Seq<char>, rest: Seq<Seq<char>>)
    ensures
        glue(a, glue(b, rest)) == glue(a + b, rest),
{
    if rest.len() == 0 {
        if b.len() == 0 {
            assert(a + b =~= a);
            assert(glue(a, glue(b, rest)) =~~= glue(a + b, rest));
        } else {
            assert(glue(a, glue(b, rest)) =~~= glue(a + b, rest));
        }
    } else {
        assert(a + (b + rest[0]) =~= (a + b) + rest[0]);
        assert(glue(a, glue(b, rest)) =~~= glue(a + b, rest));
    }
}

/// The view of each line in a vector of lines.
pub open spec fn line_views(v: Seq<String>) -> Seq<Seq<char>> {
    v.map_values(|l: String| l@)
}

/// Splits `text` into its lines, exactly as `spec_lines` describes.
pub fn split_lines(text: &str) -> (r: Vec<String>)
    ensures
        line_views(r@) == spec_lines(text@),
{
    let len = text.unicode_len();
    let mut out: Vec<String> = Vec::new();
    let mut start: usize = 0;
    let mut i: usize = 0;
    proof {
        assert(text@.skip(0) =~= text@);
        assert(text@.subrange(0, 0) =~= Seq::<char>::empty());
        assert(line_views(out@) =~= Seq::<Seq<char>>::empty());
        assert(glue(Seq::<char>::empty(), spec_lines(text@)) =~~= spec_lines(text@));
        assert(line_views(out@) + glue(Seq::<char>::empty(), spec_lines(text@)) =~~= spec_lines(
            text@,
        ));
    }
    while i < len
        invariant
            len == text@.len(),
            start <= i <= len,
            spec_lines(text@) == line_views(out@) + glue(
                text@.subrange(start as int, i as int),
                spec_lines(text@.skip(i as int)),
            ),
        decreases len - i,
    {
        let c = text.get_char(i);
        let mut broke = false;
        let mut width: usize = 1;
        if c == '\n' {
            broke = true;
        } else if c == '\r' && i + 1 < len {
            if text.get_char(i + 1) == '\n' {
                broke = true;
                width = 2;
            }
        }
        if broke {
            let ghost cur = text@.subrange(start as int, i as int);
            let ghost tail = spec_lines(text@.skip(i + width as int));
            proof {
                let s = text@.skip(i as int);
                if width == 2 {
                    assert(s.skip(2) =~= text@.skip(i + 2));
                } else {
                    assert(s.drop_first() =~= text@.skip(i + 1));
                }
                assert(spec_lines(s) == seq![Seq::<char>::empty()] + tail);
                assert(glue(cur, seq![Seq::<char>::empty()] + tail) =~~= seq![cur] + tail);
            }
            out.push(String::from_str(text.substring_char(start, i)));
            proof {
                assert(line_views(out@) =~~= line_views(out@.drop_last()) + seq![cur]);
                let after = line_views(out@) + glue(
                    text@.subrange(i + width as int, i + width as int),
                    tail,
                );
                assert(after =~~= spec_lines(text@));
            }
            i = i + width;
            start = i;
        } else {
            proof {
                let s = text@.skip(i as int);
                assert(s.drop_first() =~= text@.skip(i + 1));
                assert(s[0] == text@[i as int]);
                assert(spec_lines(s) == glue(seq![s[0]], spec_lines(text@.skip(i + 1))));
                lemma_glue_concat(
                    text@.subrange(start as int, i as int),
                    seq![s[0]],
                    spec_lines(text@.skip(i + 1)),
                );
                assert(text@.subrange(start as int, i as int) + seq![s[0]] =~= text@.subrange(
                    start as int,
                    i + 1,
                ));
            }
            i = i + 1;
        }
    }
    if start < len {
        let ghost cur = text@.subrange(start as int, len as int);
        proof {
            assert(text@.skip(len as int) =~= Seq::<char>::empty());
            assert(spec_lines(text@.skip(len as int)) =~~= Seq::<Seq<char>>::empty());
            assert(glue(cur, Seq::<Seq<char>>::empty()) =~~= seq![cur]);
        }
        out.push(String::from_str(text.substring_char(start, len)));
        proof {
            assert(line_views(out@) =~~= line_views(out@.drop_last()) + seq![cur]);
            assert(line_views(out@) =~~= spec_lines(text@));
        }
    } else {
        proof {
            assert(text@.skip(len as int) =~= Seq::<char>::empty());
            assert(text@.subrange(start as int, len as int) =~= Seq::<char>::empty());
            assert(line_views(out@) =~~= spec_lines(text@));
        }
    }
    out
}

/// Whether `n` is the label node that `label` builds for the text `t`.
pub open spec fn is_label_of(n: UiNode, t: Seq<char>) -> bool {
    &&& n.name@ == label_name(t)
    &&& n.style == NodeStyle::spec_plain()
    &&& n.content matches NodeContent::Text { text, font_size, color } && text@ == t && font_size
        == Val::VwTenths(35) && color == ThemeColor::BodyText
    &&& n.children@.len() == 0
}

/// A block of body text with vertical margins and a row gap, one label
/// child per line of `text`.
pub fn paragraph(text: &str) -> (n: UiNode)
    ensures
        n.name@ == "Paragraph"@,
        n.style == (NodeStyle {
            layout: Layout::ColumnMid,
            margin: UiEdges::spec_vertical(Val::VwTenths(50)),
            row_gap: Val::VwTenths(14),
            ..NodeStyle::spec_plain()
        }),
        n.content is Empty,
        n.children@.len() == spec_lines(text@).len(),
        forall|i: int|
            0 <= i < n.children@.len() ==> is_label_of(#[trigger] n.children@[i], spec_lines(text@)[i]),
{
    let lines = split_lines(text);
    let mut children: Vec<UiNode> = Vec::new();
    let n_lines = lines.len();
    let mut k: usize = 0;
    while k < n_lines
        invariant
            n_lines == lines@.len(),
            line_views(lines@) == spec_lines(text@),
            k <= n_lines,
            children@.len() == k,
            forall|i: int|
                0 <= i < k ==> is_label_of(#[trigger] children@[i], spec_lines(text@)[i]),
        decreases n_lines - k,
    {
        let ln = label(lines[k].as_str());
        proof {
            assert(line_views(lines@)[k as int] == lines@[k as int]@);
        }
        children.push(ln);
        k = k + 1;
    }
    let mut style = NodeStyle::plain();
    style.layout = Layout::ColumnMid;
    style.margin = UiEdges::vertical(Val::VwTenths(50));
    style.row_gap = Val::VwTenths(14);
    UiNode::bare(String::from_str("Paragraph"), style, children)
}

/// The loading-bar fill width for a snapshot, in tenths of a percent of the
/// bar: `done / total` of the full width.
pub open spec fn spec_fill_permille(done: u32, total: u32) -> int
    recommends
        0 < total,
{
    1000 * done / total as int
}

/// Computes the fill width for a snapshot.
pub fn fill_permille(done: u32, total: u32) -> (r: u64)
    requires
        0 < total,
        done <= total,
    ensures
        r == spec_fill_permille(done, total),
        r <= 1000,
    {
    let r = 1000u64 * (done as u64) / (total as u64);
    proof {
        assert(1000 * done / (total as int) <= 1000) by (nonlinear_arith)
            requires
                0 < total,
                done <= total,
        ;
    }
    r
}

/// A bordered loading bar for `screen`, holding one fill child whose width
/// tracks that screen's loading progress.
pub fn loading_bar(screen: Screen) -> (n: UiNode)
    ensures
        n.name@ == "LoadingBar"@,
        n.style == (NodeStyle {
            width: Val::PercentTenths(600),
            height: Val::VwTenths(40),
            margin: UiEdges::spec_all(Val::VwTenths(10)),
            padding: UiEdges::spec_all(Val::VwTenths(5)),
            border: UiEdges::spec_all(Val::VwTenths(5)),
            ..NodeStyle::spec_plain()
        }),
        n.border_color == Some(ThemeColor::BodyText),
        n.children@.len() == 1,
        n.children@[0].name@ == "LoadingBarFill"@,
        n.children@[0].style == (NodeStyle {
            height: Val::PercentTenths(1000),
            ..NodeStyle::spec_plain()
        }),
        n.children@[0].background == Some(ThemeColor::Primary),
        n.children@[0].content matches NodeContent::LoadingFill(m) && m.0 == screen,
{
    let mut fill_style = NodeStyle::plain();
    fill_style.height = Val::PercentTenths(1000);
    let mut fill = UiNode::bare(String::from_str("LoadingBarFill"), fill_style, Vec::new());
    fill.background = Some(ThemeColor::Primary);
    fill.content = NodeContent::LoadingFill(IsLoadingBarFill(screen));

    let mut style = NodeStyle::plain();
    style.width = Val::PercentTenths(600);
    style.height = Val::VwTenths(40);
    style.margin = UiEdges::all(Val::VwTenths(10));
    style.padding = UiEdges::all(Val::VwTenths(5));
    style.border = UiEdges::all(Val::VwTenths(5));
    let mut children: Vec<UiNode> = Vec::new();
    children.push(fill);
    let mut n = UiNode::bare(String::from_str("LoadingBar"), style, children);
    n.border_color = Some(ThemeColor::BodyText);
    n
}

/// The fill node with its width set to the fraction a snapshot reports,
/// everything else unchanged.
pub open spec fn refilled(fill: UiNode, snap: crate::progress::ProgressState) -> UiNode {
    UiNode {
        style: NodeStyle {
            width: Val::PercentTenths(spec_fill_permille(snap.done, snap.total) as u64),
            ..fill.style
        },
        ..fill
    }
}

/// Per-frame refresh of one loading-bar fill node: when the tracked `done`
/// for the fill's screen has moved since this observer last looked, and work
/// is registered, the fill's width is set to the tracked fraction of the bar.
/// Nothing else about the node changes, and a frame where `done` did not
/// move changes nothing at all.
pub fn update_loading_bar_fill(
    tracker: &crate::progress::ProgressTracker,
    fill: &mut UiNode,
    observer: &mut ProgressObserver,
)
    requires
        tracker.wf(),
        old(fill).content matches NodeContent::LoadingFill(m),
    ensures
        old(fill).content matches NodeContent::LoadingFill(m) ==> {
            let snap = tracker.spec_of(m.0);
            let was = old(observer).last_done;
            let fill0 = *old(fill);
            let fill1 = *final(fill);
            &&& (snap.done == was ==> fill1 == fill0 && *final(observer) == *old(observer))
            &&& (snap.done != was ==> final(observer).last_done == snap.done)
            &&& (snap.done != was && snap.total > 0 ==> fill1 == refilled(fill0, snap))
            &&& (snap.done != was && snap.total == 0 ==> fill1 == fill0)
        },
{
    let screen = match &fill.content {
        NodeContent::LoadingFill(m) => m.0,
        _ => Screen::Splash,
    };
    let (done, total) = tracker.combined_progress(screen);
    if done == observer.last_done {
        return ;
    }
    observer.last_done = done;
    if total > 0 {
        fill.style.width = Val::PercentTenths(fill_permille(done, total));
    }
}

} // verus!
