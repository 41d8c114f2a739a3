use vstd::prelude::*;

use crate::config::{opt_view, AlignMethod, BoxType, PaddingDimensions, StyleSpec, TextMarkup};

verus! {

// ---------------------------------------------------------------------------
// The help page as data: what is printed, in which order, with which styles.
// A terminal renderer draws it.
// ---------------------------------------------------------------------------

/// How the text of a segment is read.
#[derive(Debug, Clone, Copy, PartialEq, Eq, Structural)]
pub enum SegmentKind {
    /// Taken as it is.
    Plain,
    /// Console markup (with emoji codes when the flag is set), styled as a
    /// whole with the segment's style.
    Markup(bool),
    /// Text with ANSI escape codes.
    Ansi,
}

/// A piece of text appended with a style.
#[derive(Debug, Clone)]
pub struct Segment {
    pub kind: SegmentKind,
    pub text: String,
    pub style: Option<StyleSpec>,
}

pub type SegmentView = (SegmentKind, Seq<char>, Option<Seq<char>>);

pub open spec fn segment_view(s: Segment) -> SegmentView {
    (s.kind, s.text@, opt_view(s.style))
}

pub open spec fn segment_views(v: Seq<Segment>) -> Seq<SegmentView> {
    v.map_values(|s: Segment| segment_view(s))
}

/// Text made of segments on a base style.
#[derive(Debug, Clone)]
pub struct StyledText {
    pub base: StyleSpec,
    pub segments: Vec<Segment>,
}

pub type StyledView = (Seq<char>, Seq<SegmentView>);

pub open spec fn styled_view(t: StyledText) -> StyledView {
    (t.base@, segment_views(t.segments@))
}

/// A style applied to the characters from byte `start` to byte `end`.
#[derive(Debug, Clone)]
pub struct StyleSpan {
    pub start: usize,
    pub end: usize,
    pub style: StyleSpec,
}

pub type SpanView = (usize, usize, Seq<char>);

pub open spec fn span_view(s: StyleSpan) -> SpanView {
    (s.start, s.end, s.style@)
}

pub open spec fn span_views(v: Seq<StyleSpan>) -> Seq<SpanView> {
    v.map_values(|s: StyleSpan| span_view(s))
}

/// A text read with a markup on a base style, then styled span by span.
#[derive(Debug, Clone)]
pub struct MarkedText {
    pub base: StyleSpec,
    pub source: String,
    pub markup: TextMarkup,
    pub emojis: bool,
    pub spans: Vec<StyleSpan>,
}

pub type MarkedView = (Seq<char>, Seq<char>, TextMarkup, bool, Seq<SpanView>);

pub open spec fn marked_view(t: MarkedText) -> MarkedView {
    (t.base@, t.source@, t.markup, t.emojis, span_views(t.spans@))
}

/// The content of a table cell.
#[derive(Debug, Clone)]
pub enum Cell {
    Text(StyledText),
    /// Markdown source, rendered with hyperlinks.
    Markdown(String),
}

pub enum CellView {
    Text(StyledView),
    Markdown(Seq<char>),
}

pub open spec fn cell_view(c: Cell) -> CellView {
    match c {
        Cell::Text(t) => CellView::Text(styled_view(t)),
        Cell::Markdown(s) => CellView::Markdown(s@),
    }
}

pub open spec fn row_view(r: Seq<Cell>) -> Seq<CellView> {
    r.map_values(|c: Cell| cell_view(c))
}

pub open spec fn rows_view(rs: Seq<Vec<Cell>>) -> Seq<Seq<CellView>> {
    rs.map_values(|r: Vec<Cell>| row_view(r@))
}

/// A grid of cells with its settings.
#[derive(Debug)]
pub struct TableBlock {
    pub show_lines: bool,
    pub leading: usize,
    pub pad_edge: bool,
    pub padding: (usize, usize),
    pub collapse_padding: bool,
    pub expand: bool,
    /// A box drawing gives the table edges and hides the header; without one
    /// the table is a plain grid.
    pub box_type: Option<BoxType>,
    pub row_styles: Vec<StyleSpec>,
    pub border_style: StyleSpec,
    /// The ratio of each column, in order.
    pub column_ratios: Vec<Option<usize>>,
    pub rows: Vec<Vec<Cell>>,
}

/// A framed box around a table or a text.
#[derive(Debug)]
pub struct PanelBlock {
    pub title: StyledText,
    pub body: PanelBody,
    /// The box drawing; `None` keeps the renderer's own.
    pub box_type: Option<BoxType>,
    pub align: AlignMethod,
    pub border_style: StyleSpec,
    pub style: Option<StyleSpec>,
    pub padding: PaddingDimensions,
    pub expand: Option<bool>,
}

#[derive(Debug)]
pub enum PanelBody {
    Table(TableBlock),
    Text(StyledText),
}

/// What a padded block holds.
#[derive(Debug)]
pub enum Content {
    Text(StyledText),
    Marked(MarkedText),
    Markdown(String),
    Table(TableBlock),
}

/// One printed element of a help page or error report.
#[derive(Debug)]
pub enum Block {
    /// A line printed as it is.
    Line(String),
    /// A styled text followed by `end`.
    Text(StyledText, String),
    /// A content surrounded by padding of a style, followed by `end`.
    Padded(Content, PaddingDimensions, StyleSpec, String),
    Panel(PanelBlock),
}

/// The settings of a table: lines, leading, edge padding, padding,
/// collapsing, expansion, box, row styles and border style.
pub type TableSettings = (bool, usize, bool, (usize, usize), bool, bool, Option<BoxType>, Seq<Seq<char>>, Seq<char>);

pub type TableView = (TableSettings, Seq<Option<usize>>, Seq<Seq<CellView>>);

pub open spec fn table_view(t: TableBlock) -> TableView {
    (
        (
            t.show_lines,
            t.leading,
            t.pad_edge,
            t.padding,
            t.collapse_padding,
            t.expand,
            t.box_type,
            crate::text::views(t.row_styles@),
            t.border_style@,
        ),
        t.column_ratios@,
        rows_view(t.rows@),
    )
}

pub enum BodyView {
    Table(TableView),
    Text(StyledView),
}

/// Title, body, box, alignment, border style, style, padding, expansion.
pub type PanelView = (StyledView, BodyView, Option<BoxType>, AlignMethod, Seq<char>, Option<Seq<char>>, PaddingDimensions, Option<bool>);

pub open spec fn panel_view(p: PanelBlock) -> PanelView {
    (
        styled_view(p.title),
        match p.body {
            PanelBody::Table(t) => BodyView::Table(table_view(t)),
            PanelBody::Text(t) => BodyView::Text(styled_view(t)),
        },
        p.box_type,
        p.align,
        p.border_style@,
        opt_view(p.style),
        p.padding,
        p.expand,
    )
}

pub enum ContentView {
    Text(StyledView),
    Marked(MarkedView),
    Markdown(Seq<char>),
    Table(TableView),
}

pub open spec fn content_view(c: Content) -> ContentView {
    match c {
        Content::Text(t) => ContentView::Text(styled_view(t)),
        Content::Marked(m) => ContentView::Marked(marked_view(m)),
        Content::Markdown(s) => ContentView::Markdown(s@),
        Content::Table(t) => ContentView::Table(table_view(t)),
    }
}

pub enum BlockView {
    Line(Seq<char>),
    Text(StyledView, Seq<char>),
    Padded(ContentView, PaddingDimensions, Seq<char>, Seq<char>),
    Panel(PanelView),
}

pub open spec fn block_view(b: Block) -> BlockView {
    match b {
        Block::Line(s) => BlockView::Line(s@),
        Block::Text(t, end) => BlockView::Text(styled_view(t), end@),
        Block::Padded(c, p, st, end) => BlockView::Padded(content_view(c), p, st@, end@),
        Block::Panel(p) => BlockView::Panel(panel_view(p)),
    }
}

pub open spec fn block_views(v: Seq<Block>) -> Seq<BlockView> {
    v.map_values(|b: Block| block_view(b))
}

/// Appends the blocks of `more` to `blocks`.
pub fn append_blocks(blocks: &mut Vec<Block>, more: Vec<Block>)
    ensures
        block_views(final(blocks)@) == block_views(old(blocks)@) + block_views(more@),
{
    let ghost a = blocks@;
    let mut more = more;
    let ghost b = more@;
    blocks.append(&mut more);
    assert(blocks@ =~= a + b);
    assert(block_views(blocks@) =~= block_views(a) + block_views(b));
}

/// The text of a single segment with a style on a base style.
pub open spec fn single_view(base: Seq<char>, text: Seq<char>) -> StyledView {
    (base, seq![(SegmentKind::Plain, text, None::<Seq<char>>)])
}

/// `Text::styled(text, style)`: one plain segment on the base style.
pub fn styled(text: &str, style: &str) -> (t: StyledText)
    ensures
        styled_view(t) == single_view(style@, text@),
{
    let seg = Segment { kind: SegmentKind::Plain, text: crate::text::copy_str(text), style: None };
    let t = StyledText { base: crate::text::copy_str(style), segments: vec![seg] };
    assert(segment_views(t.segments@) =~= seq![(SegmentKind::Plain, text@, None::<Seq<char>>)]);
    t
}

/// A segment of plain text with its own style.
pub fn plain_segment(text: &str, style: &str) -> (s: Segment)
    ensures
        segment_view(s) == (SegmentKind::Plain, text@, Some(style@)),
{
    Segment { kind: SegmentKind::Plain, text: crate::text::copy_str(text), style: Some(crate::text::copy_str(style)) }
}

/// Appends a segment to a text.
pub fn push_segment(t: &mut StyledText, s: Segment)
    ensures
        styled_view(*final(t)) == (styled_view(*old(t)).0, styled_view(*old(t)).1.push(segment_view(s))),
{
    t.segments.push(s);
    assert(segment_views(t.segments@) =~= segment_views(old(t).segments@).push(segment_view(s)));
}

} // verus!
