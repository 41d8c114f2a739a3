use vstd::prelude::*;

use crate::cli::{append_suffix_to_first_line, collect_param_candidates, normalize_param_name, normalized_param_spec, param_candidates_spec, with_suffix_on_first_line};
use crate::config::{opt_view, RichHelpConfig, TextMarkup};
use crate::doc::{
    block_view, block_views, content_view, marked_view, rows_view, single_view, span_views, styled,
    styled_view, Block, BlockView, BodyView, Cell, CellView, Content, ContentView, MarkedText,
    MarkedView, PanelBlock, PanelBody, Segment, SegmentKind, SegmentView, SpanView, StyleSpan, StyledText,
};
use crate::helptext::{apply_paragraph_linebreaks, normalize_help_text, normalized_help_spec, paragraph_breaks_spec};
use crate::model::{ArgumentInfo, ErrorInfo, ErrorKind};
use crate::option_help::{fill, fill_template, emojis_enabled};
use crate::panels::{framed, panel_title, panel_title_spec};
use crate::table::{build_table, empty_cell, empty_text, table_spec};
use crate::text::{is_ws, is_ws_exec, str_eq, 
    chars_of, concat, concat3, contains, contains_seq, copy_str, first_index_of, has_prefix, join, replace,
    replace_spec, rfind, rfind_spec, starts_with, str_byte_len, trim, trim_spec, uppercase_of, utf8_len, views,
};

verus! {

// ---------------------------------------------------------------------------
// The parts of a help page: the usage line, the help text, the epilog, the
// arguments panel; and the error report.
// ---------------------------------------------------------------------------

/// The span that styles the command name of a usage line `"Usage: name ..."`,
/// in bytes.
pub open spec fn usage_spans(cfg: RichHelpConfig, usage: Seq<char>) -> Seq<SpanView> {
    if has_prefix(usage, "Usage: "@) {
        let rest = usage.skip(7);
        let end = match first_index_of(rest, ' ') {
            Some(i) => 7 + utf8_len(rest.take(i)) as int,
            None => utf8_len(usage) as int,
        };
        if 7 < end {
            seq![(7usize, end as usize, cfg.style_usage_command@)]
        } else {
            Seq::empty()
        }
    } else {
        Seq::empty()
    }
}

/// The usage block: the usage line in the usage style, its command name in
/// the usage-command style, padded as configured.
pub open spec fn usage_block_spec(cfg: RichHelpConfig, usage: Seq<char>) -> BlockView {
    BlockView::Padded(
        ContentView::Marked((cfg.style_usage@, usage, TextMarkup::NoMarkup, false, usage_spans(cfg, usage))),
        cfg.padding_usage,
        cfg.style_padding_usage@,
        ""@,
    )
}

pub fn usage_block(cfg: &RichHelpConfig, usage: &str) -> (b: Block)
    ensures
        block_view(b) == usage_block_spec(*cfg, usage@),
{
    let mut spans: Vec<StyleSpan> = Vec::new();
    proof {
        reveal_strlit("Usage: ");
        reveal_strlit("");
    }
    if starts_with(usage, "Usage: ") {
        let chars = chars_of(usage);
        let rest = crate::text::string_of_range(chars.as_slice(), 7, chars.len());
        assert(chars@.subrange(7, chars@.len() as int) =~= usage@.skip(7));
        let rest_chars = chars_of(rest.as_str());
        let end = match crate::text::find_char(rest_chars.as_slice(), ' ') {
            Some(i) => {
                let head = crate::text::string_of_range(rest_chars.as_slice(), 0, i);
                assert(rest_chars@.subrange(0, i as int) =~= usage@.skip(7).take(i as int));
                let total = str_byte_len(usage);
                proof {
                    crate::text::lemma_utf8_len_prefix_mono(usage@.skip(7), i as int, usage@.skip(7).len() as int);
                    assert(usage@.skip(7).take(usage@.skip(7).len() as int) =~= usage@.skip(7));
                    assert(usage@ =~= usage@.take(7) + usage@.skip(7));
                    crate::text::lemma_utf8_len_concat(usage@.take(7), usage@.skip(7));
                    crate::text::lemma_utf8_len_ge_len(usage@.take(7));
                }
                let n = str_byte_len(head.as_str());
                7 + n
            },
            None => str_byte_len(usage),
        };
        if 7 < end {
            spans.push(StyleSpan { start: 7, end, style: cfg.style_usage_command.clone() });
        }
    }
    let end_text = String::new();
    assert(end_text@ =~= ""@);
    let m = MarkedText {
        base: cfg.style_usage.clone(),
        source: copy_str(usage),
        markup: TextMarkup::NoMarkup,
        emojis: false,
        spans,
    };
    assert(span_views(m.spans@) =~= usage_spans(*cfg, usage@));
    Block::Padded(Content::Marked(m), cfg.padding_usage, cfg.style_padding_usage.clone(), end_text)
}


/// The notice a deprecated command gets: the reason in its template, or the
/// plain notice without a reason.
pub open spec fn deprecation_notice(cfg: RichHelpConfig, dep: Seq<char>) -> Seq<char> {
    if dep.len() == 0 {
        cfg.deprecated_string@
    } else {
        fill(cfg.deprecated_with_reason_string@, dep)
    }
}

fn notice(cfg: &RichHelpConfig, dep: &str) -> (r: String)
    ensures
        r@ == deprecation_notice(*cfg, dep@),
{
    if dep.is_empty() {
        cfg.deprecated_string.clone()
    } else {
        fill_template(cfg.deprecated_with_reason_string.as_str(), dep)
    }
}

/// The Markdown source of a help text: paragraph breaks applied, blank lines
/// turned into Markdown line breaks except before a block quote.
pub open spec fn markdown_help(cfg: RichHelpConfig, decorated: Seq<char>) -> Seq<char> {
    let d = paragraph_breaks_spec(cfg.text_markup, opt_view(cfg.text_paragraph_linebreaks), decorated);
    let n1 = replace_spec(d, "\n\n>"@, "\n__RC_BLOCK__\n>"@);
    let n2 = replace_spec(n1, "\n\n"@, "  \n"@);
    replace_spec(n2, "\n__RC_BLOCK__\n>"@, "\n\n>"@)
}

fn markdown_source(cfg: &RichHelpConfig, decorated: &str) -> (r: String)
    ensures
        r@ == markdown_help(*cfg, decorated@),
{
    proof {
        reveal_strlit("\n\n>");
        reveal_strlit("\n\n");
        reveal_strlit("\n__RC_BLOCK__\n>");
    }
    let d = apply_paragraph_linebreaks(cfg.text_markup, &cfg.text_paragraph_linebreaks, decorated);
    let n1 = replace(d.as_str(), "\n\n>", "\n__RC_BLOCK__\n>");
    let n2 = replace(n1.as_str(), "\n\n", "  \n");
    replace(n2.as_str(), "\n__RC_BLOCK__\n>", "\n\n>")
}

/// The styles of a help text, in bytes: the first line in the first-line
/// style, the rest in the help style, and a deprecation notice (the last one)
/// in the deprecated style.
pub open spec fn help_spans(cfg: RichHelpConfig, raw: Seq<char>, has_dep: bool) -> Seq<SpanView> {
    let len = utf8_len(raw) as usize;
    let first_end = match first_index_of(raw, '\n') {
        Some(i) => utf8_len(raw.take(i)) as usize,
        None => len,
    };
    let s1 = if first_end < len {
        seq![(first_end, len, cfg.style_helptext@)]
    } else {
        seq![(0usize, len, cfg.style_helptext_first_line@)]
    };
    let s2 = if first_end > 0 {
        s1.push((0usize, first_end, cfg.style_helptext_first_line@))
    } else {
        s1
    };
    if has_dep {
        match rfind_spec(raw, cfg.deprecated_string@) {
            Some(i) => s2.push((utf8_len(raw.take(i)) as usize, len, cfg.style_deprecated@)),
            None => match rfind_spec(raw, "[deprecated:"@) {
                Some(i) => s2.push((utf8_len(raw.take(i)) as usize, len, cfg.style_deprecated@)),
                None => s2,
            },
        }
    } else {
        s2
    }
}

/// The byte offset of char `i` of `s`.
fn byte_at(s: &str, chars: &Vec<char>, i: usize) -> (r: usize)
    requires
        chars@ == s@,
        i <= s@.len(),
    ensures
        r == utf8_len(s@.take(i as int)),
{
    let total = str_byte_len(s);
    proof {
        crate::text::lemma_utf8_len_prefix_mono(s@, i as int, s@.len() as int);
        assert(s@.take(s@.len() as int) =~= s@);
    }
    crate::text::byte_offset(chars.as_slice(), i)
}

fn help_style_spans(cfg: &RichHelpConfig, raw: &str, has_dep: bool) -> (r: Vec<StyleSpan>)
    ensures
        span_views(r@) == help_spans(*cfg, raw@, has_dep),
{
    let chars = chars_of(raw);
    let len = str_byte_len(raw);
    let first_end = match crate::text::find_char(chars.as_slice(), '\n') {
        Some(i) => byte_at(raw, &chars, i),
        None => len,
    };
    let mut spans: Vec<StyleSpan> = Vec::new();
    if first_end < len {
        spans.push(StyleSpan { start: first_end, end: len, style: cfg.style_helptext.clone() });
    } else {
        spans.push(StyleSpan { start: 0, end: len, style: cfg.style_helptext_first_line.clone() });
    }
    if first_end > 0 {
        spans.push(StyleSpan { start: 0, end: first_end, style: cfg.style_helptext_first_line.clone() });
    }
    if has_dep {
        let pat = chars_of(cfg.deprecated_string.as_str());
        match rfind(chars.as_slice(), pat.as_slice()) {
            Some(i) => {
                let start = byte_at(raw, &chars, i);
                spans.push(StyleSpan { start, end: len, style: cfg.style_deprecated.clone() });
            },
            None => {
                let pat2 = chars_of("[deprecated:");
                match rfind(chars.as_slice(), pat2.as_slice()) {
                    Some(i) => {
                        let start = byte_at(raw, &chars, i);
                        spans.push(StyleSpan { start, end: len, style: cfg.style_deprecated.clone() });
                    },
                    None => {},
                }
            },
        }
    }
    assert(span_views(spans@) =~= help_spans(*cfg, raw@, has_dep));
    spans
}

/// A help text as the page shows it: read with the configured markup after
/// the paragraph breaks are applied, and styled.
pub open spec fn help_text_marked(cfg: RichHelpConfig, text: Seq<char>, has_dep: bool) -> MarkedView {
    let source = paragraph_breaks_spec(cfg.text_markup, opt_view(cfg.text_paragraph_linebreaks), text);
    match cfg.text_markup {
        TextMarkup::Markdown => (""@, text, TextMarkup::NoMarkup, false, Seq::empty()),
        TextMarkup::Rich => (""@, source, TextMarkup::Rich, emojis_enabled(cfg), help_spans(cfg, source, has_dep)),
        TextMarkup::Ansi => (""@, source, TextMarkup::Ansi, false, help_spans(cfg, source, has_dep)),
        TextMarkup::NoMarkup => (""@, source, TextMarkup::NoMarkup, false, help_spans(cfg, source, has_dep)),
    }
}

/// The help text of a page.
pub fn help_text_block(cfg: &RichHelpConfig, text: &str, has_dep: bool) -> (m: MarkedText)
    ensures
        marked_view(m) == help_text_marked(*cfg, text@, has_dep),
{
    let source = apply_paragraph_linebreaks(cfg.text_markup, &cfg.text_paragraph_linebreaks, text);
    let base = String::new();
    proof {
        reveal_strlit("");
    }
    assert(base@ =~= ""@);
    match cfg.text_markup {
        TextMarkup::Markdown => {
            let spans: Vec<StyleSpan> = Vec::new();
            assert(span_views(spans@) =~= Seq::<SpanView>::empty());
            MarkedText { base, source: copy_str(text), markup: TextMarkup::NoMarkup, emojis: false, spans }
        },
        TextMarkup::Rich => {
            let emojis = match cfg.text_emojis {
                Some(b) => b,
                None => true,
            };
            let spans = help_style_spans(cfg, source.as_str(), has_dep);
            MarkedText { base, source, markup: TextMarkup::Rich, emojis, spans }
        },
        TextMarkup::Ansi => {
            let spans = help_style_spans(cfg, source.as_str(), has_dep);
            MarkedText { base, source, markup: TextMarkup::Ansi, emojis: false, spans }
        },
        TextMarkup::NoMarkup => {
            let spans = help_style_spans(cfg, source.as_str(), has_dep);
            MarkedText { base, source, markup: TextMarkup::NoMarkup, emojis: false, spans }
        },
    }
}

/// A content padded as the help text is.
pub open spec fn help_padded(cfg: RichHelpConfig, c: ContentView) -> BlockView {
    BlockView::Padded(c, cfg.padding_helptext, cfg.style_padding_helptext@, ""@)
}

fn help_padded_block(cfg: &RichHelpConfig, c: Content) -> (b: Block)
    ensures
        block_view(b) == help_padded(*cfg, content_view(c)),
{
    let end = String::new();
    proof {
        reveal_strlit("");
    }
    assert(end@ =~= ""@);
    Block::Padded(c, cfg.padding_helptext, cfg.style_padding_helptext.clone(), end)
}

/// The deprecation notice alone, for a deprecated command without help.
pub open spec fn deprecation_blocks(cfg: RichHelpConfig, dep: Option<Seq<char>>) -> Seq<BlockView> {
    match dep {
        Some(d) => seq![help_padded(cfg, ContentView::Text(single_view(cfg.style_deprecated@, deprecation_notice(cfg, d))))],
        None => Seq::empty(),
    }
}

/// The help text blocks of a page: the help (with the deprecation notice
/// appended) when it is not blank, else the deprecation notice alone.
pub open spec fn help_blocks_spec(cfg: RichHelpConfig, help: Option<Seq<char>>, dep: Option<Seq<char>>) -> Seq<BlockView> {
    match help {
        Some(h) => if trim_spec(h).len() > 0 {
            let decorated = match dep {
                Some(d) => h + " "@ + deprecation_notice(cfg, d),
                None => h,
            };
            if cfg.text_markup == TextMarkup::Markdown {
                seq![help_padded(cfg, ContentView::Markdown(markdown_help(cfg, decorated)))]
            } else {
                seq![help_padded(cfg, ContentView::Marked(help_text_marked(cfg, decorated, dep is Some)))]
            }
        } else {
            deprecation_blocks(cfg, dep)
        },
        None => deprecation_blocks(cfg, dep),
    }
}

/// The help text blocks of a page.
pub fn help_blocks(cfg: &RichHelpConfig, help: &Option<String>, dep: &Option<String>) -> (r: Vec<Block>)
    ensures
        block_views(r@) == help_blocks_spec(*cfg, opt_view(*help), opt_view(*dep)),
{
    let mut out: Vec<Block> = Vec::new();
    match help {
        Some(h) => {
            let t = trim(h.as_str());
            if !t.as_str().is_empty() {
                let decorated = match dep {
                    Some(d) => {
                        let n = notice(cfg, d.as_str());
                        proof {
                            reveal_strlit(" ");
                        }
                        concat3(h.as_str(), " ", n.as_str())
                    },
                    None => h.clone(),
                };
                if cfg.text_markup == TextMarkup::Markdown {
                    let md = markdown_source(cfg, decorated.as_str());
                    out.push(help_padded_block(cfg, Content::Markdown(md)));
                } else {
                    let m = help_text_block(cfg, decorated.as_str(), dep.is_some());
                    out.push(help_padded_block(cfg, Content::Marked(m)));
                }
                assert(block_views(out@) =~= help_blocks_spec(*cfg, opt_view(*help), opt_view(*dep)));
                return out;
            }
        },
        None => {},
    }
    match dep {
        Some(d) => {
            let n = notice(cfg, d.as_str());
            out.push(help_padded_block(cfg, Content::Text(styled(n.as_str(), cfg.style_deprecated.as_str()))));
        },
        None => {},
    }
    assert(block_views(out@) =~= help_blocks_spec(*cfg, opt_view(*help), opt_view(*dep)));
    out
}

/// The epilog of a page: a blank line, then the epilog text.
pub open spec fn epilog_blocks_spec(cfg: RichHelpConfig, epilog: Option<Seq<char>>) -> Seq<BlockView> {
    match epilog {
        Some(e) => if e.len() > 0 {
            seq![BlockView::Line(""@), BlockView::Text(single_view(cfg.style_helptext@, e), "\n"@)]
        } else {
            Seq::empty()
        },
        None => Seq::empty(),
    }
}

pub fn epilog_blocks(cfg: &RichHelpConfig, epilog: &Option<String>) -> (r: Vec<Block>)
    ensures
        block_views(r@) == epilog_blocks_spec(*cfg, opt_view(*epilog)),
{
    let mut out: Vec<Block> = Vec::new();
    match epilog {
        Some(e) => {
            if !e.as_str().is_empty() {
                proof {
                    reveal_strlit("");
                    reveal_strlit("\n");
                }
                let empty = String::new();
                assert(empty@ =~= ""@);
                out.push(Block::Line(empty));
                out.push(Block::Text(styled(e.as_str(), cfg.style_helptext.as_str()), copy_str("\n")));
            }
        },
        None => {},
    }
    assert(block_views(out@) =~= epilog_blocks_spec(*cfg, opt_view(*epilog)));
    out
}


/// The placeholder an argument shows: its type's placeholder, else the
/// type's name; a list of choices `a|b` is put in braces.
pub open spec fn argument_metavar(a: ArgumentInfo) -> Seq<char> {
    let m = match a.type_metavar {
        Some(m) => m@,
        None => a.value_type@,
    };
    if contains_seq(m, "|"@) && !contains_seq(m, "{"@) {
        "{"@ + m + "}"@
    } else {
        m
    }
}

/// The help column of an argument: its help text, then the required marker.
pub open spec fn argument_help_segments(cfg: RichHelpConfig, a: ArgumentInfo) -> Seq<SegmentView> {
    let n = match a.help {
        Some(h) => normalized_help_spec(cfg.text_markup, h@),
        None => Seq::empty(),
    };
    let s1 = if n.len() > 0 {
        seq![(SegmentKind::Plain, n, Some(cfg.style_option_help@))]
    } else {
        Seq::empty()
    };
    if a.required {
        let s2 = if n.len() > 0 {
            s1.push((SegmentKind::Plain, " "@, Some(cfg.style_option_help@)))
        } else {
            s1
        };
        s2.push((SegmentKind::Plain, cfg.required_long_string@, Some(cfg.style_required_long@)))
    } else {
        s1
    }
}

/// The row of an argument: required marker, upper-case name, placeholder
/// and help.
pub open spec fn argument_row_spec(cfg: RichHelpConfig, a: ArgumentInfo) -> Seq<CellView> {
    seq![
        if a.required {
            CellView::Text(single_view(cfg.style_required_short@, cfg.required_short_string@))
        } else {
            CellView::Text(empty_text())
        },
        CellView::Text(single_view(cfg.style_argument@, uppercase_of(a.name@))),
        CellView::Text(single_view(cfg.style_metavar@, argument_metavar(a))),
        CellView::Text((cfg.style_option_help@, argument_help_segments(cfg, a))),
    ]
}

/// The arguments that are not hidden.
pub open spec fn visible_arguments(args: Seq<ArgumentInfo>) -> Seq<ArgumentInfo>
    decreases args.len(),
{
    if args.len() == 0 {
        Seq::empty()
    } else if args.last().hidden {
        visible_arguments(args.drop_last())
    } else {
        visible_arguments(args.drop_last()).push(args.last())
    }
}

/// The settings of the arguments table: the argument table settings with a
/// padding of two spaces on the right, collapsed, not expanded.
pub open spec fn arguments_table_config(cfg: RichHelpConfig) -> crate::config::TableConfig {
    crate::config::TableConfig { padding: (0usize, 2usize), collapse_padding: true, expand: false, ..cfg.table_arguments }
}

/// The arguments panel.
pub open spec fn argument_panel_spec(cfg: RichHelpConfig, args: Seq<ArgumentInfo>) -> BlockView {
    framed(
        cfg,
        cfg.panel_arguments,
        (
            cfg.arguments_panel_title@,
            Seq::empty(),
            None,
            cfg.style_options_panel_help_style@,
            cfg.panel_arguments.title_style@,
            cfg.panel_inline_help_in_title,
        ),
        table_spec(
            arguments_table_config(cfg),
            None,
            false,
            visible_arguments(args).map_values(|a: ArgumentInfo| argument_row_spec(cfg, a)),
        ),
    )
}

fn argument_row(cfg: &RichHelpConfig, a: &ArgumentInfo) -> (r: Vec<Cell>)
    ensures
        crate::doc::row_view(r@) == argument_row_spec(*cfg, *a),
{
    let required = if a.required {
        Cell::Text(styled(cfg.required_short_string.as_str(), cfg.style_required_short.as_str()))
    } else {
        empty_cell()
    };
    let upper = crate::text::to_uppercase(a.name.as_str());
    let name = Cell::Text(styled(upper.as_str(), cfg.style_argument.as_str()));
    let m = match &a.type_metavar {
        Some(m) => m.clone(),
        None => a.value_type.clone(),
    };
    let mv = if contains(m.as_str(), "|") && !contains(m.as_str(), "{") {
        concat3("{", m.as_str(), "}")
    } else {
        m
    };
    let metavar = Cell::Text(styled(mv.as_str(), cfg.style_metavar.as_str()));
    let n = match &a.help {
        Some(h) => normalize_help_text(cfg.text_markup, h.as_str()),
        None => String::new(),
    };
    let mut segs: Vec<Segment> = Vec::new();
    if !n.as_str().is_empty() {
        segs.push(crate::doc::plain_segment(n.as_str(), cfg.style_option_help.as_str()));
    }
    if a.required {
        if !n.as_str().is_empty() {
            segs.push(crate::doc::plain_segment(" ", cfg.style_option_help.as_str()));
        }
        segs.push(crate::doc::plain_segment(cfg.required_long_string.as_str(), cfg.style_required_long.as_str()));
    }
    proof {
        reveal_strlit(" ");
        reveal_strlit("{");
        reveal_strlit("}");
    }
    assert(crate::doc::segment_views(segs@) =~= argument_help_segments(*cfg, *a));
    let help = Cell::Text(StyledText { base: cfg.style_option_help.clone(), segments: segs });
    let r = vec![required, name, metavar, help];
    assert(crate::doc::row_view(r@) =~= argument_row_spec(*cfg, *a));
    r
}

/// The arguments panel of a command.
pub fn argument_panel(cfg: &RichHelpConfig, args: &Vec<ArgumentInfo>) -> (b: Block)
    ensures
        block_view(b) == argument_panel_spec(*cfg, args@),
{
    let mut rows: Vec<Vec<Cell>> = Vec::new();
    let mut i: usize = 0;
    while i < args.len()
        invariant
            i <= args@.len(),
            rows_view(rows@) == visible_arguments(args@.take(i as int)).map_values(|a: ArgumentInfo| argument_row_spec(*cfg, a)),
        decreases args.len() - i,
    {
        proof {
            assert(args@.take(i + 1).drop_last() =~= args@.take(i as int));
            assert(args@.take(i + 1).last() == args@[i as int]);
        }
        if !args[i].hidden {
            let ghost before = rows@;
            let row = argument_row(cfg, &args[i]);
            rows.push(row);
            assert(rows_view(rows@) =~= rows_view(before).push(crate::doc::row_view(row@)));
            assert(rows_view(rows@) =~= visible_arguments(args@.take(i + 1)).map_values(|a: ArgumentInfo| argument_row_spec(*cfg, a)));
        }
        i = i + 1;
    }
    assert(args@.take(i as int) =~= args@);
    let mut tc = cfg.table_arguments.copy();
    tc.padding = (0, 2);
    tc.collapse_padding = true;
    tc.expand = false;
    assert(crate::table::settings_of(tc) == crate::table::settings_of(arguments_table_config(*cfg)));
    let table = build_table(&tc, None, false, rows);
    let title = panel_title(
        cfg,
        cfg.arguments_panel_title.as_str(),
        cfg.panel_arguments.title_style.as_str(),
        &None,
        cfg.style_options_panel_help_style.as_str(),
        cfg.panel_inline_help_in_title,
    );
    let pc = &cfg.panel_arguments;
    Block::Panel(PanelBlock {
        title,
        body: PanelBody::Table(table),
        box_type: Some(pc.box_type),
        align: pc.align,
        border_style: pc.border_style.clone(),
        style: Some(pc.panel_style.clone()),
        padding: pc.padding,
        expand: Some(pc.expand),
    })
}

// ----- Errors --------------------------------------------------------------

/// The candidate names of a list of hints, in order.
pub open spec fn hint_candidates(hints: Seq<Seq<char>>) -> Seq<Seq<char>>
    decreases hints.len(),
{
    if hints.len() == 0 {
        Seq::empty()
    } else {
        hint_candidates(hints.drop_last()) + param_candidates_spec(hints.last())
    }
}

/// The parameter names the candidates stand for, in order.
pub open spec fn normalized_names(cands: Seq<Seq<char>>) -> Seq<Seq<char>>
    decreases cands.len(),
{
    if cands.len() == 0 {
        Seq::empty()
    } else {
        match normalized_param_spec(cands.last()) {
            Some(n) => normalized_names(cands.drop_last()).push(n),
            None => normalized_names(cands.drop_last()),
        }
    }
}

/// The names of the parameters an error is about, in the order their source
/// is looked up: the hints' names, then the parameter's own name. None when
/// sources are not shown.
pub open spec fn error_param_names_spec(cfg: RichHelpConfig, e: ErrorInfo) -> Seq<Seq<char>> {
    if !cfg.errors_show_param_source {
        Seq::empty()
    } else {
        let own = match e.param_name {
            Some(n) => param_candidates_spec(n@),
            None => Seq::empty(),
        };
        let hints = match e.param_hint {
            Some(hs) => hint_candidates(views(hs@)),
            None => Seq::empty(),
        };
        if e.kind == ErrorKind::BadParameter || e.kind == ErrorKind::MissingParameter {
            normalized_names(hints + own)
        } else if e.kind == ErrorKind::BadOptionUsage {
            normalized_names(own)
        } else {
            Seq::empty()
        }
    }
}

fn append_strings(dst: &mut Vec<String>, src: Vec<String>)
    ensures
        views(final(dst)@) == views(old(dst)@) + views(src@),
{
    let ghost a = dst@;
    let mut src = src;
    let ghost b = src@;
    dst.append(&mut src);
    assert(dst@ =~= a + b);
    assert(views(dst@) =~= views(a) + views(b));
}

/// The names of the parameters an error is about.
pub fn error_param_names(cfg: &RichHelpConfig, e: &ErrorInfo) -> (r: Vec<String>)
    ensures
        views(r@) == error_param_names_spec(*cfg, *e),
{
    let mut cands: Vec<String> = Vec::new();
    if !cfg.errors_show_param_source {
        assert(views(cands@) =~= Seq::<Seq<char>>::empty());
        return cands;
    }
    let hints_apply = e.kind == ErrorKind::BadParameter || e.kind == ErrorKind::MissingParameter;
    if hints_apply {
        match &e.param_hint {
            Some(hs) => {
                let mut i: usize = 0;
                assert(views(cands@) =~= hint_candidates(views(hs@).take(0)));
                while i < hs.len()
                    invariant
                        i <= hs@.len(),
                        views(cands@) == hint_candidates(views(hs@).take(i as int)),
                    decreases hs.len() - i,
                {
                    assert(views(hs@).take(i + 1).drop_last() =~= views(hs@).take(i as int));
                    assert(views(hs@).take(i + 1).last() == hs@[i as int]@);
                    let c = collect_param_candidates(hs[i].as_str());
                    append_strings(&mut cands, c);
                    i = i + 1;
                }
                assert(views(hs@).take(i as int) =~= views(hs@));
            },
            None => {
                assert(views(cands@) =~= Seq::<Seq<char>>::empty());
            },
        }
    } else {
        assert(views(cands@) =~= Seq::<Seq<char>>::empty());
    }
    if hints_apply || e.kind == ErrorKind::BadOptionUsage {
        match &e.param_name {
            Some(n) => {
                let c = collect_param_candidates(n.as_str());
                append_strings(&mut cands, c);
            },
            None => {
                assert(views(cands@) =~= views(cands@) + Seq::<Seq<char>>::empty());
            },
        }
    }
    let ghost all = views(cands@);
    let mut names: Vec<String> = Vec::new();
    let mut i: usize = 0;
    while i < cands.len()
        invariant
            i <= cands@.len(),
            all == views(cands@),
            views(names@) == normalized_names(all.take(i as int)),
        decreases cands.len() - i,
    {
        assert(all.take(i + 1).drop_last() =~= all.take(i as int));
        assert(all.take(i + 1).last() == cands@[i as int]@);
        match normalize_param_name(cands[i].as_str()) {
            Some(n) => {
                let ghost before = names@;
                names.push(n);
                assert(views(names@) =~= views(before).push(n@));
            },
            None => {},
        }
        i = i + 1;
    }
    assert(all.take(i as int) =~= all);
    names
}

/// The source recorded for the parameter `name`: that of the first entry of
/// `known` under that name.
pub open spec fn source_of(known: Seq<(String, String)>, name: Seq<char>) -> Option<Seq<char>>
    decreases known.len(),
{
    if known.len() == 0 {
        None
    } else if known[0].0@ == name {
        Some(known[0].1@)
    } else {
        source_of(known.skip(1), name)
    }
}

/// The source of the first of `names` that has one recorded in `known`.
pub open spec fn first_source(names: Seq<Seq<char>>, known: Seq<(String, String)>) -> Option<Seq<char>>
    decreases names.len(),
{
    if names.len() == 0 {
        None
    } else {
        match source_of(known, names[0]) {
            Some(s) => Some(s),
            None => first_source(names.skip(1), known),
        }
    }
}

/// The source an error report names: that of the first parameter the error
/// is about whose source is recorded. None when sources are not shown.
pub open spec fn param_source_spec(cfg: RichHelpConfig, e: ErrorInfo, known: Seq<(String, String)>) -> Option<Seq<char>> {
    first_source(error_param_names_spec(cfg, e), known)
}

fn lookup_source(known: &Vec<(String, String)>, name: &str) -> (r: Option<String>)
    ensures
        opt_view(r) == source_of(known@, name@),
{
    let mut i: usize = 0;
    assert(known@.skip(0) =~= known@);
    while i < known.len()
        invariant
            i <= known@.len(),
            source_of(known@, name@) == source_of(known@.skip(i as int), name@),
        decreases known.len() - i,
    {
        assert(known@.skip(i as int)[0] == known@[i as int]);
        assert(known@.skip(i as int).skip(1) =~= known@.skip(i + 1));
        if str_eq(known[i].0.as_str(), name) {
            return Some(known[i].1.clone());
        }
        i = i + 1;
    }
    None
}

/// The source of the value of the parameter an error is about. `known`
/// holds the parameter sources recorded for the command being run, by
/// parameter name; the error's parameter names are looked up in order and
/// the first recorded source is returned.
pub fn param_source(cfg: &RichHelpConfig, e: &ErrorInfo, known: &Vec<(String, String)>) -> (r: Option<String>)
    ensures
        opt_view(r) == param_source_spec(*cfg, *e, known@),
{
    let names = error_param_names(cfg, e);
    let mut i: usize = 0;
    assert(views(names@).skip(0) =~= views(names@));
    while i < names.len()
        invariant
            i <= names@.len(),
            param_source_spec(*cfg, *e, known@) == first_source(views(names@).skip(i as int), known@),
        decreases names.len() - i,
    {
        assert(views(names@).skip(i as int)[0] == names@[i as int]@);
        assert(views(names@).skip(i as int).skip(1) =~= views(names@).skip(i + 1));
        let found = lookup_source(known, names[i].as_str());
        if found.is_some() {
            return found;
        }
        i = i + 1;
    }
    None
}

/// The message of an error report: the error's message (the abort text for
/// an abort), with the parameter's source appended to its first line.
pub open spec fn error_message_spec(cfg: RichHelpConfig, e: ErrorInfo, source: Option<Seq<char>>) -> Seq<char> {
    let base = if e.kind == ErrorKind::Abort {
        cfg.aborted_text@
    } else {
        e.message@
    };
    match source {
        Some(src) => if cfg.errors_show_param_source {
            let fmt = cfg.errors_param_source_format@;
            let suffix = if contains_seq(fmt, "{}"@) {
                fill(fmt, src)
            } else {
                fmt + " "@ + src
            };
            with_suffix_on_first_line(base, suffix)
        } else {
            base
        },
        None => base,
    }
}

/// The error report: the message in a panel titled as configured, then the
/// suggestion and the epilogue when configured.
pub open spec fn error_blocks_spec(cfg: RichHelpConfig, e: ErrorInfo, source: Option<Seq<char>>) -> Seq<BlockView> {
    let panel = BlockView::Panel(
        (
            panel_title_spec(cfg, cfg.errors_panel_title@, cfg.style_errors_panel_border@, None, cfg.style_errors_panel_border@, false),
            BodyView::Text(single_view(cfg.style_padding_errors@, error_message_spec(cfg, e, source))),
            cfg.style_errors_panel_box,
            cfg.align_errors_panel,
            cfg.style_errors_panel_border@,
            None,
            cfg.padding_errors_panel,
            None,
        ),
    );
    let suggestion = match cfg.errors_suggestion {
        Some(s) => seq![
            BlockView::Text(
                single_view(
                    match cfg.style_errors_suggestion {
                        Some(st) => st@,
                        None => cfg.style_option_help@,
                    },
                    s@,
                ),
                "\n"@,
            ),
        ],
        None => Seq::empty(),
    };
    let epilogue = match cfg.errors_epilogue {
        Some(s) => seq![BlockView::Text(single_view(cfg.style_padding_errors@, s@), "\n"@)],
        None => Seq::empty(),
    };
    seq![panel] + suggestion + epilogue
}

/// The error report of `e`; `known` holds the parameter sources recorded
/// for the command being run, by parameter name.
pub fn render_error(cfg: &RichHelpConfig, e: &ErrorInfo, known: &Vec<(String, String)>) -> (r: Vec<Block>)
    ensures
        block_views(r@) == error_blocks_spec(*cfg, *e, param_source_spec(*cfg, *e, known@)),
{
    let source = param_source(cfg, e, known);
    render_error_with(cfg, e, &source)
}

/// The error report of `e`, `source` being where the parameter's value
/// came from, when known.
pub fn render_error_with(cfg: &RichHelpConfig, e: &ErrorInfo, source: &Option<String>) -> (r: Vec<Block>)
    ensures
        block_views(r@) == error_blocks_spec(*cfg, *e, opt_view(*source)),
{
    let mut message = if e.kind == ErrorKind::Abort {
        cfg.aborted_text.clone()
    } else {
        e.message.clone()
    };
    if cfg.errors_show_param_source {
        match source {
            Some(src) => {
                let fmt = cfg.errors_param_source_format.as_str();
                let suffix = if contains(fmt, "{}") {
                    fill_template(fmt, src.as_str())
                } else {
                    proof {
                        reveal_strlit(" ");
                    }
                    concat3(fmt, " ", src.as_str())
                };
                message = append_suffix_to_first_line(message.as_str(), suffix.as_str());
            },
            None => {},
        }
    }
    let title = panel_title(
        cfg,
        cfg.errors_panel_title.as_str(),
        cfg.style_errors_panel_border.as_str(),
        &None,
        cfg.style_errors_panel_border.as_str(),
        false,
    );
    let body = styled(message.as_str(), cfg.style_padding_errors.as_str());
    let mut out: Vec<Block> = Vec::new();
    out.push(Block::Panel(PanelBlock {
        title,
        body: PanelBody::Text(body),
        box_type: cfg.style_errors_panel_box,
        align: cfg.align_errors_panel,
        border_style: cfg.style_errors_panel_border.clone(),
        style: None,
        padding: cfg.padding_errors_panel,
        expand: None,
    }));
    proof {
        reveal_strlit("\n");
    }
    match &cfg.errors_suggestion {
        Some(s) => {
            let style = match &cfg.style_errors_suggestion {
                Some(st) => st.clone(),
                None => cfg.style_option_help.clone(),
            };
            out.push(Block::Text(styled(s.as_str(), style.as_str()), copy_str("\n")));
        },
        None => {},
    }
    match &cfg.errors_epilogue {
        Some(s) => {
            out.push(Block::Text(styled(s.as_str(), cfg.style_padding_errors.as_str()), copy_str("\n")));
        },
        None => {},
    }
    assert(block_views(out@) =~= error_blocks_spec(*cfg, *e, opt_view(*source)));
    out
}


// ----- Plain text of styled help -------------------------------------------

/// The plain text console markup gives: the text without its markup tags
/// (with emoji codes replaced when `emojis` is set), or the source itself
/// when it does not parse as markup.
pub uninterp spec fn markup_plain(s: Seq<char>, emojis: bool) -> Seq<char>;

/// The plain text of a text with ANSI escape codes.
pub uninterp spec fn ansi_plain(s: Seq<char>) -> Seq<char>;

/// The last square bracket of `t` is an opening one, so that a character
/// following `t` may stand inside a markup tag.
pub open spec fn open_after(t: Seq<char>) -> bool
    decreases t.len(),
{
    if t.len() == 0 {
        false
    } else if t.last() == '[' {
        true
    } else if t.last() == ']' {
        false
    } else {
        open_after(t.drop_last())
    }
}

/// Position `p` of `s` may begin a word of a tag's style: it follows an
/// opening bracket, white space, or an equals sign (which parts a tag's
/// name from its parameters).
pub open spec fn word_start(s: Seq<char>, p: int) -> bool {
    0 < p < s.len() && (s[p - 1] == '[' || s[p - 1] == '=' || is_ws(s[p - 1]))
}

/// The characters of `s` after position `p`, up to position `j`, continue
/// the word that `p` begins: none is white space or a square bracket.
pub open spec fn same_word(s: Seq<char>, p: int, j: int) -> bool {
    forall|k: int| p < k <= j ==> !is_ws(#[trigger] s[k]) && s[k] != '[' && s[k] != ']'
}

/// A word of a markup tag that begins with `#` at position `p` holds the
/// non-ASCII character at position `j`.
pub open spec fn hex_word_non_ascii(s: Seq<char>, p: int, j: int) -> bool {
    &&& 0 < p < j < s.len()
    &&& open_after(s.take(p))
    &&& s[p] == '#'
    &&& word_start(s, p)
    &&& same_word(s, p, j)
    &&& (s[j] as u32) >= 0x80
}

/// No word of a markup tag that begins with `#` holds a non-ASCII
/// character.
///
/// rich-rs reads each word of a style tag, background colours included, as
/// a colour; a word that begins with `#` is a hex colour, whose digits it
/// slices by bytes when they take 3 or 6 bytes once lower-cased. A non-ASCII
/// character there can put a cut inside it, which panics, as in `[#éa]`.
/// Lower-casing can change a character's byte length (`#Ⱥ` takes 2 bytes
/// after the `#` and 3 once lower-cased), so the length is not a test on
/// the text as written and is left out here. Every other text is accepted,
/// `[défaut: 3]` among them.
pub open spec fn markup_safe(s: Seq<char>) -> bool {
    forall|p: int, j: int| !#[trigger] hex_word_non_ascii(s, p, j)
}

/// Every escape character is followed, if by anything, by an ASCII one.
///
/// rich-rs skips an unknown escape sequence as two bytes, which cuts a
/// following non-ASCII character and panics.
pub open spec fn ansi_safe(s: Seq<char>) -> bool {
    forall|j: int| 0 <= j < s.len() - 1 && #[trigger] s[j] == '\u{1b}' ==> (s[j + 1] as u32) < 0x80
}

/// Whether `s` meets [`markup_safe`].
pub fn markup_safe_check(s: &str) -> (r: bool)
    ensures
        r == markup_safe(s@),
{
    let chars = chars_of(s);
    let mut open = false;
    let mut word: Option<usize> = None;
    let mut i: usize = 0;
    while i < chars.len()
        invariant
            i <= chars@.len(),
            chars@ == s@,
            open == open_after(s@.take(i as int)),
            forall|p: int, j: int| j < i ==> !#[trigger] hex_word_non_ascii(s@, p, j),
            match word {
                Some(p) => p < i && 0 < p && open_after(s@.take(p as int)) && s@[p as int] == '#'
                    && word_start(s@, p as int) && same_word(s@, p as int, i - 1),
                None => forall|p: int| 0 < p < i && open_after(#[trigger] s@.take(p)) && s@[p] == '#'
                    && word_start(s@, p) ==> !same_word(s@, p, i - 1),
            },
        decreases chars.len() - i,
    {
        let c = chars[i];
        let sep = is_ws_exec(c) || c == '[' || c == ']';
        if (c as u32) >= 0x80 && !sep {
            if let Some(p) = word {
                assert(hex_word_non_ascii(s@, p as int, i as int));
                return false;
            }
        }
        proof {
            assert forall|p: int, j: int| j < i + 1 implies !#[trigger] hex_word_non_ascii(s@, p, j) by {
                if j == i && hex_word_non_ascii(s@, p, j) {
                    assert(same_word(s@, p, i - 1));
                }
            }
        }
        let ghost was_open = open;
        let ghost old_word = word;
        let starts = c == '#' && i > 0 && open && (chars[i - 1] == '[' || chars[i - 1] == '=' || is_ws_exec(chars[i - 1]));
        if sep {
            word = None;
        } else if starts && word.is_none() {
            word = Some(i);
        }
        proof {
            match word {
                Some(p) => {
                    assert(same_word(s@, p as int, i as int));
                },
                None => {
                    assert forall|p: int| 0 < p < i + 1 && open_after(#[trigger] s@.take(p)) && s@[p] == '#'
                        && word_start(s@, p) implies !same_word(s@, p, i as int) by {
                        if p < i && !sep {
                            assert(!same_word(s@, p, i - 1));
                        }
                    }
                },
            }
        }
        assert(s@.take(i + 1).drop_last() =~= s@.take(i as int));
        assert(s@.take(i + 1).last() == c);
        if c == '[' {
            open = true;
        } else if c == ']' {
            open = false;
        }
        i = i + 1;
    }
    true
}

/// Whether `s` meets [`ansi_safe`].
pub fn ansi_safe_check(s: &str) -> (r: bool)
    ensures
        r == ansi_safe(s@),
{
    let chars = chars_of(s);
    let mut i: usize = 0;
    while i < chars.len()
        invariant
            i <= chars@.len(),
            chars@ == s@,
            forall|j: int| 0 <= j < i && j < s@.len() - 1 && #[trigger] s@[j] == '\u{1b}' ==> (s@[j + 1] as u32) < 0x80,
        decreases chars.len() - i,
    {
        if chars[i] == '\u{1b}' && i + 1 < chars.len() && (chars[i + 1] as u32) >= 0x80 {
            return false;
        }
        i = i + 1;
    }
    true
}

/// `rich_rs::Text::from_markup(s, emojis)` and its `plain_text()`, the source
/// itself when the markup is refused. Trusted: the contract names the result;
/// `requires` leaves out the tags on which rich-rs panics.
#[verifier::external_body]
fn markup_plain_text(s: &str, emojis: bool) -> (r: String)
    requires
        markup_safe(s@),
    ensures
        r@ == markup_plain(s@, emojis),
{
    match rich_rs::Text::from_markup(s, emojis) {
        Ok(t) => t.plain_text().to_string(),
        Err(_) => s.to_string(),
    }
}

/// `rich_rs::Text::from_ansi(s)` and its `plain_text()`. Trusted: the
/// contract names the result; `requires` leaves out the escapes on which
/// rich-rs panics.
#[verifier::external_body]
fn ansi_plain_text(s: &str) -> (r: String)
    requires
        ansi_safe(s@),
    ensures
        r@ == ansi_plain(s@),
{
    rich_rs::Text::from_ansi(s).plain_text().to_string()
}

/// The plain text of a segment.
pub open spec fn segment_plain(seg: SegmentView) -> Seq<char> {
    match seg.0 {
        SegmentKind::Plain => seg.1,
        SegmentKind::Markup(e) => markup_plain(seg.1, e),
        SegmentKind::Ansi => ansi_plain(seg.1),
    }
}

/// The plain text of a styled text.
pub open spec fn styled_plain(segs: Seq<SegmentView>) -> Seq<char>
    decreases segs.len(),
{
    if segs.len() == 0 {
        Seq::empty()
    } else {
        styled_plain(segs.drop_last()) + segment_plain(segs.last())
    }
}

/// The text of a segment can be read for its plain text.
pub open spec fn segment_readable(seg: SegmentView) -> bool {
    match seg.0 {
        SegmentKind::Plain => true,
        SegmentKind::Markup(_) => markup_safe(seg.1),
        SegmentKind::Ansi => ansi_safe(seg.1),
    }
}

/// Every segment can be read for its plain text.
pub open spec fn segments_readable(segs: Seq<SegmentView>) -> bool {
    forall|i: int| 0 <= i < segs.len() ==> segment_readable(#[trigger] segs[i])
}

/// Whether the segments of `t` meet [`segments_readable`].
pub fn readable_check(t: &StyledText) -> (r: bool)
    ensures
        r == segments_readable(styled_view(*t).1),
{
    let mut i: usize = 0;
    while i < t.segments.len()
        invariant
            i <= t.segments@.len(),
            forall|j: int| 0 <= j < i ==> segment_readable(#[trigger] crate::doc::segment_views(t.segments@)[j]),
        decreases t.segments.len() - i,
    {
        let seg = &t.segments[i];
        let ok = match seg.kind {
            SegmentKind::Plain => true,
            SegmentKind::Markup(_) => markup_safe_check(seg.text.as_str()),
            SegmentKind::Ansi => ansi_safe_check(seg.text.as_str()),
        };
        if !ok {
            assert(!segment_readable(crate::doc::segment_views(t.segments@)[i as int]));
            return false;
        }
        i = i + 1;
    }
    true
}

/// The plain text of a styled text.
pub fn plain_text_of(t: &StyledText) -> (r: String)
    requires
        segments_readable(styled_view(*t).1),
    ensures
        r@ == styled_plain(styled_view(*t).1),
{
    let mut out = String::new();
    let mut i: usize = 0;
    while i < t.segments.len()
        invariant
            i <= t.segments@.len(),
            out@ == styled_plain(crate::doc::segment_views(t.segments@).take(i as int)),
            segments_readable(styled_view(*t).1),
        decreases t.segments.len() - i,
    {
        let ghost sv = crate::doc::segment_views(t.segments@);
        assert(segment_readable(sv[i as int]));
        assert(sv.take(i + 1).drop_last() =~= sv.take(i as int));
        assert(sv.take(i + 1).last() == sv[i as int]);
        let seg = &t.segments[i];
        let piece = match seg.kind {
            SegmentKind::Plain => seg.text.clone(),
            SegmentKind::Markup(e) => markup_plain_text(seg.text.as_str(), e),
            SegmentKind::Ansi => ansi_plain_text(seg.text.as_str()),
        };
        out = concat(out.as_str(), piece.as_str());
        i = i + 1;
    }
    assert(crate::doc::segment_views(t.segments@).take(i as int) =~= crate::doc::segment_views(t.segments@));
    out
}

// ----- Slim layout ---------------------------------------------------------

/// The theme is a slim one: `slim`, or a name ending in `-slim`, in any case.
pub open spec fn is_slim_spec(cfg: RichHelpConfig) -> bool {
    match cfg.theme {
        Some(t) => {
            let l = crate::text::lower_spec(trim_spec(t@));
            l == "slim"@ || crate::text::has_suffix(l, "-slim"@)
        },
        None => false,
    }
}

pub fn is_slim_theme(cfg: &RichHelpConfig) -> (r: bool)
    ensures
        r == is_slim_spec(*cfg),
{
    match &cfg.theme {
        Some(t) => {
            let tt = trim(t.as_str());
            let l = crate::text::to_lower(tt.as_str());
            crate::text::str_eq(l.as_str(), "slim") || crate::text::ends_with(l.as_str(), "-slim")
        },
        None => false,
    }
}

/// The names of an option in the slim layout: an `--x/--no-x` pair without
/// short names joined by the slash, else all names, short first, joined by
/// the comma delimiter and a space.
pub open spec fn slim_name_spec(cfg: RichHelpConfig, o: crate::model::OptionInfo) -> Seq<char> {
    let names = views(o.short@) + views(o.long@);
    if o.is_bool_flag && names.len() == 2 && o.short@.len() == 0 {
        names[0] + cfg.delimiter_slash@ + names[1]
    } else {
        crate::text::join_spec(names, cfg.delimiter_comma@ + " "@)
    }
}

fn slim_name(cfg: &RichHelpConfig, o: &crate::model::OptionInfo) -> (r: String)
    ensures
        r@ == slim_name_spec(*cfg, *o),
{
    let mut names = crate::json::copy_strings(&o.short);
    let longs = crate::json::copy_strings(&o.long);
    let ghost a = names@;
    let mut longs = longs;
    let ghost b = longs@;
    names.append(&mut longs);
    assert(names@ =~= a + b);
    assert(views(names@) =~= views(o.short@) + views(o.long@));
    if o.is_bool_flag && names.len() == 2 && o.short.len() == 0 {
        concat3(names[0].as_str(), cfg.delimiter_slash.as_str(), names[1].as_str())
    } else {
        proof {
            reveal_strlit(" ");
        }
        let sep = concat(cfg.delimiter_comma.as_str(), " ");
        join(names.as_slice(), sep.as_str())
    }
}

/// A row of the slim layout: the option's names with its placeholder in
/// angle brackets, and its help as plain text.
pub open spec fn slim_option_row(cfg: RichHelpConfig, o: crate::model::OptionInfo) -> (Seq<char>, Seq<char>) {
    let left = match crate::option_help::metavar_of(o) {
        Some(mv) => slim_name_spec(cfg, o) + " <"@ + mv + ">"@,
        None => slim_name_spec(cfg, o),
    };
    (left, styled_plain(crate::option_help::option_help_text_spec(cfg, o).1))
}

/// The longest left column, in chars.
pub open spec fn max_left(rows: Seq<(Seq<char>, Seq<char>)>) -> nat
    decreases rows.len(),
{
    if rows.len() == 0 {
        0
    } else {
        let m = max_left(rows.drop_last());
        if rows.last().0.len() > m {
            rows.last().0.len()
        } else {
            m
        }
    }
}

/// A line of a slim list: the left column indented by two spaces, padded to
/// the longest one, two spaces, the right column.
pub open spec fn slim_line(rows: Seq<(Seq<char>, Seq<char>)>, row: (Seq<char>, Seq<char>)) -> Seq<char> {
    if row.1.len() == 0 {
        "  "@ + row.0
    } else {
        "  "@ + row.0 + repeat_spec_chars(' ', max_left(rows) - row.0.len()) + "  "@ + row.1
    }
}

pub open spec fn repeat_spec_chars(c: char, n: int) -> Seq<char> {
    if n > 0 {
        crate::text::repeat_spec(c, n as nat)
    } else {
        Seq::empty()
    }
}

/// A slim list: its title, then a line per row, all padded to the width.
pub open spec fn slim_list(cfg: RichHelpConfig, title: Seq<char>, rows: Seq<(Seq<char>, Seq<char>)>) -> Seq<BlockView> {
    let w = crate::panels::line_width_spec(cfg);
    seq![BlockView::Line(crate::panels::pad_line_spec(title, w))] + rows.map_values(
        |r: (Seq<char>, Seq<char>)| BlockView::Line(crate::panels::pad_line_spec(slim_line(rows, r), w)),
    )
}

pub open spec fn pair_views(v: Seq<(String, String)>) -> Seq<(Seq<char>, Seq<char>)> {
    v.map_values(|p: (String, String)| (p.0@, p.1@))
}

fn slim_list_blocks(cfg: &RichHelpConfig, title: &str, rows: &Vec<(String, String)>) -> (r: Vec<Block>)
    ensures
        block_views(r@) == slim_list(*cfg, title@, pair_views(rows@)),
{
    let ghost pv = pair_views(rows@);
    let width = crate::panels::line_width(cfg);
    let mut widest: usize = 0;
    let mut k: usize = 0;
    while k < rows.len()
        invariant
            k <= rows@.len(),
            pv == pair_views(rows@),
            widest == max_left(pv.take(k as int)),
        decreases rows.len() - k,
    {
        assert(pv.take(k + 1).drop_last() =~= pv.take(k as int));
        assert(pv.take(k + 1).last() == pv[k as int]);
        let n = crate::text::char_count(rows[k].0.as_str());
        if n > widest {
            widest = n;
        }
        k = k + 1;
    }
    assert(pv.take(k as int) =~= pv);
    let mut out: Vec<Block> = Vec::new();
    out.push(Block::Line(crate::panels::pad_line(title, width)));
    let mut i: usize = 0;
    proof {
        reveal_strlit("  ");
    }
    while i < rows.len()
        invariant
            i <= rows@.len(),
            pv == pair_views(rows@),
            widest == max_left(pv),
            width == crate::panels::line_width_spec(*cfg),
            block_views(out@) == seq![BlockView::Line(crate::panels::pad_line_spec(title@, width))] + pv.take(i as int).map_values(
                |r: (Seq<char>, Seq<char>)| BlockView::Line(crate::panels::pad_line_spec(slim_line(pv, r), width)),
            ),
        decreases rows.len() - i,
    {
        let left = &rows[i].0;
        let right = &rows[i].1;
        let line = if right.as_str().is_empty() {
            concat("  ", left.as_str())
        } else {
            let n = crate::text::char_count(left.as_str());
            let pad = if widest > n {
                widest - n
            } else {
                0
            };
            let spaces = crate::text::repeat_char(' ', pad);
            let a = concat3("  ", left.as_str(), spaces.as_str());
            concat3(a.as_str(), "  ", right.as_str())
        };
        proof {
            assert(pv[i as int] == (left@, right@));
            if !(right@.len() == 0) {
                if widest <= left@.len() {
                    assert(repeat_spec_chars(' ', max_left(pv) - left@.len()) =~= crate::text::repeat_spec(' ', 0));
                }
            }
        }
        assert(line@ == slim_line(pv, pv[i as int]));
        let ghost before = block_views(out@);
        out.push(Block::Line(crate::panels::pad_line(line.as_str(), width)));
        assert(pv.take(i + 1) =~= pv.take(i as int).push(pv[i as int]));
        assert(block_views(out@) =~= before.push(BlockView::Line(crate::panels::pad_line_spec(slim_line(pv, pv[i as int]), width))));
        i = i + 1;
    }
    assert(pv.take(i as int) =~= pv);
    out
}

/// The slim layout: the non-empty lists of arguments, options and
/// commands, a blank line between two and after the last.
pub open spec fn slim_sections_spec(
    cfg: RichHelpConfig,
    args: Seq<(Seq<char>, Seq<char>)>,
    opts: Seq<(Seq<char>, Seq<char>)>,
    cmds: Seq<(Seq<char>, Seq<char>)>,
) -> Seq<BlockView> {
    let a = if args.len() > 0 {
        seq![slim_list(cfg, "Arguments:"@, args)]
    } else {
        Seq::empty()
    };
    let o = if opts.len() > 0 {
        a.push(slim_list(cfg, "Options:"@, opts))
    } else {
        a
    };
    let c = if cmds.len() > 0 {
        o.push(slim_list(cfg, "Commands:"@, cmds))
    } else {
        o
    };
    crate::panels::rules_joined(cfg, c) + if c.len() > 0 {
        seq![crate::panels::blank_line(cfg)]
    } else {
        Seq::empty()
    }
}

fn slim_sections(
    cfg: &RichHelpConfig,
    args: &Vec<(String, String)>,
    opts: &Vec<(String, String)>,
    cmds: &Vec<(String, String)>,
) -> (r: Vec<Block>)
    ensures
        block_views(r@) == slim_sections_spec(*cfg, pair_views(args@), pair_views(opts@), pair_views(cmds@)),
{
    let ghost parts: Seq<Seq<BlockView>> = Seq::empty();
    let mut out: Vec<Block> = Vec::new();
    let mut printed = false;
    proof {
        reveal_strlit("Arguments:");
        reveal_strlit("Options:");
        reveal_strlit("Commands:");
    }
    if args.len() > 0 {
        let l = slim_list_blocks(cfg, "Arguments:", args);
        crate::doc::append_blocks(&mut out, l);
        proof {
            parts = parts.push(slim_list(*cfg, "Arguments:"@, pair_views(args@)));
            assert(block_views(out@) =~= parts[0]);
        }
        printed = true;
    }
    assert(block_views(out@) == crate::panels::rules_joined(*cfg, parts));
    if opts.len() > 0 {
        let ghost before = block_views(out@);
        if printed {
            out.push(crate::panels::blank_block(cfg));
        }
        let l = slim_list_blocks(cfg, "Options:", opts);
        crate::doc::append_blocks(&mut out, l);
        proof {
            let old_parts = parts;
            parts = parts.push(slim_list(*cfg, "Options:"@, pair_views(opts@)));
            assert(parts.drop_last() =~= old_parts);
            if old_parts.len() == 0 {
                assert(block_views(out@) =~= parts[0]);
            } else {
                assert(block_views(out@) =~= before + seq![crate::panels::blank_line(*cfg)] + parts.last());
            }
        }
        printed = true;
    }
    assert(block_views(out@) == crate::panels::rules_joined(*cfg, parts));
    if cmds.len() > 0 {
        let ghost before = block_views(out@);
        if printed {
            out.push(crate::panels::blank_block(cfg));
        }
        let l = slim_list_blocks(cfg, "Commands:", cmds);
        crate::doc::append_blocks(&mut out, l);
        proof {
            let old_parts = parts;
            parts = parts.push(slim_list(*cfg, "Commands:"@, pair_views(cmds@)));
            assert(parts.drop_last() =~= old_parts);
            if old_parts.len() == 0 {
                assert(block_views(out@) =~= parts[0]);
            } else {
                assert(block_views(out@) =~= before + seq![crate::panels::blank_line(*cfg)] + parts.last());
            }
        }
        printed = true;
    }
    let ghost joined = block_views(out@);
    if printed {
        out.push(crate::panels::blank_block(cfg));
        assert(block_views(out@) =~= joined + seq![crate::panels::blank_line(*cfg)]);
    } else {
        assert(block_views(out@) =~= joined + Seq::<BlockView>::empty());
    }
    out
}



// ----- Console -------------------------------------------------------------

/// The settings of the console a page is drawn on.
#[derive(Debug, Clone, Copy, PartialEq, Eq, Structural)]
pub struct ConsoleSettings {
    pub width: usize,
    pub max_width: usize,
    pub color_system: Option<crate::config::ColorSystem>,
    pub is_terminal: bool,
}

/// The console settings for a page: the terminal's, with the configured
/// width, maximum width, colour system and terminal forcing; a console
/// forced off the terminal has no colours.
pub open spec fn console_settings_spec(cfg: RichHelpConfig, t: ConsoleSettings) -> ConsoleSettings {
    let width = match cfg.width {
        Some(w) => w,
        None => t.width,
    };
    let max0 = match cfg.width {
        Some(w) => w,
        None => t.max_width,
    };
    let max_width = match cfg.max_width {
        Some(m) => m,
        None => max0,
    };
    let cs = cfg.color_system.spec_to_color_system(t.color_system);
    match cfg.force_terminal {
        Some(f) => ConsoleSettings { width, max_width, color_system: if f { cs } else { None }, is_terminal: f },
        None => ConsoleSettings { width, max_width, color_system: cs, is_terminal: t.is_terminal },
    }
}

/// The console settings for a page, from the terminal's.
pub fn console_settings(cfg: &RichHelpConfig, terminal: ConsoleSettings) -> (r: ConsoleSettings)
    ensures
        r == console_settings_spec(*cfg, terminal),
{
    let mut r = terminal;
    if let Some(width) = cfg.width {
        r.width = width;
        r.max_width = width;
    }
    if let Some(max_width) = cfg.max_width {
        r.max_width = max_width;
    }
    r.color_system = cfg.color_system.to_color_system(r.color_system);
    if let Some(force) = cfg.force_terminal {
        r.is_terminal = force;
        if !force {
            r.color_system = None;
        }
    }
    r
}

// ----- Pages ---------------------------------------------------------------

/// The positions of the options a help page lists: those not hidden.
pub open spec fn shown_options(opts: Seq<crate::model::OptionInfo>) -> Seq<usize>
    decreases opts.len(),
{
    if opts.len() == 0 {
        Seq::empty()
    } else if opts.last().hidden {
        shown_options(opts.drop_last())
    } else {
        shown_options(opts.drop_last()).push((opts.len() - 1) as usize)
    }
}

proof fn lemma_shown_valid(opts: Seq<crate::model::OptionInfo>)
    ensures
        crate::option_table::valid_selection(opts.len(), shown_options(opts)),
    decreases opts.len(),
{
    if opts.len() > 0 {
        lemma_shown_valid(opts.drop_last());
    }
}

pub fn collect_options(opts: &Vec<crate::model::OptionInfo>) -> (r: Vec<usize>)
    ensures
        r@ == shown_options(opts@),
        crate::option_table::valid_selection(opts@.len(), r@),
{
    let mut out: Vec<usize> = Vec::new();
    let mut i: usize = 0;
    while i < opts.len()
        invariant
            i <= opts@.len(),
            out@ == shown_options(opts@.take(i as int)),
        decreases opts.len() - i,
    {
        assert(opts@.take(i + 1).drop_last() =~= opts@.take(i as int));
        assert(opts@.take(i + 1).last() == opts@[i as int]);
        if !opts[i].hidden {
            out.push(i);
        }
        i = i + 1;
    }
    assert(opts@.take(i as int) =~= opts@);
    proof {
        lemma_shown_valid(opts@);
    }
    out
}

/// Some argument is not hidden.
pub open spec fn has_visible_argument(args: Seq<ArgumentInfo>) -> bool {
    exists|k: int| 0 <= k < args.len() && !(#[trigger] args[k]).hidden
}

fn any_visible_argument(args: &Vec<ArgumentInfo>) -> (r: bool)
    ensures
        r == has_visible_argument(args@),
{
    let mut k: usize = 0;
    while k < args.len()
        invariant
            k <= args@.len(),
            forall|j: int| 0 <= j < k ==> (#[trigger] args@[j]).hidden,
        decreases args.len() - k,
    {
        if !args[k].hidden {
            return true;
        }
        k = k + 1;
    }
    false
}

/// The argument rows of the slim layout: the help entries with a help text,
/// when arguments are shown.
pub open spec fn slim_argument_rows(cfg: RichHelpConfig, args: Seq<ArgumentInfo>) -> Seq<(Seq<char>, Seq<char>)>
    decreases args.len(),
{
    if cfg.show_arguments != Some(true) || args.len() == 0 {
        Seq::empty()
    } else {
        let prev = slim_argument_rows(cfg, args.drop_last());
        match args.last().help_record {
            Some(rec) => if rec.1@.len() > 0 {
                prev.push((rec.0@, rec.1@))
            } else {
                prev
            },
            None => prev,
        }
    }
}

fn slim_arguments(cfg: &RichHelpConfig, args: &Vec<ArgumentInfo>) -> (r: Vec<(String, String)>)
    ensures
        pair_views(r@) == slim_argument_rows(*cfg, args@),
{
    let mut out: Vec<(String, String)> = Vec::new();
    if cfg.show_arguments != Some(true) {
        assert(pair_views(out@) =~= slim_argument_rows(*cfg, args@));
        return out;
    }
    let mut i: usize = 0;
    assert(pair_views(out@) =~= slim_argument_rows(*cfg, args@.take(0)));
    while i < args.len()
        invariant
            i <= args@.len(),
            cfg.show_arguments == Some(true),
            pair_views(out@) == slim_argument_rows(*cfg, args@.take(i as int)),
        decreases args.len() - i,
    {
        assert(args@.take(i + 1).drop_last() =~= args@.take(i as int));
        assert(args@.take(i + 1).last() == args@[i as int]);
        match &args[i].help_record {
            Some(rec) => {
                if !rec.1.as_str().is_empty() {
                    let ghost before = out@;
                    out.push((rec.0.clone(), rec.1.clone()));
                    assert(pair_views(out@) =~= pair_views(before).push((rec.0@, rec.1@)));
                }
            },
            None => {},
        }
        i = i + 1;
    }
    assert(args@.take(i as int) =~= args@);
    out
}

/// The help text of an option can be read for its plain text.
pub open spec fn help_readable(cfg: RichHelpConfig, o: crate::model::OptionInfo) -> bool {
    segments_readable(crate::option_help::option_help_text_spec(cfg, o).1)
}

/// The help texts of the options that a help page shows can be read for
/// their plain text, where the slim layout needs it.
pub open spec fn options_readable(cfg: RichHelpConfig, opts: Seq<crate::model::OptionInfo>) -> bool {
    is_slim_spec(cfg) ==> forall|i: int| 0 <= i < opts.len() && !(#[trigger] opts[i]).hidden ==> help_readable(cfg, opts[i])
}

/// Whether the options meet [`options_readable`].
pub fn options_readable_check(cfg: &RichHelpConfig, opts: &Vec<crate::model::OptionInfo>) -> (r: bool)
    ensures
        r == options_readable(*cfg, opts@),
{
    if !is_slim_theme(cfg) {
        return true;
    }
    let mut i: usize = 0;
    while i < opts.len()
        invariant
            i <= opts@.len(),
            is_slim_spec(*cfg),
            forall|j: int| 0 <= j < i && !(#[trigger] opts@[j]).hidden ==> help_readable(*cfg, opts@[j]),
        decreases opts.len() - i,
    {
        if !opts[i].hidden {
            let help = crate::option_help::option_help_text(cfg, &opts[i]);
            if !readable_check(&help) {
                return false;
            }
        }
        i = i + 1;
    }
    true
}

/// The options that `shown_options` selects are not hidden.
proof fn lemma_shown_not_hidden(opts: Seq<crate::model::OptionInfo>)
    requires
        opts.len() <= usize::MAX,
    ensures
        forall|k: int| 0 <= k < shown_options(opts).len() ==> !opts[#[trigger] shown_options(opts)[k] as int].hidden,
    decreases opts.len(),
{
    if opts.len() > 0 {
        let prev = opts.drop_last();
        lemma_shown_not_hidden(prev);
        lemma_shown_valid(prev);
        assert forall|k: int| 0 <= k < shown_options(opts).len() implies !opts[#[trigger] shown_options(opts)[k] as int].hidden by {
            if opts.last().hidden {
                assert(shown_options(opts) == shown_options(prev));
            } else {
                assert(shown_options(opts) == shown_options(prev).push((opts.len() - 1) as usize));
            }
            if k < shown_options(prev).len() {
                assert(shown_options(opts)[k] == shown_options(prev)[k]);
                assert(shown_options(prev)[k] < prev.len());
                assert(opts[shown_options(prev)[k] as int] == prev[shown_options(prev)[k] as int]);
                assert(!prev[shown_options(prev)[k] as int].hidden);
            } else {
                assert(shown_options(opts)[k] == (opts.len() - 1) as usize);
                assert(opts[opts.len() - 1] == opts.last());
            }
        }
    }
}

fn slim_options(cfg: &RichHelpConfig, opts: &Vec<crate::model::OptionInfo>, shown: &Vec<usize>) -> (r: Vec<(String, String)>)
    requires
        crate::option_table::valid_selection(opts@.len(), shown@),
        forall|k: int| 0 <= k < shown@.len() ==> help_readable(*cfg, #[trigger] opts@[shown@[k] as int]),
    ensures
        pair_views(r@) == crate::option_table::picked(opts@, shown@).map_values(|o: crate::model::OptionInfo| slim_option_row(*cfg, o)),
{
    let ghost ps = crate::option_table::picked(opts@, shown@);
    let mut out: Vec<(String, String)> = Vec::new();
    let mut k: usize = 0;
    while k < shown.len()
        invariant
            k <= shown@.len(),
            crate::option_table::valid_selection(opts@.len(), shown@),
            forall|k: int| 0 <= k < shown@.len() ==> help_readable(*cfg, #[trigger] opts@[shown@[k] as int]),
            ps == crate::option_table::picked(opts@, shown@),
            pair_views(out@) == ps.take(k as int).map_values(|o: crate::model::OptionInfo| slim_option_row(*cfg, o)),
        decreases shown.len() - k,
    {
        let o = &opts[shown[k]];
        assert(ps[k as int] == *o);
        let name = slim_name(cfg, o);
        let left = match crate::option_help::option_metavar(o) {
            Some(mv) => {
                proof {
                    reveal_strlit(" <");
                    reveal_strlit(">");
                }
                let a = concat3(name.as_str(), " <", mv.as_str());
                concat(a.as_str(), ">")
            },
            None => name,
        };
        let help = crate::option_help::option_help_text(cfg, o);
        let right = plain_text_of(&help);
        let ghost before = out@;
        out.push((left, right));
        assert(ps.take(k + 1) =~= ps.take(k as int).push(ps[k as int]));
        assert(pair_views(out@) =~= pair_views(before).push((left@, right@)));
        k = k + 1;
    }
    assert(ps.take(k as int) =~= ps);
    out
}

fn slim_shown_options(cfg: &RichHelpConfig, opts: &Vec<crate::model::OptionInfo>, shown: &Vec<usize>) -> (r: Vec<(String, String)>)
    requires
        shown@ == shown_options(opts@),
        crate::option_table::valid_selection(opts@.len(), shown@),
        is_slim_spec(*cfg),
        options_readable(*cfg, opts@),
    ensures
        pair_views(r@) == crate::option_table::picked(opts@, shown@).map_values(|o: crate::model::OptionInfo| slim_option_row(*cfg, o)),
{
    let _len: usize = opts.len();
    proof {
        lemma_shown_not_hidden(opts@);
        assert forall|k: int| 0 <= k < shown@.len() implies help_readable(*cfg, #[trigger] opts@[shown@[k] as int]) by {
            assert(!opts@[shown_options(opts@)[k] as int].hidden);
        }
    }
    slim_options(cfg, opts, shown)
}

/// The rows of the commands in the slim layout: name and help line.
pub open spec fn slim_command_rows(es: Seq<crate::commands::CommandEntry>) -> Seq<(Seq<char>, Seq<char>)> {
    es.map_values(|e: crate::commands::CommandEntry| (e.name@, e.help@))
}

fn slim_commands(es: &Vec<crate::commands::CommandEntry>) -> (r: Vec<(String, String)>)
    ensures
        pair_views(r@) == slim_command_rows(es@),
{
    let mut out: Vec<(String, String)> = Vec::new();
    let mut k: usize = 0;
    while k < es.len()
        invariant
            k <= es@.len(),
            pair_views(out@) == slim_command_rows(es@.take(k as int)),
        decreases es.len() - k,
    {
        let ghost before = out@;
        out.push((es[k].name.clone(), es[k].help.clone()));
        assert(es@.take(k + 1) =~= es@.take(k as int).push(es@[k as int]));
        assert(pair_views(out@) =~= pair_views(before).push((es@[k as int].name@, es@[k as int].help@)));
        assert(pair_views(out@) =~= slim_command_rows(es@.take(k + 1)));
        k = k + 1;
    }
    assert(es@.take(k as int) =~= es@);
    out
}

/// The head of a help page: the usage line and the help text.
pub open spec fn page_head(cfg: RichHelpConfig, cmd: crate::model::CommandInfo) -> Seq<BlockView> {
    seq![usage_block_spec(cfg, cmd.usage@)] + help_blocks_spec(cfg, opt_view(cmd.help), opt_view(cmd.deprecated))
}

fn page_head_blocks(cfg: &RichHelpConfig, cmd: &crate::model::CommandInfo) -> (r: Vec<Block>)
    ensures
        block_views(r@) == page_head(*cfg, *cmd),
{
    let mut out: Vec<Block> = Vec::new();
    out.push(usage_block(cfg, cmd.usage.as_str()));
    let h = help_blocks(cfg, &cmd.help, &cmd.deprecated);
    let ghost before = block_views(out@);
    crate::doc::append_blocks(&mut out, h);
    assert(before =~= seq![usage_block_spec(*cfg, cmd.usage@)]);
    out
}

/// The help page of a command: usage, help text, then either the slim lists
/// or the arguments panel (when arguments are shown) and the options panels,
/// and the epilog.
pub open spec fn command_page_spec(cfg: RichHelpConfig, cmd: crate::model::CommandInfo) -> Seq<BlockView> {
    let shown = shown_options(cmd.options@);
    let epilog = epilog_blocks_spec(cfg, opt_view(cmd.epilog));
    if is_slim_spec(cfg) {
        page_head(cfg, cmd) + slim_sections_spec(
            cfg,
            slim_argument_rows(cfg, cmd.arguments@),
            crate::option_table::picked(cmd.options@, shown).map_values(|o: crate::model::OptionInfo| slim_option_row(cfg, o)),
            Seq::empty(),
        ) + epilog
    } else {
        let args = if cfg.show_arguments == Some(true) && has_visible_argument(cmd.arguments@) {
            seq![argument_panel_spec(cfg, cmd.arguments@)]
        } else {
            Seq::empty()
        };
        let opts = if shown.len() > 0 {
            crate::panels::option_panels_spec(cfg, cmd.options@, shown)
        } else {
            Seq::empty()
        };
        page_head(cfg, cmd) + args + opts + epilog
    }
}

/// The help page of a command.
pub fn command_page(cfg: &RichHelpConfig, cmd: &crate::model::CommandInfo) -> (r: Vec<Block>)
    requires
        options_readable(*cfg, cmd.options@),
    ensures
        block_views(r@) == command_page_spec(*cfg, *cmd),
{
    let mut out = page_head_blocks(cfg, cmd);
    let shown = collect_options(&cmd.options);
    let ghost head = block_views(out@);
    if is_slim_theme(cfg) {
        let a = slim_arguments(cfg, &cmd.arguments);
        let o = slim_shown_options(cfg, &cmd.options, &shown);
        let c: Vec<(String, String)> = Vec::new();
        assert(pair_views(c@) =~= Seq::<(Seq<char>, Seq<char>)>::empty());
        let s = slim_sections(cfg, &a, &o, &c);
        crate::doc::append_blocks(&mut out, s);
        let e = epilog_blocks(cfg, &cmd.epilog);
        crate::doc::append_blocks(&mut out, e);
        return out;
    }
    if cfg.show_arguments == Some(true) && any_visible_argument(&cmd.arguments) {
        let ghost before = block_views(out@);
        out.push(argument_panel(cfg, &cmd.arguments));
        assert(block_views(out@) =~= before + seq![argument_panel_spec(*cfg, cmd.arguments@)]);
    } else {
        assert(block_views(out@) =~= block_views(out@) + Seq::<BlockView>::empty());
    }
    let ghost with_args = block_views(out@);
    if shown.len() > 0 {
        let p = crate::panels::option_panels(cfg, &cmd.options, shown);
        crate::doc::append_blocks(&mut out, p);
    } else {
        assert(block_views(out@) =~= with_args + Seq::<BlockView>::empty());
    }
    let e = epilog_blocks(cfg, &cmd.epilog);
    crate::doc::append_blocks(&mut out, e);
    out
}

/// The help page of a group whose subcommands have the entries `es`: as a
/// command's, with the commands panels before or after the arguments and
/// options panels, and a blank line between the options and the commands
/// drawn after them when either is drawn as rules.
pub open spec fn group_page_spec(cfg: RichHelpConfig, g: crate::model::GroupInfo, es: Seq<crate::commands::CommandEntry>) -> Seq<BlockView> {
    let cmd = g.command;
    let shown = shown_options(cmd.options@);
    let epilog = epilog_blocks_spec(cfg, opt_view(cmd.epilog));
    if is_slim_spec(cfg) {
        page_head(cfg, cmd) + slim_sections_spec(
            cfg,
            slim_argument_rows(cfg, cmd.arguments@),
            crate::option_table::picked(cmd.options@, shown).map_values(|o: crate::model::OptionInfo| slim_option_row(cfg, o)),
            slim_command_rows(es),
        ) + epilog
    } else {
        let rule_options = crate::panels::use_rule_spec(cfg, cfg.panel_options, cfg.table_options);
        let rule_commands = crate::panels::use_rule_spec(cfg, cfg.panel_commands, cfg.table_commands);
        let commands = if es.len() > 0 {
            crate::panels::command_panels_spec(cfg, es)
        } else {
            Seq::empty()
        };
        let before = if cfg.commands_before_options {
            commands
        } else {
            Seq::empty()
        };
        let args = if cfg.show_arguments == Some(true) && has_visible_argument(cmd.arguments@) {
            seq![argument_panel_spec(cfg, cmd.arguments@)]
        } else {
            Seq::empty()
        };
        let opts = if shown.len() > 0 {
            crate::panels::option_panels_spec(cfg, cmd.options@, shown) + if !cfg.commands_before_options && es.len() > 0 && (
            rule_options || rule_commands) {
                seq![crate::panels::blank_line(cfg)]
            } else {
                Seq::empty()
            }
        } else {
            Seq::empty()
        };
        let after = if cfg.commands_before_options {
            Seq::empty()
        } else {
            commands
        };
        page_head(cfg, cmd) + before + args + opts + after + epilog
    }
}

/// The help page of a group, for the entries `es` of its subcommands.
pub fn group_page_with(cfg: &RichHelpConfig, g: &crate::model::GroupInfo, es: &Vec<crate::commands::CommandEntry>) -> (r: Vec<Block>)
    requires
        options_readable(*cfg, g.command.options@),
    ensures
        block_views(r@) == group_page_spec(*cfg, *g, es@),
{
    let cmd = &g.command;
    let mut out = page_head_blocks(cfg, cmd);
    let shown = collect_options(&cmd.options);
    if is_slim_theme(cfg) {
        let a = slim_arguments(cfg, &cmd.arguments);
        let o = slim_shown_options(cfg, &cmd.options, &shown);
        let c = slim_commands(es);
        let s = slim_sections(cfg, &a, &o, &c);
        crate::doc::append_blocks(&mut out, s);
        let e = epilog_blocks(cfg, &cmd.epilog);
        crate::doc::append_blocks(&mut out, e);
        return out;
    }
    let rule_options = crate::panels::use_rule_panels(cfg, &cfg.panel_options, &cfg.table_options);
    let rule_commands = crate::panels::use_rule_panels(cfg, &cfg.panel_commands, &cfg.table_commands);
    let ghost s0 = block_views(out@);
    if cfg.commands_before_options && es.len() > 0 {
        let p = crate::panels::command_panels(cfg, es);
        crate::doc::append_blocks(&mut out, p);
    } else {
        assert(block_views(out@) =~= s0 + Seq::<BlockView>::empty());
    }
    let ghost s1 = block_views(out@);
    if cfg.show_arguments == Some(true) && any_visible_argument(&cmd.arguments) {
        out.push(argument_panel(cfg, &cmd.arguments));
        assert(block_views(out@) =~= s1 + seq![argument_panel_spec(*cfg, cmd.arguments@)]);
    } else {
        assert(block_views(out@) =~= s1 + Seq::<BlockView>::empty());
    }
    let ghost s2 = block_views(out@);
    if shown.len() > 0 {
        let p = crate::panels::option_panels(cfg, &cmd.options, shown);
        crate::doc::append_blocks(&mut out, p);
        let ghost s3 = block_views(out@);
        if !cfg.commands_before_options && es.len() > 0 && (rule_options || rule_commands) {
            out.push(crate::panels::blank_block(cfg));
            assert(block_views(out@) =~= s3 + seq![crate::panels::blank_line(*cfg)]);
        } else {
            assert(block_views(out@) =~= s3 + Seq::<BlockView>::empty());
        }
    } else {
        assert(block_views(out@) =~= s2 + Seq::<BlockView>::empty());
    }
    let ghost s4 = block_views(out@);
    if !cfg.commands_before_options && es.len() > 0 {
        let p = crate::panels::command_panels(cfg, es);
        crate::doc::append_blocks(&mut out, p);
    } else {
        assert(block_views(out@) =~= s4 + Seq::<BlockView>::empty());
    }
    let e = epilog_blocks(cfg, &cmd.epilog);
    crate::doc::append_blocks(&mut out, e);
    out
}

/// The help page of a group: its subcommands' entries are collected as
/// `collect_commands` does.
pub fn group_page(cfg: &RichHelpConfig, g: &crate::model::GroupInfo) -> (r: Vec<Block>)
    requires
        options_readable(*cfg, g.command.options@),
    ensures
        exists|es: Seq<crate::commands::CommandEntry>| #![trigger group_page_spec(*cfg, *g, es)]
            crate::commands::entries_of(*cfg, g.subcommands@, crate::commands::entry_views(es))
            && block_views(r@) == group_page_spec(*cfg, *g, es),
{
    let es = crate::commands::collect_commands(cfg, &g.subcommands);
    let r = group_page_with(cfg, g, &es);
    assert(block_views(r@) == group_page_spec(*cfg, *g, es@));
    r
}

} // verus!
