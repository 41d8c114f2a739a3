use vstd::prelude::*;

use crate::config::{RichHelpConfig, TextMarkup};
use crate::doc::{
    cell_view, plain_segment, row_view, rows_view, segment_views, single_view, styled, Cell, CellView, Segment, SegmentKind, SegmentView, StyledText, };
use crate::model::OptionInfo;
use crate::option_help::{
    metavar_display_of, metavar_of, option_help_markdown, option_help_markdown_spec, option_help_text,
    option_help_text_spec, option_metavar, option_metavar_display,
};
use crate::table::{append_delimited, delim_segment, delimited, empty_cell, empty_text, with_style};
use crate::text::{contains, contains_seq, str_eq, views};

verus! {

// ---------------------------------------------------------------------------
// The rows of an options table.
// ---------------------------------------------------------------------------

/// The options of `opts` at the positions `sel`, in that order.
pub open spec fn picked(opts: Seq<OptionInfo>, sel: Seq<usize>) -> Seq<OptionInfo> {
    sel.map_values(|i: usize| opts[i as int])
}

/// All positions of `sel` are positions of `opts`.
pub open spec fn valid_selection(len: nat, sel: Seq<usize>) -> bool {
    forall|k: int| 0 <= k < sel.len() ==> #[trigger] sel[k] < len
}

/// The names of `names` separated by the comma delimiter, each in `style`.
pub open spec fn comma_list(cfg: RichHelpConfig, names: Seq<Seq<char>>, style: Seq<char>) -> Seq<SegmentView> {
    delimited(with_style(names, style), delim_segment(cfg.delimiter_comma@, cfg.style_option_help@))
}

/// The two names of a flag pair separated by the slash delimiter.
pub open spec fn slash_pair(cfg: RichHelpConfig, names: Seq<Seq<char>>, style: Seq<char>) -> Seq<SegmentView> {
    delimited(with_style(names, style), delim_segment(cfg.delimiter_slash@, cfg.style_option_help@))
}

/// The short names in the switch style, then the long ones in the option
/// style, all separated by commas.
pub open spec fn all_names_segments(cfg: RichHelpConfig, opt: OptionInfo) -> Seq<SegmentView> {
    let s = comma_list(cfg, views(opt.short@), cfg.style_switch@);
    let l = comma_list(cfg, views(opt.long@), cfg.style_option@);
    if opt.short@.len() == 0 {
        l
    } else if opt.long@.len() == 0 {
        s
    } else {
        s + seq![delim_segment(cfg.delimiter_comma@, cfg.style_option_help@)] + l
    }
}

/// A space and the displayed placeholder, when the option has one.
pub open spec fn metavar_tail(cfg: RichHelpConfig, opt: OptionInfo) -> Seq<SegmentView> {
    match metavar_display_of(opt) {
        Some(mv) => seq![
            (SegmentKind::Plain, " "@, Some(cfg.style_option_help@)),
            (SegmentKind::Plain, mv, Some(cfg.style_metavar@)),
        ],
        None => Seq::empty(),
    }
}

/// The long names: a flag pair separated by a slash, else a comma list;
/// nothing without long names.
pub open spec fn long_names_cell(cfg: RichHelpConfig, opt: OptionInfo) -> Option<CellView> {
    if opt.long@.len() == 0 {
        None
    } else if opt.is_bool_flag && opt.long@.len() == 2 {
        Some(CellView::Text((cfg.style_option@, slash_pair(cfg, views(opt.long@), cfg.style_option@))))
    } else {
        Some(CellView::Text((cfg.style_option@, comma_list(cfg, views(opt.long@), cfg.style_option@))))
    }
}

/// The short names, as the long ones are shown.
pub open spec fn short_names_cell(cfg: RichHelpConfig, opt: OptionInfo) -> Option<CellView> {
    if opt.is_bool_flag && opt.short@.len() == 2 {
        Some(CellView::Text((cfg.style_switch@, slash_pair(cfg, views(opt.short@), cfg.style_switch@))))
    } else if opt.short@.len() == 0 {
        None
    } else {
        Some(CellView::Text((cfg.style_switch@, comma_list(cfg, views(opt.short@), cfg.style_switch@))))
    }
}

/// The cell an options-table column gives an option; `None` for an empty one.
pub open spec fn option_cell_spec(cfg: RichHelpConfig, opt: OptionInfo, column: Seq<char>) -> Option<CellView> {
    if column == "required"@ {
        if opt.required {
            Some(CellView::Text(single_view(cfg.style_required_short@, cfg.required_short_string@)))
        } else {
            None
        }
    } else if column == "opt_long"@ {
        long_names_cell(cfg, opt)
    } else if column == "opt_short"@ {
        short_names_cell(cfg, opt)
    } else if column == "opt_all"@ {
        Some(CellView::Text((cfg.style_option@, all_names_segments(cfg, opt))))
    } else if column == "opt_long_metavar"@ {
        if opt.long@.len() == 0 {
            None
        } else {
            Some(CellView::Text((cfg.style_option@, comma_list(cfg, views(opt.long@), cfg.style_option@) + metavar_tail(cfg, opt))))
        }
    } else if column == "opt_all_metavar"@ {
        Some(CellView::Text((cfg.style_option@, all_names_segments(cfg, opt) + metavar_tail(cfg, opt))))
    } else if column == "metavar"@ || column == "metavar_short"@ {
        match metavar_display_of(opt) {
            Some(mv) => Some(CellView::Text(single_view(cfg.style_metavar@, mv))),
            None => None,
        }
    } else if column == "help"@ {
        if cfg.text_markup == TextMarkup::Markdown {
            Some(CellView::Markdown(option_help_markdown_spec(cfg, opt)))
        } else {
            Some(CellView::Text(option_help_text_spec(cfg, opt)))
        }
    } else {
        None
    }
}

fn append_metavar_tail(cfg: &RichHelpConfig, opt: &OptionInfo, segs: &mut Vec<Segment>)
    ensures
        segment_views(final(segs)@) == segment_views(old(segs)@) + metavar_tail(*cfg, *opt),
{
    let ghost before = segment_views(segs@);
    match option_metavar_display(opt) {
        Some(mv) => {
            segs.push(plain_segment(" ", cfg.style_option_help.as_str()));
            segs.push(plain_segment(mv.as_str(), cfg.style_metavar.as_str()));
            proof {
                reveal_strlit(" ");
            }
            assert(segment_views(segs@) =~= before + metavar_tail(*cfg, *opt));
        },
        None => {
            assert(segment_views(segs@) =~= before + metavar_tail(*cfg, *opt));
        },
    }
}

fn all_names(cfg: &RichHelpConfig, opt: &OptionInfo) -> (segs: Vec<Segment>)
    ensures
        segment_views(segs@) == all_names_segments(*cfg, *opt),
{
    let mut segs: Vec<Segment> = Vec::new();
    append_delimited(&mut segs, &opt.short, cfg.style_switch.as_str(), cfg.delimiter_comma.as_str(), cfg.style_option_help.as_str());
    proof {
        if opt.short@.len() > 0 {
            assert(comma_list(*cfg, views(opt.short@), cfg.style_switch@).len() > 0) by {
                crate::table::lemma_delimited_nonempty(with_style(views(opt.short@), cfg.style_switch@), delim_segment(cfg.delimiter_comma@, cfg.style_option_help@));
            }
        } else {
            assert(with_style(views(opt.short@), cfg.style_switch@) =~= Seq::empty());
        }
    }
    append_delimited(&mut segs, &opt.long, cfg.style_option.as_str(), cfg.delimiter_comma.as_str(), cfg.style_option_help.as_str());
    segs
}

fn names_cell(cfg: &RichHelpConfig, names: &Vec<String>, style: &String, pair: bool) -> (c: Cell)
    ensures
        cell_view(c) == CellView::Text((style@, if pair {
            slash_pair(*cfg, views(names@), style@)
        } else {
            comma_list(*cfg, views(names@), style@)
        })),
{
    let mut segs: Vec<Segment> = Vec::new();
    if pair {
        append_delimited(&mut segs, names, style.as_str(), cfg.delimiter_slash.as_str(), cfg.style_option_help.as_str());
    } else {
        append_delimited(&mut segs, names, style.as_str(), cfg.delimiter_comma.as_str(), cfg.style_option_help.as_str());
    }
    Cell::Text(StyledText { base: style.clone(), segments: segs })
}

/// The cell of `column` for `opt`.
pub fn option_cell(cfg: &RichHelpConfig, opt: &OptionInfo, column: &str) -> (r: Option<Cell>)
    ensures
        match r {
            Some(c) => option_cell_spec(*cfg, *opt, column@) == Some(cell_view(c)),
            None => option_cell_spec(*cfg, *opt, column@) is None,
        },
{
    if str_eq(column, "required") {
        if opt.required {
            Some(Cell::Text(styled(cfg.required_short_string.as_str(), cfg.style_required_short.as_str())))
        } else {
            None
        }
    } else if str_eq(column, "opt_long") {
        if opt.long.len() == 0 {
            None
        } else {
            Some(names_cell(cfg, &opt.long, &cfg.style_option, opt.is_bool_flag && opt.long.len() == 2))
        }
    } else if str_eq(column, "opt_short") {
        if opt.is_bool_flag && opt.short.len() == 2 {
            Some(names_cell(cfg, &opt.short, &cfg.style_switch, true))
        } else if opt.short.len() == 0 {
            None
        } else {
            Some(names_cell(cfg, &opt.short, &cfg.style_switch, false))
        }
    } else if str_eq(column, "opt_all") {
        let segs = all_names(cfg, opt);
        Some(Cell::Text(StyledText { base: cfg.style_option.clone(), segments: segs }))
    } else if str_eq(column, "opt_long_metavar") {
        if opt.long.len() == 0 {
            None
        } else {
            let mut segs: Vec<Segment> = Vec::new();
            append_delimited(&mut segs, &opt.long, cfg.style_option.as_str(), cfg.delimiter_comma.as_str(), cfg.style_option_help.as_str());
            append_metavar_tail(cfg, opt, &mut segs);
            Some(Cell::Text(StyledText { base: cfg.style_option.clone(), segments: segs }))
        }
    } else if str_eq(column, "opt_all_metavar") {
        let mut segs = all_names(cfg, opt);
        append_metavar_tail(cfg, opt, &mut segs);
        Some(Cell::Text(StyledText { base: cfg.style_option.clone(), segments: segs }))
    } else if str_eq(column, "metavar") || str_eq(column, "metavar_short") {
        match option_metavar_display(opt) {
            Some(mv) => Some(Cell::Text(styled(mv.as_str(), cfg.style_metavar.as_str()))),
            None => None,
        }
    } else if str_eq(column, "help") {
        if cfg.text_markup == TextMarkup::Markdown {
            Some(Cell::Markdown(option_help_markdown(cfg, opt)))
        } else {
            Some(Cell::Text(option_help_text(cfg, opt)))
        }
    } else {
        None
    }
}

/// `cols` without the entries equal to `name`.
pub open spec fn without(cols: Seq<Seq<char>>, name: Seq<char>) -> Seq<Seq<char>>
    decreases cols.len(),
{
    if cols.len() == 0 {
        Seq::empty()
    } else if cols.last() == name {
        without(cols.drop_last(), name)
    } else {
        without(cols.drop_last(), name).push(cols.last())
    }
}

/// `cols` without the entries that contain `pat`.
pub open spec fn without_containing(cols: Seq<Seq<char>>, pat: Seq<char>) -> Seq<Seq<char>>
    decreases cols.len(),
{
    if cols.len() == 0 {
        Seq::empty()
    } else if contains_seq(cols.last(), pat) {
        without_containing(cols.drop_last(), pat)
    } else {
        without_containing(cols.drop_last(), pat).push(cols.last())
    }
}

fn remove_name(cols: Vec<String>, name: &str, containing: bool) -> (r: Vec<String>)
    ensures
        views(r@) == if containing {
            without_containing(views(cols@), name@)
        } else {
            without(views(cols@), name@)
        },
{
    let mut out: Vec<String> = Vec::new();
    let mut i: usize = 0;
    while i < cols.len()
        invariant
            i <= cols@.len(),
            views(out@) == if containing {
                without_containing(views(cols@).take(i as int), name@)
            } else {
                without(views(cols@).take(i as int), name@)
            },
        decreases cols.len() - i,
    {
        proof {
            assert(views(cols@).take(i + 1).drop_last() =~= views(cols@).take(i as int));
            assert(views(cols@).take(i + 1).last() == cols@[i as int]@);
        }
        let drop = if containing {
            contains(cols[i].as_str(), name)
        } else {
            str_eq(cols[i].as_str(), name)
        };
        if !drop {
            let ghost before = out@;
            out.push(cols[i].clone());
            assert(views(out@) =~= views(before).push(cols@[i as int]@));
        }
        i = i + 1;
    }
    assert(views(cols@).take(i as int) =~= views(cols@));
    out
}

pub open spec fn any_required(ps: Seq<OptionInfo>) -> bool {
    exists|k: int| 0 <= k < ps.len() && #[trigger] ps[k].required
}

pub open spec fn any_short(ps: Seq<OptionInfo>) -> bool {
    exists|k: int| 0 <= k < ps.len() && #[trigger] ps[k].short@.len() > 0
}

pub open spec fn any_metavar(ps: Seq<OptionInfo>) -> bool {
    exists|k: int| 0 <= k < ps.len() && #[trigger] metavar_of(ps[k]) is Some
}

/// The columns an options table shows: the configured ones, without the
/// placeholder columns when those are turned off, and without the required,
/// short-name and placeholder columns when no option would fill them.
pub open spec fn option_columns_spec(cfg: RichHelpConfig, ps: Seq<OptionInfo>) -> Seq<Seq<char>> {
    let c0 = views(cfg.options_table_column_types@);
    let c1 = if cfg.show_metavars_column == Some(false) {
        without_containing(c0, "metavar"@)
    } else {
        c0
    };
    let c2 = if !any_required(ps) {
        without(c1, "required"@)
    } else {
        c1
    };
    let c3 = if !any_short(ps) {
        without(c2, "opt_short"@)
    } else {
        c2
    };
    if !any_metavar(ps) {
        without(c3, "metavar"@)
    } else {
        c3
    }
}

/// The columns an options table shows for the options at `sel`.
pub fn option_columns(cfg: &RichHelpConfig, opts: &Vec<OptionInfo>, sel: &Vec<usize>) -> (r: Vec<String>)
    requires
        valid_selection(opts@.len(), sel@),
    ensures
        views(r@) == option_columns_spec(*cfg, picked(opts@, sel@)),
{
    let ghost ps = picked(opts@, sel@);
    let mut required = false;
    let mut short = false;
    let mut metavar = false;
    let mut k: usize = 0;
    while k < sel.len()
        invariant
            k <= sel@.len(),
            valid_selection(opts@.len(), sel@),
            ps == picked(opts@, sel@),
            required == exists|j: int| 0 <= j < k && #[trigger] ps[j].required,
            short == exists|j: int| 0 <= j < k && #[trigger] ps[j].short@.len() > 0,
            metavar == exists|j: int| 0 <= j < k && #[trigger] metavar_of(ps[j]) is Some,
        decreases sel.len() - k,
    {
        let o = &opts[sel[k]];
        assert(ps[k as int] == *o);
        if o.required {
            required = true;
        }
        if o.short.len() > 0 {
            short = true;
        }
        if option_metavar(o).is_some() {
            metavar = true;
        }
        k = k + 1;
    }
    let mut cols: Vec<String> = crate::json::copy_strings(&cfg.options_table_column_types);
    if cfg.show_metavars_column == Some(false) {
        cols = remove_name(cols, "metavar", true);
    }
    if !required {
        cols = remove_name(cols, "required", false);
    }
    if !short {
        cols = remove_name(cols, "opt_short", false);
    }
    if !metavar {
        cols = remove_name(cols, "metavar", false);
    }
    cols
}

/// The row of an option: one cell per column, empty where the column gives
/// the option nothing.
pub open spec fn option_row_spec(cfg: RichHelpConfig, opt: OptionInfo, cols: Seq<Seq<char>>) -> Seq<CellView> {
    cols.map_values(|c: Seq<char>| match option_cell_spec(cfg, opt, c) {
        Some(v) => v,
        None => CellView::Text(empty_text()),
    })
}

/// The rows of an options table.
pub open spec fn option_rows_spec(cfg: RichHelpConfig, ps: Seq<OptionInfo>) -> Seq<Seq<CellView>> {
    ps.map_values(|o: OptionInfo| option_row_spec(cfg, o, option_columns_spec(cfg, ps)))
}

fn option_row(cfg: &RichHelpConfig, opt: &OptionInfo, cols: &Vec<String>) -> (r: Vec<Cell>)
    ensures
        row_view(r@) == option_row_spec(*cfg, *opt, views(cols@)),
{
    let mut row: Vec<Cell> = Vec::new();
    let mut i: usize = 0;
    while i < cols.len()
        invariant
            i <= cols@.len(),
            row_view(row@) == option_row_spec(*cfg, *opt, views(cols@).take(i as int)),
        decreases cols.len() - i,
    {
        let ghost before = row@;
        let cell = match option_cell(cfg, opt, cols[i].as_str()) {
            Some(c) => c,
            None => empty_cell(),
        };
        row.push(cell);
        proof {
            assert(views(cols@).take(i + 1) =~= views(cols@).take(i as int).push(cols@[i as int]@));
            assert(row_view(row@) =~= row_view(before).push(cell_view(cell)));
            assert(row_view(row@) =~= option_row_spec(*cfg, *opt, views(cols@).take(i + 1)));
        }
        i = i + 1;
    }
    assert(views(cols@).take(i as int) =~= views(cols@));
    row
}

/// The rows of the options table for the options at `sel`.
pub fn option_rows(cfg: &RichHelpConfig, opts: &Vec<OptionInfo>, sel: &Vec<usize>) -> (r: Vec<Vec<Cell>>)
    requires
        valid_selection(opts@.len(), sel@),
    ensures
        rows_view(r@) == option_rows_spec(*cfg, picked(opts@, sel@)),
{
    let cols = option_columns(cfg, opts, sel);
    let ghost ps = picked(opts@, sel@);
    let mut rows: Vec<Vec<Cell>> = Vec::new();
    let mut k: usize = 0;
    while k < sel.len()
        invariant
            k <= sel@.len(),
            valid_selection(opts@.len(), sel@),
            ps == picked(opts@, sel@),
            views(cols@) == option_columns_spec(*cfg, ps),
            rows_view(rows@) == ps.take(k as int).map_values(|o: OptionInfo| option_row_spec(*cfg, o, views(cols@))),
        decreases sel.len() - k,
    {
        let ghost before = rows@;
        let row = option_row(cfg, &opts[sel[k]], &cols);
        rows.push(row);
        proof {
            assert(ps[k as int] == opts@[sel@[k as int] as int]);
            assert(ps.take(k + 1) =~= ps.take(k as int).push(ps[k as int]));
            assert(rows_view(rows@) =~= rows_view(before).push(row_view(row@)));
            assert(rows_view(rows@) =~= ps.take(k + 1).map_values(|o: OptionInfo| option_row_spec(*cfg, o, views(cols@))));
        }
        k = k + 1;
    }
    assert(ps.take(k as int) =~= ps);
    assert(rows_view(rows@) =~= option_rows_spec(*cfg, ps));
    rows
}

/// Whether the last column of an options table stretches: unless some
/// placeholder is longer than 30 bytes and holds no space or newline.
pub open spec fn flex_last_spec(ps: Seq<OptionInfo>) -> bool {
    !exists|k: int| 0 <= k < ps.len() && #[trigger] long_unbroken_metavar(ps[k])
}

pub open spec fn long_unbroken_metavar(o: OptionInfo) -> bool {
    match metavar_of(o) {
        Some(mv) => crate::text::utf8_len(mv) > 30 && !contains_seq(mv, " "@) && !contains_seq(mv, "\n"@),
        None => false,
    }
}

/// Whether the last column of the options table for `sel` stretches.
pub fn should_flex_last_options(opts: &Vec<OptionInfo>, sel: &Vec<usize>) -> (r: bool)
    requires
        valid_selection(opts@.len(), sel@),
    ensures
        r == flex_last_spec(picked(opts@, sel@)),
{
    let ghost ps = picked(opts@, sel@);
    let mut k: usize = 0;
    while k < sel.len()
        invariant
            k <= sel@.len(),
            valid_selection(opts@.len(), sel@),
            ps == picked(opts@, sel@),
            forall|j: int| 0 <= j < k ==> !#[trigger] long_unbroken_metavar(ps[j]),
        decreases sel.len() - k,
    {
        let o = &opts[sel[k]];
        assert(ps[k as int] == *o);
        match option_metavar(o) {
            Some(mv) => {
                if crate::text::utf8_len_exceeds(mv.as_str(), 30) && !contains(mv.as_str(), " ") && !contains(mv.as_str(), "\n") {
                    assert(long_unbroken_metavar(ps[k as int]));
                    return false;
                }
            },
            None => {},
        }
        k = k + 1;
    }
    true
}

} // verus!
