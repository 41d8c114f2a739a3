use vstd::prelude::*;

use crate::config::TableConfig;
use crate::doc::{
    plain_segment, rows_view, segment_views, table_view, Cell, CellView, Segment, SegmentKind, SegmentView,
    StyledView, TableBlock, TableSettings, TableView,
};
use crate::json::copy_strings;
use crate::text::views;

verus! {

// ---------------------------------------------------------------------------
// Tables of help entries, and texts made of delimited items.
// ---------------------------------------------------------------------------

/// The settings a table configuration gives a table.
pub open spec fn settings_of(tc: TableConfig) -> TableSettings {
    (
        tc.show_lines,
        tc.leading,
        tc.pad_edge,
        tc.padding,
        tc.collapse_padding,
        tc.expand,
        tc.box_type,
        views(tc.row_styles@),
        tc.border_style@,
    )
}

/// The ratio of column `idx` of `n`: the configured pair gives the first two
/// columns theirs, and a flexible last column without one gets 1.
pub open spec fn column_ratio(ratios: Option<(Option<usize>, Option<usize>)>, flex_last: bool, n: int, idx: int) -> Option<usize> {
    let r = match ratios {
        Some(pair) => if idx == 0 {
            pair.0
        } else if idx == 1 {
            pair.1
        } else {
            None
        },
        None => None,
    };
    if flex_last && idx == n - 1 && r is None {
        Some(1usize)
    } else {
        r
    }
}

/// The column ratios of a table whose first row has `n` cells.
pub open spec fn column_ratios(ratios: Option<(Option<usize>, Option<usize>)>, flex_last: bool, n: int) -> Seq<Option<usize>> {
    Seq::new(n as nat, |idx: int| column_ratio(ratios, flex_last, n, idx))
}

/// The table of `rows` with the settings `tc`: one column per cell of the
/// first row.
pub open spec fn table_spec(
    tc: TableConfig,
    ratios: Option<(Option<usize>, Option<usize>)>,
    flex_last: bool,
    rows: Seq<Seq<CellView>>,
) -> TableView {
    (
        settings_of(tc),
        if rows.len() == 0 {
            Seq::empty()
        } else {
            column_ratios(ratios, flex_last, rows[0].len() as int)
        },
        rows,
    )
}

/// Builds the table of `rows` with the settings `tc`.
pub fn build_table(
    tc: &TableConfig,
    ratios: Option<(Option<usize>, Option<usize>)>,
    flex_last: bool,
    rows: Vec<Vec<Cell>>,
) -> (t: TableBlock)
    ensures
        table_view(t) == table_spec(*tc, ratios, flex_last, rows_view(rows@)),
{
    let mut column_ratios: Vec<Option<usize>> = Vec::new();
    if rows.len() > 0 {
        let n = rows[0].len();
        let mut idx: usize = 0;
        while idx < n
            invariant
                idx <= n,
                n == rows@[0]@.len(),
                column_ratios@ == Seq::new(idx as nat, |k: int| column_ratio(ratios, flex_last, n as int, k)),
            decreases n - idx,
        {
            let mut r: Option<usize> = match ratios {
                Some(pair) => if idx == 0 {
                    pair.0
                } else if idx == 1 {
                    pair.1
                } else {
                    None
                },
                None => None,
            };
            if flex_last && idx + 1 == n && r.is_none() {
                r = Some(1);
            }
            column_ratios.push(r);
            assert(column_ratios@ =~= Seq::new((idx + 1) as nat, |k: int| column_ratio(ratios, flex_last, n as int, k)));
            idx = idx + 1;
        }
        assert(rows_view(rows@)[0].len() == rows@[0]@.len());
    } else {
        assert(column_ratios@ =~= Seq::<Option<usize>>::empty());
    }
    TableBlock {
        show_lines: tc.show_lines,
        leading: tc.leading,
        pad_edge: tc.pad_edge,
        padding: tc.padding,
        collapse_padding: tc.collapse_padding,
        expand: tc.expand,
        box_type: tc.box_type,
        row_styles: copy_strings(&tc.row_styles),
        border_style: tc.border_style.clone(),
        column_ratios,
        rows,
    }
}

/// Items with their styles, one after the other, `delim` between two.
pub open spec fn delimited(items: Seq<(Seq<char>, Seq<char>)>, delim: SegmentView) -> Seq<SegmentView>
    decreases items.len(),
{
    if items.len() == 0 {
        Seq::empty()
    } else if items.len() == 1 {
        seq![(SegmentKind::Plain, items[0].0, Some(items[0].1))]
    } else {
        delimited(items.drop_last(), delim).push(delim).push((SegmentKind::Plain, items.last().0, Some(items.last().1)))
    }
}

/// Each name with the same style.
pub open spec fn with_style(names: Seq<Seq<char>>, style: Seq<char>) -> Seq<(Seq<char>, Seq<char>)> {
    names.map_values(|n: Seq<char>| (n, style))
}

/// A delimiter segment.
pub open spec fn delim_segment(delim: Seq<char>, style: Seq<char>) -> SegmentView {
    (SegmentKind::Plain, delim, Some(style))
}

/// Appends the names, each in `style`, separated by `delim` in
/// `delim_style`, after what `segs` already holds (with a delimiter between).
pub fn append_delimited(
    segs: &mut Vec<Segment>,
    names: &Vec<String>,
    style: &str,
    delim: &str,
    delim_style: &str,
)
    ensures
        segment_views(final(segs)@) == if old(segs)@.len() == 0 {
            delimited(with_style(views(names@), style@), delim_segment(delim@, delim_style@))
        } else if names@.len() == 0 {
            segment_views(old(segs)@)
        } else {
            segment_views(old(segs)@) + seq![delim_segment(delim@, delim_style@)] + delimited(
                with_style(views(names@), style@),
                delim_segment(delim@, delim_style@),
            )
        },
{
    let ghost start = segment_views(segs@);
    let ghost d = delim_segment(delim@, delim_style@);
    let ghost items = with_style(views(names@), style@);
    let mut i: usize = 0;
    while i < names.len()
        invariant
            i <= names@.len(),
            items == with_style(views(names@), style@),
            d == delim_segment(delim@, delim_style@),
            segment_views(segs@) == if start.len() == 0 {
                delimited(items.take(i as int), d)
            } else if i == 0 {
                start
            } else {
                start + seq![d] + delimited(items.take(i as int), d)
            },
        decreases names.len() - i,
    {
        let ghost before = segment_views(segs@);
        proof {
            assert(items.take(i + 1).drop_last() =~= items.take(i as int));
            assert(items.take(i + 1).last() == (names@[i as int]@, style@));
        }
        if segs.len() > 0 {
            segs.push(plain_segment(delim, delim_style));
        }
        segs.push(plain_segment(names[i].as_str(), style));
        proof {
            let item_seg = (SegmentKind::Plain, names@[i as int]@, Some(style@));
            if before.len() > 0 {
                assert(segment_views(segs@) =~= before.push(d).push(item_seg));
            } else {
                assert(segment_views(segs@) =~= seq![item_seg]);
            }
            if start.len() == 0 {
                if i == 0 {
                    assert(delimited(items.take(0), d) =~= Seq::<SegmentView>::empty());
                }
            } else if i == 0 {
                assert(items.take(1).len() == 1);
                assert(delimited(items.take(1), d) =~= seq![item_seg]);
                assert(segment_views(segs@) =~= start + seq![d] + delimited(items.take(1), d));
            } else {
                assert(segment_views(segs@) =~= start + seq![d] + delimited(items.take(i + 1), d));
            }
        }
        i = i + 1;
    }
    proof {
        assert(items.take(i as int) =~= items);
        if start.len() == 0 && names@.len() == 0 {
            assert(delimited(items, d) =~= Seq::<SegmentView>::empty());
        }
    }
}

pub proof fn lemma_delimited_nonempty(items: Seq<(Seq<char>, Seq<char>)>, delim: SegmentView)
    requires
        items.len() > 0,
    ensures
        delimited(items, delim).len() > 0,
{
}

/// A text with nothing in it.
pub open spec fn empty_text() -> StyledView {
    (""@, seq![(SegmentKind::Plain, ""@, None::<Seq<char>>)])
}

/// `Text::plain("")`.
pub fn empty_cell() -> (c: Cell)
    ensures
        crate::doc::cell_view(c) == CellView::Text(empty_text()),
{
    proof {
        reveal_strlit("");
    }
    Cell::Text(crate::doc::styled("", ""))
}

} // verus!
