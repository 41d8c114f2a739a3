use vstd::prelude::*;

use crate::config::{alias_views, CommandAliases, RichHelpConfig};
use crate::doc::{cell_view, row_view, rows_view, single_view, styled, Cell, CellView, Segment, SegmentKind, StyledText};
use crate::helptext::{first_paragraph_spec, normalize_first_paragraph};
use crate::model::SubcommandInfo;
use crate::option_help::{fill, fill_template};
use crate::order::{sort_dedup_without, sorted_distinct_without};
use crate::table::{empty_cell, empty_text};
use crate::text::{concat3, join, join_spec, str_eq, views};

verus! {

// ---------------------------------------------------------------------------
// The subcommands of a group as help entries.
// ---------------------------------------------------------------------------

/// A subcommand's help entry: its name, its help line and its aliases.
#[derive(Debug, Clone)]
pub struct CommandEntry {
    pub name: String,
    pub help: String,
    pub aliases: Vec<String>,
}

pub type EntryView = (Seq<char>, Seq<char>, Seq<Seq<char>>);

pub open spec fn entry_view(e: CommandEntry) -> EntryView {
    (e.name@, e.help@, views(e.aliases@))
}

pub open spec fn entry_views(v: Seq<CommandEntry>) -> Seq<EntryView> {
    v.map_values(|e: CommandEntry| entry_view(e))
}

/// Whether an earlier entry of `subs` registers the same command as entry `k`.
pub open spec fn seen_before(subs: Seq<SubcommandInfo>, k: int) -> bool {
    exists|j: int| 0 <= j < k && #[trigger] subs[j].id == subs[k].id
}

/// The positions of the subcommands that get an entry: the first
/// registration of each command, hidden ones left out.
pub open spec fn listed_positions(subs: Seq<SubcommandInfo>, n: int) -> Seq<int>
    decreases n,
{
    if n <= 0 {
        Seq::empty()
    } else if !seen_before(subs, n - 1) && !subs[n - 1].hidden {
        listed_positions(subs, n - 1).push(n - 1)
    } else {
        listed_positions(subs, n - 1)
    }
}

/// The name a subcommand is listed under: its own, else the registered one.
pub open spec fn canonical_name(s: SubcommandInfo) -> Seq<char> {
    match s.name {
        Some(n) => n@,
        None => s.registered@,
    }
}

/// The extra aliases configured for `name`: the last entry for it wins.
pub open spec fn configured_aliases(entries: Seq<(Seq<char>, Seq<Seq<char>>)>, name: Seq<char>) -> Option<Seq<Seq<char>>>
    decreases entries.len(),
{
    if entries.len() == 0 {
        None
    } else if entries.last().0 == name {
        Some(entries.last().1)
    } else {
        configured_aliases(entries.drop_last(), name)
    }
}

/// The aliases of a subcommand before sorting: those the group records, the
/// registered name when it differs from the listed one, and the configured
/// extra ones.
pub open spec fn raw_aliases(cfg: RichHelpConfig, s: SubcommandInfo) -> Seq<Seq<char>> {
    let a = views(s.aliases@);
    let a1 = if s.registered@ != canonical_name(s) && !a.contains(s.registered@) {
        a.push(s.registered@)
    } else {
        a
    };
    match configured_aliases(alias_views(cfg.command_aliases@), s.registered@) {
        Some(extra) => a1 + extra,
        None => a1,
    }
}

/// The help line of a subcommand: the library's short help, or the first
/// paragraph of its short help (else of its help).
pub open spec fn base_help(cfg: RichHelpConfig, s: SubcommandInfo) -> Seq<char> {
    if cfg.use_click_short_help {
        s.derived_short_help@
    } else {
        match s.short_help {
            Some(h) => first_paragraph_spec(cfg.text_markup, h@),
            None => match s.help {
                Some(h) => first_paragraph_spec(cfg.text_markup, h@),
                None => Seq::empty(),
            },
        }
    }
}

/// The help line with the aliases mentioned, when so configured.
pub open spec fn help_with_aliases(cfg: RichHelpConfig, help: Seq<char>, aliases: Seq<Seq<char>>) -> Seq<char> {
    if cfg.helptext_show_aliases && aliases.len() > 0 {
        let t = fill(cfg.helptext_aliases_string@, join_spec(aliases, cfg.delimiter_comma@));
        if help.len() == 0 {
            t
        } else {
            help + "  "@ + t
        }
    } else {
        help
    }
}

/// `e` is the entry of the subcommand `s`: its listed name, its aliases
/// sorted without duplicates or the listed name, and its help line.
pub open spec fn entry_of(cfg: RichHelpConfig, s: SubcommandInfo, e: EntryView) -> bool {
    &&& e.0 == canonical_name(s)
    &&& sorted_distinct_without(e.2, raw_aliases(cfg, s), canonical_name(s))
    &&& e.1 == help_with_aliases(cfg, base_help(cfg, s), e.2)
}

/// `es` are the entries of the listed subcommands, in order; none when
/// commands are not shown.
pub open spec fn entries_of(cfg: RichHelpConfig, subs: Seq<SubcommandInfo>, es: Seq<EntryView>) -> bool {
    &&& es.len() == listed(cfg, subs).len()
    &&& forall|i: int| 0 <= i < es.len() ==> #[trigger] entry_of(cfg, subs[listed(cfg, subs)[i]], es[i])
}

/// The positions of the subcommands listed, none when commands are not
/// shown.
pub open spec fn listed(cfg: RichHelpConfig, subs: Seq<SubcommandInfo>) -> Seq<int> {
    if cfg.show_commands == Some(false) {
        Seq::empty()
    } else {
        listed_positions(subs, subs.len() as int)
    }
}

fn lookup_aliases<'a>(entries: &'a Vec<CommandAliases>, name: &str) -> (r: Option<&'a Vec<String>>)
    ensures
        match r {
            Some(v) => configured_aliases(alias_views(entries@), name@) == Some(views(v@)),
            None => configured_aliases(alias_views(entries@), name@) is None,
        },
{
    let mut i: usize = entries.len();
    assert(entries@.take(i as int) =~= entries@);
    while i > 0
        invariant
            i <= entries@.len(),
            configured_aliases(alias_views(entries@), name@) == configured_aliases(alias_views(entries@.take(i as int)), name@),
        decreases i,
    {
        proof {
            assert(alias_views(entries@.take(i as int)).drop_last() =~= alias_views(entries@.take(i - 1)));
            assert(alias_views(entries@.take(i as int)).last() == (entries@[i - 1].name@, views(entries@[i - 1].aliases@)));
        }
        if str_eq(entries[i - 1].name.as_str(), name) {
            return Some(&entries[i - 1].aliases);
        }
        i = i - 1;
    }
    assert(alias_views(entries@.take(0)) =~= Seq::empty());
    None
}

fn holds(v: &Vec<String>, s: &String) -> (r: bool)
    ensures
        r == views(v@).contains(s@),
{
    crate::option_help::holds_name(v, s.as_str())
}

fn append_all(dst: &mut Vec<String>, src: &Vec<String>)
    ensures
        views(final(dst)@) == views(old(dst)@) + views(src@),
{
    let ghost start = views(dst@);
    let mut i: usize = 0;
    while i < src.len()
        invariant
            i <= src@.len(),
            views(dst@) == start + views(src@).take(i as int),
        decreases src.len() - i,
    {
        let ghost before = views(dst@);
        dst.push(src[i].clone());
        assert(views(dst@) =~= before.push(src@[i as int]@));
        assert(views(src@).take(i + 1) =~= views(src@).take(i as int).push(src@[i as int]@));
        i = i + 1;
    }
    assert(views(src@).take(i as int) =~= views(src@));
}

/// The help entry of a subcommand.
fn entry_for(cfg: &RichHelpConfig, s: &SubcommandInfo) -> (e: CommandEntry)
    ensures
        entry_of(*cfg, *s, entry_view(e)),
{
    let canonical = match &s.name {
        Some(n) => n.clone(),
        None => s.registered.clone(),
    };
    let mut raw: Vec<String> = crate::json::copy_strings(&s.aliases);
    if !str_eq(s.registered.as_str(), canonical.as_str()) && !holds(&raw, &s.registered) {
        let ghost before = views(raw@);
        raw.push(s.registered.clone());
        assert(views(raw@) =~= before.push(s.registered@));
    }
    match lookup_aliases(&cfg.command_aliases, s.registered.as_str()) {
        Some(extra) => append_all(&mut raw, extra),
        None => {},
    }
    let aliases = sort_dedup_without(&raw, canonical.as_str());
    let mut help = if cfg.use_click_short_help {
        s.derived_short_help.clone()
    } else {
        match &s.short_help {
            Some(h) => normalize_first_paragraph(cfg.text_markup, h.as_str()),
            None => match &s.help {
                Some(h) => normalize_first_paragraph(cfg.text_markup, h.as_str()),
                None => String::new(),
            },
        }
    };
    if cfg.helptext_show_aliases && aliases.len() > 0 {
        let joined = join(aliases.as_slice(), cfg.delimiter_comma.as_str());
        let alias_text = fill_template(cfg.helptext_aliases_string.as_str(), joined.as_str());
        if help.as_str().is_empty() {
            help = alias_text;
        } else {
            help = concat3(help.as_str(), "  ", alias_text.as_str());
            proof {
                reveal_strlit("  ");
            }
        }
    }
    CommandEntry { name: canonical, help, aliases }
}

/// The help entries of a group's subcommands, in registration order: each
/// command once, hidden ones left out, none when commands are not shown.
pub fn collect_commands(cfg: &RichHelpConfig, subs: &Vec<SubcommandInfo>) -> (r: Vec<CommandEntry>)
    ensures
        entries_of(*cfg, subs@, entry_views(r@)),
{
    let mut out: Vec<CommandEntry> = Vec::new();
    if cfg.show_commands == Some(false) {
        assert(entry_views(out@) =~= Seq::empty());
        return out;
    }
    let mut seen: Vec<usize> = Vec::new();
    let mut k: usize = 0;
    while k < subs.len()
        invariant
            k <= subs@.len(),
            cfg.show_commands != Some(false),
            forall|x: usize| #[trigger] seen@.contains(x) <==> exists|j: int| 0 <= j < k && #[trigger] subs@[j].id == x,
            out@.len() == listed_positions(subs@, k as int).len(),
            forall|i: int| 0 <= i < out@.len() ==> #[trigger] entry_of(*cfg, subs@[listed_positions(subs@, k as int)[i]], entry_view(out@[i])),
            forall|i: int| 0 <= i < listed_positions(subs@, k as int).len() ==> 0 <= #[trigger] listed_positions(subs@, k as int)[i] < k,
        decreases subs.len() - k,
    {
        let id = subs[k].id;
        let mut already = false;
        let mut j: usize = 0;
        while j < seen.len()
            invariant
                j <= seen@.len(),
                already == exists|m: int| 0 <= m < j && seen@[m] == id,
            decreases seen.len() - j,
        {
            if seen[j] == id {
                already = true;
            }
            j = j + 1;
        }
        proof {
            if already {
                let m = choose|m: int| 0 <= m < j && seen@[m] == id;
                assert(seen@.contains(id));
                assert(seen_before(subs@, k as int));
            } else {
                assert(!seen@.contains(id));
                assert(!seen_before(subs@, k as int)) by {
                    if seen_before(subs@, k as int) {
                        let m = choose|m: int| 0 <= m < k && #[trigger] subs@[m].id == subs@[k as int].id;
                        assert(seen@.contains(id));
                    }
                }
            }
        }
        let ghost old_seen = seen@;
        if !already {
            seen.push(id);
        }
        proof {
            assert forall|x: usize| #[trigger] seen@.contains(x) <==> exists|j: int| 0 <= j < k + 1 && #[trigger] subs@[j].id == x by {
                if seen@.contains(x) && x != id {
                    let m = choose|m: int| 0 <= m < seen@.len() && seen@[m] == x;
                    assert(old_seen[m] == x);
                    assert(old_seen.contains(x));
                }
                if x == id {
                    assert(subs@[k as int].id == x);
                    if already {
                        assert(old_seen.contains(x));
                    } else {
                        assert(seen@[seen@.len() - 1] == x);
                    }
                }
                if exists|j: int| 0 <= j < k + 1 && #[trigger] subs@[j].id == x {
                    let m = choose|m: int| 0 <= m < k + 1 && #[trigger] subs@[m].id == x;
                    if m < k {
                        assert(old_seen.contains(x));
                        let q = choose|q: int| 0 <= q < old_seen.len() && old_seen[q] == x;
                        assert(seen@[q] == x);
                    }
                }
            }
        }
        if !already && !subs[k].hidden {
            let e = entry_for(cfg, &subs[k]);
            out.push(e);
            proof {
                assert(listed_positions(subs@, k + 1) == listed_positions(subs@, k as int).push(k as int));
            }
        } else {
            proof {
                assert(listed_positions(subs@, k + 1) == listed_positions(subs@, k as int));
            }
        }
        k = k + 1;
    }
    out
}

/// The aliases of an entry as one string.
pub open spec fn alias_string(cfg: RichHelpConfig, e: EntryView) -> Seq<char> {
    join_spec(e.2, cfg.delimiter_comma@)
}

/// The columns a commands table shows: the configured ones, without the
/// aliases column when no entry has aliases.
pub open spec fn command_columns_spec(cfg: RichHelpConfig, es: Seq<EntryView>) -> Seq<Seq<char>> {
    let c = views(cfg.commands_table_column_types@);
    if forall|i: int| 0 <= i < es.len() ==> (#[trigger] es[i]).2.len() == 0 {
        crate::option_table::without(c, "aliases"@)
    } else {
        c
    }
}

/// The cell a commands-table column gives an entry.
pub open spec fn command_cell_spec(cfg: RichHelpConfig, e: EntryView, column: Seq<char>) -> CellView {
    let aliases = alias_string(cfg, e);
    if column == "name"@ {
        CellView::Text(single_view(cfg.style_command@, e.0))
    } else if column == "aliases"@ {
        CellView::Text(single_view(cfg.style_command_aliases@, aliases))
    } else if column == "name_with_aliases"@ {
        if aliases.len() == 0 {
            CellView::Text(single_view(cfg.style_command@, e.0))
        } else {
            CellView::Text(
                (
                    cfg.style_command@,
                    seq![
                        (SegmentKind::Plain, e.0, None::<Seq<char>>),
                        (SegmentKind::Plain, cfg.delimiter_slash@, Some(cfg.style_option_help@)),
                        (SegmentKind::Plain, aliases, Some(cfg.style_command_aliases@)),
                    ],
                ),
            )
        }
    } else if column == "help"@ {
        CellView::Text(single_view(cfg.style_command_help@, e.1))
    } else {
        CellView::Text(empty_text())
    }
}

/// The rows of a commands table.
pub open spec fn command_rows_spec(cfg: RichHelpConfig, es: Seq<EntryView>) -> Seq<Seq<CellView>> {
    es.map_values(|e: EntryView| command_columns_spec(cfg, es).map_values(|c: Seq<char>| command_cell_spec(cfg, e, c)))
}

fn command_cell(cfg: &RichHelpConfig, e: &CommandEntry, aliases: &String, column: &str) -> (c: Cell)
    requires
        aliases@ == alias_string(*cfg, entry_view(*e)),
    ensures
        cell_view(c) == command_cell_spec(*cfg, entry_view(*e), column@),
{
    if str_eq(column, "name") {
        Cell::Text(styled(e.name.as_str(), cfg.style_command.as_str()))
    } else if str_eq(column, "aliases") {
        Cell::Text(styled(aliases.as_str(), cfg.style_command_aliases.as_str()))
    } else if str_eq(column, "name_with_aliases") {
        if aliases.as_str().is_empty() {
            Cell::Text(styled(e.name.as_str(), cfg.style_command.as_str()))
        } else {
            let segs = vec![
                Segment { kind: SegmentKind::Plain, text: e.name.clone(), style: None },
                crate::doc::plain_segment(cfg.delimiter_slash.as_str(), cfg.style_option_help.as_str()),
                crate::doc::plain_segment(aliases.as_str(), cfg.style_command_aliases.as_str()),
            ];
            let t = StyledText { base: cfg.style_command.clone(), segments: segs };
            assert(crate::doc::segment_views(t.segments@) =~= seq![
                (SegmentKind::Plain, e.name@, None::<Seq<char>>),
                (SegmentKind::Plain, cfg.delimiter_slash@, Some(cfg.style_option_help@)),
                (SegmentKind::Plain, aliases@, Some(cfg.style_command_aliases@)),
            ]);
            Cell::Text(t)
        }
    } else if str_eq(column, "help") {
        Cell::Text(styled(e.help.as_str(), cfg.style_command_help.as_str()))
    } else {
        empty_cell()
    }
}

/// The rows of the commands table for the entries at `sel`.
pub fn command_rows(cfg: &RichHelpConfig, entries: &Vec<CommandEntry>, sel: &Vec<usize>) -> (r: Vec<Vec<Cell>>)
    requires
        crate::option_table::valid_selection(entries@.len(), sel@),
    ensures
        rows_view(r@) == command_rows_spec(*cfg, picked_entries(entries@, sel@)),
{
    let ghost es = picked_entries(entries@, sel@);
    // The columns, without the aliases one when no entry has aliases.
    let mut any_alias = false;
    let mut k: usize = 0;
    while k < sel.len()
        invariant
            k <= sel@.len(),
            crate::option_table::valid_selection(entries@.len(), sel@),
            es == picked_entries(entries@, sel@),
            any_alias == exists|j: int| 0 <= j < k && (#[trigger] es[j]).2.len() > 0,
        decreases sel.len() - k,
    {
        assert(es[k as int] == entry_view(entries@[sel@[k as int] as int]));
        if entries[sel[k]].aliases.len() > 0 {
            any_alias = true;
        }
        k = k + 1;
    }
    let mut cols = crate::json::copy_strings(&cfg.commands_table_column_types);
    if !any_alias {
        cols = remove_aliases_column(cols);
    }
    assert(views(cols@) == command_columns_spec(*cfg, es));
    let mut rows: Vec<Vec<Cell>> = Vec::new();
    let mut k: usize = 0;
    while k < sel.len()
        invariant
            k <= sel@.len(),
            crate::option_table::valid_selection(entries@.len(), sel@),
            es == picked_entries(entries@, sel@),
            views(cols@) == command_columns_spec(*cfg, es),
            rows_view(rows@) == es.take(k as int).map_values(
                |e: EntryView| views(cols@).map_values(|c: Seq<char>| command_cell_spec(*cfg, e, c)),
            ),
        decreases sel.len() - k,
    {
        let e = &entries[sel[k]];
        assert(es[k as int] == entry_view(*e));
        let aliases = join(e.aliases.as_slice(), cfg.delimiter_comma.as_str());
        let mut row: Vec<Cell> = Vec::new();
        let mut i: usize = 0;
        while i < cols.len()
            invariant
                i <= cols@.len(),
                aliases@ == alias_string(*cfg, entry_view(*e)),
                row_view(row@) == views(cols@).take(i as int).map_values(|c: Seq<char>| command_cell_spec(*cfg, entry_view(*e), c)),
            decreases cols.len() - i,
        {
            let ghost before = row@;
            let c = command_cell(cfg, e, &aliases, cols[i].as_str());
            row.push(c);
            assert(views(cols@).take(i + 1) =~= views(cols@).take(i as int).push(cols@[i as int]@));
            assert(row_view(row@) =~= row_view(before).push(cell_view(c)));
            assert(row_view(row@) =~= views(cols@).take(i + 1).map_values(|c: Seq<char>| command_cell_spec(*cfg, entry_view(*e), c)));
            i = i + 1;
        }
        assert(views(cols@).take(i as int) =~= views(cols@));
        let ghost before = rows@;
        rows.push(row);
        assert(es.take(k + 1) =~= es.take(k as int).push(es[k as int]));
        assert(rows_view(rows@) =~= rows_view(before).push(row_view(row@)));
        assert(rows_view(rows@) =~= es.take(k + 1).map_values(
            |e: EntryView| views(cols@).map_values(|c: Seq<char>| command_cell_spec(*cfg, e, c)),
        ));
        k = k + 1;
    }
    assert(es.take(k as int) =~= es);
    rows
}

fn remove_aliases_column(cols: Vec<String>) -> (r: Vec<String>)
    ensures
        views(r@) == crate::option_table::without(views(cols@), "aliases"@),
{
    let mut out: Vec<String> = Vec::new();
    let mut i: usize = 0;
    while i < cols.len()
        invariant
            i <= cols@.len(),
            views(out@) == crate::option_table::without(views(cols@).take(i as int), "aliases"@),
        decreases cols.len() - i,
    {
        proof {
            assert(views(cols@).take(i + 1).drop_last() =~= views(cols@).take(i as int));
            assert(views(cols@).take(i + 1).last() == cols@[i as int]@);
        }
        if !str_eq(cols[i].as_str(), "aliases") {
            let ghost before = out@;
            out.push(cols[i].clone());
            assert(views(out@) =~= views(before).push(cols@[i as int]@));
        }
        i = i + 1;
    }
    assert(views(cols@).take(i as int) =~= views(cols@));
    out
}

/// The entries at the positions `sel`, in that order.
pub open spec fn picked_entries(entries: Seq<CommandEntry>, sel: Seq<usize>) -> Seq<EntryView> {
    sel.map_values(|i: usize| entry_view(entries[i as int]))
}

} // verus!
