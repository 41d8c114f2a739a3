use vstd::prelude::*;
use vstd::multiset::Multiset;

use crate::cli::normalized_param_spec;
use crate::commands::CommandEntry;
use crate::commands::entries_of;
use crate::commands::entry_of;
use crate::config::{agrees_except, sync_fields, synced, RichHelpConfig};
use crate::model::{ErrorInfo, ErrorKind, OptionInfo};
use crate::option_help::{help_parts, section_parts, PartKind};
use crate::page::{error_message_spec, error_param_names_spec};
use crate::text::{all_ws, lemma_trim_idempotent, lemma_trim_surrounded, trim_spec, views};
use crate::panels::{
    all_positions, command_group_plans, command_plans, first_command_match, first_option_match,
    lemma_first_command_match, lemma_first_option_match, option_group_plans, option_plans,
    partition_commands_spec, partition_options_spec, PanelPlan,
};

verus! {

broadcast use vstd::seq_lib::group_to_multiset_ensures, vstd::multiset::group_multiset_axioms;

// ---------------------------------------------------------------------------
// Properties of the help pages that hold across their parts.
// ---------------------------------------------------------------------------

/// The members of the panels, one panel after the other.
pub open spec fn members_of(plans: Seq<PanelPlan>) -> Seq<usize>
    decreases plans.len(),
{
    if plans.len() == 0 {
        Seq::empty()
    } else {
        members_of(plans.drop_last()) + plans.last().1
    }
}

proof fn lemma_members_prepend(p: PanelPlan, plans: Seq<PanelPlan>)
    ensures
        members_of(seq![p] + plans) =~= p.1 + members_of(plans),
    decreases plans.len(),
{
    if plans.len() > 0 {
        lemma_members_prepend(p, plans.drop_last());
        assert((seq![p] + plans).drop_last() =~= seq![p] + plans.drop_last());
        assert((seq![p] + plans).last() == plans.last());
        assert(members_of(seq![p] + plans) == members_of(seq![p] + plans.drop_last()) + plans.last().1);
        assert(members_of(plans) == members_of(plans.drop_last()) + plans.last().1);
        assert((p.1 + members_of(plans.drop_last())) + plans.last().1 =~= p.1 + (members_of(plans.drop_last()) + plans.last().1));
    } else {
        assert((seq![p] + plans).drop_last() =~= Seq::<PanelPlan>::empty());
        assert(seq![p] + plans =~= seq![p]);
        assert(members_of(Seq::<PanelPlan>::empty()) =~= Seq::<usize>::empty());
        assert(members_of(seq![p]) == members_of(seq![p].drop_last()) + p.1);
    }
}

proof fn lemma_move(sel: Seq<usize>, rest: Seq<usize>, p: int)
    requires
        0 <= p < rest.len(),
    ensures
        sel.push(rest[p]).to_multiset().add(rest.remove(p).to_multiset()) =~= sel.to_multiset().add(rest.to_multiset()),
{
    assert(rest.to_multiset().count(rest[p]) > 0) by {
        assert(rest.contains(rest[p]));
    }
}

/// Picking options for a group moves them from the remaining options to the
/// group: together the two hold the options that remained, each once.
pub proof fn law_option_partition_keeps_options(opts: Seq<OptionInfo>, rem: Seq<usize>, names: Seq<Seq<char>>)
    ensures
        partition_options_spec(opts, rem, names).0.to_multiset().add(partition_options_spec(opts, rem, names).1.to_multiset())
            == rem.to_multiset(),
    decreases names.len(),
{
    if names.len() == 0 {
        assert(Seq::<usize>::empty().to_multiset() =~= Multiset::empty());
        assert(Multiset::<usize>::empty().add(rem.to_multiset()) =~= rem.to_multiset());
    } else {
        law_option_partition_keeps_options(opts, rem, names.drop_last());
        let prev = partition_options_spec(opts, rem, names.drop_last());
        lemma_first_option_match(opts, prev.1, names.last());
        match first_option_match(opts, prev.1, names.last()) {
            Some(p) => {
                lemma_move(prev.0, prev.1, p);
            },
            None => {},
        }
    }
}

/// The option groups and the options they leave hold the options that were
/// to be shown, each once.
pub proof fn law_option_groups_keep_options(
    cfg: RichHelpConfig,
    opts: Seq<OptionInfo>,
    groups: Seq<crate::config::GroupConfig>,
    rem: Seq<usize>,
)
    ensures
        members_of(option_group_plans(cfg, opts, groups, rem).0).to_multiset().add(
            option_group_plans(cfg, opts, groups, rem).1.to_multiset(),
        ) == rem.to_multiset(),
    decreases groups.len(),
{
    if groups.len() == 0 {
        assert(members_of(Seq::<PanelPlan>::empty()).to_multiset() =~= Multiset::empty());
        assert(Multiset::<usize>::empty().add(rem.to_multiset()) =~= rem.to_multiset());
    } else {
        law_option_groups_keep_options(cfg, opts, groups.drop_last(), rem);
        let prev = option_group_plans(cfg, opts, groups.drop_last(), rem);
        let g = groups.last();
        law_option_partition_keeps_options(opts, prev.1, crate::text::views(g.items@));
        let split = partition_options_spec(opts, prev.1, crate::text::views(g.items@));
        let r = option_group_plans(cfg, opts, groups, rem);
        if split.0.len() > 0 {
            assert(r.0.drop_last() == prev.0);
            vstd::seq_lib::lemma_multiset_commutative(members_of(prev.0), split.0);
        } else {
            assert(split.0.to_multiset() =~= Multiset::empty());
        }
    }
}

/// Every option shown on a help page lands in exactly one panel: the
/// members of all options panels are the shown options, each once.
pub proof fn law_every_option_in_one_panel(cfg: RichHelpConfig, opts: Seq<OptionInfo>, shown: Seq<usize>)
    ensures
        members_of(option_plans(cfg, opts, shown)).to_multiset() == shown.to_multiset(),
{
    law_option_groups_keep_options(cfg, opts, cfg.option_groups@, shown);
    let r = option_group_plans(cfg, opts, cfg.option_groups@, shown);
    let plans = option_plans(cfg, opts, shown);
    if r.1.len() == 0 {
        assert(r.1.to_multiset() =~= Multiset::empty());
        assert(members_of(r.0).to_multiset().add(Multiset::empty()) =~= members_of(r.0).to_multiset());
    } else {
        let d = plans.last();
        if plans.len() > 0 && plans[0].1 == r.1 && plans == seq![plans[0]] + r.0 {
            lemma_members_prepend(plans[0], r.0);
            vstd::seq_lib::lemma_multiset_commutative(r.1, members_of(r.0));
        } else {
            assert(plans.drop_last() == r.0);
            vstd::seq_lib::lemma_multiset_commutative(members_of(r.0), r.1);
        }
    }
}

/// Picking commands for a group moves them from the remaining entries to the
/// group: together the two hold the entries that remained, each once.
pub proof fn law_command_partition_keeps_entries(es: Seq<CommandEntry>, rem: Seq<usize>, names: Seq<Seq<char>>)
    ensures
        partition_commands_spec(es, rem, names).0.to_multiset().add(partition_commands_spec(es, rem, names).1.to_multiset())
            == rem.to_multiset(),
    decreases names.len(),
{
    if names.len() == 0 {
        assert(Seq::<usize>::empty().to_multiset() =~= Multiset::empty());
        assert(Multiset::<usize>::empty().add(rem.to_multiset()) =~= rem.to_multiset());
    } else {
        law_command_partition_keeps_entries(es, rem, names.drop_last());
        let prev = partition_commands_spec(es, rem, names.drop_last());
        lemma_first_command_match(es, prev.1, names.last());
        match first_command_match(es, prev.1, names.last()) {
            Some(p) => {
                lemma_move(prev.0, prev.1, p);
            },
            None => {},
        }
    }
}

proof fn lemma_command_groups_keep(
    cfg: RichHelpConfig,
    es: Seq<CommandEntry>,
    groups: Seq<crate::config::GroupConfig>,
    rem: Seq<usize>,
)
    ensures
        members_of(command_group_plans(cfg, es, groups, rem).0).to_multiset().add(
            command_group_plans(cfg, es, groups, rem).1.to_multiset(),
        ) == rem.to_multiset(),
    decreases groups.len(),
{
    if groups.len() == 0 {
        assert(members_of(Seq::<PanelPlan>::empty()).to_multiset() =~= Multiset::empty());
        assert(Multiset::<usize>::empty().add(rem.to_multiset()) =~= rem.to_multiset());
    } else {
        lemma_command_groups_keep(cfg, es, groups.drop_last(), rem);
        let prev = command_group_plans(cfg, es, groups.drop_last(), rem);
        let g = groups.last();
        law_command_partition_keeps_entries(es, prev.1, crate::text::views(g.items@));
        let split = partition_commands_spec(es, prev.1, crate::text::views(g.items@));
        let r = command_group_plans(cfg, es, groups, rem);
        if split.0.len() > 0 {
            assert(r.0.drop_last() == prev.0);
            vstd::seq_lib::lemma_multiset_commutative(members_of(prev.0), split.0);
        } else {
            assert(split.0.to_multiset() =~= Multiset::empty());
        }
    }
}

/// Every subcommand entry lands in exactly one commands panel: those the
/// groups name in their panels, the others in the default panel.
pub proof fn law_every_command_in_one_panel(cfg: RichHelpConfig, es: Seq<CommandEntry>)
    ensures
        members_of(command_plans(cfg, es)).to_multiset() == all_positions(es.len()).to_multiset(),
{
    let all = all_positions(es.len());
    lemma_command_groups_keep(cfg, es, cfg.command_groups@, all);
    let r = command_group_plans(cfg, es, cfg.command_groups@, all);
    let plans = command_plans(cfg, es);
    if r.1.len() == 0 {
        assert(r.1.to_multiset() =~= Multiset::empty());
        assert(members_of(r.0).to_multiset().add(Multiset::empty()) =~= members_of(r.0).to_multiset());
    } else {
        if plans.len() > 0 && plans[0].1 == r.1 && plans == seq![plans[0]] + r.0 {
            lemma_members_prepend(plans[0], r.0);
            vstd::seq_lib::lemma_multiset_commutative(r.1, members_of(r.0));
        } else {
            assert(plans.drop_last() == r.0);
            vstd::seq_lib::lemma_multiset_commutative(members_of(r.0), r.1);
        }
    }
}

/// With prompts off (the default), no part of an option's help is a prompt
/// label.
pub proof fn law_no_prompt_when_off(cfg: RichHelpConfig, opt: OptionInfo)
    requires
        !cfg.show_prompt,
    ensures
        forall|i: int| 0 <= i < help_parts(cfg, opt).len() ==> {
            let k = (#[trigger] help_parts(cfg, opt)[i]).0;
            k != PartKind::Prompt && k != PartKind::TrailingPrompt
        },
{
    lemma_sections_no_prompt(cfg, opt, crate::text::views(cfg.options_table_help_sections@));
}

proof fn lemma_sections_no_prompt(cfg: RichHelpConfig, opt: OptionInfo, sections: Seq<Seq<char>>)
    requires
        !cfg.show_prompt,
    ensures
        forall|i: int| 0 <= i < section_parts(cfg, opt, sections).len() ==> {
            let k = (#[trigger] section_parts(cfg, opt, sections)[i]).0;
            k != PartKind::Prompt && k != PartKind::TrailingPrompt
        },
    decreases sections.len(),
{
    if sections.len() > 0 {
        lemma_sections_no_prompt(cfg, opt, sections.drop_last());
    }
}

/// With parameter sources off (the default), an error report looks up no
/// parameter and its message is the error's own.
pub proof fn law_no_param_source_when_off(cfg: RichHelpConfig, e: ErrorInfo, source: Option<Seq<char>>)
    requires
        !cfg.errors_show_param_source,
    ensures
        error_param_names_spec(cfg, e).len() == 0,
        error_message_spec(cfg, e, source) == if e.kind == ErrorKind::Abort {
            cfg.aborted_text@
        } else {
            e.message@
        },
{
}


/// White space around a parameter name does not change the name it
/// normalises to: a name normalises as its trimmed form does, and as the
/// name with any white space put before and after it.
pub proof fn law_normalize_ignores_surrounding_ws(v: Seq<char>, before: Seq<char>, after: Seq<char>)
    requires
        all_ws(before),
        all_ws(after),
    ensures
        normalized_param_spec(trim_spec(v)) == normalized_param_spec(v),
        normalized_param_spec(before + v + after) == normalized_param_spec(v),
{
    lemma_trim_idempotent(v);
    lemma_trim_surrounded(before, v, after);
}

/// Synchronising the render settings twice gives the settings the first
/// synchronisation gave.
pub proof fn law_sync_idempotent(a: RichHelpConfig, b: RichHelpConfig, c: RichHelpConfig)
    requires
        synced(a, b),
        synced(b, c),
    ensures
        c.text_emojis == b.text_emojis,
        c.panel_options == b.panel_options,
        c.panel_commands == b.panel_commands,
        c.panel_arguments == b.panel_arguments,
        c.table_options.same_as(&b.table_options),
        c.table_commands.same_as(&b.table_commands),
        c.table_arguments.same_as(&b.table_arguments),
        agrees_except(b, c, sync_fields()),
{
    reveal(agrees_except);
}

/// The entries of a group's subcommands are determined: two lists that both
/// meet the description of `collect_commands` are the same.
pub proof fn law_entries_determined(
    cfg: RichHelpConfig,
    subs: Seq<crate::model::SubcommandInfo>,
    a: Seq<crate::commands::EntryView>,
    b: Seq<crate::commands::EntryView>,
)
    requires
        entries_of(cfg, subs, a),
        entries_of(cfg, subs, b),
    ensures
        a == b,
{
    let pos = crate::commands::listed(cfg, subs);
    assert forall|i: int| 0 <= i < a.len() implies a[i] == b[i] by {
        assert(entry_of(cfg, subs[pos[i]], a[i]));
        assert(entry_of(cfg, subs[pos[i]], b[i]));
        let raw = crate::commands::raw_aliases(cfg, subs[pos[i]]);
        let canon = crate::commands::canonical_name(subs[pos[i]]);
        assert forall|x: Seq<char>| #![trigger a[i].2.contains(x)] #![trigger b[i].2.contains(x)]
            a[i].2.contains(x) <==> b[i].2.contains(x) by {
            assert(a[i].2.contains(x) <==> (raw.contains(x) && x != canon));
            assert(b[i].2.contains(x) <==> (raw.contains(x) && x != canon));
        }
        crate::order::lemma_sorted_unique(a[i].2, b[i].2);
    }
    assert(a =~= b);
}


// ---------------------------------------------------------------------------
// What single settings and cells do.
// ---------------------------------------------------------------------------

/// An option that a name matches comes first, or an earlier remaining one
/// that the name also matches is taken in its place.
proof fn lemma_first_option_match_before(opts: Seq<OptionInfo>, rem: Seq<usize>, name: Seq<char>, q: int)
    requires
        0 <= q < rem.len(),
        crate::panels::option_matches(opts[rem[q] as int], name),
    ensures
        first_option_match(opts, rem, name) matches Some(p) && 0 <= p <= q,
    decreases rem.len(),
{
    if !crate::panels::option_matches(opts[rem[0] as int], name) {
        assert(rem.skip(1)[q - 1] == rem[q]);
        lemma_first_option_match_before(opts, rem.skip(1), name, q - 1);
    }
}

/// A group item names an option when it is the option's parameter name, one
/// of its long or short spellings, or a long spelling without its dashes.
/// Such an item takes exactly one remaining option, none later than the
/// first it names, and leaves the others; an item that takes an option
/// names it.
pub proof fn law_item_takes_named_option(opts: Seq<OptionInfo>, rem: Seq<usize>, name: Seq<char>, q: int)
    requires
        0 <= q < rem.len(),
        ({
            let o = opts[rem[q] as int];
            ||| o.name@ == name
            ||| views(o.long@).contains(name)
            ||| views(o.short@).contains(name)
            ||| exists|k: int| 0 <= k < o.long@.len() && crate::text::strip_all_prefix(#[trigger] o.long@[k]@, "-"@) == name
        }),
    ensures
        partition_options_spec(opts, rem, seq![name]).0.len() == 1,
        exists|p: int|
            0 <= p <= q && partition_options_spec(opts, rem, seq![name]).0[0] == rem[p]
                && partition_options_spec(opts, rem, seq![name]).1 == rem.remove(p),
{
    lemma_first_option_match_before(opts, rem, name, q);
    let p = first_option_match(opts, rem, name)->Some_0;
    let names = seq![name];
    assert(names.drop_last() =~= Seq::<Seq<char>>::empty());
    assert(names.last() == name);
    assert(partition_options_spec(opts, rem, names.drop_last()) == (Seq::<usize>::empty(), rem));
    assert(partition_options_spec(opts, rem, names) == (Seq::<usize>::empty().push(rem[p]), rem.remove(p)));
    assert(Seq::<usize>::empty().push(rem[p])[0] == rem[p]);
}

/// An item takes an option only when it names it: its parameter name, one
/// of its spellings, or a long spelling without its dashes.
pub proof fn law_item_takes_only_named_option(opts: Seq<OptionInfo>, rem: Seq<usize>, name: Seq<char>)
    requires
        partition_options_spec(opts, rem, seq![name]).0.len() > 0,
    ensures
        ({
            let o = opts[partition_options_spec(opts, rem, seq![name]).0[0] as int];
            ||| o.name@ == name
            ||| views(o.long@).contains(name)
            ||| views(o.short@).contains(name)
            ||| exists|k: int| 0 <= k < o.long@.len() && crate::text::strip_all_prefix(#[trigger] o.long@[k]@, "-"@) == name
        }),
{
    let names = seq![name];
    assert(names.drop_last() =~= Seq::<Seq<char>>::empty());
    assert(names.last() == name);
    assert(partition_options_spec(opts, rem, names.drop_last()) == (Seq::<usize>::empty(), rem));
    lemma_first_option_match(opts, rem, name);
    let p = first_option_match(opts, rem, name)->Some_0;
    assert(partition_options_spec(opts, rem, names) == (Seq::<usize>::empty().push(rem[p]), rem.remove(p)));
    assert(Seq::<usize>::empty().push(rem[p])[0] == rem[p]);
}

/// With a single option group whose one item is a long spelling of a shown
/// option, that group gets a panel of its own, titled with the group's name
/// and holding one option, and the option it holds is no longer among the
/// options left to the default panel.
pub proof fn law_long_spelling_group_gets_panel(
    cfg: RichHelpConfig,
    opts: Seq<OptionInfo>,
    shown: Seq<usize>,
    q: int,
)
    requires
        cfg.option_groups@.len() == 1,
        views(cfg.option_groups@[0].items@).len() == 1,
        0 <= q < shown.len(),
        views(opts[shown[q] as int].long@).contains(views(cfg.option_groups@[0].items@)[0]),
    ensures
        option_group_plans(cfg, opts, cfg.option_groups@, shown).0.len() == 1,
        option_group_plans(cfg, opts, cfg.option_groups@, shown).0[0].0 == cfg.option_groups@[0].name@,
        option_group_plans(cfg, opts, cfg.option_groups@, shown).0[0].1.len() == 1,
        option_group_plans(cfg, opts, cfg.option_groups@, shown).1.len() == shown.len() - 1,
{
    let groups = cfg.option_groups@;
    let g = groups[0];
    let name = views(g.items@)[0];
    assert(views(g.items@) =~= seq![name]);
    law_item_takes_named_option(opts, shown, name, q);
    assert(groups.drop_last() =~= Seq::<crate::config::GroupConfig>::empty());
    assert(groups.last() == g);
    assert(option_group_plans(cfg, opts, groups.drop_last(), shown) == (Seq::<PanelPlan>::empty(), shown));
    let split = partition_options_spec(opts, shown, views(g.items@));
    assert(split.0.len() == 1);
    let p = choose|p: int| 0 <= p <= q && split.0[0] == shown[p] && split.1 == shown.remove(p);
    assert(split.1.len() == shown.len() - 1);
    assert(option_group_plans(cfg, opts, groups, shown) == (
        Seq::<PanelPlan>::empty().push(crate::panels::group_plan(cfg, g, split.0, cfg.panel_options.title_style@, cfg.style_options_panel_help_style@)),
        split.1,
    ));
}

/// The text a cell shows.
pub open spec fn cell_text(c: crate::doc::CellView) -> Seq<char> {
    match c {
        crate::doc::CellView::Text(t) => crate::page::styled_plain(t.1),
        crate::doc::CellView::Markdown(m) => m,
    }
}

/// The required column of an option row shows the short required marker
/// exactly when the option is required, and nothing otherwise.
pub proof fn law_required_cell(cfg: RichHelpConfig, opt: OptionInfo, cols: Seq<Seq<char>>, k: int)
    requires
        0 <= k < cols.len(),
        cols[k] == "required"@,
    ensures
        cell_text(crate::option_table::option_row_spec(cfg, opt, cols)[k]) == if opt.required {
            cfg.required_short_string@
        } else {
            Seq::<char>::empty()
        },
        crate::option_table::option_row_spec(cfg, opt, cols)[k] matches crate::doc::CellView::Text(c)
            && (opt.required ==> c.0 == cfg.style_required_short@),
        opt.required ==> crate::option_table::option_cell_spec(cfg, opt, cols[k]) is Some,
        !opt.required ==> crate::option_table::option_cell_spec(cfg, opt, cols[k]) is None,
{
    let segs = if opt.required {
        seq![(crate::doc::SegmentKind::Plain, cfg.required_short_string@, None::<Seq<char>>)]
    } else {
        seq![(crate::doc::SegmentKind::Plain, ""@, None::<Seq<char>>)]
    };
    assert(segs.drop_last() =~= Seq::<crate::doc::SegmentView>::empty());
    assert(crate::page::styled_plain(segs) == crate::page::styled_plain(segs.drop_last()) + segs.last().1);
    assert(crate::page::styled_plain(segs) =~= segs[0].1);
    reveal_strlit("");
    assert(""@ =~= Seq::<char>::empty());
}


/// The label an option's prompt gets from a template: the template with the
/// prompt text in place of `{}`, or the template itself when it has no `{}`.
pub open spec fn label_from(template: Seq<char>, prompt: Seq<char>) -> Seq<char> {
    if crate::text::contains_seq(template, "{}"@) {
        crate::option_help::fill(template, prompt)
    } else {
        template
    }
}

/// With prompts shown, the label of an option that prompts comes from the
/// template for its kind of prompt: a hidden input asked twice takes the
/// confirmed hidden one, a hidden input asked once the hidden one, a visible
/// input asked twice the confirmed one, and any other the plain one.
pub proof fn law_prompt_label_template(cfg: RichHelpConfig, opt: OptionInfo)
    requires
        cfg.show_prompt,
        opt.prompt is Some,
    ensures
        opt.confirmation_prompt && opt.hide_input ==> crate::option_help::prompt_label_spec(cfg, opt) == Some(
            label_from(cfg.prompt_confirm_hidden_string@, opt.prompt->Some_0@),
        ),
        !opt.confirmation_prompt && opt.hide_input ==> crate::option_help::prompt_label_spec(cfg, opt) == Some(
            label_from(cfg.prompt_hidden_string@, opt.prompt->Some_0@),
        ),
        opt.confirmation_prompt && !opt.hide_input ==> crate::option_help::prompt_label_spec(cfg, opt) == Some(
            label_from(cfg.prompt_confirm_string@, opt.prompt->Some_0@),
        ),
        !opt.confirmation_prompt && !opt.hide_input ==> crate::option_help::prompt_label_spec(cfg, opt) == Some(
            label_from(cfg.prompt_string@, opt.prompt->Some_0@),
        ),
{
}

/// The name a markup setting is given by in an override.
pub open spec fn markup_name(m: crate::config::TextMarkup) -> Seq<char> {
    match m {
        crate::config::TextMarkup::Ansi => "ansi"@,
        crate::config::TextMarkup::Rich => "rich"@,
        crate::config::TextMarkup::Markdown => "markdown"@,
        crate::config::TextMarkup::NoMarkup => "none"@,
    }
}

proof fn lemma_markup_key_not_usize_opt_keys()
    ensures
        !crate::config::usize_opt_keys("text_markup"@),
{
    reveal_strlit("text_markup");
    reveal_strlit("width");
    assert("text_markup"@.len() != "width"@.len());
    reveal_strlit("max_width");
    assert("text_markup"@.len() != "max_width"@.len());
}

proof fn lemma_markup_key_not_color_keys()
    ensures
        !crate::config::color_keys("text_markup"@),
{
    reveal_strlit("text_markup");
    reveal_strlit("color_system");
    assert("text_markup"@.len() != "color_system"@.len());
}

proof fn lemma_markup_key_not_bool_opt_keys()
    ensures
        !crate::config::bool_opt_keys("text_markup"@),
{
    reveal_strlit("text_markup");
    reveal_strlit("force_terminal");
    assert("text_markup"@.len() != "force_terminal"@.len());
    reveal_strlit("show_arguments");
    assert("text_markup"@.len() != "show_arguments"@.len());
    reveal_strlit("show_commands");
    assert("text_markup"@.len() != "show_commands"@.len());
    reveal_strlit("show_metavars_column");
    assert("text_markup"@.len() != "show_metavars_column"@.len());
    reveal_strlit("append_metavars_help");
    assert("text_markup"@.len() != "append_metavars_help"@.len());
    reveal_strlit("option_envvar_first");
    assert("text_markup"@.len() != "option_envvar_first"@.len());
    reveal_strlit("text_emojis");
    assert("text_markup"@[5] != "text_emojis"@[5]);
}

proof fn lemma_markup_key_not_str_keys()
    ensures
        !crate::config::str_keys("text_markup"@),
{
    reveal_strlit("text_markup");
    reveal_strlit("panel_title_string");
    assert("text_markup"@.len() != "panel_title_string"@.len());
    reveal_strlit("deprecated_string");
    assert("text_markup"@.len() != "deprecated_string"@.len());
    reveal_strlit("deprecated_with_reason_string");
    assert("text_markup"@.len() != "deprecated_with_reason_string"@.len());
    reveal_strlit("default_string");
    assert("text_markup"@.len() != "default_string"@.len());
    reveal_strlit("envvar_string");
    assert("text_markup"@.len() != "envvar_string"@.len());
    reveal_strlit("required_short_string");
    assert("text_markup"@.len() != "required_short_string"@.len());
    reveal_strlit("required_long_string");
    assert("text_markup"@.len() != "required_long_string"@.len());
    reveal_strlit("range_string");
    assert("text_markup"@.len() != "range_string"@.len());
    reveal_strlit("append_metavars_help_string");
    assert("text_markup"@.len() != "append_metavars_help_string"@.len());
    reveal_strlit("append_range_help_string");
    assert("text_markup"@.len() != "append_range_help_string"@.len());
    reveal_strlit("delimiter_comma");
    assert("text_markup"@.len() != "delimiter_comma"@.len());
    reveal_strlit("delimiter_slash");
    assert("text_markup"@.len() != "delimiter_slash"@.len());
    reveal_strlit("options_panel_title");
    assert("text_markup"@.len() != "options_panel_title"@.len());
    reveal_strlit("commands_panel_title");
    assert("text_markup"@.len() != "commands_panel_title"@.len());
    reveal_strlit("arguments_panel_title");
    assert("text_markup"@.len() != "arguments_panel_title"@.len());
    reveal_strlit("errors_panel_title");
    assert("text_markup"@.len() != "errors_panel_title"@.len());
    reveal_strlit("aborted_text");
    assert("text_markup"@.len() != "aborted_text"@.len());
    reveal_strlit("errors_param_source_format");
    assert("text_markup"@.len() != "errors_param_source_format"@.len());
    reveal_strlit("prompt_string");
    assert("text_markup"@.len() != "prompt_string"@.len());
    reveal_strlit("prompt_confirm_string");
    assert("text_markup"@.len() != "prompt_confirm_string"@.len());
    reveal_strlit("prompt_hidden_string");
    assert("text_markup"@.len() != "prompt_hidden_string"@.len());
    reveal_strlit("prompt_confirm_hidden_string");
    assert("text_markup"@.len() != "prompt_confirm_hidden_string"@.len());
    reveal_strlit("panel_inline_help_delimiter");
    assert("text_markup"@.len() != "panel_inline_help_delimiter"@.len());
}

proof fn lemma_markup_key_not_bool_keys()
    ensures
        !crate::config::bool_keys("text_markup"@),
{
    reveal_strlit("text_markup");
    reveal_strlit("errors_show_param_source");
    assert("text_markup"@.len() != "errors_show_param_source"@.len());
    reveal_strlit("show_prompt");
    assert("text_markup"@[0] != "show_prompt"@[0]);
    reveal_strlit("style_options_table_show_lines");
    assert("text_markup"@.len() != "style_options_table_show_lines"@.len());
    reveal_strlit("style_commands_table_show_lines");
    assert("text_markup"@.len() != "style_commands_table_show_lines"@.len());
    reveal_strlit("style_options_table_pad_edge");
    assert("text_markup"@.len() != "style_options_table_pad_edge"@.len());
    reveal_strlit("style_commands_table_pad_edge");
    assert("text_markup"@.len() != "style_commands_table_pad_edge"@.len());
    reveal_strlit("style_options_table_collapse_padding");
    assert("text_markup"@.len() != "style_options_table_collapse_padding"@.len());
    reveal_strlit("style_commands_table_collapse_padding");
    assert("text_markup"@.len() != "style_commands_table_collapse_padding"@.len());
    reveal_strlit("style_options_table_expand");
    assert("text_markup"@.len() != "style_options_table_expand"@.len());
    reveal_strlit("style_commands_table_expand");
    assert("text_markup"@.len() != "style_commands_table_expand"@.len());
    reveal_strlit("panel_inline_help_in_title");
    assert("text_markup"@.len() != "panel_inline_help_in_title"@.len());
    reveal_strlit("commands_before_options");
    assert("text_markup"@.len() != "commands_before_options"@.len());
    reveal_strlit("default_panels_first");
    assert("text_markup"@.len() != "default_panels_first"@.len());
    reveal_strlit("group_arguments_options");
    assert("text_markup"@.len() != "group_arguments_options"@.len());
    reveal_strlit("use_click_short_help");
    assert("text_markup"@.len() != "use_click_short_help"@.len());
    reveal_strlit("helptext_show_aliases");
    assert("text_markup"@.len() != "helptext_show_aliases"@.len());
}

proof fn lemma_markup_key_not_style_keys()
    ensures
        !crate::config::style_keys("text_markup"@),
{
    reveal_strlit("text_markup");
    reveal_strlit("style_option");
    assert("text_markup"@.len() != "style_option"@.len());
    reveal_strlit("style_argument");
    assert("text_markup"@.len() != "style_argument"@.len());
    reveal_strlit("style_command");
    assert("text_markup"@.len() != "style_command"@.len());
    reveal_strlit("style_command_aliases");
    assert("text_markup"@.len() != "style_command_aliases"@.len());
    reveal_strlit("style_switch");
    assert("text_markup"@.len() != "style_switch"@.len());
    reveal_strlit("style_metavar");
    assert("text_markup"@.len() != "style_metavar"@.len());
    reveal_strlit("style_metavar_append");
    assert("text_markup"@.len() != "style_metavar_append"@.len());
    reveal_strlit("style_metavar_separator");
    assert("text_markup"@.len() != "style_metavar_separator"@.len());
    reveal_strlit("style_header_text");
    assert("text_markup"@.len() != "style_header_text"@.len());
    reveal_strlit("style_epilog_text");
    assert("text_markup"@.len() != "style_epilog_text"@.len());
    reveal_strlit("style_footer_text");
    assert("text_markup"@.len() != "style_footer_text"@.len());
    reveal_strlit("style_usage");
    assert("text_markup"@[0] != "style_usage"@[0]);
    reveal_strlit("style_usage_command");
    assert("text_markup"@.len() != "style_usage_command"@.len());
    reveal_strlit("style_usage_separator");
    assert("text_markup"@.len() != "style_usage_separator"@.len());
    reveal_strlit("style_deprecated");
    assert("text_markup"@.len() != "style_deprecated"@.len());
    reveal_strlit("style_helptext_first_line");
    assert("text_markup"@.len() != "style_helptext_first_line"@.len());
    reveal_strlit("style_helptext");
    assert("text_markup"@.len() != "style_helptext"@.len());
    reveal_strlit("style_option_help");
    assert("text_markup"@.len() != "style_option_help"@.len());
    reveal_strlit("style_command_help");
    assert("text_markup"@.len() != "style_command_help"@.len());
    reveal_strlit("style_option_default");
    assert("text_markup"@.len() != "style_option_default"@.len());
    reveal_strlit("style_option_envvar");
    assert("text_markup"@.len() != "style_option_envvar"@.len());
    reveal_strlit("style_required_short");
    assert("text_markup"@.len() != "style_required_short"@.len());
    reveal_strlit("style_required_long");
    assert("text_markup"@.len() != "style_required_long"@.len());
    reveal_strlit("style_options_panel_border");
    assert("text_markup"@.len() != "style_options_panel_border"@.len());
    reveal_strlit("style_commands_panel_border");
    assert("text_markup"@.len() != "style_commands_panel_border"@.len());
    reveal_strlit("style_errors_panel_border");
    assert("text_markup"@.len() != "style_errors_panel_border"@.len());
    reveal_strlit("style_options_panel_help_style");
    assert("text_markup"@.len() != "style_options_panel_help_style"@.len());
    reveal_strlit("style_commands_panel_help_style");
    assert("text_markup"@.len() != "style_commands_panel_help_style"@.len());
    reveal_strlit("style_options_panel_title_style");
    assert("text_markup"@.len() != "style_options_panel_title_style"@.len());
    reveal_strlit("style_commands_panel_title_style");
    assert("text_markup"@.len() != "style_commands_panel_title_style"@.len());
    reveal_strlit("style_options_panel_style");
    assert("text_markup"@.len() != "style_options_panel_style"@.len());
    reveal_strlit("style_commands_panel_style");
    assert("text_markup"@.len() != "style_commands_panel_style"@.len());
    reveal_strlit("style_padding_usage");
    assert("text_markup"@.len() != "style_padding_usage"@.len());
    reveal_strlit("style_padding_helptext");
    assert("text_markup"@.len() != "style_padding_helptext"@.len());
    reveal_strlit("style_padding_epilog");
    assert("text_markup"@.len() != "style_padding_epilog"@.len());
    reveal_strlit("style_padding_errors");
    assert("text_markup"@.len() != "style_padding_errors"@.len());
    reveal_strlit("style_aborted");
    assert("text_markup"@.len() != "style_aborted"@.len());
    reveal_strlit("style_options_table_border_style");
    assert("text_markup"@.len() != "style_options_table_border_style"@.len());
    reveal_strlit("style_commands_table_border_style");
    assert("text_markup"@.len() != "style_commands_table_border_style"@.len());
}

proof fn lemma_markup_key_not_opt_style_keys()
    ensures
        !crate::config::opt_style_keys("text_markup"@),
{
    reveal_strlit("text_markup");
    reveal_strlit("style_option_negative");
    assert("text_markup"@.len() != "style_option_negative"@.len());
    reveal_strlit("style_switch_negative");
    assert("text_markup"@.len() != "style_switch_negative"@.len());
    reveal_strlit("style_range_append");
    assert("text_markup"@.len() != "style_range_append"@.len());
    reveal_strlit("style_helptext_aliases");
    assert("text_markup"@.len() != "style_helptext_aliases"@.len());
}

proof fn lemma_markup_key_not_box_keys()
    ensures
        !crate::config::box_keys("text_markup"@),
{
    reveal_strlit("text_markup");
    reveal_strlit("style_options_panel_box");
    assert("text_markup"@.len() != "style_options_panel_box"@.len());
    reveal_strlit("style_commands_panel_box");
    assert("text_markup"@.len() != "style_commands_panel_box"@.len());
    reveal_strlit("style_errors_panel_box");
    assert("text_markup"@.len() != "style_errors_panel_box"@.len());
    reveal_strlit("style_options_table_box");
    assert("text_markup"@.len() != "style_options_table_box"@.len());
    reveal_strlit("style_commands_table_box");
    assert("text_markup"@.len() != "style_commands_table_box"@.len());
}

proof fn lemma_markup_key_not_ratio_keys()
    ensures
        !crate::config::ratio_keys("text_markup"@),
{
    reveal_strlit("text_markup");
    reveal_strlit("style_commands_table_column_width_ratio");
    assert("text_markup"@.len() != "style_commands_table_column_width_ratio"@.len());
}

proof fn lemma_markup_key_not_usize_keys()
    ensures
        !crate::config::usize_keys("text_markup"@),
{
    reveal_strlit("text_markup");
    reveal_strlit("style_options_table_leading");
    assert("text_markup"@.len() != "style_options_table_leading"@.len());
    reveal_strlit("style_commands_table_leading");
    assert("text_markup"@.len() != "style_commands_table_leading"@.len());
    reveal_strlit("panel_title_padding");
    assert("text_markup"@.len() != "panel_title_padding"@.len());
}

proof fn lemma_markup_key_not_str_list_keys()
    ensures
        !crate::config::str_list_keys("text_markup"@),
{
    reveal_strlit("text_markup");
    reveal_strlit("style_options_table_row_styles");
    assert("text_markup"@.len() != "style_options_table_row_styles"@.len());
    reveal_strlit("style_commands_table_row_styles");
    assert("text_markup"@.len() != "style_commands_table_row_styles"@.len());
    reveal_strlit("options_table_column_types");
    assert("text_markup"@.len() != "options_table_column_types"@.len());
    reveal_strlit("commands_table_column_types");
    assert("text_markup"@.len() != "commands_table_column_types"@.len());
    reveal_strlit("options_table_help_sections");
    assert("text_markup"@.len() != "options_table_help_sections"@.len());
    reveal_strlit("commands_table_help_sections");
    assert("text_markup"@.len() != "commands_table_help_sections"@.len());
}

proof fn lemma_markup_key_not_padding_keys()
    ensures
        !crate::config::padding_keys("text_markup"@),
{
    reveal_strlit("text_markup");
    reveal_strlit("style_options_panel_padding");
    assert("text_markup"@.len() != "style_options_panel_padding"@.len());
    reveal_strlit("style_commands_panel_padding");
    assert("text_markup"@.len() != "style_commands_panel_padding"@.len());
    reveal_strlit("style_options_table_padding");
    assert("text_markup"@.len() != "style_options_table_padding"@.len());
    reveal_strlit("style_commands_table_padding");
    assert("text_markup"@.len() != "style_commands_table_padding"@.len());
    reveal_strlit("padding_header_text");
    assert("text_markup"@.len() != "padding_header_text"@.len());
    reveal_strlit("padding_usage");
    assert("text_markup"@.len() != "padding_usage"@.len());
    reveal_strlit("padding_helptext");
    assert("text_markup"@.len() != "padding_helptext"@.len());
    reveal_strlit("padding_helptext_deprecated");
    assert("text_markup"@.len() != "padding_helptext_deprecated"@.len());
    reveal_strlit("padding_helptext_first_line");
    assert("text_markup"@.len() != "padding_helptext_first_line"@.len());
    reveal_strlit("padding_epilog");
    assert("text_markup"@.len() != "padding_epilog"@.len());
    reveal_strlit("padding_footer_text");
    assert("text_markup"@.len() != "padding_footer_text"@.len());
    reveal_strlit("padding_errors_panel");
    assert("text_markup"@.len() != "padding_errors_panel"@.len());
    reveal_strlit("padding_errors_suggestion");
    assert("text_markup"@.len() != "padding_errors_suggestion"@.len());
    reveal_strlit("padding_errors_epilogue");
    assert("text_markup"@.len() != "padding_errors_epilogue"@.len());
}

proof fn lemma_markup_key_not_align_keys()
    ensures
        !crate::config::align_keys("text_markup"@),
{
    reveal_strlit("text_markup");
    reveal_strlit("align_options_panel");
    assert("text_markup"@.len() != "align_options_panel"@.len());
    reveal_strlit("align_commands_panel");
    assert("text_markup"@.len() != "align_commands_panel"@.len());
    reveal_strlit("align_errors_panel");
    assert("text_markup"@.len() != "align_errors_panel"@.len());
}

/// `text_markup` is a key of the markup settings alone.
proof fn lemma_text_markup_key()
    ensures
        !crate::config::usize_opt_keys("text_markup"@),
        !crate::config::color_keys("text_markup"@),
        !crate::config::bool_opt_keys("text_markup"@),
        !crate::config::str_keys("text_markup"@),
        !crate::config::bool_keys("text_markup"@),
        !crate::config::style_keys("text_markup"@),
        !crate::config::opt_style_keys("text_markup"@),
        !crate::config::box_keys("text_markup"@),
        !crate::config::ratio_keys("text_markup"@),
        !crate::config::usize_keys("text_markup"@),
        !crate::config::str_list_keys("text_markup"@),
        !crate::config::padding_keys("text_markup"@),
        !crate::config::align_keys("text_markup"@),
        crate::config::markup_keys("text_markup"@),
{
    lemma_markup_key_not_usize_opt_keys();
    lemma_markup_key_not_color_keys();
    lemma_markup_key_not_bool_opt_keys();
    lemma_markup_key_not_str_keys();
    lemma_markup_key_not_bool_keys();
    lemma_markup_key_not_style_keys();
    lemma_markup_key_not_opt_style_keys();
    lemma_markup_key_not_box_keys();
    lemma_markup_key_not_ratio_keys();
    lemma_markup_key_not_usize_keys();
    lemma_markup_key_not_str_list_keys();
    lemma_markup_key_not_padding_keys();
    lemma_markup_key_not_align_keys();
}

/// Overriding `text_markup` with the name of a markup sets that markup and
/// changes nothing else; a value that names no markup changes nothing.
pub proof fn law_text_markup_override(
    old: RichHelpConfig,
    new: RichHelpConfig,
    v: crate::json::JsonValue,
    m: crate::config::TextMarkup,
)
    requires
        crate::config::overridden(old, new, "text_markup"@, v),
    ensures
        v.spec_as_str() matches Some(s) && s@ == markup_name(m) ==> new.text_markup == m
            && agrees_except(old, new, set![crate::config::ConfigField::TextMarkup]),
        (forall|k: crate::config::TextMarkup| !(v.spec_as_str() matches Some(s) && s@ == #[trigger] markup_name(k)))
            ==> crate::config::unchanged(old, new),
{
    lemma_text_markup_key();
    reveal_strlit("ansi");
    reveal_strlit("rich");
    reveal_strlit("markdown");
    reveal_strlit("none");
    reveal_strlit("text_markup");
    assert("ansi"@[0] != "rich"@[0]);
    assert("ansi"@[0] != "none"@[0]);
    assert("rich"@[0] != "none"@[0]);
    assert("markdown"@.len() != "ansi"@.len());
    if let Some(s) = v.spec_as_str() {
        if crate::config::text_markup_spec(v) is None {
            assert(s@ != markup_name(crate::config::TextMarkup::Ansi));
        } else {
            let x = crate::config::text_markup_spec(v)->Some_0;
            assert(s@ == markup_name(x));
        }
    }
}


/// The words read as yes, in lower case.
pub open spec fn yes_words() -> Seq<Seq<char>> {
    seq!["1"@, "true"@, "yes"@, "on"@]
}

/// The words read as no, in lower case.
pub open spec fn no_words() -> Seq<Seq<char>> {
    seq!["0"@, "false"@, "no"@, "off"@]
}

/// A text that neither begins nor ends with white space is what trimming
/// it with white space around it gives.
proof fn lemma_trim_word(s: Seq<char>, before: Seq<char>, after: Seq<char>)
    requires
        all_ws(before),
        all_ws(after),
        s.len() > 0,
        !crate::text::is_ws(s[0]),
        !crate::text::is_ws(s.last()),
    ensures
        trim_spec(before + s + after) == s,
{
    lemma_trim_surrounded(before, s, after);
    assert(crate::text::trim_start_spec(s) == s);
    assert(crate::text::trim_end_spec(s) == s);
}

/// A text whose lower-case form holds no white space holds none itself.
proof fn lemma_lower_no_ws(s: Seq<char>, w: Seq<char>)
    requires
        crate::text::lower_spec(s) == w,
        forall|k: int| 0 <= k < w.len() ==> !crate::text::is_ws(#[trigger] w[k]),
    ensures
        s.len() == w.len(),
        forall|k: int| 0 <= k < s.len() ==> !crate::text::is_ws(#[trigger] s[k]),
{
    assert(crate::text::lower_spec(s).len() == s.len());
    assert forall|k: int| 0 <= k < s.len() implies !crate::text::is_ws(#[trigger] s[k]) by {
        assert(crate::text::lower_spec(s)[k] == crate::text::lower_char(s[k]));
        assert(!crate::text::is_ws(w[k]));
    }
}

proof fn lemma_words_facts()
    ensures
        forall|i: int, k: int| 0 <= i < 4 && 0 <= k < yes_words()[i].len() ==> !crate::text::is_ws(#[trigger] yes_words()[i][k]),
        forall|i: int, k: int| 0 <= i < 4 && 0 <= k < no_words()[i].len() ==> !crate::text::is_ws(#[trigger] no_words()[i][k]),
        forall|i: int| 0 <= i < 4 ==> (#[trigger] yes_words()[i]).len() > 0,
        forall|i: int| 0 <= i < 4 ==> (#[trigger] no_words()[i]).len() > 0,
        forall|i: int, j: int| 0 <= i < 4 && 0 <= j < 4 ==> #[trigger] yes_words()[i] != #[trigger] no_words()[j],
{
    reveal_strlit("1");
    reveal_strlit("true");
    reveal_strlit("yes");
    reveal_strlit("on");
    reveal_strlit("0");
    reveal_strlit("false");
    reveal_strlit("no");
    reveal_strlit("off");
    assert("1"@[0] != "0"@[0]);
    assert("on"@[0] != "no"@[0]);
    assert("yes"@[0] != "off"@[0]);
    assert("1"@.len() == 1 && "0"@.len() == 1 && "true"@.len() == 4 && "yes"@.len() == 3);
    assert("on"@.len() == 2 && "false"@.len() == 5 && "no"@.len() == 2 && "off"@.len() == 3);
    assert forall|i: int, k: int| 0 <= i < 4 && 0 <= k < yes_words()[i].len() implies !crate::text::is_ws(#[trigger] yes_words()[i][k]) by {
        if i == 1 {
            assert(yes_words()[i] == "true"@);
        } else if i == 2 {
            assert(yes_words()[i] == "yes"@);
        }
    }
    assert forall|i: int, k: int| 0 <= i < 4 && 0 <= k < no_words()[i].len() implies !crate::text::is_ws(#[trigger] no_words()[i][k]) by {
        if i == 1 {
            assert(no_words()[i] == "false"@);
        } else if i == 3 {
            assert(no_words()[i] == "off"@);
        }
    }
    assert forall|i: int, j: int| 0 <= i < 4 && 0 <= j < 4 implies #[trigger] yes_words()[i] != #[trigger] no_words()[j] by {
        if yes_words()[i].len() == no_words()[j].len() {
            assert(yes_words()[i][0] != no_words()[j][0]);
        }
    }
}

/// A yes/no value reads `1`, `true`, `yes` and `on` as yes and `0`,
/// `false`, `no` and `off` as no, whatever the case of their letters and
/// whatever white space surrounds them.
pub proof fn law_truthy_words(s: Seq<char>, before: Seq<char>, after: Seq<char>, i: int)
    requires
        all_ws(before),
        all_ws(after),
        0 <= i < 4,
    ensures
        crate::text::lower_spec(s) == yes_words()[i] ==> crate::env::truthy_spec(before + s + after) == Some(true),
        crate::text::lower_spec(s) == no_words()[i] ==> crate::env::truthy_spec(before + s + after) == Some(false),
{
    lemma_words_facts();
    reveal_strlit("1");
    reveal_strlit("true");
    reveal_strlit("yes");
    reveal_strlit("on");
    reveal_strlit("0");
    reveal_strlit("false");
    reveal_strlit("no");
    reveal_strlit("off");
    if crate::text::lower_spec(s) == yes_words()[i] {
        lemma_lower_no_ws(s, yes_words()[i]);
        lemma_trim_word(s, before, after);
    }
    if crate::text::lower_spec(s) == no_words()[i] {
        lemma_lower_no_ws(s, no_words()[i]);
        lemma_trim_word(s, before, after);
        let l = no_words()[i];
        assert(l != yes_words()[0] && l != yes_words()[1] && l != yes_words()[2] && l != yes_words()[3]);
    }
}

/// With no terminal mode set and neither `FORCE_COLOR` nor `PY_COLORS`
/// given, a `GITHUB_ACTIONS` value that reads as yes or no sets the
/// terminal mode to it.
pub proof fn law_github_actions_forces_terminal(
    old: RichHelpConfig,
    new: RichHelpConfig,
    env: crate::env::EnvSnapshot,
    s: Seq<char>,
    before: Seq<char>,
    after: Seq<char>,
    i: int,
)
    requires
        crate::config::force_env_step(old, new, env),
        old.force_terminal is None,
        env.force_color is None,
        env.py_colors is None,
        env.github_actions matches Some(g) && g@ == before + s + after,
        all_ws(before),
        all_ws(after),
        0 <= i < 4,
    ensures
        crate::text::lower_spec(s) == yes_words()[i] ==> new.force_terminal == Some(true),
        crate::text::lower_spec(s) == no_words()[i] ==> new.force_terminal == Some(false),
{
    law_truthy_words(s, before, after, i);
}


/// A yes/no value that is read at all is, once trimmed and in lower case,
/// one of the yes words when read as yes and one of the no words when read
/// as no.
pub proof fn law_truthy_only_words(v: Seq<char>)
    ensures
        crate::env::truthy_spec(v) == Some(true) ==> yes_words().contains(crate::text::lower_spec(trim_spec(v))),
        crate::env::truthy_spec(v) == Some(false) ==> no_words().contains(crate::text::lower_spec(trim_spec(v))),
{
    let l = crate::text::lower_spec(trim_spec(v));
    if crate::env::truthy_spec(v) == Some(true) {
        if l == "1"@ {
            assert(yes_words()[0] == l);
        } else if l == "true"@ {
            assert(yes_words()[1] == l);
        } else if l == "yes"@ {
            assert(yes_words()[2] == l);
        } else {
            assert(yes_words()[3] == l);
        }
    }
    if crate::env::truthy_spec(v) == Some(false) {
        if l == "0"@ {
            assert(no_words()[0] == l);
        } else if l == "false"@ {
            assert(no_words()[1] == l);
        } else if l == "no"@ {
            assert(no_words()[2] == l);
        } else {
            assert(no_words()[3] == l);
        }
    }
}

} // verus!
