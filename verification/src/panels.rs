use vstd::prelude::*;

use crate::commands::{command_rows, command_rows_spec, picked_entries, CommandEntry};
use crate::config::{opt_view, BoxType, GroupConfig, PaddingDimensions, PanelConfig, RichHelpConfig, TableConfig};
use crate::doc::{
    block_view, block_views, single_view, styled, styled_view, table_view, Block, BlockView, BodyView,
    Content, ContentView, PanelBlock, PanelBody, Segment, SegmentKind, StyledText, StyledView, TableBlock,
    TableView,
};
use crate::model::OptionInfo;
use crate::option_help::{fill, fill_template};
use crate::option_table::{
    flex_last_spec, option_rows, option_rows_spec, picked, should_flex_last_options, valid_selection,
};
use crate::table::{build_table, table_spec};
use crate::text::{
    char_count, concat, concat3, copy_str, repeat_char, repeat_spec, str_eq, strip_all,
    strip_all_prefix, views,
};

verus! {

// ---------------------------------------------------------------------------
// Panels: the options and commands tables, split into the configured groups,
// each framed with a title, or drawn as a title over a rule.
// ---------------------------------------------------------------------------

/// The width lines are padded to: the configured width, else the maximum
/// width, else 80.
pub open spec fn line_width_spec(cfg: RichHelpConfig) -> usize {
    match cfg.width {
        Some(w) => w,
        None => match cfg.max_width {
            Some(m) => m,
            None => 80,
        },
    }
}

pub fn line_width(cfg: &RichHelpConfig) -> (w: usize)
    ensures
        w == line_width_spec(*cfg),
{
    match cfg.width {
        Some(w) => w,
        None => match cfg.max_width {
            Some(m) => m,
            None => 80,
        },
    }
}

/// `line` filled with spaces up to `width` characters.
pub open spec fn pad_line_spec(line: Seq<char>, width: usize) -> Seq<char> {
    if line.len() >= width {
        line
    } else {
        line + repeat_spec(' ', (width - line.len()) as nat)
    }
}

pub fn pad_line(line: &str, width: usize) -> (r: String)
    ensures
        r@ == pad_line_spec(line@, width),
{
    let len = char_count(line);
    if len >= width {
        copy_str(line)
    } else {
        let pad = repeat_char(' ', width - len);
        concat(line, pad.as_str())
    }
}

/// A line of spaces as wide as the output.
pub open spec fn blank_line(cfg: RichHelpConfig) -> BlockView {
    BlockView::Line(repeat_spec(' ', line_width_spec(cfg) as nat))
}

pub fn blank_block(cfg: &RichHelpConfig) -> (b: Block)
    ensures
        block_view(b) == blank_line(*cfg),
{
    Block::Line(repeat_char(' ', line_width(cfg)))
}

/// The title of a panel: the title template filled with `title`, padded
/// with spaces on both sides, then, for an inline help, the delimiter and the
/// help.
pub open spec fn panel_title_spec(
    cfg: RichHelpConfig,
    title: Seq<char>,
    style: Seq<char>,
    help: Option<Seq<char>>,
    help_style: Seq<char>,
    inline: bool,
) -> StyledView {
    let pad = repeat_spec(' ', cfg.panel_title_padding as nat);
    let padded = pad + fill(cfg.panel_title_string@, title) + pad;
    match help {
        Some(h) => if inline {
            (
                style,
                seq![
                    (SegmentKind::Plain, padded, None::<Seq<char>>),
                    (SegmentKind::Plain, cfg.panel_inline_help_delimiter@, Some(cfg.style_option_help@)),
                    (SegmentKind::Plain, h, Some(help_style)),
                ],
            )
        } else {
            single_view(style, padded)
        },
        None => single_view(style, padded),
    }
}

/// The title text of a panel.
pub fn panel_title(
    cfg: &RichHelpConfig,
    title: &str,
    style: &str,
    help: &Option<String>,
    help_style: &str,
    inline: bool,
) -> (t: StyledText)
    ensures
        styled_view(t) == panel_title_spec(*cfg, title@, style@, opt_view(*help), help_style@, inline),
{
    let pad = repeat_char(' ', cfg.panel_title_padding);
    let formatted = fill_template(cfg.panel_title_string.as_str(), title);
    let padded = concat3(pad.as_str(), formatted.as_str(), pad.as_str());
    if inline {
        match help {
            Some(h) => {
                let segs = vec![
                    Segment { kind: SegmentKind::Plain, text: padded, style: None },
                    crate::doc::plain_segment(cfg.panel_inline_help_delimiter.as_str(), cfg.style_option_help.as_str()),
                    crate::doc::plain_segment(h.as_str(), help_style),
                ];
                let t = StyledText { base: copy_str(style), segments: segs };
                assert(crate::doc::segment_views(t.segments@) =~= panel_title_spec(*cfg, title@, style@, opt_view(*help), help_style@, inline).1);
                return t;
            },
            None => {},
        }
    }
    styled(padded.as_str(), style)
}

/// The plain text of a text made of plain segments.
pub open spec fn plain_of(segs: Seq<crate::doc::SegmentView>) -> Seq<char>
    decreases segs.len(),
{
    if segs.len() == 0 {
        Seq::empty()
    } else {
        plain_of(segs.drop_last()) + segs.last().1
    }
}

fn plain_text(t: &StyledText) -> (r: String)
    ensures
        r@ == plain_of(styled_view(*t).1),
{
    let mut out = String::new();
    let mut i: usize = 0;
    while i < t.segments.len()
        invariant
            i <= t.segments@.len(),
            out@ == plain_of(crate::doc::segment_views(t.segments@).take(i as int)),
        decreases t.segments.len() - i,
    {
        let ghost sv = crate::doc::segment_views(t.segments@);
        assert(sv.take(i + 1).drop_last() =~= sv.take(i as int));
        assert(sv.take(i + 1).last() == sv[i as int]);
        out = concat(out.as_str(), t.segments[i].text.as_str());
        i = i + 1;
    }
    assert(crate::doc::segment_views(t.segments@).take(i as int) =~= crate::doc::segment_views(t.segments@));
    out
}

/// Panels are drawn as a title over a rule: a horizontals box, no table box,
/// no title padding and inline help titles.
pub open spec fn use_rule_spec(cfg: RichHelpConfig, pc: PanelConfig, tc: TableConfig) -> bool {
    pc.box_type == BoxType::Horizontals && tc.box_type is None && cfg.panel_title_padding == 0 && cfg.panel_inline_help_in_title
}

pub fn use_rule_panels(cfg: &RichHelpConfig, pc: &PanelConfig, tc: &TableConfig) -> (r: bool)
    ensures
        r == use_rule_spec(*cfg, *pc, *tc),
{
    pc.box_type == BoxType::Horizontals && tc.box_type.is_none() && cfg.panel_title_padding == 0 && cfg.panel_inline_help_in_title
}

/// What a panel shows: title, members, help, help style, title style and
/// whether the help goes into the title.
pub type PanelPlan = (Seq<char>, Seq<usize>, Option<Seq<char>>, Seq<char>, Seq<char>, bool);

/// A planned panel.
pub struct Plan {
    pub title: String,
    pub members: Vec<usize>,
    pub help: Option<String>,
    pub help_style: String,
    pub title_style: String,
    pub inline: bool,
}

pub open spec fn plan_view(p: Plan) -> PanelPlan {
    (p.title@, p.members@, opt_view(p.help), p.help_style@, p.title_style@, p.inline)
}

pub open spec fn plan_views(v: Seq<Plan>) -> Seq<PanelPlan> {
    v.map_values(|p: Plan| plan_view(p))
}

/// The plan of a configured group with the members it got.
pub open spec fn group_plan(
    cfg: RichHelpConfig,
    g: GroupConfig,
    members: Seq<usize>,
    title_style: Seq<char>,
    help_style: Seq<char>,
) -> PanelPlan {
    (
        g.name@,
        members,
        opt_view(g.help),
        match g.help_style {
            Some(s) => s@,
            None => help_style,
        },
        match g.title_style {
            Some(s) => s@,
            None => title_style,
        },
        match g.inline_help_in_title {
            Some(b) => b,
            None => cfg.panel_inline_help_in_title,
        },
    )
}

fn make_group_plan(cfg: &RichHelpConfig, g: &GroupConfig, members: Vec<usize>, title_style: &String, help_style: &String) -> (p: Plan)
    ensures
        plan_view(p) == group_plan(*cfg, *g, members@, title_style@, help_style@),
{
    Plan {
        title: g.name.clone(),
        members,
        help: g.help.clone(),
        help_style: match &g.help_style {
            Some(s) => s.clone(),
            None => help_style.clone(),
        },
        title_style: match &g.title_style {
            Some(s) => s.clone(),
            None => title_style.clone(),
        },
        inline: match g.inline_help_in_title {
            Some(b) => b,
            None => cfg.panel_inline_help_in_title,
        },
    }
}

// ----- Options -------------------------------------------------------------

/// A group item names an option: its parameter name, one of its spellings,
/// or a long spelling without its dashes.
pub open spec fn option_matches(o: OptionInfo, name: Seq<char>) -> bool {
    ||| o.name@ == name
    ||| views(o.long@).contains(name)
    ||| views(o.short@).contains(name)
    ||| exists|k: int| 0 <= k < o.long@.len() && strip_all_prefix(#[trigger] o.long@[k]@, "-"@) == name
}

fn option_matches_exec(o: &OptionInfo, name: &str) -> (r: bool)
    ensures
        r == option_matches(*o, name@),
{
    if str_eq(o.name.as_str(), name) {
        return true;
    }
    if crate::option_help::holds_name(&o.long, name) || crate::option_help::holds_name(&o.short, name) {
        return true;
    }
    proof {
        reveal_strlit("-");
    }
    let mut k: usize = 0;
    while k < o.long.len()
        invariant
            k <= o.long@.len(),
            forall|j: int| 0 <= j < k ==> strip_all_prefix(#[trigger] o.long@[j]@, "-"@) != name@,
        decreases o.long.len() - k,
    {
        proof {
            reveal_strlit("-");
        }
        let s = strip_all(o.long[k].as_str(), "-");
        if str_eq(s.as_str(), name) {
            return true;
        }
        k = k + 1;
    }
    false
}

/// The position in `rem` of the first option that `name` names.
pub open spec fn first_option_match(opts: Seq<OptionInfo>, rem: Seq<usize>, name: Seq<char>) -> Option<int>
    decreases rem.len(),
{
    if rem.len() == 0 {
        None
    } else if option_matches(opts[rem[0] as int], name) {
        Some(0)
    } else {
        match first_option_match(opts, rem.skip(1), name) {
            Some(p) => Some(p + 1),
            None => None,
        }
    }
}

/// Taking, for each name in turn, the first remaining option it names: the
/// options taken, in the order of the names, and those left.
pub open spec fn partition_options_spec(opts: Seq<OptionInfo>, rem: Seq<usize>, names: Seq<Seq<char>>) -> (Seq<usize>, Seq<usize>)
    decreases names.len(),
{
    if names.len() == 0 {
        (Seq::empty(), rem)
    } else {
        let prev = partition_options_spec(opts, rem, names.drop_last());
        match first_option_match(opts, prev.1, names.last()) {
            Some(p) => (prev.0.push(prev.1[p]), prev.1.remove(p)),
            None => prev,
        }
    }
}

pub proof fn lemma_first_option_match(opts: Seq<OptionInfo>, rem: Seq<usize>, name: Seq<char>)
    ensures
        match first_option_match(opts, rem, name) {
            Some(p) => 0 <= p < rem.len() && option_matches(opts[rem[p] as int], name),
            None => true,
        },
    decreases rem.len(),
{
    if rem.len() > 0 {
        lemma_first_option_match(opts, rem.skip(1), name);
    }
}

fn find_option(opts: &Vec<OptionInfo>, rem: &Vec<usize>, name: &str) -> (r: Option<usize>)
    requires
        valid_selection(opts@.len(), rem@),
    ensures
        match r {
            Some(p) => first_option_match(opts@, rem@, name@) == Some(p as int),
            None => first_option_match(opts@, rem@, name@) is None,
        },
{
    let mut i: usize = 0;
    assert(rem@.skip(0) =~= rem@);
    while i < rem.len()
        invariant
            i <= rem@.len(),
            valid_selection(opts@.len(), rem@),
            first_option_match(opts@, rem@, name@) == match first_option_match(opts@, rem@.skip(i as int), name@) {
                Some(p) => Some(p + i),
                None => None::<int>,
            },
        decreases rem.len() - i,
    {
        assert(rem@.skip(i as int)[0] == rem@[i as int]);
        assert(rem@.skip(i as int).skip(1) =~= rem@.skip(i + 1));
        if option_matches_exec(&opts[rem[i]], name) {
            return Some(i);
        }
        i = i + 1;
    }
    None
}

/// Splits the options at `rem` into those the names pick and the rest.
fn partition_options(opts: &Vec<OptionInfo>, rem: Vec<usize>, names: &Vec<String>) -> (r: (Vec<usize>, Vec<usize>))
    requires
        valid_selection(opts@.len(), rem@),
    ensures
        (r.0@, r.1@) == partition_options_spec(opts@, rem@, views(names@)),
        valid_selection(opts@.len(), r.0@),
        valid_selection(opts@.len(), r.1@),
{
    let ghost start = rem@;
    let mut selected: Vec<usize> = Vec::new();
    let mut remaining = rem;
    let mut i: usize = 0;
    while i < names.len()
        invariant
            i <= names@.len(),
            (selected@, remaining@) == partition_options_spec(opts@, start, views(names@).take(i as int)),
            valid_selection(opts@.len(), selected@),
            valid_selection(opts@.len(), remaining@),
        decreases names.len() - i,
    {
        proof {
            assert(views(names@).take(i + 1).drop_last() =~= views(names@).take(i as int));
            assert(views(names@).take(i + 1).last() == names@[i as int]@);
            lemma_first_option_match(opts@, remaining@, names@[i as int]@);
        }
        match find_option(opts, &remaining, names[i].as_str()) {
            Some(p) => {
                let ghost before = remaining@;
                let x = remaining.remove(p);
                selected.push(x);
                proof {
                    assert(remaining@ =~= before.remove(p as int));
                    assert forall|k: int| 0 <= k < remaining@.len() implies #[trigger] remaining@[k] < opts@.len() by {
                        if k < p {
                            assert(remaining@[k] == before[k]);
                        } else {
                            assert(remaining@[k] == before[k + 1]);
                        }
                    }
                }
            },
            None => {},
        }
        i = i + 1;
    }
    assert(views(names@).take(i as int) =~= views(names@));
    (selected, remaining)
}

/// The plans of the option groups, with the options they leave.
pub open spec fn option_group_plans(
    cfg: RichHelpConfig,
    opts: Seq<OptionInfo>,
    groups: Seq<GroupConfig>,
    rem: Seq<usize>,
) -> (Seq<PanelPlan>, Seq<usize>)
    decreases groups.len(),
{
    if groups.len() == 0 {
        (Seq::empty(), rem)
    } else {
        let prev = option_group_plans(cfg, opts, groups.drop_last(), rem);
        let g = groups.last();
        let split = partition_options_spec(opts, prev.1, views(g.items@));
        if split.0.len() == 0 {
            (prev.0, split.1)
        } else {
            (
                prev.0.push(group_plan(cfg, g, split.0, cfg.panel_options.title_style@, cfg.style_options_panel_help_style@)),
                split.1,
            )
        }
    }
}

/// The panels of the options at `shown`: one per group that gets options,
/// and one for the options no group takes, first when so configured.
pub open spec fn option_plans(cfg: RichHelpConfig, opts: Seq<OptionInfo>, shown: Seq<usize>) -> Seq<PanelPlan> {
    let r = option_group_plans(cfg, opts, cfg.option_groups@, shown);
    if r.1.len() == 0 {
        r.0
    } else {
        let d = (
            cfg.options_panel_title@,
            r.1,
            None::<Seq<char>>,
            cfg.style_options_panel_help_style@,
            cfg.panel_options.title_style@,
            cfg.panel_inline_help_in_title,
        );
        if cfg.default_panels_first && !use_rule_spec(cfg, cfg.panel_options, cfg.table_options) {
            seq![d] + r.0
        } else {
            r.0.push(d)
        }
    }
}

/// Every plan lists positions of `opts`.
pub open spec fn plans_valid(len: nat, plans: Seq<PanelPlan>) -> bool {
    forall|k: int| 0 <= k < plans.len() ==> valid_selection(len, (#[trigger] plans[k]).1)
}

fn plan_options(cfg: &RichHelpConfig, opts: &Vec<OptionInfo>, shown: Vec<usize>) -> (r: Vec<Plan>)
    requires
        valid_selection(opts@.len(), shown@),
    ensures
        plan_views(r@) == option_plans(*cfg, opts@, shown@),
        plans_valid(opts@.len(), plan_views(r@)),
{
    let ghost start = shown@;
    let mut plans: Vec<Plan> = Vec::new();
    let mut remaining = shown;
    let mut i: usize = 0;
    while i < cfg.option_groups.len()
        invariant
            i <= cfg.option_groups@.len(),
            (plan_views(plans@), remaining@) == option_group_plans(*cfg, opts@, cfg.option_groups@.take(i as int), start),
            valid_selection(opts@.len(), remaining@),
            plans_valid(opts@.len(), plan_views(plans@)),
        decreases cfg.option_groups.len() - i,
    {
        let g = &cfg.option_groups[i];
        proof {
            assert(cfg.option_groups@.take(i + 1).drop_last() =~= cfg.option_groups@.take(i as int));
            assert(cfg.option_groups@.take(i + 1).last() == *g);
        }
        let (items, rest) = partition_options(opts, remaining, &g.items);
        remaining = rest;
        if items.len() > 0 {
            let p = make_group_plan(cfg, g, items, &cfg.panel_options.title_style, &cfg.style_options_panel_help_style);
            let ghost before = plans@;
            plans.push(p);
            assert(plan_views(plans@) =~= plan_views(before).push(plan_view(p)));
        }
        i = i + 1;
    }
    assert(cfg.option_groups@.take(i as int) =~= cfg.option_groups@);
    if remaining.len() > 0 {
        let d = Plan {
            title: cfg.options_panel_title.clone(),
            members: remaining,
            help: None,
            help_style: cfg.style_options_panel_help_style.clone(),
            title_style: cfg.panel_options.title_style.clone(),
            inline: cfg.panel_inline_help_in_title,
        };
        let ghost before = plans@;
        if cfg.default_panels_first && !use_rule_panels(cfg, &cfg.panel_options, &cfg.table_options) {
            plans.insert(0, d);
            assert(plan_views(plans@) =~= seq![plan_view(d)] + plan_views(before));
        } else {
            plans.push(d);
            assert(plan_views(plans@) =~= plan_views(before).push(plan_view(d)));
        }
    }
    plans
}

/// The options panel settings: with a table leading but no table box, a
/// panel without top padding gets one line of it.
pub open spec fn options_panel_spec(cfg: RichHelpConfig) -> PanelConfig {
    let pc = cfg.panel_options;
    let (top, right, bottom, left) = pc.padding.spec_unpack();
    if cfg.table_options.leading > 0 && cfg.table_options.box_type is None && top == 0 {
        PanelConfig { padding: PaddingDimensions::FourWay(1, right, bottom, left), ..pc }
    } else {
        pc
    }
}

fn options_panel(cfg: &RichHelpConfig) -> (pc: PanelConfig)
    ensures
        pc == options_panel_spec(*cfg),
{
    let mut pc = cfg.panel_options.copy();
    if cfg.table_options.leading > 0 && cfg.table_options.box_type.is_none() {
        let (top, right, bottom, left) = pc.padding.unpack();
        if top == 0 {
            pc.padding = PaddingDimensions::FourWay(1, right, bottom, left);
        }
    }
    pc
}

/// A framed panel holding a table.
pub open spec fn framed(cfg: RichHelpConfig, pc: PanelConfig, plan: PanelPlan, table: TableView) -> BlockView {
    BlockView::Panel(
        (
            panel_title_spec(cfg, plan.0, plan.4, plan.2, plan.3, plan.5),
            BodyView::Table(table),
            Some(pc.box_type),
            pc.align,
            pc.border_style@,
            Some(pc.panel_style@),
            pc.padding,
            Some(pc.expand),
        ),
    )
}

fn framed_block(cfg: &RichHelpConfig, pc: &PanelConfig, plan: &Plan, table: TableBlock) -> (b: Block)
    ensures
        block_view(b) == framed(*cfg, *pc, plan_view(*plan), table_view(table)),
{
    let title = panel_title(cfg, plan.title.as_str(), plan.title_style.as_str(), &plan.help, plan.help_style.as_str(), plan.inline);
    Block::Panel(PanelBlock {
        title,
        body: PanelBody::Table(table),
        box_type: Some(pc.box_type),
        align: pc.align,
        border_style: pc.border_style.clone(),
        style: Some(pc.panel_style.clone()),
        padding: pc.padding,
        expand: Some(pc.expand),
    })
}

/// The width of the rule under a title: the line width less the side
/// padding of the help text, or nothing.
pub open spec fn rule_width(width: usize, left: usize, right: usize) -> nat {
    if left + right > width {
        0
    } else {
        (width - left - right) as nat
    }
}

/// A panel drawn as its title over a rule, then the table padded as the
/// help text is.
pub open spec fn ruled(cfg: RichHelpConfig, plan: PanelPlan, table: TableView) -> Seq<BlockView> {
    let title = panel_title_spec(cfg, plan.0, plan.4, plan.2, plan.3, plan.5);
    let (_top, right, _bottom, left) = cfg.padding_helptext.spec_unpack();
    let width = line_width_spec(cfg);
    let lp = repeat_spec(' ', left as nat);
    seq![
        BlockView::Line(pad_line_spec(lp + plain_of(title.1), width)),
        BlockView::Line(pad_line_spec(lp + repeat_spec('─', rule_width(width, left, right)), width)),
        BlockView::Padded(ContentView::Table(table), cfg.padding_helptext, cfg.style_padding_helptext@, ""@),
    ]
}

fn ruled_blocks(cfg: &RichHelpConfig, plan: &Plan, table: TableBlock) -> (r: Vec<Block>)
    ensures
        block_views(r@) == ruled(*cfg, plan_view(*plan), table_view(table)),
{
    let title = panel_title(cfg, plan.title.as_str(), plan.title_style.as_str(), &plan.help, plan.help_style.as_str(), plan.inline);
    let (_top, right, _bottom, left) = cfg.padding_helptext.unpack();
    let width = line_width(cfg);
    let lp = repeat_char(' ', left);
    let plain = plain_text(&title);
    let title_line = concat(lp.as_str(), plain.as_str());
    let rule_len = if left > width || right > width - left {
        0
    } else {
        width - left - right
    };
    let rule = repeat_char('─', rule_len);
    let rule_line = concat(lp.as_str(), rule.as_str());
    let end = String::new();
    proof {
        reveal_strlit("");
    }
    assert(end@ =~= ""@);
    let r = vec![
        Block::Line(pad_line(title_line.as_str(), width)),
        Block::Line(pad_line(rule_line.as_str(), width)),
        Block::Padded(Content::Table(table), cfg.padding_helptext, cfg.style_padding_helptext.clone(), end),
    ];
    proof {
        reveal_strlit("");
    }
    let ghost expect = ruled(*cfg, plan_view(*plan), table_view(table));
    assert(rule_len as nat == rule_width(width, left, right));
    assert(title_line@ == repeat_spec(' ', left as nat) + plain_of(panel_title_spec(*cfg, plan.title@, plan.title_style@, opt_view(plan.help), plan.help_style@, plan.inline).1));
    assert(block_view(r@[0]) == expect[0]);
    assert(block_view(r@[1]) == expect[1]);
    assert(block_view(r@[2]) == expect[2]);
    assert(block_views(r@) =~= expect);
    r
}

/// The panels drawn as rules, a blank line between two.
pub open spec fn rules_joined(cfg: RichHelpConfig, parts: Seq<Seq<BlockView>>) -> Seq<BlockView>
    decreases parts.len(),
{
    if parts.len() == 0 {
        Seq::empty()
    } else if parts.len() == 1 {
        parts[0]
    } else {
        rules_joined(cfg, parts.drop_last()) + seq![blank_line(cfg)] + parts.last()
    }
}

/// The table of the options of a plan.
pub open spec fn option_table_spec(cfg: RichHelpConfig, opts: Seq<OptionInfo>, members: Seq<usize>) -> TableView {
    let ps = picked(opts, members);
    table_spec(cfg.table_options, None, flex_last_spec(ps), option_rows_spec(cfg, ps))
}

/// The blocks of the options panels for the options at `shown`.
pub open spec fn option_panels_spec(cfg: RichHelpConfig, opts: Seq<OptionInfo>, shown: Seq<usize>) -> Seq<BlockView> {
    let plans = option_plans(cfg, opts, shown);
    if use_rule_spec(cfg, cfg.panel_options, cfg.table_options) {
        rules_joined(cfg, plans.map_values(|p: PanelPlan| ruled(cfg, p, option_table_spec(cfg, opts, p.1))))
    } else {
        plans.map_values(|p: PanelPlan| framed(cfg, options_panel_spec(cfg), p, option_table_spec(cfg, opts, p.1)))
    }
}

/// The options panels for the options at `shown`.
pub fn option_panels(cfg: &RichHelpConfig, opts: &Vec<OptionInfo>, shown: Vec<usize>) -> (r: Vec<Block>)
    requires
        valid_selection(opts@.len(), shown@),
    ensures
        block_views(r@) == option_panels_spec(*cfg, opts@, shown@),
{
    let ghost shown_v = shown@;
    let plans = plan_options(cfg, opts, shown);
    let ghost pv = plan_views(plans@);
    let pc = options_panel(cfg);
    let rule = use_rule_panels(cfg, &cfg.panel_options, &cfg.table_options);
    let mut out: Vec<Block> = Vec::new();
    let ghost tables = pv.map_values(|p: PanelPlan| option_table_spec(*cfg, opts@, p.1));
    let mut i: usize = 0;
    while i < plans.len()
        invariant
            i <= plans@.len(),
            pv == plan_views(plans@),
            pv == option_plans(*cfg, opts@, shown_v),
            plans_valid(opts@.len(), pv),
            pc == options_panel_spec(*cfg),
            rule == use_rule_spec(*cfg, cfg.panel_options, cfg.table_options),
            tables == pv.map_values(|p: PanelPlan| option_table_spec(*cfg, opts@, p.1)),
            block_views(out@) == if rule {
                rules_joined(*cfg, pv.take(i as int).map_values(|p: PanelPlan| ruled(*cfg, p, option_table_spec(*cfg, opts@, p.1))))
            } else {
                pv.take(i as int).map_values(|p: PanelPlan| framed(*cfg, pc, p, option_table_spec(*cfg, opts@, p.1)))
            },
        decreases plans.len() - i,
    {
        let plan = &plans[i];
        assert(pv[i as int] == plan_view(*plan));
        assert(valid_selection(opts@.len(), plan.members@));
        let rows = option_rows(cfg, opts, &plan.members);
        let flex = should_flex_last_options(opts, &plan.members);
        let table = build_table(&cfg.table_options, None, flex, rows);
        assert(table_view(table) == option_table_spec(*cfg, opts@, pv[i as int].1));
        let ghost before = block_views(out@);
        proof {
            assert(pv.take(i + 1) =~= pv.take(i as int).push(pv[i as int]));
        }
        if rule {
            let part = ruled_blocks(cfg, plan, table);
            if i > 0 {
                out.push(blank_block(cfg));
            }
            crate::doc::append_blocks(&mut out, part);
            proof {
                let parts = pv.take(i + 1).map_values(|p: PanelPlan| ruled(*cfg, p, option_table_spec(*cfg, opts@, p.1)));
                assert(parts.drop_last() =~= pv.take(i as int).map_values(|p: PanelPlan| ruled(*cfg, p, option_table_spec(*cfg, opts@, p.1))));
                if i == 0 {
                    assert(block_views(out@) =~= parts[0]);
                } else {
                    assert(block_views(out@) =~= before + seq![blank_line(*cfg)] + parts.last());
                }
            }
        } else {
            let b = framed_block(cfg, &pc, plan, table);
            out.push(b);
            proof {
                assert(block_views(out@) =~= before.push(block_view(b)));
                assert(block_views(out@) =~= pv.take(i + 1).map_values(|p: PanelPlan| framed(*cfg, pc, p, option_table_spec(*cfg, opts@, p.1))));
            }
        }
        i = i + 1;
    }
    assert(pv.take(i as int) =~= pv);
    out
}


// ----- Commands ------------------------------------------------------------

/// The position in `rem` of the first entry called `name`.
pub open spec fn first_command_match(es: Seq<CommandEntry>, rem: Seq<usize>, name: Seq<char>) -> Option<int>
    decreases rem.len(),
{
    if rem.len() == 0 {
        None
    } else if es[rem[0] as int].name@ == name {
        Some(0)
    } else {
        match first_command_match(es, rem.skip(1), name) {
            Some(p) => Some(p + 1),
            None => None,
        }
    }
}

/// Taking, for each name in turn, the first remaining entry of that name.
pub open spec fn partition_commands_spec(es: Seq<CommandEntry>, rem: Seq<usize>, names: Seq<Seq<char>>) -> (Seq<usize>, Seq<usize>)
    decreases names.len(),
{
    if names.len() == 0 {
        (Seq::empty(), rem)
    } else {
        let prev = partition_commands_spec(es, rem, names.drop_last());
        match first_command_match(es, prev.1, names.last()) {
            Some(p) => (prev.0.push(prev.1[p]), prev.1.remove(p)),
            None => prev,
        }
    }
}

pub proof fn lemma_first_command_match(es: Seq<CommandEntry>, rem: Seq<usize>, name: Seq<char>)
    ensures
        match first_command_match(es, rem, name) {
            Some(p) => 0 <= p < rem.len(),
            None => true,
        },
    decreases rem.len(),
{
    if rem.len() > 0 {
        lemma_first_command_match(es, rem.skip(1), name);
    }
}

fn find_command(es: &Vec<CommandEntry>, rem: &Vec<usize>, name: &str) -> (r: Option<usize>)
    requires
        valid_selection(es@.len(), rem@),
    ensures
        match r {
            Some(p) => first_command_match(es@, rem@, name@) == Some(p as int),
            None => first_command_match(es@, rem@, name@) is None,
        },
{
    let mut i: usize = 0;
    assert(rem@.skip(0) =~= rem@);
    while i < rem.len()
        invariant
            i <= rem@.len(),
            valid_selection(es@.len(), rem@),
            first_command_match(es@, rem@, name@) == match first_command_match(es@, rem@.skip(i as int), name@) {
                Some(p) => Some(p + i),
                None => None::<int>,
            },
        decreases rem.len() - i,
    {
        assert(rem@.skip(i as int)[0] == rem@[i as int]);
        assert(rem@.skip(i as int).skip(1) =~= rem@.skip(i + 1));
        if str_eq(es[rem[i]].name.as_str(), name) {
            return Some(i);
        }
        i = i + 1;
    }
    None
}

fn partition_commands(es: &Vec<CommandEntry>, rem: Vec<usize>, names: &Vec<String>) -> (r: (Vec<usize>, Vec<usize>))
    requires
        valid_selection(es@.len(), rem@),
    ensures
        (r.0@, r.1@) == partition_commands_spec(es@, rem@, views(names@)),
        valid_selection(es@.len(), r.0@),
        valid_selection(es@.len(), r.1@),
{
    let ghost start = rem@;
    let mut selected: Vec<usize> = Vec::new();
    let mut remaining = rem;
    let mut i: usize = 0;
    while i < names.len()
        invariant
            i <= names@.len(),
            (selected@, remaining@) == partition_commands_spec(es@, start, views(names@).take(i as int)),
            valid_selection(es@.len(), selected@),
            valid_selection(es@.len(), remaining@),
        decreases names.len() - i,
    {
        proof {
            assert(views(names@).take(i + 1).drop_last() =~= views(names@).take(i as int));
            assert(views(names@).take(i + 1).last() == names@[i as int]@);
            lemma_first_command_match(es@, remaining@, names@[i as int]@);
        }
        match find_command(es, &remaining, names[i].as_str()) {
            Some(p) => {
                let ghost before = remaining@;
                let x = remaining.remove(p);
                selected.push(x);
                proof {
                    assert(remaining@ =~= before.remove(p as int));
                    assert forall|k: int| 0 <= k < remaining@.len() implies #[trigger] remaining@[k] < es@.len() by {
                        if k < p {
                            assert(remaining@[k] == before[k]);
                        } else {
                            assert(remaining@[k] == before[k + 1]);
                        }
                    }
                }
            },
            None => {},
        }
        i = i + 1;
    }
    assert(views(names@).take(i as int) =~= views(names@));
    (selected, remaining)
}

/// The plans of the command groups, with the entries they leave.
pub open spec fn command_group_plans(
    cfg: RichHelpConfig,
    es: Seq<CommandEntry>,
    groups: Seq<GroupConfig>,
    rem: Seq<usize>,
) -> (Seq<PanelPlan>, Seq<usize>)
    decreases groups.len(),
{
    if groups.len() == 0 {
        (Seq::empty(), rem)
    } else {
        let prev = command_group_plans(cfg, es, groups.drop_last(), rem);
        let g = groups.last();
        let split = partition_commands_spec(es, prev.1, views(g.items@));
        if split.0.len() == 0 {
            (prev.0, split.1)
        } else {
            (
                prev.0.push(group_plan(cfg, g, split.0, cfg.panel_commands.title_style@, cfg.style_commands_panel_help_style@)),
                split.1,
            )
        }
    }
}

/// All positions of a list of `n` entries.
pub open spec fn all_positions(n: nat) -> Seq<usize> {
    Seq::new(n, |i: int| i as usize)
}

/// The panels of the entries: one per group that gets entries, and one for
/// the entries no group takes, first when so configured.
pub open spec fn command_plans(cfg: RichHelpConfig, es: Seq<CommandEntry>) -> Seq<PanelPlan> {
    let r = command_group_plans(cfg, es, cfg.command_groups@, all_positions(es.len()));
    if r.1.len() == 0 {
        r.0
    } else {
        let d = (
            cfg.commands_panel_title@,
            r.1,
            None::<Seq<char>>,
            cfg.style_commands_panel_help_style@,
            cfg.panel_commands.title_style@,
            cfg.panel_inline_help_in_title,
        );
        if cfg.default_panels_first && !use_rule_spec(cfg, cfg.panel_commands, cfg.table_commands) {
            seq![d] + r.0
        } else {
            r.0.push(d)
        }
    }
}

fn plan_commands(cfg: &RichHelpConfig, es: &Vec<CommandEntry>) -> (r: Vec<Plan>)
    ensures
        plan_views(r@) == command_plans(*cfg, es@),
        plans_valid(es@.len(), plan_views(r@)),
{
    let mut all: Vec<usize> = Vec::new();
    let mut k: usize = 0;
    while k < es.len()
        invariant
            k <= es@.len(),
            all@ == all_positions(k as nat),
        decreases es.len() - k,
    {
        all.push(k);
        assert(all@ =~= all_positions((k + 1) as nat));
        k = k + 1;
    }
    let ghost start = all@;
    let mut plans: Vec<Plan> = Vec::new();
    let mut remaining = all;
    let mut i: usize = 0;
    while i < cfg.command_groups.len()
        invariant
            i <= cfg.command_groups@.len(),
            start == all_positions(es@.len()),
            (plan_views(plans@), remaining@) == command_group_plans(*cfg, es@, cfg.command_groups@.take(i as int), start),
            valid_selection(es@.len(), remaining@),
            plans_valid(es@.len(), plan_views(plans@)),
        decreases cfg.command_groups.len() - i,
    {
        let g = &cfg.command_groups[i];
        proof {
            assert(cfg.command_groups@.take(i + 1).drop_last() =~= cfg.command_groups@.take(i as int));
            assert(cfg.command_groups@.take(i + 1).last() == *g);
        }
        let (items, rest) = partition_commands(es, remaining, &g.items);
        remaining = rest;
        if items.len() > 0 {
            let p = make_group_plan(cfg, g, items, &cfg.panel_commands.title_style, &cfg.style_commands_panel_help_style);
            let ghost before = plans@;
            plans.push(p);
            assert(plan_views(plans@) =~= plan_views(before).push(plan_view(p)));
        }
        i = i + 1;
    }
    assert(cfg.command_groups@.take(i as int) =~= cfg.command_groups@);
    if remaining.len() > 0 {
        let d = Plan {
            title: cfg.commands_panel_title.clone(),
            members: remaining,
            help: None,
            help_style: cfg.style_commands_panel_help_style.clone(),
            title_style: cfg.panel_commands.title_style.clone(),
            inline: cfg.panel_inline_help_in_title,
        };
        let ghost before = plans@;
        if cfg.default_panels_first && !use_rule_panels(cfg, &cfg.panel_commands, &cfg.table_commands) {
            plans.insert(0, d);
            assert(plan_views(plans@) =~= seq![plan_view(d)] + plan_views(before));
        } else {
            plans.push(d);
            assert(plan_views(plans@) =~= plan_views(before).push(plan_view(d)));
        }
    }
    plans
}

/// No entry at `members` has a name longer than six bytes.
pub open spec fn short_names(es: Seq<CommandEntry>, members: Seq<usize>) -> bool {
    forall|k: int| 0 <= k < members.len() ==> crate::text::utf8_len(#[trigger] es[members[k] as int].name@) <= 6
}

/// The commands table settings of a plan: drawn as a rule with only short
/// names, its right padding is one space.
pub open spec fn command_table_config(cfg: RichHelpConfig, narrow: bool) -> TableConfig {
    let tc = cfg.table_commands;
    if narrow {
        TableConfig { padding: (tc.padding.0, 1usize), ..tc }
    } else {
        tc
    }
}

/// The table of the entries of a plan.
pub open spec fn command_table_spec(cfg: RichHelpConfig, es: Seq<CommandEntry>, members: Seq<usize>) -> TableView {
    let rule = use_rule_spec(cfg, cfg.panel_commands, cfg.table_commands);
    table_spec(
        command_table_config(cfg, rule && short_names(es, members)),
        cfg.style_commands_table_column_width_ratio,
        false,
        command_rows_spec(cfg, picked_entries(es, members)),
    )
}

fn command_table(cfg: &RichHelpConfig, es: &Vec<CommandEntry>, members: &Vec<usize>, rule: bool) -> (t: TableBlock)
    requires
        valid_selection(es@.len(), members@),
        rule == use_rule_spec(*cfg, cfg.panel_commands, cfg.table_commands),
    ensures
        table_view(t) == command_table_spec(*cfg, es@, members@),
{
    let rows = command_rows(cfg, es, members);
    let mut narrow = false;
    if rule {
        let mut short = true;
        let mut k: usize = 0;
        while k < members.len()
            invariant
                k <= members@.len(),
                valid_selection(es@.len(), members@),
                short == forall|j: int| 0 <= j < k ==> crate::text::utf8_len(#[trigger] es@[members@[j] as int].name@) <= 6,
            decreases members.len() - k,
        {
            if crate::text::utf8_len_exceeds(es[members[k]].name.as_str(), 6) {
                short = false;
            }
            k = k + 1;
        }
        narrow = short;
    }
    let mut tc = cfg.table_commands.copy();
    if narrow {
        tc.padding = (tc.padding.0, 1);
    }
    assert(crate::table::settings_of(tc) == crate::table::settings_of(command_table_config(*cfg, rule && short_names(es@, members@))));
    build_table(&tc, cfg.style_commands_table_column_width_ratio, false, rows)
}

/// The blocks of the commands panels: as rules, followed by a blank line.
pub open spec fn command_panels_spec(cfg: RichHelpConfig, es: Seq<CommandEntry>) -> Seq<BlockView> {
    let plans = command_plans(cfg, es);
    if use_rule_spec(cfg, cfg.panel_commands, cfg.table_commands) {
        rules_joined(cfg, plans.map_values(|p: PanelPlan| ruled(cfg, p, command_table_spec(cfg, es, p.1)))) + if plans.len() > 0 {
            seq![blank_line(cfg)]
        } else {
            Seq::empty()
        }
    } else {
        plans.map_values(|p: PanelPlan| framed(cfg, cfg.panel_commands, p, command_table_spec(cfg, es, p.1)))
    }
}

/// The commands panels of a group's entries.
pub fn command_panels(cfg: &RichHelpConfig, es: &Vec<CommandEntry>) -> (r: Vec<Block>)
    ensures
        block_views(r@) == command_panels_spec(*cfg, es@),
{
    let plans = plan_commands(cfg, es);
    let ghost pv = plan_views(plans@);
    let rule = use_rule_panels(cfg, &cfg.panel_commands, &cfg.table_commands);
    let mut out: Vec<Block> = Vec::new();
    let mut i: usize = 0;
    while i < plans.len()
        invariant
            i <= plans@.len(),
            pv == plan_views(plans@),
            pv == command_plans(*cfg, es@),
            plans_valid(es@.len(), pv),
            rule == use_rule_spec(*cfg, cfg.panel_commands, cfg.table_commands),
            block_views(out@) == if rule {
                rules_joined(*cfg, pv.take(i as int).map_values(|p: PanelPlan| ruled(*cfg, p, command_table_spec(*cfg, es@, p.1))))
            } else {
                pv.take(i as int).map_values(|p: PanelPlan| framed(*cfg, cfg.panel_commands, p, command_table_spec(*cfg, es@, p.1)))
            },
        decreases plans.len() - i,
    {
        let plan = &plans[i];
        assert(pv[i as int] == plan_view(*plan));
        assert(valid_selection(es@.len(), plan.members@));
        let table = command_table(cfg, es, &plan.members, rule);
        let ghost before = block_views(out@);
        proof {
            assert(pv.take(i + 1) =~= pv.take(i as int).push(pv[i as int]));
        }
        if rule {
            let part = ruled_blocks(cfg, plan, table);
            if i > 0 {
                out.push(blank_block(cfg));
            }
            crate::doc::append_blocks(&mut out, part);
            proof {
                let parts = pv.take(i + 1).map_values(|p: PanelPlan| ruled(*cfg, p, command_table_spec(*cfg, es@, p.1)));
                assert(parts.drop_last() =~= pv.take(i as int).map_values(|p: PanelPlan| ruled(*cfg, p, command_table_spec(*cfg, es@, p.1))));
                if i == 0 {
                    assert(block_views(out@) =~= parts[0]);
                } else {
                    assert(block_views(out@) =~= before + seq![blank_line(*cfg)] + parts.last());
                }
            }
        } else {
            let b = framed_block(cfg, &cfg.panel_commands, plan, table);
            out.push(b);
            proof {
                assert(block_views(out@) =~= before.push(block_view(b)));
                assert(block_views(out@) =~= pv.take(i + 1).map_values(|p: PanelPlan| framed(*cfg, cfg.panel_commands, p, command_table_spec(*cfg, es@, p.1))));
            }
        }
        i = i + 1;
    }
    assert(pv.take(i as int) =~= pv);
    if rule && plans.len() > 0 {
        let ghost before = block_views(out@);
        out.push(blank_block(cfg));
        assert(block_views(out@) =~= before + seq![blank_line(*cfg)]);
    } else {
        assert(block_views(out@) =~= block_views(out@) + Seq::<BlockView>::empty());
    }
    out
}

} // verus!
