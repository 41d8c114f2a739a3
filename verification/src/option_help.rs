use vstd::prelude::*;

use crate::config::{opt_view, RichHelpConfig, TextMarkup};
use crate::doc::{segment_view, segment_views, styled_view, Segment, SegmentKind, SegmentView, StyledText, StyledView};
use crate::helptext::{normalize_help_text, normalized_help_spec};
use crate::model::OptionInfo;
use crate::text::{
    concat3, contains, contains_seq, copy_str, has_prefix, has_suffix, join, join_spec, replace,
    replace_spec, starts_with, str_eq, strip_all, strip_all_prefix, views,
};

verus! {

// ---------------------------------------------------------------------------
// The help column of an option: its help text followed by the configured
// sections (environment variables, default, required marker, placeholder,
// range, prompt).
// ---------------------------------------------------------------------------

/// `template` with every `{}` replaced by `value`.
pub open spec fn fill(template: Seq<char>, value: Seq<char>) -> Seq<char> {
    replace_spec(template, "{}"@, value)
}

/// Fills the `{}` slots of a template.
pub fn fill_template(template: &str, value: &str) -> (r: String)
    ensures
        r@ == fill(template@, value@),
{
    proof {
        reveal_strlit("{}");
    }
    replace(template, "{}", value)
}

/// The placeholder of an option that takes a value.
pub open spec fn metavar_of(opt: OptionInfo) -> Option<Seq<char>> {
    if opt.is_flag || opt.count {
        None
    } else {
        opt_view(opt.metavar)
    }
}

/// The placeholder of an option that takes a value; flags have none.
pub fn option_metavar(opt: &OptionInfo) -> (r: Option<String>)
    ensures
        opt_view(r) == metavar_of(*opt),
{
    if opt.is_flag || opt.count {
        None
    } else {
        opt.metavar.clone()
    }
}

/// The placeholder as a table shows it: a list of choices `a|b` is put in
/// brackets unless it already starts with `[` or ends with `]`.
pub open spec fn metavar_display_of(opt: OptionInfo) -> Option<Seq<char>> {
    match metavar_of(opt) {
        Some(mv) => if contains_seq(mv, "|"@) && !has_prefix(mv, "["@) && !has_suffix(mv, "]"@) {
            Some("["@ + mv + "]"@)
        } else {
            Some(mv)
        },
        None => None,
    }
}

/// The placeholder as a table shows it.
pub fn option_metavar_display(opt: &OptionInfo) -> (r: Option<String>)
    ensures
        opt_view(r) == metavar_display_of(*opt),
{
    match option_metavar(opt) {
        Some(mv) => {
            if contains(mv.as_str(), "|") && !starts_with(mv.as_str(), "[") && !crate::text::ends_with(mv.as_str(), "]") {
                Some(concat3("[", mv.as_str(), "]"))
            } else {
                Some(mv)
            }
        },
        None => None,
    }
}

/// The first name of `names` that starts with `prefix` (`want`) or does not
/// (`!want`).
pub open spec fn first_with_prefix(names: Seq<Seq<char>>, prefix: Seq<char>, want: bool) -> Option<Seq<char>>
    decreases names.len(),
{
    if names.len() == 0 {
        None
    } else if has_prefix(names[0], prefix) == want {
        Some(names[0])
    } else {
        first_with_prefix(names.skip(1), prefix, want)
    }
}

fn find_with_prefix(names: &Vec<String>, prefix: &str, want: bool) -> (r: Option<String>)
    ensures
        opt_view(r) == first_with_prefix(views(names@), prefix@, want),
{
    let mut i: usize = 0;
    assert(views(names@).skip(0) =~= views(names@));
    while i < names.len()
        invariant
            i <= names@.len(),
            first_with_prefix(views(names@).skip(i as int), prefix@, want) == first_with_prefix(views(names@), prefix@, want),
        decreases names.len() - i,
    {
        proof {
            let rest = views(names@).skip(i as int);
            assert(rest[0] == names@[i as int]@);
            assert(rest.skip(1) =~= views(names@).skip(i + 1));
        }
        if starts_with(names[i].as_str(), prefix) == want {
            return Some(names[i].clone());
        }
        i = i + 1;
    }
    None
}

/// The default an option shows: for an `--x/--no-x` flag, the spelling that
/// the default selects, without its dashes.
pub open spec fn shown_default(opt: OptionInfo) -> Option<Seq<char>> {
    let d = opt_view(opt.default);
    let longs = views(opt.long@);
    if opt.is_bool_flag && d == Some("false"@) {
        match first_with_prefix(longs, "--no-"@, true) {
            Some(n) => Some(strip_all_prefix(n, "-"@)),
            None => if longs.len() > 1 {
                Some(strip_all_prefix(longs[1], "-"@))
            } else {
                d
            },
        }
    } else if opt.is_bool_flag && d == Some("true"@) {
        match first_with_prefix(longs, "--no-"@, false) {
            Some(y) => Some(strip_all_prefix(y, "-"@)),
            None => d,
        }
    } else {
        d
    }
}

fn default_shown(opt: &OptionInfo) -> (r: Option<String>)
    ensures
        opt_view(r) == shown_default(*opt),
{
    proof {
        reveal_strlit("-");
        reveal_strlit("--no-");
    }
    if opt.is_bool_flag {
        match &opt.default {
            Some(d) => {
                if str_eq(d.as_str(), "false") {
                    match find_with_prefix(&opt.long, "--no-", true) {
                        Some(n) => {
                            return Some(strip_all(n.as_str(), "-"));
                        },
                        None => {
                            if opt.long.len() > 1 {
                                return Some(strip_all(opt.long[1].as_str(), "-"));
                            }
                            return opt.default.clone();
                        },
                    }
                }
                if str_eq(d.as_str(), "true") {
                    match find_with_prefix(&opt.long, "--no-", false) {
                        Some(y) => {
                            return Some(strip_all(y.as_str(), "-"));
                        },
                        None => {
                            return opt.default.clone();
                        },
                    }
                }
            },
            None => {},
        }
    }
    opt.default.clone()
}

/// The prompt label of an option, when prompts are shown and it has one.
pub open spec fn prompt_label_spec(cfg: RichHelpConfig, opt: OptionInfo) -> Option<Seq<char>> {
    match opt.prompt {
        Some(p) => if !cfg.show_prompt {
            None
        } else {
            let base = if opt.confirmation_prompt {
                if opt.hide_input {
                    cfg.prompt_confirm_hidden_string@
                } else {
                    cfg.prompt_confirm_string@
                }
            } else if opt.hide_input {
                cfg.prompt_hidden_string@
            } else {
                cfg.prompt_string@
            };
            if contains_seq(base, "{}"@) {
                Some(fill(base, p@))
            } else {
                Some(base)
            }
        },
        None => None,
    }
}

/// The prompt label of an option.
pub fn prompt_label(cfg: &RichHelpConfig, opt: &OptionInfo) -> (r: Option<String>)
    ensures
        opt_view(r) == prompt_label_spec(*cfg, *opt),
{
    match &opt.prompt {
        Some(p) => {
            if !cfg.show_prompt {
                return None;
            }
            let base = if opt.confirmation_prompt {
                if opt.hide_input {
                    &cfg.prompt_confirm_hidden_string
                } else {
                    &cfg.prompt_confirm_string
                }
            } else if opt.hide_input {
                &cfg.prompt_hidden_string
            } else {
                &cfg.prompt_string
            };
            if contains(base.as_str(), "{}") {
                Some(fill_template(base.as_str(), p.as_str()))
            } else {
                Some(base.clone())
            }
        },
        None => None,
    }
}

/// What a part of an option's help text is.
#[derive(Debug, Clone, Copy, PartialEq, Eq, Structural)]
pub enum PartKind {
    Help,
    Envvar,
    Default,
    Required,
    Metavar,
    Range,
    Prompt,
    /// The placeholder appended after the help text.
    AppendedMetavar,
    /// The prompt label added when no section shows it.
    TrailingPrompt,
}

/// The text a help section gives an option, if any.
pub open spec fn section_piece(cfg: RichHelpConfig, opt: OptionInfo, section: Seq<char>) -> Option<Seq<char>> {
    if section == "help"@ {
        match opt.help {
            Some(h) => Some(normalized_help_spec(cfg.text_markup, h@)),
            None => None,
        }
    } else if section == "envvar"@ {
        match opt.envvar {
            Some(vars) => if opt.show_envvar {
                Some(fill(cfg.envvar_string@, join_spec(views(vars@), cfg.delimiter_comma@)))
            } else {
                None
            },
            None => None,
        }
    } else if section == "default"@ {
        match shown_default(opt) {
            Some(v) => if opt.show_default {
                Some(fill(cfg.default_string@, v))
            } else {
                None
            },
            None => None,
        }
    } else if section == "required"@ {
        if opt.required {
            Some(cfg.required_long_string@)
        } else {
            None
        }
    } else if section == "metavar"@ {
        match metavar_of(opt) {
            Some(mv) => Some(fill(cfg.append_metavars_help_string@, mv)),
            None => None,
        }
    } else if section == "range"@ {
        match metavar_of(opt) {
            Some(mv) => Some(fill(cfg.append_range_help_string@, mv)),
            None => None,
        }
    } else if section == "prompt"@ {
        prompt_label_spec(cfg, opt)
    } else {
        None
    }
}

pub open spec fn section_kind(section: Seq<char>) -> PartKind {
    if section == "help"@ {
        PartKind::Help
    } else if section == "envvar"@ {
        PartKind::Envvar
    } else if section == "default"@ {
        PartKind::Default
    } else if section == "required"@ {
        PartKind::Required
    } else if section == "metavar"@ {
        PartKind::Metavar
    } else if section == "range"@ {
        PartKind::Range
    } else {
        PartKind::Prompt
    }
}

/// The parts the sections give, in order: each section's text, and after the
/// help section the placeholder when it is to be appended.
pub open spec fn section_parts(cfg: RichHelpConfig, opt: OptionInfo, sections: Seq<Seq<char>>) -> Seq<(PartKind, Seq<char>)>
    decreases sections.len(),
{
    if sections.len() == 0 {
        Seq::empty()
    } else {
        let prev = section_parts(cfg, opt, sections.drop_last());
        let s = sections.last();
        let with_piece = match section_piece(cfg, opt, s) {
            Some(p) => prev.push((section_kind(s), p)),
            None => prev,
        };
        match metavar_of(opt) {
            Some(mv) => if s == "help"@ && cfg.append_metavars_help == Some(true) {
                with_piece.push((PartKind::AppendedMetavar, fill(cfg.append_metavars_help_string@, mv)))
            } else {
                with_piece
            },
            None => with_piece,
        }
    }
}

/// All parts of an option's help, in order: the sections' parts, then the
/// prompt label when prompts are shown and no section shows it.
pub open spec fn help_parts(cfg: RichHelpConfig, opt: OptionInfo) -> Seq<(PartKind, Seq<char>)> {
    let sections = views(cfg.options_table_help_sections@);
    let base = section_parts(cfg, opt, sections);
    match prompt_label_spec(cfg, opt) {
        Some(label) => if cfg.show_prompt && !sections.contains("prompt"@) {
            base.push((PartKind::TrailingPrompt, label))
        } else {
            base
        },
        None => base,
    }
}

fn section_piece_exec(cfg: &RichHelpConfig, opt: &OptionInfo, section: &str) -> (r: Option<String>)
    ensures
        opt_view(r) == section_piece(*cfg, *opt, section@),
{
    if str_eq(section, "help") {
        match &opt.help {
            Some(h) => Some(normalize_help_text(cfg.text_markup, h.as_str())),
            None => None,
        }
    } else if str_eq(section, "envvar") {
        match &opt.envvar {
            Some(vars) => {
                if opt.show_envvar {
                    let joined = join(vars.as_slice(), cfg.delimiter_comma.as_str());
                    Some(fill_template(cfg.envvar_string.as_str(), joined.as_str()))
                } else {
                    None
                }
            },
            None => None,
        }
    } else if str_eq(section, "default") {
        match default_shown(opt) {
            Some(v) => {
                if opt.show_default {
                    Some(fill_template(cfg.default_string.as_str(), v.as_str()))
                } else {
                    None
                }
            },
            None => None,
        }
    } else if str_eq(section, "required") {
        if opt.required {
            Some(cfg.required_long_string.clone())
        } else {
            None
        }
    } else if str_eq(section, "metavar") {
        match option_metavar(opt) {
            Some(mv) => Some(fill_template(cfg.append_metavars_help_string.as_str(), mv.as_str())),
            None => None,
        }
    } else if str_eq(section, "range") {
        match option_metavar(opt) {
            Some(mv) => Some(fill_template(cfg.append_range_help_string.as_str(), mv.as_str())),
            None => None,
        }
    } else if str_eq(section, "prompt") {
        prompt_label(cfg, opt)
    } else {
        None
    }
}

fn section_kind_exec(section: &str) -> (k: PartKind)
    ensures
        k == section_kind(section@),
{
    if str_eq(section, "help") {
        PartKind::Help
    } else if str_eq(section, "envvar") {
        PartKind::Envvar
    } else if str_eq(section, "default") {
        PartKind::Default
    } else if str_eq(section, "required") {
        PartKind::Required
    } else if str_eq(section, "metavar") {
        PartKind::Metavar
    } else if str_eq(section, "range") {
        PartKind::Range
    } else {
        PartKind::Prompt
    }
}

pub open spec fn part_views(v: Seq<(PartKind, String)>) -> Seq<(PartKind, Seq<char>)> {
    v.map_values(|p: (PartKind, String)| (p.0, p.1@))
}

proof fn lemma_part_views_push(v: Seq<(PartKind, String)>, p: (PartKind, String))
    ensures
        part_views(v.push(p)) == part_views(v).push((p.0, p.1@)),
{
    assert(part_views(v.push(p)) =~= part_views(v).push((p.0, p.1@)));
}

/// Whether `names` holds `name`.
pub fn holds_name(names: &Vec<String>, name: &str) -> (r: bool)
    ensures
        r == views(names@).contains(name@),
{
    let mut i: usize = 0;
    while i < names.len()
        invariant
            i <= names@.len(),
            forall|j: int| 0 <= j < i ==> names@[j]@ != name@,
        decreases names.len() - i,
    {
        if str_eq(names[i].as_str(), name) {
            assert(views(names@)[i as int] == name@);
            return true;
        }
        i = i + 1;
    }
    assert(!views(names@).contains(name@)) by {
        if views(names@).contains(name@) {
            let k = choose|k: int| 0 <= k < views(names@).len() && views(names@)[k] == name@;
            assert(names@[k]@ == name@);
        }
    }
    false
}

/// The parts of an option's help, in order.
pub fn option_help_parts(cfg: &RichHelpConfig, opt: &OptionInfo) -> (r: Vec<(PartKind, String)>)
    ensures
        part_views(r@) == help_parts(*cfg, *opt),
{
    let sections = &cfg.options_table_help_sections;
    let mut parts: Vec<(PartKind, String)> = Vec::new();
    let mut i: usize = 0;
    assert(part_views(parts@) =~= Seq::<(PartKind, Seq<char>)>::empty());
    while i < sections.len()
        invariant
            i <= sections@.len(),
            sections == &cfg.options_table_help_sections,
            part_views(parts@) == section_parts(*cfg, *opt, views(sections@).take(i as int)),
        decreases sections.len() - i,
    {
        let ghost prefix = views(sections@).take(i + 1);
        proof {
            assert(prefix.drop_last() =~= views(sections@).take(i as int));
            assert(prefix.last() == sections@[i as int]@);
        }
        let section = sections[i].as_str();
        match section_piece_exec(cfg, opt, section) {
            Some(p) => {
                let k = section_kind_exec(section);
                proof {
                    lemma_part_views_push(parts@, (k, p));
                }
                parts.push((k, p));
            },
            None => {},
        }
        if str_eq(section, "help") && cfg.append_metavars_help == Some(true) {
            match option_metavar(opt) {
                Some(mv) => {
                    let value = fill_template(cfg.append_metavars_help_string.as_str(), mv.as_str());
                    proof {
                        lemma_part_views_push(parts@, (PartKind::AppendedMetavar, value));
                    }
                    parts.push((PartKind::AppendedMetavar, value));
                },
                None => {},
            }
        }
        i = i + 1;
    }
    assert(views(sections@).take(i as int) =~= views(sections@));
    if cfg.show_prompt && !holds_name(sections, "prompt") {
        match prompt_label(cfg, opt) {
            Some(label) => {
                proof {
                    lemma_part_views_push(parts@, (PartKind::TrailingPrompt, label));
                }
                parts.push((PartKind::TrailingPrompt, label));
            },
            None => {},
        }
    }
    parts
}

/// The emoji setting help text is read with.
pub open spec fn emojis_enabled(cfg: RichHelpConfig) -> bool {
    match cfg.text_emojis {
        Some(b) => b,
        None => true,
    }
}

/// The segment a part becomes: the help text is read with the configured
/// markup; the other parts are plain text in their section's style.
pub open spec fn part_segment(cfg: RichHelpConfig, kind: PartKind, text: Seq<char>) -> SegmentView {
    match kind {
        PartKind::Help => if cfg.text_markup == TextMarkup::Rich {
            (SegmentKind::Markup(emojis_enabled(cfg)), text, Some(cfg.style_option_help@))
        } else if cfg.text_markup == TextMarkup::Ansi {
            (SegmentKind::Ansi, text, None)
        } else {
            (SegmentKind::Plain, text, Some(cfg.style_option_help@))
        },
        PartKind::Envvar => (SegmentKind::Plain, text, Some(cfg.style_option_envvar@)),
        PartKind::Default => (SegmentKind::Plain, text, Some(cfg.style_option_default@)),
        PartKind::Required => (SegmentKind::Plain, text, Some(cfg.style_required_long@)),
        PartKind::Metavar | PartKind::Range | PartKind::AppendedMetavar => (
            SegmentKind::Plain,
            text,
            Some(cfg.style_metavar_append@),
        ),
        PartKind::Prompt | PartKind::TrailingPrompt => (SegmentKind::Plain, text, Some(cfg.style_option_help@)),
    }
}

/// The separator between parts: a newline for Markdown, else a space.
pub open spec fn part_separator(cfg: RichHelpConfig) -> SegmentView {
    (
        SegmentKind::Plain,
        if cfg.text_markup == TextMarkup::Markdown {
            "\n"@
        } else {
            " "@
        },
        Some(cfg.style_option_help@),
    )
}

/// The segments of the parts, separated.
pub open spec fn part_segments(cfg: RichHelpConfig, parts: Seq<(PartKind, Seq<char>)>) -> Seq<SegmentView>
    decreases parts.len(),
{
    if parts.len() == 0 {
        Seq::empty()
    } else if parts.len() == 1 {
        seq![part_segment(cfg, parts[0].0, parts[0].1)]
    } else {
        part_segments(cfg, parts.drop_last()).push(part_separator(cfg)).push(
            part_segment(cfg, parts.last().0, parts.last().1),
        )
    }
}

/// The help column of an option, as styled text.
pub open spec fn option_help_text_spec(cfg: RichHelpConfig, opt: OptionInfo) -> StyledView {
    (cfg.style_option_help@, part_segments(cfg, help_parts(cfg, opt)))
}

fn segment_of_part(cfg: &RichHelpConfig, kind: PartKind, text: String) -> (s: Segment)
    ensures
        segment_view(s) == part_segment(*cfg, kind, text@),
{
    match kind {
        PartKind::Help => {
            if cfg.text_markup == TextMarkup::Rich {
                let emojis = match cfg.text_emojis {
                    Some(b) => b,
                    None => true,
                };
                Segment { kind: SegmentKind::Markup(emojis), text, style: Some(cfg.style_option_help.clone()) }
            } else if cfg.text_markup == TextMarkup::Ansi {
                Segment { kind: SegmentKind::Ansi, text, style: None }
            } else {
                Segment { kind: SegmentKind::Plain, text, style: Some(cfg.style_option_help.clone()) }
            }
        },
        PartKind::Envvar => Segment { kind: SegmentKind::Plain, text, style: Some(cfg.style_option_envvar.clone()) },
        PartKind::Default => Segment { kind: SegmentKind::Plain, text, style: Some(cfg.style_option_default.clone()) },
        PartKind::Required => Segment { kind: SegmentKind::Plain, text, style: Some(cfg.style_required_long.clone()) },
        PartKind::Metavar | PartKind::Range | PartKind::AppendedMetavar => Segment {
            kind: SegmentKind::Plain,
            text,
            style: Some(cfg.style_metavar_append.clone()),
        },
        PartKind::Prompt | PartKind::TrailingPrompt => Segment {
            kind: SegmentKind::Plain,
            text,
            style: Some(cfg.style_option_help.clone()),
        },
    }
}

/// The help column of an option as styled text.
pub fn option_help_text(cfg: &RichHelpConfig, opt: &OptionInfo) -> (t: StyledText)
    ensures
        styled_view(t) == option_help_text_spec(*cfg, *opt),
{
    let parts = option_help_parts(cfg, opt);
    let ghost pv = part_views(parts@);
    let mut segments: Vec<Segment> = Vec::new();
    let mut i: usize = 0;
    assert(segment_views(segments@) =~= part_segments(*cfg, pv.take(0)));
    while i < parts.len()
        invariant
            i <= parts@.len(),
            pv == part_views(parts@),
            pv == help_parts(*cfg, *opt),
            segment_views(segments@) == part_segments(*cfg, pv.take(i as int)),
        decreases parts.len() - i,
    {
        proof {
            assert(pv.take(i + 1).drop_last() =~= pv.take(i as int));
            assert(pv.take(i + 1).last() == pv[i as int]);
        }
        let ghost before = segments@;
        if i > 0 {
            let sep = if cfg.text_markup == TextMarkup::Markdown {
                "\n"
            } else {
                " "
            };
            segments.push(Segment { kind: SegmentKind::Plain, text: copy_str(sep), style: Some(cfg.style_option_help.clone()) });
        }
        let seg = segment_of_part(cfg, parts[i].0, parts[i].1.clone());
        segments.push(seg);
        proof {
            if i > 0 {
                assert(segment_views(segments@) =~= segment_views(before).push(part_separator(*cfg)).push(segment_view(seg)));
            } else {
                assert(segment_views(segments@) =~= seq![segment_view(seg)]);
            }
        }
        i = i + 1;
    }
    assert(pv.take(i as int) =~= pv);
    StyledText { base: cfg.style_option_help.clone(), segments }
}

/// The help column of an option as Markdown: the parts' texts joined by
/// Markdown line breaks.
pub open spec fn option_help_markdown_spec(cfg: RichHelpConfig, opt: OptionInfo) -> Seq<char> {
    join_spec(help_parts(cfg, opt).map_values(|p: (PartKind, Seq<char>)| p.1), "  \n"@)
}

/// The help column of an option as Markdown source.
pub fn option_help_markdown(cfg: &RichHelpConfig, opt: &OptionInfo) -> (r: String)
    ensures
        r@ == option_help_markdown_spec(*cfg, *opt),
{
    let parts = option_help_parts(cfg, opt);
    let mut texts: Vec<String> = Vec::new();
    let mut i: usize = 0;
    while i < parts.len()
        invariant
            i <= parts@.len(),
            views(texts@) == part_views(parts@).take(i as int).map_values(|p: (PartKind, Seq<char>)| p.1),
        decreases parts.len() - i,
    {
        let ghost before = texts@;
        texts.push(parts[i].1.clone());
        proof {
            let pv = part_views(parts@);
            assert(pv.take(i + 1) =~= pv.take(i as int).push(pv[i as int]));
            assert(views(texts@) =~= views(before).push(parts@[i as int].1@));
            assert(views(texts@) =~= pv.take(i + 1).map_values(|p: (PartKind, Seq<char>)| p.1));
        }
        i = i + 1;
    }
    assert(part_views(parts@).take(i as int) =~= part_views(parts@));
    join(texts.as_slice(), "  \n")
}

} // verus!
