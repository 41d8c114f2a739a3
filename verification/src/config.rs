use vstd::prelude::*;

use crate::json::{copy_strings, json_parse, parse_json, parse_string_list, string_list_spec, JsonValue};
use crate::env::{parse_truthy, parse_usize, truthy_spec, usize_spec, EnvSnapshot};
use crate::text::{copy_str, has_prefix, starts_with, str_eq, to_upper, trim, trim_spec, trim_start, trim_start_spec, upper_spec, views};
use crate::theme::{apply_theme, theme_known, theme_values, ThemeError};

verus! {

/// A style, kept as the style definition that the terminal renderer parses
/// (such as `"bold cyan"`); the empty definition is the plain style.
pub type StyleSpec = String;

/// How the colour system of the output console is chosen.
#[derive(Debug, Clone, Copy, PartialEq, Eq, Structural)]
pub enum ColorSystemMode {
    Auto,
    Standard,
    EightBit,
    TrueColor,
    Windows,
    NoColor,
}

/// A colour system a console can emit.
#[derive(Debug, Clone, Copy, PartialEq, Eq, Structural)]
pub enum ColorSystem {
    Standard,
    EightBit,
    TrueColor,
    Windows,
}

impl ColorSystemMode {
    pub open spec fn spec_to_color_system(self, current: Option<ColorSystem>) -> Option<ColorSystem> {
        match self {
            ColorSystemMode::Auto => current,
            ColorSystemMode::Standard => Some(ColorSystem::Standard),
            ColorSystemMode::EightBit => Some(ColorSystem::EightBit),
            ColorSystemMode::TrueColor => Some(ColorSystem::TrueColor),
            ColorSystemMode::Windows => Some(ColorSystem::Windows),
            ColorSystemMode::NoColor => None,
        }
    }

    /// The colour system this mode selects; `Auto` keeps the detected one.
    pub fn to_color_system(self, current: Option<ColorSystem>) -> (r: Option<ColorSystem>)
        ensures
            r == self.spec_to_color_system(current),
    {
        match self {
            ColorSystemMode::Auto => current,
            ColorSystemMode::Standard => Some(ColorSystem::Standard),
            ColorSystemMode::EightBit => Some(ColorSystem::EightBit),
            ColorSystemMode::TrueColor => Some(ColorSystem::TrueColor),
            ColorSystemMode::Windows => Some(ColorSystem::Windows),
            ColorSystemMode::NoColor => None,
        }
    }
}

impl Default for ColorSystemMode {
    fn default() -> (r: Self)
        ensures
            r == ColorSystemMode::Auto,
    {
        ColorSystemMode::Auto
    }
}

/// How help text is interpreted.
#[derive(Debug, Clone, Copy, PartialEq, Eq, Structural)]
pub enum TextMarkup {
    Ansi,
    Rich,
    Markdown,
    NoMarkup,
}

impl Default for TextMarkup {
    fn default() -> (r: Self)
        ensures
            r == TextMarkup::Ansi,
    {
        TextMarkup::Ansi
    }
}

/// Horizontal alignment of a panel title.
#[derive(Debug, Clone, Copy, PartialEq, Eq, Structural)]
pub enum AlignMethod {
    Left,
    Center,
    Right,
}

/// The box drawings a panel or table border can use.
#[derive(Debug, Clone, Copy, PartialEq, Eq, Structural)]
pub enum BoxType {
    Ascii,
    Ascii2,
    AsciiDoubleHead,
    Square,
    SquareDoubleHead,
    Minimal,
    MinimalHeavyHead,
    MinimalDoubleHead,
    Simple,
    SimpleHead,
    SimpleHeavy,
    Horizontals,
    Rounded,
    Heavy,
    HeavyEdge,
    HeavyHead,
    Double,
    DoubleEdge,
    Markdown,
}

/// Space around a renderable, given for all sides, as (vertical, horizontal),
/// or as (top, right, bottom, left).
#[derive(Debug, Clone, Copy, PartialEq, Eq, Structural)]
pub enum PaddingDimensions {
    All(usize),
    TwoWay(usize, usize),
    FourWay(usize, usize, usize, usize),
}

impl PaddingDimensions {
    pub open spec fn spec_unpack(self) -> (usize, usize, usize, usize) {
        match self {
            PaddingDimensions::All(v) => (v, v, v, v),
            PaddingDimensions::TwoWay(vert, horiz) => (vert, horiz, vert, horiz),
            PaddingDimensions::FourWay(t, r, b, l) => (t, r, b, l),
        }
    }

    /// (top, right, bottom, left).
    pub fn unpack(&self) -> (r: (usize, usize, usize, usize))
        ensures
            r == self.spec_unpack(),
    {
        match *self {
            PaddingDimensions::All(v) => (v, v, v, v),
            PaddingDimensions::TwoWay(vert, horiz) => (vert, horiz, vert, horiz),
            PaddingDimensions::FourWay(t, r, b, l) => (t, r, b, l),
        }
    }
}

/// Panel configuration for help sections.
#[derive(Debug, Clone)]
pub struct PanelConfig {
    pub box_type: BoxType,
    pub border_style: StyleSpec,
    pub title_style: StyleSpec,
    pub panel_style: StyleSpec,
    pub padding: PaddingDimensions,
    pub align: AlignMethod,
    pub expand: bool,
}

impl PanelConfig {
    pub open spec fn is_default(&self) -> bool {
        &&& self.box_type == BoxType::Rounded
        &&& self.border_style@ == "dim"@
        &&& self.title_style@ == Seq::<char>::empty()
        &&& self.panel_style@ == Seq::<char>::empty()
        &&& self.padding == PaddingDimensions::TwoWay(0, 1)
        &&& self.align == AlignMethod::Left
        &&& self.expand
    }

    /// An equal copy.
    pub fn copy(&self) -> (r: Self)
        ensures
            r == *self,
    {
        PanelConfig {
            box_type: self.box_type,
            border_style: self.border_style.clone(),
            title_style: self.title_style.clone(),
            panel_style: self.panel_style.clone(),
            padding: self.padding,
            align: self.align,
            expand: self.expand,
        }
    }
}

impl Default for PanelConfig {
    fn default() -> (r: Self)
        ensures
            r.is_default(),
    {
        PanelConfig {
            box_type: BoxType::Rounded,
            border_style: copy_str("dim"),
            title_style: String::new(),
            panel_style: String::new(),
            padding: PaddingDimensions::TwoWay(0, 1),
            align: AlignMethod::Left,
            expand: true,
        }
    }
}

/// Table configuration for option/command tables.
#[derive(Debug)]
pub struct TableConfig {
    pub show_lines: bool,
    pub leading: usize,
    pub pad_edge: bool,
    pub padding: (usize, usize),
    pub collapse_padding: bool,
    pub expand: bool,
    pub box_type: Option<BoxType>,
    pub row_styles: Vec<StyleSpec>,
    pub border_style: StyleSpec,
}

impl TableConfig {
    pub open spec fn is_default(&self) -> bool {
        &&& !self.show_lines
        &&& self.leading == 0
        &&& !self.pad_edge
        &&& self.padding == (0usize, 1usize)
        &&& !self.collapse_padding
        &&& !self.expand
        &&& self.box_type is None
        &&& self.row_styles@.len() == 0
        &&& self.border_style@ == "dim"@
    }

    /// `self` and `other` hold the same settings.
    pub open spec fn same_as(&self, other: &Self) -> bool {
        &&& *self == TableConfig { row_styles: self.row_styles, ..*other }
        &&& self.row_styles@ == other.row_styles@
    }

    /// A copy holding the same settings.
    pub fn copy(&self) -> (r: Self)
        ensures
            r.same_as(self),
    {
        TableConfig {
            show_lines: self.show_lines,
            leading: self.leading,
            pad_edge: self.pad_edge,
            padding: self.padding,
            collapse_padding: self.collapse_padding,
            expand: self.expand,
            box_type: self.box_type,
            row_styles: copy_strings(&self.row_styles),
            border_style: self.border_style.clone(),
        }
    }
}

impl Clone for TableConfig {
    fn clone(&self) -> Self {
        self.copy()
    }
}

impl Default for TableConfig {
    fn default() -> (r: Self)
        ensures
            r.is_default(),
    {
        TableConfig {
            show_lines: false,
            leading: 0,
            pad_edge: false,
            padding: (0, 1),
            collapse_padding: false,
            expand: false,
            box_type: None,
            row_styles: Vec::new(),
            border_style: copy_str("dim"),
        }
    }
}

/// A named panel of options or commands.
#[derive(Debug, Clone)]
pub struct GroupConfig {
    pub name: String,
    pub items: Vec<String>,
    pub help: Option<String>,
    pub inline_help_in_title: Option<bool>,
    pub title_style: Option<StyleSpec>,
    pub help_style: Option<StyleSpec>,
}

/// The content of a [`GroupConfig`]: name, items, help, inline-help flag,
/// title style and help style.
pub type GroupView = (
    Seq<char>,
    Seq<Seq<char>>,
    Option<Seq<char>>,
    Option<bool>,
    Option<Seq<char>>,
    Option<Seq<char>>,
);

pub open spec fn opt_view(o: Option<String>) -> Option<Seq<char>> {
    match o {
        Some(s) => Some(s@),
        None => None,
    }
}

pub open spec fn group_view(g: GroupConfig) -> GroupView {
    (g.name@, views(g.items@), opt_view(g.help), g.inline_help_in_title, opt_view(g.title_style), opt_view(g.help_style))
}

pub open spec fn group_views(gs: Seq<GroupConfig>) -> Seq<GroupView> {
    gs.map_values(|g: GroupConfig| group_view(g))
}

/// Extra aliases shown for the command registered under `name`.
#[derive(Debug, Clone)]
pub struct CommandAliases {
    pub name: String,
    pub aliases: Vec<String>,
}

/// The content of a list of command aliases.
pub open spec fn alias_views(v: Seq<CommandAliases>) -> Seq<(Seq<char>, Seq<Seq<char>>)> {
    v.map_values(|e: CommandAliases| (e.name@, views(e.aliases@)))
}

/// A list of two strings.
pub fn string_list2(a: &str, b: &str) -> (r: Vec<String>)
    ensures
        views(r@) == seq![a@, b@],
{
    let r = vec![copy_str(a), copy_str(b)];
    assert(views(r@) =~= seq![a@, b@]);
    r
}

/// A list of three strings.
pub fn string_list3(a: &str, b: &str, c: &str) -> (r: Vec<String>)
    ensures
        views(r@) == seq![a@, b@, c@],
{
    let r = vec![copy_str(a), copy_str(b), copy_str(c)];
    assert(views(r@) =~= seq![a@, b@, c@]);
    r
}

/// A list of five strings.
pub fn string_list5(a: &str, b: &str, c: &str, d: &str, e: &str) -> (r: Vec<String>)
    ensures
        views(r@) == seq![a@, b@, c@, d@, e@],
{
    let r = vec![copy_str(a), copy_str(b), copy_str(c), copy_str(d), copy_str(e)];
    assert(views(r@) =~= seq![a@, b@, c@, d@, e@]);
    r
}

/// Rich help configuration.
#[derive(Debug)]
pub struct RichHelpConfig {
    pub theme: Option<String>,
    pub enable_theme_env_var: bool,
    pub width: Option<usize>,
    pub max_width: Option<usize>,
    pub color_system: ColorSystemMode,
    pub force_terminal: Option<bool>,
    pub style_option: StyleSpec,
    pub style_option_negative: Option<StyleSpec>,
    pub style_argument: StyleSpec,
    pub style_command: StyleSpec,
    pub style_command_aliases: StyleSpec,
    pub style_switch: StyleSpec,
    pub style_switch_negative: Option<StyleSpec>,
    pub style_metavar: StyleSpec,
    pub style_metavar_append: StyleSpec,
    pub style_metavar_separator: StyleSpec,
    pub style_range_append: Option<StyleSpec>,
    pub style_header_text: StyleSpec,
    pub style_epilog_text: StyleSpec,
    pub style_footer_text: StyleSpec,
    pub style_usage: StyleSpec,
    pub style_usage_command: StyleSpec,
    pub style_usage_separator: StyleSpec,
    pub style_deprecated: StyleSpec,
    pub style_helptext_first_line: StyleSpec,
    pub style_helptext: StyleSpec,
    pub style_helptext_aliases: Option<StyleSpec>,
    pub style_option_help: StyleSpec,
    pub style_command_help: StyleSpec,
    pub style_option_default: StyleSpec,
    pub style_option_envvar: StyleSpec,
    pub style_required_short: StyleSpec,
    pub style_required_long: StyleSpec,
    pub style_options_panel_border: StyleSpec,
    pub style_options_panel_box: Option<BoxType>,
    pub style_options_panel_help_style: StyleSpec,
    pub style_options_panel_title_style: StyleSpec,
    pub style_options_panel_padding: PaddingDimensions,
    pub style_options_panel_style: StyleSpec,
    pub align_options_panel: AlignMethod,
    pub style_options_table_show_lines: bool,
    pub style_options_table_leading: usize,
    pub style_options_table_pad_edge: bool,
    pub style_options_table_padding: PaddingDimensions,
    pub style_options_table_collapse_padding: bool,
    pub style_options_table_expand: bool,
    pub style_options_table_box: Option<BoxType>,
    pub style_options_table_row_styles: Vec<StyleSpec>,
    pub style_options_table_border_style: StyleSpec,
    pub style_commands_panel_border: StyleSpec,
    pub panel_inline_help_in_title: bool,
    pub panel_inline_help_delimiter: String,
    pub style_commands_panel_box: Option<BoxType>,
    pub style_commands_panel_help_style: StyleSpec,
    pub style_commands_panel_title_style: StyleSpec,
    pub style_commands_panel_padding: PaddingDimensions,
    pub style_commands_panel_style: StyleSpec,
    pub align_commands_panel: AlignMethod,
    pub style_commands_table_show_lines: bool,
    pub style_commands_table_leading: usize,
    pub style_commands_table_pad_edge: bool,
    pub style_commands_table_padding: PaddingDimensions,
    pub style_commands_table_collapse_padding: bool,
    pub style_commands_table_expand: bool,
    pub style_commands_table_box: Option<BoxType>,
    pub style_commands_table_row_styles: Vec<StyleSpec>,
    pub style_commands_table_border_style: StyleSpec,
    pub style_commands_table_column_width_ratio: Option<(Option<usize>, Option<usize>)>,
    pub style_errors_panel_border: StyleSpec,
    pub style_errors_panel_box: Option<BoxType>,
    pub align_errors_panel: AlignMethod,
    pub style_errors_suggestion: Option<StyleSpec>,
    pub style_errors_suggestion_command: Option<StyleSpec>,
    pub style_padding_errors: StyleSpec,
    pub style_aborted: StyleSpec,
    pub style_padding_usage: StyleSpec,
    pub style_padding_helptext: StyleSpec,
    pub style_padding_epilog: StyleSpec,
    pub panel_title_padding: usize,
    pub options_table_column_types: Vec<String>,
    pub commands_table_column_types: Vec<String>,
    pub options_table_help_sections: Vec<String>,
    pub commands_table_help_sections: Vec<String>,
    pub header_text: Option<String>,
    pub footer_text: Option<String>,
    pub panel_title_string: String,
    pub deprecated_string: String,
    pub deprecated_with_reason_string: String,
    pub default_string: String,
    pub envvar_string: String,
    pub required_short_string: String,
    pub required_long_string: String,
    pub range_string: String,
    pub append_metavars_help_string: String,
    pub append_range_help_string: String,
    pub helptext_aliases_string: String,
    pub arguments_panel_title: String,
    pub options_panel_title: String,
    pub commands_panel_title: String,
    pub errors_panel_title: String,
    pub delimiter_comma: String,
    pub delimiter_slash: String,
    pub errors_suggestion: Option<String>,
    pub errors_epilogue: Option<String>,
    pub aborted_text: String,
    pub errors_show_param_source: bool,
    pub errors_param_source_format: String,
    pub padding_header_text: PaddingDimensions,
    pub padding_usage: PaddingDimensions,
    pub padding_helptext: PaddingDimensions,
    pub padding_helptext_deprecated: PaddingDimensions,
    pub padding_helptext_first_line: PaddingDimensions,
    pub padding_epilog: PaddingDimensions,
    pub padding_footer_text: PaddingDimensions,
    pub padding_errors_panel: PaddingDimensions,
    pub padding_errors_suggestion: PaddingDimensions,
    pub padding_errors_epilogue: PaddingDimensions,
    pub show_arguments: Option<bool>,
    pub show_commands: Option<bool>,
    pub show_metavars_column: Option<bool>,
    pub commands_before_options: bool,
    pub default_panels_first: bool,
    pub append_metavars_help: Option<bool>,
    pub group_arguments_options: bool,
    pub option_envvar_first: Option<bool>,
    pub text_markup: TextMarkup,
    pub text_emojis: Option<bool>,
    pub text_paragraph_linebreaks: Option<String>,
    pub use_click_short_help: bool,
    pub helptext_show_aliases: bool,
    pub show_prompt: bool,
    pub prompt_string: String,
    pub prompt_confirm_string: String,
    pub prompt_hidden_string: String,
    pub prompt_confirm_hidden_string: String,
    pub command_aliases: Vec<CommandAliases>,
    pub option_groups: Vec<GroupConfig>,
    pub command_groups: Vec<GroupConfig>,
    pub panel_options: PanelConfig,
    pub panel_commands: PanelConfig,
    pub panel_arguments: PanelConfig,
    pub table_options: TableConfig,
    pub table_commands: TableConfig,
    pub table_arguments: TableConfig,
}

impl Clone for RichHelpConfig {
    fn clone(&self) -> Self {
        RichHelpConfig {
            theme: self.theme.clone(),
            enable_theme_env_var: self.enable_theme_env_var,
            width: self.width,
            max_width: self.max_width,
            color_system: self.color_system,
            force_terminal: self.force_terminal,
            style_option: self.style_option.clone(),
            style_option_negative: self.style_option_negative.clone(),
            style_argument: self.style_argument.clone(),
            style_command: self.style_command.clone(),
            style_command_aliases: self.style_command_aliases.clone(),
            style_switch: self.style_switch.clone(),
            style_switch_negative: self.style_switch_negative.clone(),
            style_metavar: self.style_metavar.clone(),
            style_metavar_append: self.style_metavar_append.clone(),
            style_metavar_separator: self.style_metavar_separator.clone(),
            style_range_append: self.style_range_append.clone(),
            style_header_text: self.style_header_text.clone(),
            style_epilog_text: self.style_epilog_text.clone(),
            style_footer_text: self.style_footer_text.clone(),
            style_usage: self.style_usage.clone(),
            style_usage_command: self.style_usage_command.clone(),
            style_usage_separator: self.style_usage_separator.clone(),
            style_deprecated: self.style_deprecated.clone(),
            style_helptext_first_line: self.style_helptext_first_line.clone(),
            style_helptext: self.style_helptext.clone(),
            style_helptext_aliases: self.style_helptext_aliases.clone(),
            style_option_help: self.style_option_help.clone(),
            style_command_help: self.style_command_help.clone(),
            style_option_default: self.style_option_default.clone(),
            style_option_envvar: self.style_option_envvar.clone(),
            style_required_short: self.style_required_short.clone(),
            style_required_long: self.style_required_long.clone(),
            style_options_panel_border: self.style_options_panel_border.clone(),
            style_options_panel_box: self.style_options_panel_box,
            style_options_panel_help_style: self.style_options_panel_help_style.clone(),
            style_options_panel_title_style: self.style_options_panel_title_style.clone(),
            style_options_panel_padding: self.style_options_panel_padding,
            style_options_panel_style: self.style_options_panel_style.clone(),
            align_options_panel: self.align_options_panel,
            style_options_table_show_lines: self.style_options_table_show_lines,
            style_options_table_leading: self.style_options_table_leading,
            style_options_table_pad_edge: self.style_options_table_pad_edge,
            style_options_table_padding: self.style_options_table_padding,
            style_options_table_collapse_padding: self.style_options_table_collapse_padding,
            style_options_table_expand: self.style_options_table_expand,
            style_options_table_box: self.style_options_table_box,
            style_options_table_row_styles: self.style_options_table_row_styles.clone(),
            style_options_table_border_style: self.style_options_table_border_style.clone(),
            style_commands_panel_border: self.style_commands_panel_border.clone(),
            panel_inline_help_in_title: self.panel_inline_help_in_title,
            panel_inline_help_delimiter: self.panel_inline_help_delimiter.clone(),
            style_commands_panel_box: self.style_commands_panel_box,
            style_commands_panel_help_style: self.style_commands_panel_help_style.clone(),
            style_commands_panel_title_style: self.style_commands_panel_title_style.clone(),
            style_commands_panel_padding: self.style_commands_panel_padding,
            style_commands_panel_style: self.style_commands_panel_style.clone(),
            align_commands_panel: self.align_commands_panel,
            style_commands_table_show_lines: self.style_commands_table_show_lines,
            style_commands_table_leading: self.style_commands_table_leading,
            style_commands_table_pad_edge: self.style_commands_table_pad_edge,
            style_commands_table_padding: self.style_commands_table_padding,
            style_commands_table_collapse_padding: self.style_commands_table_collapse_padding,
            style_commands_table_expand: self.style_commands_table_expand,
            style_commands_table_box: self.style_commands_table_box,
            style_commands_table_row_styles: self.style_commands_table_row_styles.clone(),
            style_commands_table_border_style: self.style_commands_table_border_style.clone(),
            style_commands_table_column_width_ratio: self.style_commands_table_column_width_ratio,
            style_errors_panel_border: self.style_errors_panel_border.clone(),
            style_errors_panel_box: self.style_errors_panel_box,
            align_errors_panel: self.align_errors_panel,
            style_errors_suggestion: self.style_errors_suggestion.clone(),
            style_errors_suggestion_command: self.style_errors_suggestion_command.clone(),
            style_padding_errors: self.style_padding_errors.clone(),
            style_aborted: self.style_aborted.clone(),
            style_padding_usage: self.style_padding_usage.clone(),
            style_padding_helptext: self.style_padding_helptext.clone(),
            style_padding_epilog: self.style_padding_epilog.clone(),
            panel_title_padding: self.panel_title_padding,
            options_table_column_types: self.options_table_column_types.clone(),
            commands_table_column_types: self.commands_table_column_types.clone(),
            options_table_help_sections: self.options_table_help_sections.clone(),
            commands_table_help_sections: self.commands_table_help_sections.clone(),
            header_text: self.header_text.clone(),
            footer_text: self.footer_text.clone(),
            panel_title_string: self.panel_title_string.clone(),
            deprecated_string: self.deprecated_string.clone(),
            deprecated_with_reason_string: self.deprecated_with_reason_string.clone(),
            default_string: self.default_string.clone(),
            envvar_string: self.envvar_string.clone(),
            required_short_string: self.required_short_string.clone(),
            required_long_string: self.required_long_string.clone(),
            range_string: self.range_string.clone(),
            append_metavars_help_string: self.append_metavars_help_string.clone(),
            append_range_help_string: self.append_range_help_string.clone(),
            helptext_aliases_string: self.helptext_aliases_string.clone(),
            arguments_panel_title: self.arguments_panel_title.clone(),
            options_panel_title: self.options_panel_title.clone(),
            commands_panel_title: self.commands_panel_title.clone(),
            errors_panel_title: self.errors_panel_title.clone(),
            delimiter_comma: self.delimiter_comma.clone(),
            delimiter_slash: self.delimiter_slash.clone(),
            errors_suggestion: self.errors_suggestion.clone(),
            errors_epilogue: self.errors_epilogue.clone(),
            aborted_text: self.aborted_text.clone(),
            errors_show_param_source: self.errors_show_param_source,
            errors_param_source_format: self.errors_param_source_format.clone(),
            padding_header_text: self.padding_header_text,
            padding_usage: self.padding_usage,
            padding_helptext: self.padding_helptext,
            padding_helptext_deprecated: self.padding_helptext_deprecated,
            padding_helptext_first_line: self.padding_helptext_first_line,
            padding_epilog: self.padding_epilog,
            padding_footer_text: self.padding_footer_text,
            padding_errors_panel: self.padding_errors_panel,
            padding_errors_suggestion: self.padding_errors_suggestion,
            padding_errors_epilogue: self.padding_errors_epilogue,
            show_arguments: self.show_arguments,
            show_commands: self.show_commands,
            show_metavars_column: self.show_metavars_column,
            commands_before_options: self.commands_before_options,
            default_panels_first: self.default_panels_first,
            append_metavars_help: self.append_metavars_help,
            group_arguments_options: self.group_arguments_options,
            option_envvar_first: self.option_envvar_first,
            text_markup: self.text_markup,
            text_emojis: self.text_emojis,
            text_paragraph_linebreaks: self.text_paragraph_linebreaks.clone(),
            use_click_short_help: self.use_click_short_help,
            helptext_show_aliases: self.helptext_show_aliases,
            show_prompt: self.show_prompt,
            prompt_string: self.prompt_string.clone(),
            prompt_confirm_string: self.prompt_confirm_string.clone(),
            prompt_hidden_string: self.prompt_hidden_string.clone(),
            prompt_confirm_hidden_string: self.prompt_confirm_hidden_string.clone(),
            command_aliases: self.command_aliases.clone(),
            option_groups: self.option_groups.clone(),
            command_groups: self.command_groups.clone(),
            panel_options: self.panel_options.clone(),
            panel_commands: self.panel_commands.clone(),
            panel_arguments: self.panel_arguments.clone(),
            table_options: self.table_options.clone(),
            table_commands: self.table_commands.clone(),
            table_arguments: self.table_arguments.clone(),
        }
    }
}

impl RichHelpConfig {
    /// The configuration before any theme is applied.
    fn unthemed() -> (cfg: Self)
        ensures
            cfg.base_values(),
            cfg.theme_fields_unthemed(),
            cfg.table_options.is_default(),
            cfg.table_commands.is_default(),
    {
        RichHelpConfig {
            theme: None,
            enable_theme_env_var: true,
            width: None,
            max_width: None,
            color_system: ColorSystemMode::Auto,
            force_terminal: None,
            style_option: copy_str(""),
            style_option_negative: None,
            style_argument: copy_str(""),
            style_command: copy_str(""),
            style_command_aliases: copy_str(""),
            style_switch: copy_str(""),
            style_switch_negative: None,
            style_metavar: copy_str(""),
            style_metavar_append: copy_str(""),
            style_metavar_separator: copy_str(""),
            style_range_append: None,
            style_header_text: copy_str(""),
            style_epilog_text: copy_str(""),
            style_footer_text: copy_str(""),
            style_usage: copy_str(""),
            style_usage_command: copy_str(""),
            style_usage_separator: copy_str(""),
            style_deprecated: copy_str(""),
            style_helptext_first_line: copy_str(""),
            style_helptext: copy_str(""),
            style_helptext_aliases: None,
            style_option_help: copy_str(""),
            style_command_help: copy_str(""),
            style_option_default: copy_str(""),
            style_option_envvar: copy_str(""),
            style_required_short: copy_str(""),
            style_required_long: copy_str(""),
            style_options_panel_border: copy_str(""),
            style_options_panel_box: None,
            style_options_panel_help_style: copy_str(""),
            style_options_panel_title_style: copy_str(""),
            style_options_panel_padding: PaddingDimensions::TwoWay(0, 1),
            style_options_panel_style: copy_str(""),
            align_options_panel: AlignMethod::Left,
            style_options_table_show_lines: false,
            style_options_table_leading: 0,
            style_options_table_pad_edge: false,
            style_options_table_padding: PaddingDimensions::TwoWay(0, 1),
            style_options_table_collapse_padding: false,
            style_options_table_expand: true,
            style_options_table_box: None,
            style_options_table_row_styles: Vec::new(),
            style_options_table_border_style: copy_str(""),
            style_commands_panel_border: copy_str(""),
            panel_inline_help_in_title: false,
            panel_inline_help_delimiter: copy_str(" - "),
            style_commands_panel_box: None,
            style_commands_panel_help_style: copy_str(""),
            style_commands_panel_title_style: copy_str(""),
            style_commands_panel_padding: PaddingDimensions::TwoWay(0, 1),
            style_commands_panel_style: copy_str(""),
            align_commands_panel: AlignMethod::Left,
            style_commands_table_show_lines: false,
            style_commands_table_leading: 0,
            style_commands_table_pad_edge: false,
            style_commands_table_padding: PaddingDimensions::TwoWay(0, 1),
            style_commands_table_collapse_padding: false,
            style_commands_table_expand: true,
            style_commands_table_box: None,
            style_commands_table_row_styles: Vec::new(),
            style_commands_table_border_style: copy_str(""),
            style_commands_table_column_width_ratio: None,
            style_errors_panel_border: copy_str(""),
            style_errors_panel_box: None,
            align_errors_panel: AlignMethod::Left,
            style_errors_suggestion: None,
            style_errors_suggestion_command: None,
            style_padding_errors: copy_str(""),
            style_aborted: copy_str("red"),
            style_padding_usage: copy_str(""),
            style_padding_helptext: copy_str(""),
            style_padding_epilog: copy_str(""),
            panel_title_padding: 1,
            options_table_column_types: string_list5("required", "opt_long", "opt_short", "metavar", "help"),
            commands_table_column_types: string_list3("name", "aliases", "help"),
            options_table_help_sections: string_list5("help", "deprecated", "envvar", "default", "required"),
            commands_table_help_sections: string_list2("help", "deprecated"),
            header_text: None,
            footer_text: None,
            panel_title_string: copy_str("{}"),
            deprecated_string: copy_str("[deprecated]"),
            deprecated_with_reason_string: copy_str("[deprecated: {}]"),
            default_string: copy_str("[default: {}]"),
            envvar_string: copy_str("[env var: {}]"),
            required_short_string: copy_str("*"),
            required_long_string: copy_str("[required]"),
            range_string: copy_str("[{}]"),
            append_metavars_help_string: copy_str("({})"),
            append_range_help_string: copy_str("[range: {}]"),
            helptext_aliases_string: copy_str("Aliases: {}"),
            arguments_panel_title: copy_str("Arguments"),
            options_panel_title: copy_str("Options"),
            commands_panel_title: copy_str("Commands"),
            errors_panel_title: copy_str("Error"),
            delimiter_comma: copy_str(","),
            delimiter_slash: copy_str("/"),
            errors_suggestion: None,
            errors_epilogue: None,
            aborted_text: copy_str("Aborted."),
            errors_show_param_source: false,
            errors_param_source_format: copy_str(" (from {})"),
            padding_header_text: PaddingDimensions::FourWay(1, 1, 0, 1),
            padding_usage: PaddingDimensions::All(1),
            padding_helptext: PaddingDimensions::FourWay(0, 1, 1, 1),
            padding_helptext_deprecated: PaddingDimensions::All(0),
            padding_helptext_first_line: PaddingDimensions::All(0),
            padding_epilog: PaddingDimensions::All(1),
            padding_footer_text: PaddingDimensions::All(1),
            padding_errors_panel: PaddingDimensions::FourWay(0, 0, 1, 0),
            padding_errors_suggestion: PaddingDimensions::FourWay(0, 1, 0, 1),
            padding_errors_epilogue: PaddingDimensions::FourWay(0, 1, 1, 1),
            show_arguments: None,
            show_commands: None,
            show_metavars_column: None,
            commands_before_options: false,
            default_panels_first: false,
            append_metavars_help: None,
            group_arguments_options: false,
            option_envvar_first: None,
            text_markup: TextMarkup::Ansi,
            text_emojis: None,
            text_paragraph_linebreaks: None,
            use_click_short_help: false,
            helptext_show_aliases: false,
            show_prompt: false,
            prompt_string: copy_str("[prompt]"),
            prompt_confirm_string: copy_str("[prompt (confirm)]"),
            prompt_hidden_string: copy_str("[prompt (hidden)]"),
            prompt_confirm_hidden_string: copy_str("[prompt (confirm, hidden)]"),
            command_aliases: Vec::new(),
            option_groups: Vec::new(),
            command_groups: Vec::new(),
            panel_options: PanelConfig::default(),
            panel_commands: PanelConfig::default(),
            panel_arguments: PanelConfig::default(),
            table_options: TableConfig::default(),
            table_commands: TableConfig::default(),
            table_arguments: TableConfig::default(),
        }
    }

    /// The defaults of the fields that neither the theme nor the render
    /// synchronisation set.
    pub open spec fn base_values(&self) -> bool {
        &&& self.theme is None
        &&& self.enable_theme_env_var == true
        &&& self.width is None
        &&& self.max_width is None
        &&& self.color_system == ColorSystemMode::Auto
        &&& self.force_terminal is None
        &&& self.style_helptext_aliases is None
        &&& self.align_options_panel == AlignMethod::Left
        &&& self.style_options_table_show_lines == false
        &&& self.style_options_table_leading == 0
        &&& self.style_options_table_pad_edge == false
        &&& self.style_options_table_padding == PaddingDimensions::TwoWay(0, 1)
        &&& self.style_options_table_collapse_padding == false
        &&& self.style_options_table_row_styles@.len() == 0
        &&& self.align_commands_panel == AlignMethod::Left
        &&& self.style_commands_table_show_lines == false
        &&& self.style_commands_table_leading == 0
        &&& self.style_commands_table_pad_edge == false
        &&& self.style_commands_table_padding == PaddingDimensions::TwoWay(0, 1)
        &&& self.style_commands_table_collapse_padding == false
        &&& self.style_commands_table_row_styles@.len() == 0
        &&& self.style_commands_table_column_width_ratio is None
        &&& self.align_errors_panel == AlignMethod::Left
        &&& self.style_errors_suggestion is None
        &&& self.style_errors_suggestion_command is None
        &&& self.style_aborted@ == "red"@
        &&& self.header_text is None
        &&& self.footer_text is None
        &&& self.helptext_aliases_string@ == "Aliases: {}"@
        &&& self.arguments_panel_title@ == "Arguments"@
        &&& self.options_panel_title@ == "Options"@
        &&& self.commands_panel_title@ == "Commands"@
        &&& self.errors_panel_title@ == "Error"@
        &&& self.errors_suggestion is None
        &&& self.errors_epilogue is None
        &&& self.aborted_text@ == "Aborted."@
        &&& self.errors_show_param_source == false
        &&& self.errors_param_source_format@ == " (from {})"@
        &&& self.padding_helptext_deprecated == PaddingDimensions::All(0)
        &&& self.padding_helptext_first_line == PaddingDimensions::All(0)
        &&& self.padding_errors_panel == PaddingDimensions::FourWay(0, 0, 1, 0)
        &&& self.padding_errors_suggestion == PaddingDimensions::FourWay(0, 1, 0, 1)
        &&& self.padding_errors_epilogue == PaddingDimensions::FourWay(0, 1, 1, 1)
        &&& self.show_arguments is None
        &&& self.show_commands is None
        &&& self.show_metavars_column is None
        &&& self.commands_before_options == false
        &&& self.default_panels_first == false
        &&& self.append_metavars_help is None
        &&& self.group_arguments_options == false
        &&& self.option_envvar_first is None
        &&& self.text_markup == TextMarkup::Ansi
        &&& self.text_paragraph_linebreaks is None
        &&& self.use_click_short_help == false
        &&& self.helptext_show_aliases == false
        &&& self.show_prompt == false
        &&& self.prompt_string@ == "[prompt]"@
        &&& self.prompt_confirm_string@ == "[prompt (confirm)]"@
        &&& self.prompt_hidden_string@ == "[prompt (hidden)]"@
        &&& self.prompt_confirm_hidden_string@ == "[prompt (confirm, hidden)]"@
        &&& self.command_aliases@.len() == 0
        &&& self.option_groups@.len() == 0
        &&& self.command_groups@.len() == 0
    }

    /// The values the theme fields hold before a theme is applied.
    pub open spec fn theme_fields_unthemed(&self) -> bool {
        &&& self.style_option@ == ""@
        &&& self.style_option_negative is None
        &&& self.style_argument@ == ""@
        &&& self.style_command@ == ""@
        &&& self.style_command_aliases@ == ""@
        &&& self.style_switch@ == ""@
        &&& self.style_switch_negative is None
        &&& self.style_metavar@ == ""@
        &&& self.style_metavar_append@ == ""@
        &&& self.style_metavar_separator@ == ""@
        &&& self.style_range_append is None
        &&& self.style_header_text@ == ""@
        &&& self.style_epilog_text@ == ""@
        &&& self.style_footer_text@ == ""@
        &&& self.style_usage@ == ""@
        &&& self.style_usage_command@ == ""@
        &&& self.style_usage_separator@ == ""@
        &&& self.style_deprecated@ == ""@
        &&& self.style_helptext_first_line@ == ""@
        &&& self.style_helptext@ == ""@
        &&& self.style_option_help@ == ""@
        &&& self.style_command_help@ == ""@
        &&& self.style_option_default@ == ""@
        &&& self.style_option_envvar@ == ""@
        &&& self.style_required_short@ == ""@
        &&& self.style_required_long@ == ""@
        &&& self.style_options_panel_border@ == ""@
        &&& self.style_options_panel_box is None
        &&& self.style_options_panel_help_style@ == ""@
        &&& self.style_options_panel_title_style@ == ""@
        &&& self.style_options_panel_padding == PaddingDimensions::TwoWay(0, 1)
        &&& self.style_options_panel_style@ == ""@
        &&& self.style_options_table_expand == true
        &&& self.style_options_table_box is None
        &&& self.style_options_table_border_style@ == ""@
        &&& self.style_commands_panel_border@ == ""@
        &&& self.panel_inline_help_in_title == false
        &&& self.panel_inline_help_delimiter@ == " - "@
        &&& self.style_commands_panel_box is None
        &&& self.style_commands_panel_help_style@ == ""@
        &&& self.style_commands_panel_title_style@ == ""@
        &&& self.style_commands_panel_padding == PaddingDimensions::TwoWay(0, 1)
        &&& self.style_commands_panel_style@ == ""@
        &&& self.style_commands_table_expand == true
        &&& self.style_commands_table_box is None
        &&& self.style_commands_table_border_style@ == ""@
        &&& self.style_errors_panel_border@ == ""@
        &&& self.style_errors_panel_box is None
        &&& self.style_padding_errors@ == ""@
        &&& self.style_padding_usage@ == ""@
        &&& self.style_padding_helptext@ == ""@
        &&& self.style_padding_epilog@ == ""@
        &&& self.panel_title_padding == 1
        &&& views(self.options_table_column_types@) == seq!["required"@, "opt_long"@, "opt_short"@, "metavar"@, "help"@]
        &&& views(self.commands_table_column_types@) == seq!["name"@, "aliases"@, "help"@]
        &&& views(self.options_table_help_sections@) == seq!["help"@, "deprecated"@, "envvar"@, "default"@, "required"@]
        &&& views(self.commands_table_help_sections@) == seq!["help"@, "deprecated"@]
        &&& self.panel_title_string@ == "{}"@
        &&& self.deprecated_string@ == "[deprecated]"@
        &&& self.deprecated_with_reason_string@ == "[deprecated: {}]"@
        &&& self.default_string@ == "[default: {}]"@
        &&& self.envvar_string@ == "[env var: {}]"@
        &&& self.required_short_string@ == "*"@
        &&& self.required_long_string@ == "[required]"@
        &&& self.range_string@ == "[{}]"@
        &&& self.append_metavars_help_string@ == "({})"@
        &&& self.append_range_help_string@ == "[range: {}]"@
        &&& self.delimiter_comma@ == ","@
        &&& self.delimiter_slash@ == "/"@
        &&& self.padding_header_text == PaddingDimensions::FourWay(1, 1, 0, 1)
        &&& self.padding_usage == PaddingDimensions::All(1)
        &&& self.padding_helptext == PaddingDimensions::FourWay(0, 1, 1, 1)
        &&& self.padding_epilog == PaddingDimensions::All(1)
        &&& self.padding_footer_text == PaddingDimensions::All(1)
        &&& self.text_emojis is None
    }

    /// The values the "default-box" theme gives its fields.
    pub open spec fn default_box_values(&self) -> bool {
        &&& self.style_option@ == "bold cyan"@
        &&& self.style_option_negative is None
        &&& self.style_argument@ == "bold cyan"@
        &&& self.style_command@ == "bold cyan"@
        &&& self.style_command_aliases@ == "bold green"@
        &&& self.style_switch@ == "bold green"@
        &&& self.style_switch_negative is None
        &&& self.style_metavar@ == "bold yellow"@
        &&& self.style_metavar_append@ == "dim yellow"@
        &&& self.style_metavar_separator@ == "dim"@
        &&& self.style_range_append is None
        &&& self.style_header_text@ == ""@
        &&& self.style_epilog_text@ == ""@
        &&& self.style_footer_text@ == ""@
        &&& self.style_usage@ == "yellow"@
        &&& self.style_usage_command@ == "bold"@
        &&& self.style_usage_separator@ == ""@
        &&& self.style_deprecated@ == "red"@
        &&& self.style_helptext_first_line@ == ""@
        &&& self.style_helptext@ == "dim"@
        &&& self.style_option_help@ == ""@
        &&& self.style_command_help@ == ""@
        &&& self.style_option_default@ == "dim"@
        &&& self.style_option_envvar@ == "dim yellow"@
        &&& self.style_required_short@ == "red"@
        &&& self.style_required_long@ == "dim red"@
        &&& self.style_options_panel_border@ == "dim"@
        &&& self.style_options_panel_box == Some(BoxType::Rounded)
        &&& self.style_options_panel_help_style@ == "dim"@
        &&& self.style_options_panel_title_style@ == ""@
        &&& self.style_options_panel_padding == PaddingDimensions::TwoWay(0, 1)
        &&& self.style_options_panel_style@ == ""@
        &&& self.style_options_table_expand == true
        &&& self.style_options_table_box is None
        &&& self.style_options_table_border_style@ == "dim"@
        &&& self.style_commands_panel_border@ == "dim"@
        &&& self.panel_inline_help_in_title == false
        &&& self.panel_inline_help_delimiter@ == " - "@
        &&& self.style_commands_panel_box == Some(BoxType::Rounded)
        &&& self.style_commands_panel_help_style@ == "dim"@
        &&& self.style_commands_panel_title_style@ == ""@
        &&& self.style_commands_panel_padding == PaddingDimensions::TwoWay(0, 1)
        &&& self.style_commands_panel_style@ == ""@
        &&& self.style_commands_table_expand == true
        &&& self.style_commands_table_box is None
        &&& self.style_commands_table_border_style@ == "dim"@
        &&& self.style_errors_panel_border@ == "red"@
        &&& self.style_errors_panel_box == Some(BoxType::Rounded)
        &&& self.style_padding_errors@ == ""@
        &&& self.style_padding_usage@ == ""@
        &&& self.style_padding_helptext@ == ""@
        &&& self.style_padding_epilog@ == ""@
        &&& self.panel_title_padding == 1
        &&& views(self.options_table_column_types@) == seq!["required"@, "opt_long"@, "opt_short"@, "metavar"@, "help"@]
        &&& views(self.commands_table_column_types@) == seq!["name"@, "aliases"@, "help"@]
        &&& views(self.options_table_help_sections@) == seq!["help"@, "deprecated"@, "envvar"@, "default"@, "required"@]
        &&& views(self.commands_table_help_sections@) == seq!["help"@, "deprecated"@]
        &&& self.panel_title_string@ == "{}"@
        &&& self.deprecated_string@ == "[deprecated]"@
        &&& self.deprecated_with_reason_string@ == "[deprecated: {}]"@
        &&& self.default_string@ == "[default: {}]"@
        &&& self.envvar_string@ == "[env var: {}]"@
        &&& self.required_short_string@ == "*"@
        &&& self.required_long_string@ == "[required]"@
        &&& self.range_string@ == "[{}]"@
        &&& self.append_metavars_help_string@ == "({})"@
        &&& self.append_range_help_string@ == "[range: {}]"@
        &&& self.delimiter_comma@ == ","@
        &&& self.delimiter_slash@ == "/"@
        &&& self.padding_header_text == PaddingDimensions::FourWay(1, 1, 0, 1)
        &&& self.padding_usage == PaddingDimensions::All(1)
        &&& self.padding_helptext == PaddingDimensions::FourWay(0, 1, 1, 1)
        &&& self.padding_epilog == PaddingDimensions::All(1)
        &&& self.padding_footer_text == PaddingDimensions::All(1)
    }

    /// The values the "solarized" theme gives its fields: the layout of
    /// "default-box" in colours of the Solarized palette. Which palette colour
    /// each style takes is this library's own choice; the theme is named by
    /// the documentation of `RICH_CLICK_THEME` but no colours are given there.
    pub open spec fn solarized_values(&self) -> bool {
        &&& self.style_option@ == "bold #2aa198"@
        &&& self.style_option_negative is None
        &&& self.style_argument@ == "bold #2aa198"@
        &&& self.style_command@ == "bold #268bd2"@
        &&& self.style_command_aliases@ == "#859900"@
        &&& self.style_switch@ == "bold #859900"@
        &&& self.style_switch_negative is None
        &&& self.style_metavar@ == "bold #b58900"@
        &&& self.style_metavar_append@ == "#b58900"@
        &&& self.style_metavar_separator@ == "dim"@
        &&& self.style_range_append is None
        &&& self.style_header_text@ == ""@
        &&& self.style_epilog_text@ == ""@
        &&& self.style_footer_text@ == ""@
        &&& self.style_usage@ == "#b58900"@
        &&& self.style_usage_command@ == "bold #268bd2"@
        &&& self.style_usage_separator@ == ""@
        &&& self.style_deprecated@ == "#dc322f"@
        &&& self.style_helptext_first_line@ == ""@
        &&& self.style_helptext@ == "#93a1a1"@
        &&& self.style_option_help@ == ""@
        &&& self.style_command_help@ == ""@
        &&& self.style_option_default@ == "#93a1a1"@
        &&& self.style_option_envvar@ == "#b58900"@
        &&& self.style_required_short@ == "#dc322f"@
        &&& self.style_required_long@ == "#dc322f"@
        &&& self.style_options_panel_border@ == "#586e75"@
        &&& self.style_options_panel_box == Some(BoxType::Rounded)
        &&& self.style_options_panel_help_style@ == "dim"@
        &&& self.style_options_panel_title_style@ == ""@
        &&& self.style_options_panel_padding == PaddingDimensions::TwoWay(0, 1)
        &&& self.style_options_panel_style@ == ""@
        &&& self.style_options_table_expand == true
        &&& self.style_options_table_box is None
        &&& self.style_options_table_border_style@ == "dim"@
        &&& self.style_commands_panel_border@ == "#586e75"@
        &&& self.panel_inline_help_in_title == false
        &&& self.panel_inline_help_delimiter@ == " - "@
        &&& self.style_commands_panel_box == Some(BoxType::Rounded)
        &&& self.style_commands_panel_help_style@ == "dim"@
        &&& self.style_commands_panel_title_style@ == ""@
        &&& self.style_commands_panel_padding == PaddingDimensions::TwoWay(0, 1)
        &&& self.style_commands_panel_style@ == ""@
        &&& self.style_commands_table_expand == true
        &&& self.style_commands_table_box is None
        &&& self.style_commands_table_border_style@ == "dim"@
        &&& self.style_errors_panel_border@ == "#dc322f"@
        &&& self.style_errors_panel_box == Some(BoxType::Rounded)
        &&& self.style_padding_errors@ == ""@
        &&& self.style_padding_usage@ == ""@
        &&& self.style_padding_helptext@ == ""@
        &&& self.style_padding_epilog@ == ""@
        &&& self.panel_title_padding == 1
        &&& views(self.options_table_column_types@) == seq!["required"@, "opt_long"@, "opt_short"@, "metavar"@, "help"@]
        &&& views(self.commands_table_column_types@) == seq!["name"@, "aliases"@, "help"@]
        &&& views(self.options_table_help_sections@) == seq!["help"@, "deprecated"@, "envvar"@, "default"@, "required"@]
        &&& views(self.commands_table_help_sections@) == seq!["help"@, "deprecated"@]
        &&& self.panel_title_string@ == "{}"@
        &&& self.deprecated_string@ == "[deprecated]"@
        &&& self.deprecated_with_reason_string@ == "[deprecated: {}]"@
        &&& self.default_string@ == "[default: {}]"@
        &&& self.envvar_string@ == "[env var: {}]"@
        &&& self.required_short_string@ == "*"@
        &&& self.required_long_string@ == "[required]"@
        &&& self.range_string@ == "[{}]"@
        &&& self.append_metavars_help_string@ == "({})"@
        &&& self.append_range_help_string@ == "[range: {}]"@
        &&& self.delimiter_comma@ == ","@
        &&& self.delimiter_slash@ == "/"@
        &&& self.padding_header_text == PaddingDimensions::FourWay(1, 1, 0, 1)
        &&& self.padding_usage == PaddingDimensions::All(1)
        &&& self.padding_helptext == PaddingDimensions::FourWay(0, 1, 1, 1)
        &&& self.padding_epilog == PaddingDimensions::All(1)
        &&& self.padding_footer_text == PaddingDimensions::All(1)
    }

}

/// The fields of a [`RichHelpConfig`], by name.
#[derive(Debug, Clone, Copy, PartialEq, Eq, Structural)]
pub enum ConfigField {
    Theme,
    EnableThemeEnvVar,
    Width,
    MaxWidth,
    ColorSystem,
    ForceTerminal,
    StyleOption,
    StyleOptionNegative,
    StyleArgument,
    StyleCommand,
    StyleCommandAliases,
    StyleSwitch,
    StyleSwitchNegative,
    StyleMetavar,
    StyleMetavarAppend,
    StyleMetavarSeparator,
    StyleRangeAppend,
    StyleHeaderText,
    StyleEpilogText,
    StyleFooterText,
    StyleUsage,
    StyleUsageCommand,
    StyleUsageSeparator,
    StyleDeprecated,
    StyleHelptextFirstLine,
    StyleHelptext,
    StyleHelptextAliases,
    StyleOptionHelp,
    StyleCommandHelp,
    StyleOptionDefault,
    StyleOptionEnvvar,
    StyleRequiredShort,
    StyleRequiredLong,
    StyleOptionsPanelBorder,
    StyleOptionsPanelBox,
    StyleOptionsPanelHelpStyle,
    StyleOptionsPanelTitleStyle,
    StyleOptionsPanelPadding,
    StyleOptionsPanelStyle,
    AlignOptionsPanel,
    StyleOptionsTableShowLines,
    StyleOptionsTableLeading,
    StyleOptionsTablePadEdge,
    StyleOptionsTablePadding,
    StyleOptionsTableCollapsePadding,
    StyleOptionsTableExpand,
    StyleOptionsTableBox,
    StyleOptionsTableRowStyles,
    StyleOptionsTableBorderStyle,
    StyleCommandsPanelBorder,
    PanelInlineHelpInTitle,
    PanelInlineHelpDelimiter,
    StyleCommandsPanelBox,
    StyleCommandsPanelHelpStyle,
    StyleCommandsPanelTitleStyle,
    StyleCommandsPanelPadding,
    StyleCommandsPanelStyle,
    AlignCommandsPanel,
    StyleCommandsTableShowLines,
    StyleCommandsTableLeading,
    StyleCommandsTablePadEdge,
    StyleCommandsTablePadding,
    StyleCommandsTableCollapsePadding,
    StyleCommandsTableExpand,
    StyleCommandsTableBox,
    StyleCommandsTableRowStyles,
    StyleCommandsTableBorderStyle,
    StyleCommandsTableColumnWidthRatio,
    StyleErrorsPanelBorder,
    StyleErrorsPanelBox,
    AlignErrorsPanel,
    StyleErrorsSuggestion,
    StyleErrorsSuggestionCommand,
    StylePaddingErrors,
    StyleAborted,
    StylePaddingUsage,
    StylePaddingHelptext,
    StylePaddingEpilog,
    PanelTitlePadding,
    OptionsTableColumnTypes,
    CommandsTableColumnTypes,
    OptionsTableHelpSections,
    CommandsTableHelpSections,
    HeaderText,
    FooterText,
    PanelTitleString,
    DeprecatedString,
    DeprecatedWithReasonString,
    DefaultString,
    EnvvarString,
    RequiredShortString,
    RequiredLongString,
    RangeString,
    AppendMetavarsHelpString,
    AppendRangeHelpString,
    HelptextAliasesString,
    ArgumentsPanelTitle,
    OptionsPanelTitle,
    CommandsPanelTitle,
    ErrorsPanelTitle,
    DelimiterComma,
    DelimiterSlash,
    ErrorsSuggestion,
    ErrorsEpilogue,
    AbortedText,
    ErrorsShowParamSource,
    ErrorsParamSourceFormat,
    PaddingHeaderText,
    PaddingUsage,
    PaddingHelptext,
    PaddingHelptextDeprecated,
    PaddingHelptextFirstLine,
    PaddingEpilog,
    PaddingFooterText,
    PaddingErrorsPanel,
    PaddingErrorsSuggestion,
    PaddingErrorsEpilogue,
    ShowArguments,
    ShowCommands,
    ShowMetavarsColumn,
    CommandsBeforeOptions,
    DefaultPanelsFirst,
    AppendMetavarsHelp,
    GroupArgumentsOptions,
    OptionEnvvarFirst,
    TextMarkup,
    TextEmojis,
    TextParagraphLinebreaks,
    UseClickShortHelp,
    HelptextShowAliases,
    ShowPrompt,
    PromptString,
    PromptConfirmString,
    PromptHiddenString,
    PromptConfirmHiddenString,
    CommandAliases,
    OptionGroups,
    CommandGroups,
    PanelOptions,
    PanelCommands,
    PanelArguments,
    TableOptions,
    TableCommands,
    TableArguments,
}

/// The fields the "default-box" theme sets.
pub open spec fn is_default_box_field(f: ConfigField) -> bool {
    match f {
        ConfigField::StyleOption | ConfigField::StyleOptionNegative | ConfigField::StyleArgument | ConfigField::StyleCommand | ConfigField::StyleCommandAliases | ConfigField::StyleSwitch | ConfigField::StyleSwitchNegative | ConfigField::StyleMetavar | ConfigField::StyleMetavarAppend | ConfigField::StyleMetavarSeparator | ConfigField::StyleRangeAppend | ConfigField::StyleHeaderText | ConfigField::StyleEpilogText | ConfigField::StyleFooterText | ConfigField::StyleUsage | ConfigField::StyleUsageCommand | ConfigField::StyleUsageSeparator | ConfigField::StyleDeprecated | ConfigField::StyleHelptextFirstLine | ConfigField::StyleHelptext | ConfigField::StyleOptionHelp | ConfigField::StyleCommandHelp | ConfigField::StyleOptionDefault | ConfigField::StyleOptionEnvvar | ConfigField::StyleRequiredShort | ConfigField::StyleRequiredLong | ConfigField::StyleOptionsPanelBorder | ConfigField::StyleOptionsPanelBox | ConfigField::StyleOptionsPanelHelpStyle | ConfigField::StyleOptionsPanelTitleStyle | ConfigField::StyleOptionsPanelPadding | ConfigField::StyleOptionsPanelStyle | ConfigField::StyleOptionsTableExpand | ConfigField::StyleOptionsTableBox | ConfigField::StyleOptionsTableBorderStyle | ConfigField::StyleCommandsPanelBorder | ConfigField::PanelInlineHelpInTitle | ConfigField::PanelInlineHelpDelimiter | ConfigField::StyleCommandsPanelBox | ConfigField::StyleCommandsPanelHelpStyle | ConfigField::StyleCommandsPanelTitleStyle | ConfigField::StyleCommandsPanelPadding | ConfigField::StyleCommandsPanelStyle | ConfigField::StyleCommandsTableExpand | ConfigField::StyleCommandsTableBox | ConfigField::StyleCommandsTableBorderStyle | ConfigField::StyleErrorsPanelBorder | ConfigField::StyleErrorsPanelBox | ConfigField::StylePaddingErrors | ConfigField::StylePaddingUsage | ConfigField::StylePaddingHelptext | ConfigField::StylePaddingEpilog | ConfigField::PanelTitlePadding | ConfigField::OptionsTableColumnTypes | ConfigField::CommandsTableColumnTypes | ConfigField::OptionsTableHelpSections | ConfigField::CommandsTableHelpSections | ConfigField::PanelTitleString | ConfigField::DeprecatedString | ConfigField::DeprecatedWithReasonString | ConfigField::DefaultString | ConfigField::EnvvarString | ConfigField::RequiredShortString | ConfigField::RequiredLongString | ConfigField::RangeString | ConfigField::AppendMetavarsHelpString | ConfigField::AppendRangeHelpString | ConfigField::DelimiterComma | ConfigField::DelimiterSlash | ConfigField::PaddingHeaderText | ConfigField::PaddingUsage | ConfigField::PaddingHelptext | ConfigField::PaddingEpilog | ConfigField::PaddingFooterText => true,
        _ => false,
    }
}

pub open spec fn default_box_fields() -> Set<ConfigField> {
    Set::new(|f: ConfigField| is_default_box_field(f))
}

/// The fields that synchronising the render settings rewrites.
pub open spec fn is_sync_field(f: ConfigField) -> bool {
    match f {
        ConfigField::TextEmojis | ConfigField::PanelOptions | ConfigField::PanelCommands | ConfigField::PanelArguments | ConfigField::TableOptions | ConfigField::TableCommands | ConfigField::TableArguments => true,
        _ => false,
    }
}

pub open spec fn sync_fields() -> Set<ConfigField> {
    Set::new(|f: ConfigField| is_sync_field(f))
}

/// `new` holds the same value as `old` in every field outside `changed`.
#[verifier::opaque]
pub open spec fn agrees_except(old: RichHelpConfig, new: RichHelpConfig, changed: Set<ConfigField>) -> bool {
    &&& (!changed.contains(ConfigField::Theme) ==> new.theme == old.theme)
    &&& (!changed.contains(ConfigField::EnableThemeEnvVar) ==> new.enable_theme_env_var == old.enable_theme_env_var)
    &&& (!changed.contains(ConfigField::Width) ==> new.width == old.width)
    &&& (!changed.contains(ConfigField::MaxWidth) ==> new.max_width == old.max_width)
    &&& (!changed.contains(ConfigField::ColorSystem) ==> new.color_system == old.color_system)
    &&& (!changed.contains(ConfigField::ForceTerminal) ==> new.force_terminal == old.force_terminal)
    &&& (!changed.contains(ConfigField::StyleOption) ==> new.style_option == old.style_option)
    &&& (!changed.contains(ConfigField::StyleOptionNegative) ==> new.style_option_negative == old.style_option_negative)
    &&& (!changed.contains(ConfigField::StyleArgument) ==> new.style_argument == old.style_argument)
    &&& (!changed.contains(ConfigField::StyleCommand) ==> new.style_command == old.style_command)
    &&& (!changed.contains(ConfigField::StyleCommandAliases) ==> new.style_command_aliases == old.style_command_aliases)
    &&& (!changed.contains(ConfigField::StyleSwitch) ==> new.style_switch == old.style_switch)
    &&& (!changed.contains(ConfigField::StyleSwitchNegative) ==> new.style_switch_negative == old.style_switch_negative)
    &&& (!changed.contains(ConfigField::StyleMetavar) ==> new.style_metavar == old.style_metavar)
    &&& (!changed.contains(ConfigField::StyleMetavarAppend) ==> new.style_metavar_append == old.style_metavar_append)
    &&& (!changed.contains(ConfigField::StyleMetavarSeparator) ==> new.style_metavar_separator == old.style_metavar_separator)
    &&& (!changed.contains(ConfigField::StyleRangeAppend) ==> new.style_range_append == old.style_range_append)
    &&& (!changed.contains(ConfigField::StyleHeaderText) ==> new.style_header_text == old.style_header_text)
    &&& (!changed.contains(ConfigField::StyleEpilogText) ==> new.style_epilog_text == old.style_epilog_text)
    &&& (!changed.contains(ConfigField::StyleFooterText) ==> new.style_footer_text == old.style_footer_text)
    &&& (!changed.contains(ConfigField::StyleUsage) ==> new.style_usage == old.style_usage)
    &&& (!changed.contains(ConfigField::StyleUsageCommand) ==> new.style_usage_command == old.style_usage_command)
    &&& (!changed.contains(ConfigField::StyleUsageSeparator) ==> new.style_usage_separator == old.style_usage_separator)
    &&& (!changed.contains(ConfigField::StyleDeprecated) ==> new.style_deprecated == old.style_deprecated)
    &&& (!changed.contains(ConfigField::StyleHelptextFirstLine) ==> new.style_helptext_first_line == old.style_helptext_first_line)
    &&& (!changed.contains(ConfigField::StyleHelptext) ==> new.style_helptext == old.style_helptext)
    &&& (!changed.contains(ConfigField::StyleHelptextAliases) ==> new.style_helptext_aliases == old.style_helptext_aliases)
    &&& (!changed.contains(ConfigField::StyleOptionHelp) ==> new.style_option_help == old.style_option_help)
    &&& (!changed.contains(ConfigField::StyleCommandHelp) ==> new.style_command_help == old.style_command_help)
    &&& (!changed.contains(ConfigField::StyleOptionDefault) ==> new.style_option_default == old.style_option_default)
    &&& (!changed.contains(ConfigField::StyleOptionEnvvar) ==> new.style_option_envvar == old.style_option_envvar)
    &&& (!changed.contains(ConfigField::StyleRequiredShort) ==> new.style_required_short == old.style_required_short)
    &&& (!changed.contains(ConfigField::StyleRequiredLong) ==> new.style_required_long == old.style_required_long)
    &&& (!changed.contains(ConfigField::StyleOptionsPanelBorder) ==> new.style_options_panel_border == old.style_options_panel_border)
    &&& (!changed.contains(ConfigField::StyleOptionsPanelBox) ==> new.style_options_panel_box == old.style_options_panel_box)
    &&& (!changed.contains(ConfigField::StyleOptionsPanelHelpStyle) ==> new.style_options_panel_help_style == old.style_options_panel_help_style)
    &&& (!changed.contains(ConfigField::StyleOptionsPanelTitleStyle) ==> new.style_options_panel_title_style == old.style_options_panel_title_style)
    &&& (!changed.contains(ConfigField::StyleOptionsPanelPadding) ==> new.style_options_panel_padding == old.style_options_panel_padding)
    &&& (!changed.contains(ConfigField::StyleOptionsPanelStyle) ==> new.style_options_panel_style == old.style_options_panel_style)
    &&& (!changed.contains(ConfigField::AlignOptionsPanel) ==> new.align_options_panel == old.align_options_panel)
    &&& (!changed.contains(ConfigField::StyleOptionsTableShowLines) ==> new.style_options_table_show_lines == old.style_options_table_show_lines)
    &&& (!changed.contains(ConfigField::StyleOptionsTableLeading) ==> new.style_options_table_leading == old.style_options_table_leading)
    &&& (!changed.contains(ConfigField::StyleOptionsTablePadEdge) ==> new.style_options_table_pad_edge == old.style_options_table_pad_edge)
    &&& (!changed.contains(ConfigField::StyleOptionsTablePadding) ==> new.style_options_table_padding == old.style_options_table_padding)
    &&& (!changed.contains(ConfigField::StyleOptionsTableCollapsePadding) ==> new.style_options_table_collapse_padding == old.style_options_table_collapse_padding)
    &&& (!changed.contains(ConfigField::StyleOptionsTableExpand) ==> new.style_options_table_expand == old.style_options_table_expand)
    &&& (!changed.contains(ConfigField::StyleOptionsTableBox) ==> new.style_options_table_box == old.style_options_table_box)
    &&& (!changed.contains(ConfigField::StyleOptionsTableRowStyles) ==> new.style_options_table_row_styles == old.style_options_table_row_styles)
    &&& (!changed.contains(ConfigField::StyleOptionsTableBorderStyle) ==> new.style_options_table_border_style == old.style_options_table_border_style)
    &&& (!changed.contains(ConfigField::StyleCommandsPanelBorder) ==> new.style_commands_panel_border == old.style_commands_panel_border)
    &&& (!changed.contains(ConfigField::PanelInlineHelpInTitle) ==> new.panel_inline_help_in_title == old.panel_inline_help_in_title)
    &&& (!changed.contains(ConfigField::PanelInlineHelpDelimiter) ==> new.panel_inline_help_delimiter == old.panel_inline_help_delimiter)
    &&& (!changed.contains(ConfigField::StyleCommandsPanelBox) ==> new.style_commands_panel_box == old.style_commands_panel_box)
    &&& (!changed.contains(ConfigField::StyleCommandsPanelHelpStyle) ==> new.style_commands_panel_help_style == old.style_commands_panel_help_style)
    &&& (!changed.contains(ConfigField::StyleCommandsPanelTitleStyle) ==> new.style_commands_panel_title_style == old.style_commands_panel_title_style)
    &&& (!changed.contains(ConfigField::StyleCommandsPanelPadding) ==> new.style_commands_panel_padding == old.style_commands_panel_padding)
    &&& (!changed.contains(ConfigField::StyleCommandsPanelStyle) ==> new.style_commands_panel_style == old.style_commands_panel_style)
    &&& (!changed.contains(ConfigField::AlignCommandsPanel) ==> new.align_commands_panel == old.align_commands_panel)
    &&& (!changed.contains(ConfigField::StyleCommandsTableShowLines) ==> new.style_commands_table_show_lines == old.style_commands_table_show_lines)
    &&& (!changed.contains(ConfigField::StyleCommandsTableLeading) ==> new.style_commands_table_leading == old.style_commands_table_leading)
    &&& (!changed.contains(ConfigField::StyleCommandsTablePadEdge) ==> new.style_commands_table_pad_edge == old.style_commands_table_pad_edge)
    &&& (!changed.contains(ConfigField::StyleCommandsTablePadding) ==> new.style_commands_table_padding == old.style_commands_table_padding)
    &&& (!changed.contains(ConfigField::StyleCommandsTableCollapsePadding) ==> new.style_commands_table_collapse_padding == old.style_commands_table_collapse_padding)
    &&& (!changed.contains(ConfigField::StyleCommandsTableExpand) ==> new.style_commands_table_expand == old.style_commands_table_expand)
    &&& (!changed.contains(ConfigField::StyleCommandsTableBox) ==> new.style_commands_table_box == old.style_commands_table_box)
    &&& (!changed.contains(ConfigField::StyleCommandsTableRowStyles) ==> new.style_commands_table_row_styles == old.style_commands_table_row_styles)
    &&& (!changed.contains(ConfigField::StyleCommandsTableBorderStyle) ==> new.style_commands_table_border_style == old.style_commands_table_border_style)
    &&& (!changed.contains(ConfigField::StyleCommandsTableColumnWidthRatio) ==> new.style_commands_table_column_width_ratio == old.style_commands_table_column_width_ratio)
    &&& (!changed.contains(ConfigField::StyleErrorsPanelBorder) ==> new.style_errors_panel_border == old.style_errors_panel_border)
    &&& (!changed.contains(ConfigField::StyleErrorsPanelBox) ==> new.style_errors_panel_box == old.style_errors_panel_box)
    &&& (!changed.contains(ConfigField::AlignErrorsPanel) ==> new.align_errors_panel == old.align_errors_panel)
    &&& (!changed.contains(ConfigField::StyleErrorsSuggestion) ==> new.style_errors_suggestion == old.style_errors_suggestion)
    &&& (!changed.contains(ConfigField::StyleErrorsSuggestionCommand) ==> new.style_errors_suggestion_command == old.style_errors_suggestion_command)
    &&& (!changed.contains(ConfigField::StylePaddingErrors) ==> new.style_padding_errors == old.style_padding_errors)
    &&& (!changed.contains(ConfigField::StyleAborted) ==> new.style_aborted == old.style_aborted)
    &&& (!changed.contains(ConfigField::StylePaddingUsage) ==> new.style_padding_usage == old.style_padding_usage)
    &&& (!changed.contains(ConfigField::StylePaddingHelptext) ==> new.style_padding_helptext == old.style_padding_helptext)
    &&& (!changed.contains(ConfigField::StylePaddingEpilog) ==> new.style_padding_epilog == old.style_padding_epilog)
    &&& (!changed.contains(ConfigField::PanelTitlePadding) ==> new.panel_title_padding == old.panel_title_padding)
    &&& (!changed.contains(ConfigField::OptionsTableColumnTypes) ==> new.options_table_column_types == old.options_table_column_types)
    &&& (!changed.contains(ConfigField::CommandsTableColumnTypes) ==> new.commands_table_column_types == old.commands_table_column_types)
    &&& (!changed.contains(ConfigField::OptionsTableHelpSections) ==> new.options_table_help_sections == old.options_table_help_sections)
    &&& (!changed.contains(ConfigField::CommandsTableHelpSections) ==> new.commands_table_help_sections == old.commands_table_help_sections)
    &&& (!changed.contains(ConfigField::HeaderText) ==> new.header_text == old.header_text)
    &&& (!changed.contains(ConfigField::FooterText) ==> new.footer_text == old.footer_text)
    &&& (!changed.contains(ConfigField::PanelTitleString) ==> new.panel_title_string == old.panel_title_string)
    &&& (!changed.contains(ConfigField::DeprecatedString) ==> new.deprecated_string == old.deprecated_string)
    &&& (!changed.contains(ConfigField::DeprecatedWithReasonString) ==> new.deprecated_with_reason_string == old.deprecated_with_reason_string)
    &&& (!changed.contains(ConfigField::DefaultString) ==> new.default_string == old.default_string)
    &&& (!changed.contains(ConfigField::EnvvarString) ==> new.envvar_string == old.envvar_string)
    &&& (!changed.contains(ConfigField::RequiredShortString) ==> new.required_short_string == old.required_short_string)
    &&& (!changed.contains(ConfigField::RequiredLongString) ==> new.required_long_string == old.required_long_string)
    &&& (!changed.contains(ConfigField::RangeString) ==> new.range_string == old.range_string)
    &&& (!changed.contains(ConfigField::AppendMetavarsHelpString) ==> new.append_metavars_help_string == old.append_metavars_help_string)
    &&& (!changed.contains(ConfigField::AppendRangeHelpString) ==> new.append_range_help_string == old.append_range_help_string)
    &&& (!changed.contains(ConfigField::HelptextAliasesString) ==> new.helptext_aliases_string == old.helptext_aliases_string)
    &&& (!changed.contains(ConfigField::ArgumentsPanelTitle) ==> new.arguments_panel_title == old.arguments_panel_title)
    &&& (!changed.contains(ConfigField::OptionsPanelTitle) ==> new.options_panel_title == old.options_panel_title)
    &&& (!changed.contains(ConfigField::CommandsPanelTitle) ==> new.commands_panel_title == old.commands_panel_title)
    &&& (!changed.contains(ConfigField::ErrorsPanelTitle) ==> new.errors_panel_title == old.errors_panel_title)
    &&& (!changed.contains(ConfigField::DelimiterComma) ==> new.delimiter_comma == old.delimiter_comma)
    &&& (!changed.contains(ConfigField::DelimiterSlash) ==> new.delimiter_slash == old.delimiter_slash)
    &&& (!changed.contains(ConfigField::ErrorsSuggestion) ==> new.errors_suggestion == old.errors_suggestion)
    &&& (!changed.contains(ConfigField::ErrorsEpilogue) ==> new.errors_epilogue == old.errors_epilogue)
    &&& (!changed.contains(ConfigField::AbortedText) ==> new.aborted_text == old.aborted_text)
    &&& (!changed.contains(ConfigField::ErrorsShowParamSource) ==> new.errors_show_param_source == old.errors_show_param_source)
    &&& (!changed.contains(ConfigField::ErrorsParamSourceFormat) ==> new.errors_param_source_format == old.errors_param_source_format)
    &&& (!changed.contains(ConfigField::PaddingHeaderText) ==> new.padding_header_text == old.padding_header_text)
    &&& (!changed.contains(ConfigField::PaddingUsage) ==> new.padding_usage == old.padding_usage)
    &&& (!changed.contains(ConfigField::PaddingHelptext) ==> new.padding_helptext == old.padding_helptext)
    &&& (!changed.contains(ConfigField::PaddingHelptextDeprecated) ==> new.padding_helptext_deprecated == old.padding_helptext_deprecated)
    &&& (!changed.contains(ConfigField::PaddingHelptextFirstLine) ==> new.padding_helptext_first_line == old.padding_helptext_first_line)
    &&& (!changed.contains(ConfigField::PaddingEpilog) ==> new.padding_epilog == old.padding_epilog)
    &&& (!changed.contains(ConfigField::PaddingFooterText) ==> new.padding_footer_text == old.padding_footer_text)
    &&& (!changed.contains(ConfigField::PaddingErrorsPanel) ==> new.padding_errors_panel == old.padding_errors_panel)
    &&& (!changed.contains(ConfigField::PaddingErrorsSuggestion) ==> new.padding_errors_suggestion == old.padding_errors_suggestion)
    &&& (!changed.contains(ConfigField::PaddingErrorsEpilogue) ==> new.padding_errors_epilogue == old.padding_errors_epilogue)
    &&& (!changed.contains(ConfigField::ShowArguments) ==> new.show_arguments == old.show_arguments)
    &&& (!changed.contains(ConfigField::ShowCommands) ==> new.show_commands == old.show_commands)
    &&& (!changed.contains(ConfigField::ShowMetavarsColumn) ==> new.show_metavars_column == old.show_metavars_column)
    &&& (!changed.contains(ConfigField::CommandsBeforeOptions) ==> new.commands_before_options == old.commands_before_options)
    &&& (!changed.contains(ConfigField::DefaultPanelsFirst) ==> new.default_panels_first == old.default_panels_first)
    &&& (!changed.contains(ConfigField::AppendMetavarsHelp) ==> new.append_metavars_help == old.append_metavars_help)
    &&& (!changed.contains(ConfigField::GroupArgumentsOptions) ==> new.group_arguments_options == old.group_arguments_options)
    &&& (!changed.contains(ConfigField::OptionEnvvarFirst) ==> new.option_envvar_first == old.option_envvar_first)
    &&& (!changed.contains(ConfigField::TextMarkup) ==> new.text_markup == old.text_markup)
    &&& (!changed.contains(ConfigField::TextEmojis) ==> new.text_emojis == old.text_emojis)
    &&& (!changed.contains(ConfigField::TextParagraphLinebreaks) ==> new.text_paragraph_linebreaks == old.text_paragraph_linebreaks)
    &&& (!changed.contains(ConfigField::UseClickShortHelp) ==> new.use_click_short_help == old.use_click_short_help)
    &&& (!changed.contains(ConfigField::HelptextShowAliases) ==> new.helptext_show_aliases == old.helptext_show_aliases)
    &&& (!changed.contains(ConfigField::ShowPrompt) ==> new.show_prompt == old.show_prompt)
    &&& (!changed.contains(ConfigField::PromptString) ==> new.prompt_string == old.prompt_string)
    &&& (!changed.contains(ConfigField::PromptConfirmString) ==> new.prompt_confirm_string == old.prompt_confirm_string)
    &&& (!changed.contains(ConfigField::PromptHiddenString) ==> new.prompt_hidden_string == old.prompt_hidden_string)
    &&& (!changed.contains(ConfigField::PromptConfirmHiddenString) ==> new.prompt_confirm_hidden_string == old.prompt_confirm_hidden_string)
    &&& (!changed.contains(ConfigField::CommandAliases) ==> new.command_aliases == old.command_aliases)
    &&& (!changed.contains(ConfigField::OptionGroups) ==> new.option_groups == old.option_groups)
    &&& (!changed.contains(ConfigField::CommandGroups) ==> new.command_groups == old.command_groups)
    &&& (!changed.contains(ConfigField::PanelOptions) ==> new.panel_options == old.panel_options)
    &&& (!changed.contains(ConfigField::PanelCommands) ==> new.panel_commands == old.panel_commands)
    &&& (!changed.contains(ConfigField::PanelArguments) ==> new.panel_arguments == old.panel_arguments)
    &&& (!changed.contains(ConfigField::TableOptions) ==> new.table_options == old.table_options)
    &&& (!changed.contains(ConfigField::TableCommands) ==> new.table_commands == old.table_commands)
    &&& (!changed.contains(ConfigField::TableArguments) ==> new.table_arguments == old.table_arguments)
}

/// `new` holds the same value as `old` in every field.
pub open spec fn unchanged(old: RichHelpConfig, new: RichHelpConfig) -> bool {
    agrees_except(old, new, Set::empty())
}

pub proof fn lemma_agrees_except_refl(c: RichHelpConfig, s: Set<ConfigField>)
    ensures
        agrees_except(c, c, s),
{
    reveal(agrees_except);
}

pub proof fn lemma_agrees_except_trans(
    a: RichHelpConfig,
    b: RichHelpConfig,
    c: RichHelpConfig,
    s: Set<ConfigField>,
    t: Set<ConfigField>,
)
    requires
        agrees_except(a, b, s),
        agrees_except(b, c, t),
    ensures
        agrees_except(a, c, s.union(t)),
{
    reveal(agrees_except);
}

pub open spec fn usize_opt_keys(key: Seq<char>) -> bool {
    key == "width"@ || key == "max_width"@
}

/// Setting the field named `key` among the `usize_opt` settings to `x`.
pub open spec fn set_usize_opt(old: RichHelpConfig, new: RichHelpConfig, key: Seq<char>, x: Option<usize>) -> bool {
    if key == "width"@ {
        new.width == x && agrees_except(old, new, set![ConfigField::Width])
    } else if key == "max_width"@ {
        new.max_width == x && agrees_except(old, new, set![ConfigField::MaxWidth])
    } else {
        unchanged(old, new)
    }
}

pub open spec fn color_keys(key: Seq<char>) -> bool {
    key == "color_system"@
}

/// Setting the field named `key` among the `color` settings to `x`.
pub open spec fn set_color(old: RichHelpConfig, new: RichHelpConfig, key: Seq<char>, x: ColorSystemMode) -> bool {
    if key == "color_system"@ {
        new.color_system == x && agrees_except(old, new, set![ConfigField::ColorSystem])
    } else {
        unchanged(old, new)
    }
}

pub open spec fn bool_opt_keys(key: Seq<char>) -> bool {
    key == "force_terminal"@ || key == "show_arguments"@ || key == "show_commands"@ || key == "show_metavars_column"@ || key == "append_metavars_help"@ || key == "option_envvar_first"@ || key == "text_emojis"@
}

/// Setting the field named `key` among the `bool_opt` settings to `x`.
pub open spec fn set_bool_opt(old: RichHelpConfig, new: RichHelpConfig, key: Seq<char>, x: Option<bool>) -> bool {
    if key == "force_terminal"@ {
        new.force_terminal == x && agrees_except(old, new, set![ConfigField::ForceTerminal])
    } else if key == "show_arguments"@ {
        new.show_arguments == x && agrees_except(old, new, set![ConfigField::ShowArguments])
    } else if key == "show_commands"@ {
        new.show_commands == x && agrees_except(old, new, set![ConfigField::ShowCommands])
    } else if key == "show_metavars_column"@ {
        new.show_metavars_column == x && agrees_except(old, new, set![ConfigField::ShowMetavarsColumn])
    } else if key == "append_metavars_help"@ {
        new.append_metavars_help == x && agrees_except(old, new, set![ConfigField::AppendMetavarsHelp])
    } else if key == "option_envvar_first"@ {
        new.option_envvar_first == x && agrees_except(old, new, set![ConfigField::OptionEnvvarFirst])
    } else if key == "text_emojis"@ {
        new.text_emojis == x && agrees_except(old, new, set![ConfigField::TextEmojis])
    } else {
        unchanged(old, new)
    }
}

pub open spec fn str_keys(key: Seq<char>) -> bool {
    key == "panel_title_string"@ || key == "deprecated_string"@ || key == "deprecated_with_reason_string"@ || key == "default_string"@ || key == "envvar_string"@ || key == "required_short_string"@ || key == "required_long_string"@ || key == "range_string"@ || key == "append_metavars_help_string"@ || key == "append_range_help_string"@ || key == "delimiter_comma"@ || key == "delimiter_slash"@ || key == "options_panel_title"@ || key == "commands_panel_title"@ || key == "arguments_panel_title"@ || key == "errors_panel_title"@ || key == "aborted_text"@ || key == "errors_param_source_format"@ || key == "prompt_string"@ || key == "prompt_confirm_string"@ || key == "prompt_hidden_string"@ || key == "prompt_confirm_hidden_string"@ || key == "panel_inline_help_delimiter"@
}

/// Setting the field named `key` among the `str` settings to `x`.
pub open spec fn set_str(old: RichHelpConfig, new: RichHelpConfig, key: Seq<char>, x: String) -> bool {
    if key == "panel_title_string"@ {
        new.panel_title_string == x && agrees_except(old, new, set![ConfigField::PanelTitleString])
    } else if key == "deprecated_string"@ {
        new.deprecated_string == x && agrees_except(old, new, set![ConfigField::DeprecatedString])
    } else if key == "deprecated_with_reason_string"@ {
        new.deprecated_with_reason_string == x && agrees_except(old, new, set![ConfigField::DeprecatedWithReasonString])
    } else if key == "default_string"@ {
        new.default_string == x && agrees_except(old, new, set![ConfigField::DefaultString])
    } else if key == "envvar_string"@ {
        new.envvar_string == x && agrees_except(old, new, set![ConfigField::EnvvarString])
    } else if key == "required_short_string"@ {
        new.required_short_string == x && agrees_except(old, new, set![ConfigField::RequiredShortString])
    } else if key == "required_long_string"@ {
        new.required_long_string == x && agrees_except(old, new, set![ConfigField::RequiredLongString])
    } else if key == "range_string"@ {
        new.range_string == x && agrees_except(old, new, set![ConfigField::RangeString])
    } else if key == "append_metavars_help_string"@ {
        new.append_metavars_help_string == x && agrees_except(old, new, set![ConfigField::AppendMetavarsHelpString])
    } else if key == "append_range_help_string"@ {
        new.append_range_help_string == x && agrees_except(old, new, set![ConfigField::AppendRangeHelpString])
    } else if key == "delimiter_comma"@ {
        new.delimiter_comma == x && agrees_except(old, new, set![ConfigField::DelimiterComma])
    } else if key == "delimiter_slash"@ {
        new.delimiter_slash == x && agrees_except(old, new, set![ConfigField::DelimiterSlash])
    } else if key == "options_panel_title"@ {
        new.options_panel_title == x && agrees_except(old, new, set![ConfigField::OptionsPanelTitle])
    } else if key == "commands_panel_title"@ {
        new.commands_panel_title == x && agrees_except(old, new, set![ConfigField::CommandsPanelTitle])
    } else if key == "arguments_panel_title"@ {
        new.arguments_panel_title == x && agrees_except(old, new, set![ConfigField::ArgumentsPanelTitle])
    } else if key == "errors_panel_title"@ {
        new.errors_panel_title == x && agrees_except(old, new, set![ConfigField::ErrorsPanelTitle])
    } else if key == "aborted_text"@ {
        new.aborted_text == x && agrees_except(old, new, set![ConfigField::AbortedText])
    } else if key == "errors_param_source_format"@ {
        new.errors_param_source_format == x && agrees_except(old, new, set![ConfigField::ErrorsParamSourceFormat])
    } else if key == "prompt_string"@ {
        new.prompt_string == x && agrees_except(old, new, set![ConfigField::PromptString])
    } else if key == "prompt_confirm_string"@ {
        new.prompt_confirm_string == x && agrees_except(old, new, set![ConfigField::PromptConfirmString])
    } else if key == "prompt_hidden_string"@ {
        new.prompt_hidden_string == x && agrees_except(old, new, set![ConfigField::PromptHiddenString])
    } else if key == "prompt_confirm_hidden_string"@ {
        new.prompt_confirm_hidden_string == x && agrees_except(old, new, set![ConfigField::PromptConfirmHiddenString])
    } else if key == "panel_inline_help_delimiter"@ {
        new.panel_inline_help_delimiter == x && agrees_except(old, new, set![ConfigField::PanelInlineHelpDelimiter])
    } else {
        unchanged(old, new)
    }
}

pub open spec fn bool_keys(key: Seq<char>) -> bool {
    key == "errors_show_param_source"@ || key == "show_prompt"@ || key == "style_options_table_show_lines"@ || key == "style_commands_table_show_lines"@ || key == "style_options_table_pad_edge"@ || key == "style_commands_table_pad_edge"@ || key == "style_options_table_collapse_padding"@ || key == "style_commands_table_collapse_padding"@ || key == "style_options_table_expand"@ || key == "style_commands_table_expand"@ || key == "panel_inline_help_in_title"@ || key == "commands_before_options"@ || key == "default_panels_first"@ || key == "group_arguments_options"@ || key == "use_click_short_help"@ || key == "helptext_show_aliases"@
}

/// Setting the field named `key` among the `bool` settings to `x`.
pub open spec fn set_bool(old: RichHelpConfig, new: RichHelpConfig, key: Seq<char>, x: bool) -> bool {
    if key == "errors_show_param_source"@ {
        new.errors_show_param_source == x && agrees_except(old, new, set![ConfigField::ErrorsShowParamSource])
    } else if key == "show_prompt"@ {
        new.show_prompt == x && agrees_except(old, new, set![ConfigField::ShowPrompt])
    } else if key == "style_options_table_show_lines"@ {
        new.style_options_table_show_lines == x && agrees_except(old, new, set![ConfigField::StyleOptionsTableShowLines])
    } else if key == "style_commands_table_show_lines"@ {
        new.style_commands_table_show_lines == x && agrees_except(old, new, set![ConfigField::StyleCommandsTableShowLines])
    } else if key == "style_options_table_pad_edge"@ {
        new.style_options_table_pad_edge == x && agrees_except(old, new, set![ConfigField::StyleOptionsTablePadEdge])
    } else if key == "style_commands_table_pad_edge"@ {
        new.style_commands_table_pad_edge == x && agrees_except(old, new, set![ConfigField::StyleCommandsTablePadEdge])
    } else if key == "style_options_table_collapse_padding"@ {
        new.style_options_table_collapse_padding == x && agrees_except(old, new, set![ConfigField::StyleOptionsTableCollapsePadding])
    } else if key == "style_commands_table_collapse_padding"@ {
        new.style_commands_table_collapse_padding == x && agrees_except(old, new, set![ConfigField::StyleCommandsTableCollapsePadding])
    } else if key == "style_options_table_expand"@ {
        new.style_options_table_expand == x && agrees_except(old, new, set![ConfigField::StyleOptionsTableExpand])
    } else if key == "style_commands_table_expand"@ {
        new.style_commands_table_expand == x && agrees_except(old, new, set![ConfigField::StyleCommandsTableExpand])
    } else if key == "panel_inline_help_in_title"@ {
        new.panel_inline_help_in_title == x && agrees_except(old, new, set![ConfigField::PanelInlineHelpInTitle])
    } else if key == "commands_before_options"@ {
        new.commands_before_options == x && agrees_except(old, new, set![ConfigField::CommandsBeforeOptions])
    } else if key == "default_panels_first"@ {
        new.default_panels_first == x && agrees_except(old, new, set![ConfigField::DefaultPanelsFirst])
    } else if key == "group_arguments_options"@ {
        new.group_arguments_options == x && agrees_except(old, new, set![ConfigField::GroupArgumentsOptions])
    } else if key == "use_click_short_help"@ {
        new.use_click_short_help == x && agrees_except(old, new, set![ConfigField::UseClickShortHelp])
    } else if key == "helptext_show_aliases"@ {
        new.helptext_show_aliases == x && agrees_except(old, new, set![ConfigField::HelptextShowAliases])
    } else {
        unchanged(old, new)
    }
}

pub open spec fn style_keys(key: Seq<char>) -> bool {
    key == "style_option"@ || key == "style_argument"@ || key == "style_command"@ || key == "style_command_aliases"@ || key == "style_switch"@ || key == "style_metavar"@ || key == "style_metavar_append"@ || key == "style_metavar_separator"@ || key == "style_header_text"@ || key == "style_epilog_text"@ || key == "style_footer_text"@ || key == "style_usage"@ || key == "style_usage_command"@ || key == "style_usage_separator"@ || key == "style_deprecated"@ || key == "style_helptext_first_line"@ || key == "style_helptext"@ || key == "style_option_help"@ || key == "style_command_help"@ || key == "style_option_default"@ || key == "style_option_envvar"@ || key == "style_required_short"@ || key == "style_required_long"@ || key == "style_options_panel_border"@ || key == "style_commands_panel_border"@ || key == "style_errors_panel_border"@ || key == "style_options_panel_help_style"@ || key == "style_commands_panel_help_style"@ || key == "style_options_panel_title_style"@ || key == "style_commands_panel_title_style"@ || key == "style_options_panel_style"@ || key == "style_commands_panel_style"@ || key == "style_padding_usage"@ || key == "style_padding_helptext"@ || key == "style_padding_epilog"@ || key == "style_padding_errors"@ || key == "style_aborted"@ || key == "style_options_table_border_style"@ || key == "style_commands_table_border_style"@
}

/// Setting the field named `key` among the `style` settings to `x`.
pub open spec fn set_style(old: RichHelpConfig, new: RichHelpConfig, key: Seq<char>, x: StyleSpec) -> bool {
    if key == "style_option"@ {
        new.style_option == x && agrees_except(old, new, set![ConfigField::StyleOption])
    } else if key == "style_argument"@ {
        new.style_argument == x && agrees_except(old, new, set![ConfigField::StyleArgument])
    } else if key == "style_command"@ {
        new.style_command == x && agrees_except(old, new, set![ConfigField::StyleCommand])
    } else if key == "style_command_aliases"@ {
        new.style_command_aliases == x && agrees_except(old, new, set![ConfigField::StyleCommandAliases])
    } else if key == "style_switch"@ {
        new.style_switch == x && agrees_except(old, new, set![ConfigField::StyleSwitch])
    } else if key == "style_metavar"@ {
        new.style_metavar == x && agrees_except(old, new, set![ConfigField::StyleMetavar])
    } else if key == "style_metavar_append"@ {
        new.style_metavar_append == x && agrees_except(old, new, set![ConfigField::StyleMetavarAppend])
    } else if key == "style_metavar_separator"@ {
        new.style_metavar_separator == x && agrees_except(old, new, set![ConfigField::StyleMetavarSeparator])
    } else if key == "style_header_text"@ {
        new.style_header_text == x && agrees_except(old, new, set![ConfigField::StyleHeaderText])
    } else if key == "style_epilog_text"@ {
        new.style_epilog_text == x && agrees_except(old, new, set![ConfigField::StyleEpilogText])
    } else if key == "style_footer_text"@ {
        new.style_footer_text == x && agrees_except(old, new, set![ConfigField::StyleFooterText])
    } else if key == "style_usage"@ {
        new.style_usage == x && agrees_except(old, new, set![ConfigField::StyleUsage])
    } else if key == "style_usage_command"@ {
        new.style_usage_command == x && agrees_except(old, new, set![ConfigField::StyleUsageCommand])
    } else if key == "style_usage_separator"@ {
        new.style_usage_separator == x && agrees_except(old, new, set![ConfigField::StyleUsageSeparator])
    } else if key == "style_deprecated"@ {
        new.style_deprecated == x && agrees_except(old, new, set![ConfigField::StyleDeprecated])
    } else if key == "style_helptext_first_line"@ {
        new.style_helptext_first_line == x && agrees_except(old, new, set![ConfigField::StyleHelptextFirstLine])
    } else if key == "style_helptext"@ {
        new.style_helptext == x && agrees_except(old, new, set![ConfigField::StyleHelptext])
    } else if key == "style_option_help"@ {
        new.style_option_help == x && agrees_except(old, new, set![ConfigField::StyleOptionHelp])
    } else if key == "style_command_help"@ {
        new.style_command_help == x && agrees_except(old, new, set![ConfigField::StyleCommandHelp])
    } else if key == "style_option_default"@ {
        new.style_option_default == x && agrees_except(old, new, set![ConfigField::StyleOptionDefault])
    } else if key == "style_option_envvar"@ {
        new.style_option_envvar == x && agrees_except(old, new, set![ConfigField::StyleOptionEnvvar])
    } else if key == "style_required_short"@ {
        new.style_required_short == x && agrees_except(old, new, set![ConfigField::StyleRequiredShort])
    } else if key == "style_required_long"@ {
        new.style_required_long == x && agrees_except(old, new, set![ConfigField::StyleRequiredLong])
    } else if key == "style_options_panel_border"@ {
        new.style_options_panel_border == x && agrees_except(old, new, set![ConfigField::StyleOptionsPanelBorder])
    } else if key == "style_commands_panel_border"@ {
        new.style_commands_panel_border == x && agrees_except(old, new, set![ConfigField::StyleCommandsPanelBorder])
    } else if key == "style_errors_panel_border"@ {
        new.style_errors_panel_border == x && agrees_except(old, new, set![ConfigField::StyleErrorsPanelBorder])
    } else if key == "style_options_panel_help_style"@ {
        new.style_options_panel_help_style == x && agrees_except(old, new, set![ConfigField::StyleOptionsPanelHelpStyle])
    } else if key == "style_commands_panel_help_style"@ {
        new.style_commands_panel_help_style == x && agrees_except(old, new, set![ConfigField::StyleCommandsPanelHelpStyle])
    } else if key == "style_options_panel_title_style"@ {
        new.style_options_panel_title_style == x && agrees_except(old, new, set![ConfigField::StyleOptionsPanelTitleStyle])
    } else if key == "style_commands_panel_title_style"@ {
        new.style_commands_panel_title_style == x && agrees_except(old, new, set![ConfigField::StyleCommandsPanelTitleStyle])
    } else if key == "style_options_panel_style"@ {
        new.style_options_panel_style == x && agrees_except(old, new, set![ConfigField::StyleOptionsPanelStyle])
    } else if key == "style_commands_panel_style"@ {
        new.style_commands_panel_style == x && agrees_except(old, new, set![ConfigField::StyleCommandsPanelStyle])
    } else if key == "style_padding_usage"@ {
        new.style_padding_usage == x && agrees_except(old, new, set![ConfigField::StylePaddingUsage])
    } else if key == "style_padding_helptext"@ {
        new.style_padding_helptext == x && agrees_except(old, new, set![ConfigField::StylePaddingHelptext])
    } else if key == "style_padding_epilog"@ {
        new.style_padding_epilog == x && agrees_except(old, new, set![ConfigField::StylePaddingEpilog])
    } else if key == "style_padding_errors"@ {
        new.style_padding_errors == x && agrees_except(old, new, set![ConfigField::StylePaddingErrors])
    } else if key == "style_aborted"@ {
        new.style_aborted == x && agrees_except(old, new, set![ConfigField::StyleAborted])
    } else if key == "style_options_table_border_style"@ {
        new.style_options_table_border_style == x && agrees_except(old, new, set![ConfigField::StyleOptionsTableBorderStyle])
    } else if key == "style_commands_table_border_style"@ {
        new.style_commands_table_border_style == x && agrees_except(old, new, set![ConfigField::StyleCommandsTableBorderStyle])
    } else {
        unchanged(old, new)
    }
}

pub open spec fn opt_style_keys(key: Seq<char>) -> bool {
    key == "style_option_negative"@ || key == "style_switch_negative"@ || key == "style_range_append"@ || key == "style_helptext_aliases"@
}

/// Setting the field named `key` among the `opt_style` settings to `x`.
pub open spec fn set_opt_style(old: RichHelpConfig, new: RichHelpConfig, key: Seq<char>, x: Option<StyleSpec>) -> bool {
    if key == "style_option_negative"@ {
        new.style_option_negative == x && agrees_except(old, new, set![ConfigField::StyleOptionNegative])
    } else if key == "style_switch_negative"@ {
        new.style_switch_negative == x && agrees_except(old, new, set![ConfigField::StyleSwitchNegative])
    } else if key == "style_range_append"@ {
        new.style_range_append == x && agrees_except(old, new, set![ConfigField::StyleRangeAppend])
    } else if key == "style_helptext_aliases"@ {
        new.style_helptext_aliases == x && agrees_except(old, new, set![ConfigField::StyleHelptextAliases])
    } else {
        unchanged(old, new)
    }
}

pub open spec fn box_keys(key: Seq<char>) -> bool {
    key == "style_options_panel_box"@ || key == "style_commands_panel_box"@ || key == "style_errors_panel_box"@ || key == "style_options_table_box"@ || key == "style_commands_table_box"@
}

/// Setting the field named `key` among the `box` settings to `x`.
pub open spec fn set_box(old: RichHelpConfig, new: RichHelpConfig, key: Seq<char>, x: Option<BoxType>) -> bool {
    if key == "style_options_panel_box"@ {
        new.style_options_panel_box == x && agrees_except(old, new, set![ConfigField::StyleOptionsPanelBox])
    } else if key == "style_commands_panel_box"@ {
        new.style_commands_panel_box == x && agrees_except(old, new, set![ConfigField::StyleCommandsPanelBox])
    } else if key == "style_errors_panel_box"@ {
        new.style_errors_panel_box == x && agrees_except(old, new, set![ConfigField::StyleErrorsPanelBox])
    } else if key == "style_options_table_box"@ {
        new.style_options_table_box == x && agrees_except(old, new, set![ConfigField::StyleOptionsTableBox])
    } else if key == "style_commands_table_box"@ {
        new.style_commands_table_box == x && agrees_except(old, new, set![ConfigField::StyleCommandsTableBox])
    } else {
        unchanged(old, new)
    }
}

pub open spec fn ratio_keys(key: Seq<char>) -> bool {
    key == "style_commands_table_column_width_ratio"@
}

/// Setting the field named `key` among the `ratio` settings to `x`.
pub open spec fn set_ratio(old: RichHelpConfig, new: RichHelpConfig, key: Seq<char>, x: Option<(Option<usize>, Option<usize>)>) -> bool {
    if key == "style_commands_table_column_width_ratio"@ {
        new.style_commands_table_column_width_ratio == x && agrees_except(old, new, set![ConfigField::StyleCommandsTableColumnWidthRatio])
    } else {
        unchanged(old, new)
    }
}

pub open spec fn usize_keys(key: Seq<char>) -> bool {
    key == "style_options_table_leading"@ || key == "style_commands_table_leading"@ || key == "panel_title_padding"@
}

/// Setting the field named `key` among the `usize` settings to `x`.
pub open spec fn set_usize(old: RichHelpConfig, new: RichHelpConfig, key: Seq<char>, x: usize) -> bool {
    if key == "style_options_table_leading"@ {
        new.style_options_table_leading == x && agrees_except(old, new, set![ConfigField::StyleOptionsTableLeading])
    } else if key == "style_commands_table_leading"@ {
        new.style_commands_table_leading == x && agrees_except(old, new, set![ConfigField::StyleCommandsTableLeading])
    } else if key == "panel_title_padding"@ {
        new.panel_title_padding == x && agrees_except(old, new, set![ConfigField::PanelTitlePadding])
    } else {
        unchanged(old, new)
    }
}

pub open spec fn str_list_keys(key: Seq<char>) -> bool {
    key == "style_options_table_row_styles"@ || key == "style_commands_table_row_styles"@ || key == "options_table_column_types"@ || key == "commands_table_column_types"@ || key == "options_table_help_sections"@ || key == "commands_table_help_sections"@
}

/// Setting the field named `key` among the `str_list` settings to `x`.
pub open spec fn set_str_list(old: RichHelpConfig, new: RichHelpConfig, key: Seq<char>, x: Seq<String>) -> bool {
    if key == "style_options_table_row_styles"@ {
        new.style_options_table_row_styles@ == x && agrees_except(old, new, set![ConfigField::StyleOptionsTableRowStyles])
    } else if key == "style_commands_table_row_styles"@ {
        new.style_commands_table_row_styles@ == x && agrees_except(old, new, set![ConfigField::StyleCommandsTableRowStyles])
    } else if key == "options_table_column_types"@ {
        new.options_table_column_types@ == x && agrees_except(old, new, set![ConfigField::OptionsTableColumnTypes])
    } else if key == "commands_table_column_types"@ {
        new.commands_table_column_types@ == x && agrees_except(old, new, set![ConfigField::CommandsTableColumnTypes])
    } else if key == "options_table_help_sections"@ {
        new.options_table_help_sections@ == x && agrees_except(old, new, set![ConfigField::OptionsTableHelpSections])
    } else if key == "commands_table_help_sections"@ {
        new.commands_table_help_sections@ == x && agrees_except(old, new, set![ConfigField::CommandsTableHelpSections])
    } else {
        unchanged(old, new)
    }
}

pub open spec fn padding_keys(key: Seq<char>) -> bool {
    key == "style_options_panel_padding"@ || key == "style_commands_panel_padding"@ || key == "style_options_table_padding"@ || key == "style_commands_table_padding"@ || key == "padding_header_text"@ || key == "padding_usage"@ || key == "padding_helptext"@ || key == "padding_helptext_deprecated"@ || key == "padding_helptext_first_line"@ || key == "padding_epilog"@ || key == "padding_footer_text"@ || key == "padding_errors_panel"@ || key == "padding_errors_suggestion"@ || key == "padding_errors_epilogue"@
}

/// Setting the field named `key` among the `padding` settings to `x`.
pub open spec fn set_padding(old: RichHelpConfig, new: RichHelpConfig, key: Seq<char>, x: PaddingDimensions) -> bool {
    if key == "style_options_panel_padding"@ {
        new.style_options_panel_padding == x && agrees_except(old, new, set![ConfigField::StyleOptionsPanelPadding])
    } else if key == "style_commands_panel_padding"@ {
        new.style_commands_panel_padding == x && agrees_except(old, new, set![ConfigField::StyleCommandsPanelPadding])
    } else if key == "style_options_table_padding"@ {
        new.style_options_table_padding == x && agrees_except(old, new, set![ConfigField::StyleOptionsTablePadding])
    } else if key == "style_commands_table_padding"@ {
        new.style_commands_table_padding == x && agrees_except(old, new, set![ConfigField::StyleCommandsTablePadding])
    } else if key == "padding_header_text"@ {
        new.padding_header_text == x && agrees_except(old, new, set![ConfigField::PaddingHeaderText])
    } else if key == "padding_usage"@ {
        new.padding_usage == x && agrees_except(old, new, set![ConfigField::PaddingUsage])
    } else if key == "padding_helptext"@ {
        new.padding_helptext == x && agrees_except(old, new, set![ConfigField::PaddingHelptext])
    } else if key == "padding_helptext_deprecated"@ {
        new.padding_helptext_deprecated == x && agrees_except(old, new, set![ConfigField::PaddingHelptextDeprecated])
    } else if key == "padding_helptext_first_line"@ {
        new.padding_helptext_first_line == x && agrees_except(old, new, set![ConfigField::PaddingHelptextFirstLine])
    } else if key == "padding_epilog"@ {
        new.padding_epilog == x && agrees_except(old, new, set![ConfigField::PaddingEpilog])
    } else if key == "padding_footer_text"@ {
        new.padding_footer_text == x && agrees_except(old, new, set![ConfigField::PaddingFooterText])
    } else if key == "padding_errors_panel"@ {
        new.padding_errors_panel == x && agrees_except(old, new, set![ConfigField::PaddingErrorsPanel])
    } else if key == "padding_errors_suggestion"@ {
        new.padding_errors_suggestion == x && agrees_except(old, new, set![ConfigField::PaddingErrorsSuggestion])
    } else if key == "padding_errors_epilogue"@ {
        new.padding_errors_epilogue == x && agrees_except(old, new, set![ConfigField::PaddingErrorsEpilogue])
    } else {
        unchanged(old, new)
    }
}

pub open spec fn align_keys(key: Seq<char>) -> bool {
    key == "align_options_panel"@ || key == "align_commands_panel"@ || key == "align_errors_panel"@
}

/// Setting the field named `key` among the `align` settings to `x`.
pub open spec fn set_align(old: RichHelpConfig, new: RichHelpConfig, key: Seq<char>, x: AlignMethod) -> bool {
    if key == "align_options_panel"@ {
        new.align_options_panel == x && agrees_except(old, new, set![ConfigField::AlignOptionsPanel])
    } else if key == "align_commands_panel"@ {
        new.align_commands_panel == x && agrees_except(old, new, set![ConfigField::AlignCommandsPanel])
    } else if key == "align_errors_panel"@ {
        new.align_errors_panel == x && agrees_except(old, new, set![ConfigField::AlignErrorsPanel])
    } else {
        unchanged(old, new)
    }
}

pub open spec fn markup_keys(key: Seq<char>) -> bool {
    key == "text_markup"@
}

/// Setting the field named `key` among the `markup` settings to `x`.
pub open spec fn set_markup(old: RichHelpConfig, new: RichHelpConfig, key: Seq<char>, x: TextMarkup) -> bool {
    if key == "text_markup"@ {
        new.text_markup == x && agrees_except(old, new, set![ConfigField::TextMarkup])
    } else {
        unchanged(old, new)
    }
}

pub open spec fn str_some_keys(key: Seq<char>) -> bool {
    key == "text_paragraph_linebreaks"@
}

/// Setting the field named `key` among the `str_some` settings to `x`.
pub open spec fn set_str_some(old: RichHelpConfig, new: RichHelpConfig, key: Seq<char>, x: Option<String>) -> bool {
    if key == "text_paragraph_linebreaks"@ {
        new.text_paragraph_linebreaks == x && agrees_except(old, new, set![ConfigField::TextParagraphLinebreaks])
    } else {
        unchanged(old, new)
    }
}

pub open spec fn alias_keys(key: Seq<char>) -> bool {
    key == "command_aliases"@
}

/// Setting the field named `key` among the `alias` settings to `x`.
pub open spec fn set_alias(old: RichHelpConfig, new: RichHelpConfig, key: Seq<char>, x: Seq<(Seq<char>, Seq<Seq<char>>)>) -> bool {
    if key == "command_aliases"@ {
        alias_views(new.command_aliases@) == x && agrees_except(old, new, set![ConfigField::CommandAliases])
    } else {
        unchanged(old, new)
    }
}

pub open spec fn groups_options_keys(key: Seq<char>) -> bool {
    key == "option_groups"@
}

/// Setting the field named `key` among the `groups_options` settings to `x`.
pub open spec fn set_groups_options(old: RichHelpConfig, new: RichHelpConfig, key: Seq<char>, x: Seq<GroupView>) -> bool {
    if key == "option_groups"@ {
        group_views(new.option_groups@) == x && agrees_except(old, new, set![ConfigField::OptionGroups])
    } else {
        unchanged(old, new)
    }
}

pub open spec fn groups_commands_keys(key: Seq<char>) -> bool {
    key == "command_groups"@
}

/// Setting the field named `key` among the `groups_commands` settings to `x`.
pub open spec fn set_groups_commands(old: RichHelpConfig, new: RichHelpConfig, key: Seq<char>, x: Seq<GroupView>) -> bool {
    if key == "command_groups"@ {
        group_views(new.command_groups@) == x && agrees_except(old, new, set![ConfigField::CommandGroups])
    } else {
        unchanged(old, new)
    }
}

/// How the override of `key` by `v` turns `old` into `new`; a value of the
/// wrong kind, and a key that names no setting, leave the configuration
/// unchanged.
pub open spec fn overridden(old: RichHelpConfig, new: RichHelpConfig, key: Seq<char>, v: JsonValue) -> bool {
    if usize_opt_keys(key) {
        set_usize_opt(old, new, key, json_usize(v))
    } else if color_keys(key) {
        match color_mode_spec(v) { Some(x) => set_color(old, new, key, x), None => unchanged(old, new) }
    } else if bool_opt_keys(key) {
        set_bool_opt(old, new, key, v.spec_as_bool())
    } else if str_keys(key) {
        match v.spec_as_str() { Some(x) => set_str(old, new, key, x), None => unchanged(old, new) }
    } else if bool_keys(key) {
        match v.spec_as_bool() { Some(x) => set_bool(old, new, key, x), None => unchanged(old, new) }
    } else if style_keys(key) {
        match v.spec_as_str() { Some(x) => set_style(old, new, key, x), None => unchanged(old, new) }
    } else if opt_style_keys(key) {
        set_opt_style(old, new, key, optional_style_spec(v))
    } else if box_keys(key) {
        set_box(old, new, key, box_value_spec(v))
    } else if ratio_keys(key) {
        match some_ratio(v) { Some(x) => set_ratio(old, new, key, x), None => unchanged(old, new) }
    } else if usize_keys(key) {
        match u64_as_usize(v) { Some(x) => set_usize(old, new, key, x), None => unchanged(old, new) }
    } else if str_list_keys(key) {
        match string_list_spec(v) { Some(l) => set_str_list(old, new, key, l), None => unchanged(old, new) }
    } else if padding_keys(key) {
        match padding_value_spec(v) { Some(x) => set_padding(old, new, key, x), None => unchanged(old, new) }
    } else if align_keys(key) {
        match align_spec(v) { Some(x) => set_align(old, new, key, x), None => unchanged(old, new) }
    } else if markup_keys(key) {
        match text_markup_spec(v) { Some(x) => set_markup(old, new, key, x), None => unchanged(old, new) }
    } else if str_some_keys(key) {
        match some_str(v) { Some(x) => set_str_some(old, new, key, x), None => unchanged(old, new) }
    } else if alias_keys(key) {
        match alias_map_spec(v) { Some(m) => set_alias(old, new, key, m), None => unchanged(old, new) }
    } else if groups_options_keys(key) {
        match group_list_spec(v, "options"@) { Some(g) => set_groups_options(old, new, key, g), None => unchanged(old, new) }
    } else if groups_commands_keys(key) {
        match group_list_spec(v, "commands"@) { Some(g) => set_groups_commands(old, new, key, g), None => unchanged(old, new) }
    } else {
        unchanged(old, new)
    }
}

impl RichHelpConfig {
    fn set_width(&mut self, x: Option<usize>)
        ensures
            final(self).width == x,
            agrees_except(*old(self), *final(self), set![ConfigField::Width]),
    {
        self.width = x;
        proof {
            reveal(agrees_except);
        }
    }

    fn set_max_width(&mut self, x: Option<usize>)
        ensures
            final(self).max_width == x,
            agrees_except(*old(self), *final(self), set![ConfigField::MaxWidth]),
    {
        self.max_width = x;
        proof {
            reveal(agrees_except);
        }
    }

    fn set_color_system(&mut self, x: ColorSystemMode)
        ensures
            final(self).color_system == x,
            agrees_except(*old(self), *final(self), set![ConfigField::ColorSystem]),
    {
        self.color_system = x;
        proof {
            reveal(agrees_except);
        }
    }

    fn set_force_terminal(&mut self, x: Option<bool>)
        ensures
            final(self).force_terminal == x,
            agrees_except(*old(self), *final(self), set![ConfigField::ForceTerminal]),
    {
        self.force_terminal = x;
        proof {
            reveal(agrees_except);
        }
    }

    fn set_show_arguments(&mut self, x: Option<bool>)
        ensures
            final(self).show_arguments == x,
            agrees_except(*old(self), *final(self), set![ConfigField::ShowArguments]),
    {
        self.show_arguments = x;
        proof {
            reveal(agrees_except);
        }
    }

    fn set_show_commands(&mut self, x: Option<bool>)
        ensures
            final(self).show_commands == x,
            agrees_except(*old(self), *final(self), set![ConfigField::ShowCommands]),
    {
        self.show_commands = x;
        proof {
            reveal(agrees_except);
        }
    }

    fn set_show_metavars_column(&mut self, x: Option<bool>)
        ensures
            final(self).show_metavars_column == x,
            agrees_except(*old(self), *final(self), set![ConfigField::ShowMetavarsColumn]),
    {
        self.show_metavars_column = x;
        proof {
            reveal(agrees_except);
        }
    }

    fn set_append_metavars_help(&mut self, x: Option<bool>)
        ensures
            final(self).append_metavars_help == x,
            agrees_except(*old(self), *final(self), set![ConfigField::AppendMetavarsHelp]),
    {
        self.append_metavars_help = x;
        proof {
            reveal(agrees_except);
        }
    }

    fn set_option_envvar_first(&mut self, x: Option<bool>)
        ensures
            final(self).option_envvar_first == x,
            agrees_except(*old(self), *final(self), set![ConfigField::OptionEnvvarFirst]),
    {
        self.option_envvar_first = x;
        proof {
            reveal(agrees_except);
        }
    }

    fn set_text_emojis(&mut self, x: Option<bool>)
        ensures
            final(self).text_emojis == x,
            agrees_except(*old(self), *final(self), set![ConfigField::TextEmojis]),
    {
        self.text_emojis = x;
        proof {
            reveal(agrees_except);
        }
    }

    fn set_panel_title_string(&mut self, x: String)
        ensures
            final(self).panel_title_string == x,
            agrees_except(*old(self), *final(self), set![ConfigField::PanelTitleString]),
    {
        self.panel_title_string = x;
        proof {
            reveal(agrees_except);
        }
    }

    fn set_deprecated_string(&mut self, x: String)
        ensures
            final(self).deprecated_string == x,
            agrees_except(*old(self), *final(self), set![ConfigField::DeprecatedString]),
    {
        self.deprecated_string = x;
        proof {
            reveal(agrees_except);
        }
    }

    fn set_deprecated_with_reason_string(&mut self, x: String)
        ensures
            final(self).deprecated_with_reason_string == x,
            agrees_except(*old(self), *final(self), set![ConfigField::DeprecatedWithReasonString]),
    {
        self.deprecated_with_reason_string = x;
        proof {
            reveal(agrees_except);
        }
    }

    fn set_default_string(&mut self, x: String)
        ensures
            final(self).default_string == x,
            agrees_except(*old(self), *final(self), set![ConfigField::DefaultString]),
    {
        self.default_string = x;
        proof {
            reveal(agrees_except);
        }
    }

    fn set_envvar_string(&mut self, x: String)
        ensures
            final(self).envvar_string == x,
            agrees_except(*old(self), *final(self), set![ConfigField::EnvvarString]),
    {
        self.envvar_string = x;
        proof {
            reveal(agrees_except);
        }
    }

    fn set_required_short_string(&mut self, x: String)
        ensures
            final(self).required_short_string == x,
            agrees_except(*old(self), *final(self), set![ConfigField::RequiredShortString]),
    {
        self.required_short_string = x;
        proof {
            reveal(agrees_except);
        }
    }

    fn set_required_long_string(&mut self, x: String)
        ensures
            final(self).required_long_string == x,
            agrees_except(*old(self), *final(self), set![ConfigField::RequiredLongString]),
    {
        self.required_long_string = x;
        proof {
            reveal(agrees_except);
        }
    }

    fn set_range_string(&mut self, x: String)
        ensures
            final(self).range_string == x,
            agrees_except(*old(self), *final(self), set![ConfigField::RangeString]),
    {
        self.range_string = x;
        proof {
            reveal(agrees_except);
        }
    }

    fn set_append_metavars_help_string(&mut self, x: String)
        ensures
            final(self).append_metavars_help_string == x,
            agrees_except(*old(self), *final(self), set![ConfigField::AppendMetavarsHelpString]),
    {
        self.append_metavars_help_string = x;
        proof {
            reveal(agrees_except);
        }
    }

    fn set_append_range_help_string(&mut self, x: String)
        ensures
            final(self).append_range_help_string == x,
            agrees_except(*old(self), *final(self), set![ConfigField::AppendRangeHelpString]),
    {
        self.append_range_help_string = x;
        proof {
            reveal(agrees_except);
        }
    }

    fn set_delimiter_comma(&mut self, x: String)
        ensures
            final(self).delimiter_comma == x,
            agrees_except(*old(self), *final(self), set![ConfigField::DelimiterComma]),
    {
        self.delimiter_comma = x;
        proof {
            reveal(agrees_except);
        }
    }

    fn set_delimiter_slash(&mut self, x: String)
        ensures
            final(self).delimiter_slash == x,
            agrees_except(*old(self), *final(self), set![ConfigField::DelimiterSlash]),
    {
        self.delimiter_slash = x;
        proof {
            reveal(agrees_except);
        }
    }

    fn set_options_panel_title(&mut self, x: String)
        ensures
            final(self).options_panel_title == x,
            agrees_except(*old(self), *final(self), set![ConfigField::OptionsPanelTitle]),
    {
        self.options_panel_title = x;
        proof {
            reveal(agrees_except);
        }
    }

    fn set_commands_panel_title(&mut self, x: String)
        ensures
            final(self).commands_panel_title == x,
            agrees_except(*old(self), *final(self), set![ConfigField::CommandsPanelTitle]),
    {
        self.commands_panel_title = x;
        proof {
            reveal(agrees_except);
        }
    }

    fn set_arguments_panel_title(&mut self, x: String)
        ensures
            final(self).arguments_panel_title == x,
            agrees_except(*old(self), *final(self), set![ConfigField::ArgumentsPanelTitle]),
    {
        self.arguments_panel_title = x;
        proof {
            reveal(agrees_except);
        }
    }

    fn set_errors_panel_title(&mut self, x: String)
        ensures
            final(self).errors_panel_title == x,
            agrees_except(*old(self), *final(self), set![ConfigField::ErrorsPanelTitle]),
    {
        self.errors_panel_title = x;
        proof {
            reveal(agrees_except);
        }
    }

    fn set_aborted_text(&mut self, x: String)
        ensures
            final(self).aborted_text == x,
            agrees_except(*old(self), *final(self), set![ConfigField::AbortedText]),
    {
        self.aborted_text = x;
        proof {
            reveal(agrees_except);
        }
    }

    fn set_errors_param_source_format(&mut self, x: String)
        ensures
            final(self).errors_param_source_format == x,
            agrees_except(*old(self), *final(self), set![ConfigField::ErrorsParamSourceFormat]),
    {
        self.errors_param_source_format = x;
        proof {
            reveal(agrees_except);
        }
    }

    fn set_prompt_string(&mut self, x: String)
        ensures
            final(self).prompt_string == x,
            agrees_except(*old(self), *final(self), set![ConfigField::PromptString]),
    {
        self.prompt_string = x;
        proof {
            reveal(agrees_except);
        }
    }

    fn set_prompt_confirm_string(&mut self, x: String)
        ensures
            final(self).prompt_confirm_string == x,
            agrees_except(*old(self), *final(self), set![ConfigField::PromptConfirmString]),
    {
        self.prompt_confirm_string = x;
        proof {
            reveal(agrees_except);
        }
    }

    fn set_prompt_hidden_string(&mut self, x: String)
        ensures
            final(self).prompt_hidden_string == x,
            agrees_except(*old(self), *final(self), set![ConfigField::PromptHiddenString]),
    {
        self.prompt_hidden_string = x;
        proof {
            reveal(agrees_except);
        }
    }

    fn set_prompt_confirm_hidden_string(&mut self, x: String)
        ensures
            final(self).prompt_confirm_hidden_string == x,
            agrees_except(*old(self), *final(self), set![ConfigField::PromptConfirmHiddenString]),
    {
        self.prompt_confirm_hidden_string = x;
        proof {
            reveal(agrees_except);
        }
    }

    fn set_panel_inline_help_delimiter(&mut self, x: String)
        ensures
            final(self).panel_inline_help_delimiter == x,
            agrees_except(*old(self), *final(self), set![ConfigField::PanelInlineHelpDelimiter]),
    {
        self.panel_inline_help_delimiter = x;
        proof {
            reveal(agrees_except);
        }
    }

    fn set_errors_show_param_source(&mut self, x: bool)
        ensures
            final(self).errors_show_param_source == x,
            agrees_except(*old(self), *final(self), set![ConfigField::ErrorsShowParamSource]),
    {
        self.errors_show_param_source = x;
        proof {
            reveal(agrees_except);
        }
    }

    fn set_show_prompt(&mut self, x: bool)
        ensures
            final(self).show_prompt == x,
            agrees_except(*old(self), *final(self), set![ConfigField::ShowPrompt]),
    {
        self.show_prompt = x;
        proof {
            reveal(agrees_except);
        }
    }

    fn set_style_options_table_show_lines(&mut self, x: bool)
        ensures
            final(self).style_options_table_show_lines == x,
            agrees_except(*old(self), *final(self), set![ConfigField::StyleOptionsTableShowLines]),
    {
        self.style_options_table_show_lines = x;
        proof {
            reveal(agrees_except);
        }
    }

    fn set_style_commands_table_show_lines(&mut self, x: bool)
        ensures
            final(self).style_commands_table_show_lines == x,
            agrees_except(*old(self), *final(self), set![ConfigField::StyleCommandsTableShowLines]),
    {
        self.style_commands_table_show_lines = x;
        proof {
            reveal(agrees_except);
        }
    }

    fn set_style_options_table_pad_edge(&mut self, x: bool)
        ensures
            final(self).style_options_table_pad_edge == x,
            agrees_except(*old(self), *final(self), set![ConfigField::StyleOptionsTablePadEdge]),
    {
        self.style_options_table_pad_edge = x;
        proof {
            reveal(agrees_except);
        }
    }

    fn set_style_commands_table_pad_edge(&mut self, x: bool)
        ensures
            final(self).style_commands_table_pad_edge == x,
            agrees_except(*old(self), *final(self), set![ConfigField::StyleCommandsTablePadEdge]),
    {
        self.style_commands_table_pad_edge = x;
        proof {
            reveal(agrees_except);
        }
    }

    fn set_style_options_table_collapse_padding(&mut self, x: bool)
        ensures
            final(self).style_options_table_collapse_padding == x,
            agrees_except(*old(self), *final(self), set![ConfigField::StyleOptionsTableCollapsePadding]),
    {
        self.style_options_table_collapse_padding = x;
        proof {
            reveal(agrees_except);
        }
    }

    fn set_style_commands_table_collapse_padding(&mut self, x: bool)
        ensures
            final(self).style_commands_table_collapse_padding == x,
            agrees_except(*old(self), *final(self), set![ConfigField::StyleCommandsTableCollapsePadding]),
    {
        self.style_commands_table_collapse_padding = x;
        proof {
            reveal(agrees_except);
        }
    }

    fn set_style_options_table_expand(&mut self, x: bool)
        ensures
            final(self).style_options_table_expand == x,
            agrees_except(*old(self), *final(self), set![ConfigField::StyleOptionsTableExpand]),
    {
        self.style_options_table_expand = x;
        proof {
            reveal(agrees_except);
        }
    }

    fn set_style_commands_table_expand(&mut self, x: bool)
        ensures
            final(self).style_commands_table_expand == x,
            agrees_except(*old(self), *final(self), set![ConfigField::StyleCommandsTableExpand]),
    {
        self.style_commands_table_expand = x;
        proof {
            reveal(agrees_except);
        }
    }

    fn set_panel_inline_help_in_title(&mut self, x: bool)
        ensures
            final(self).panel_inline_help_in_title == x,
            agrees_except(*old(self), *final(self), set![ConfigField::PanelInlineHelpInTitle]),
    {
        self.panel_inline_help_in_title = x;
        proof {
            reveal(agrees_except);
        }
    }

    fn set_commands_before_options(&mut self, x: bool)
        ensures
            final(self).commands_before_options == x,
            agrees_except(*old(self), *final(self), set![ConfigField::CommandsBeforeOptions]),
    {
        self.commands_before_options = x;
        proof {
            reveal(agrees_except);
        }
    }

    fn set_default_panels_first(&mut self, x: bool)
        ensures
            final(self).default_panels_first == x,
            agrees_except(*old(self), *final(self), set![ConfigField::DefaultPanelsFirst]),
    {
        self.default_panels_first = x;
        proof {
            reveal(agrees_except);
        }
    }

    fn set_group_arguments_options(&mut self, x: bool)
        ensures
            final(self).group_arguments_options == x,
            agrees_except(*old(self), *final(self), set![ConfigField::GroupArgumentsOptions]),
    {
        self.group_arguments_options = x;
        proof {
            reveal(agrees_except);
        }
    }

    fn set_use_click_short_help(&mut self, x: bool)
        ensures
            final(self).use_click_short_help == x,
            agrees_except(*old(self), *final(self), set![ConfigField::UseClickShortHelp]),
    {
        self.use_click_short_help = x;
        proof {
            reveal(agrees_except);
        }
    }

    fn set_helptext_show_aliases(&mut self, x: bool)
        ensures
            final(self).helptext_show_aliases == x,
            agrees_except(*old(self), *final(self), set![ConfigField::HelptextShowAliases]),
    {
        self.helptext_show_aliases = x;
        proof {
            reveal(agrees_except);
        }
    }

    fn set_style_option(&mut self, x: StyleSpec)
        ensures
            final(self).style_option == x,
            agrees_except(*old(self), *final(self), set![ConfigField::StyleOption]),
    {
        self.style_option = x;
        proof {
            reveal(agrees_except);
        }
    }

    fn set_style_argument(&mut self, x: StyleSpec)
        ensures
            final(self).style_argument == x,
            agrees_except(*old(self), *final(self), set![ConfigField::StyleArgument]),
    {
        self.style_argument = x;
        proof {
            reveal(agrees_except);
        }
    }

    fn set_style_command(&mut self, x: StyleSpec)
        ensures
            final(self).style_command == x,
            agrees_except(*old(self), *final(self), set![ConfigField::StyleCommand]),
    {
        self.style_command = x;
        proof {
            reveal(agrees_except);
        }
    }

    fn set_style_command_aliases(&mut self, x: StyleSpec)
        ensures
            final(self).style_command_aliases == x,
            agrees_except(*old(self), *final(self), set![ConfigField::StyleCommandAliases]),
    {
        self.style_command_aliases = x;
        proof {
            reveal(agrees_except);
        }
    }

    fn set_style_switch(&mut self, x: StyleSpec)
        ensures
            final(self).style_switch == x,
            agrees_except(*old(self), *final(self), set![ConfigField::StyleSwitch]),
    {
        self.style_switch = x;
        proof {
            reveal(agrees_except);
        }
    }

    fn set_style_metavar(&mut self, x: StyleSpec)
        ensures
            final(self).style_metavar == x,
            agrees_except(*old(self), *final(self), set![ConfigField::StyleMetavar]),
    {
        self.style_metavar = x;
        proof {
            reveal(agrees_except);
        }
    }

    fn set_style_metavar_append(&mut self, x: StyleSpec)
        ensures
            final(self).style_metavar_append == x,
            agrees_except(*old(self), *final(self), set![ConfigField::StyleMetavarAppend]),
    {
        self.style_metavar_append = x;
        proof {
            reveal(agrees_except);
        }
    }

    fn set_style_metavar_separator(&mut self, x: StyleSpec)
        ensures
            final(self).style_metavar_separator == x,
            agrees_except(*old(self), *final(self), set![ConfigField::StyleMetavarSeparator]),
    {
        self.style_metavar_separator = x;
        proof {
            reveal(agrees_except);
        }
    }

    fn set_style_header_text(&mut self, x: StyleSpec)
        ensures
            final(self).style_header_text == x,
            agrees_except(*old(self), *final(self), set![ConfigField::StyleHeaderText]),
    {
        self.style_header_text = x;
        proof {
            reveal(agrees_except);
        }
    }

    fn set_style_epilog_text(&mut self, x: StyleSpec)
        ensures
            final(self).style_epilog_text == x,
            agrees_except(*old(self), *final(self), set![ConfigField::StyleEpilogText]),
    {
        self.style_epilog_text = x;
        proof {
            reveal(agrees_except);
        }
    }

    fn set_style_footer_text(&mut self, x: StyleSpec)
        ensures
            final(self).style_footer_text == x,
            agrees_except(*old(self), *final(self), set![ConfigField::StyleFooterText]),
    {
        self.style_footer_text = x;
        proof {
            reveal(agrees_except);
        }
    }

    fn set_style_usage(&mut self, x: StyleSpec)
        ensures
            final(self).style_usage == x,
            agrees_except(*old(self), *final(self), set![ConfigField::StyleUsage]),
    {
        self.style_usage = x;
        proof {
            reveal(agrees_except);
        }
    }

    fn set_style_usage_command(&mut self, x: StyleSpec)
        ensures
            final(self).style_usage_command == x,
            agrees_except(*old(self), *final(self), set![ConfigField::StyleUsageCommand]),
    {
        self.style_usage_command = x;
        proof {
            reveal(agrees_except);
        }
    }

    fn set_style_usage_separator(&mut self, x: StyleSpec)
        ensures
            final(self).style_usage_separator == x,
            agrees_except(*old(self), *final(self), set![ConfigField::StyleUsageSeparator]),
    {
        self.style_usage_separator = x;
        proof {
            reveal(agrees_except);
        }
    }

    fn set_style_deprecated(&mut self, x: StyleSpec)
        ensures
            final(self).style_deprecated == x,
            agrees_except(*old(self), *final(self), set![ConfigField::StyleDeprecated]),
    {
        self.style_deprecated = x;
        proof {
            reveal(agrees_except);
        }
    }

    fn set_style_helptext_first_line(&mut self, x: StyleSpec)
        ensures
            final(self).style_helptext_first_line == x,
            agrees_except(*old(self), *final(self), set![ConfigField::StyleHelptextFirstLine]),
    {
        self.style_helptext_first_line = x;
        proof {
            reveal(agrees_except);
        }
    }

    fn set_style_helptext(&mut self, x: StyleSpec)
        ensures
            final(self).style_helptext == x,
            agrees_except(*old(self), *final(self), set![ConfigField::StyleHelptext]),
    {
        self.style_helptext = x;
        proof {
            reveal(agrees_except);
        }
    }

    fn set_style_option_help(&mut self, x: StyleSpec)
        ensures
            final(self).style_option_help == x,
            agrees_except(*old(self), *final(self), set![ConfigField::StyleOptionHelp]),
    {
        self.style_option_help = x;
        proof {
            reveal(agrees_except);
        }
    }

    fn set_style_command_help(&mut self, x: StyleSpec)
        ensures
            final(self).style_command_help == x,
            agrees_except(*old(self), *final(self), set![ConfigField::StyleCommandHelp]),
    {
        self.style_command_help = x;
        proof {
            reveal(agrees_except);
        }
    }

    fn set_style_option_default(&mut self, x: StyleSpec)
        ensures
            final(self).style_option_default == x,
            agrees_except(*old(self), *final(self), set![ConfigField::StyleOptionDefault]),
    {
        self.style_option_default = x;
        proof {
            reveal(agrees_except);
        }
    }

    fn set_style_option_envvar(&mut self, x: StyleSpec)
        ensures
            final(self).style_option_envvar == x,
            agrees_except(*old(self), *final(self), set![ConfigField::StyleOptionEnvvar]),
    {
        self.style_option_envvar = x;
        proof {
            reveal(agrees_except);
        }
    }

    fn set_style_required_short(&mut self, x: StyleSpec)
        ensures
            final(self).style_required_short == x,
            agrees_except(*old(self), *final(self), set![ConfigField::StyleRequiredShort]),
    {
        self.style_required_short = x;
        proof {
            reveal(agrees_except);
        }
    }

    fn set_style_required_long(&mut self, x: StyleSpec)
        ensures
            final(self).style_required_long == x,
            agrees_except(*old(self), *final(self), set![ConfigField::StyleRequiredLong]),
    {
        self.style_required_long = x;
        proof {
            reveal(agrees_except);
        }
    }

    fn set_style_options_panel_border(&mut self, x: StyleSpec)
        ensures
            final(self).style_options_panel_border == x,
            agrees_except(*old(self), *final(self), set![ConfigField::StyleOptionsPanelBorder]),
    {
        self.style_options_panel_border = x;
        proof {
            reveal(agrees_except);
        }
    }

    fn set_style_commands_panel_border(&mut self, x: StyleSpec)
        ensures
            final(self).style_commands_panel_border == x,
            agrees_except(*old(self), *final(self), set![ConfigField::StyleCommandsPanelBorder]),
    {
        self.style_commands_panel_border = x;
        proof {
            reveal(agrees_except);
        }
    }

    fn set_style_errors_panel_border(&mut self, x: StyleSpec)
        ensures
            final(self).style_errors_panel_border == x,
            agrees_except(*old(self), *final(self), set![ConfigField::StyleErrorsPanelBorder]),
    {
        self.style_errors_panel_border = x;
        proof {
            reveal(agrees_except);
        }
    }

    fn set_style_options_panel_help_style(&mut self, x: StyleSpec)
        ensures
            final(self).style_options_panel_help_style == x,
            agrees_except(*old(self), *final(self), set![ConfigField::StyleOptionsPanelHelpStyle]),
    {
        self.style_options_panel_help_style = x;
        proof {
            reveal(agrees_except);
        }
    }

    fn set_style_commands_panel_help_style(&mut self, x: StyleSpec)
        ensures
            final(self).style_commands_panel_help_style == x,
            agrees_except(*old(self), *final(self), set![ConfigField::StyleCommandsPanelHelpStyle]),
    {
        self.style_commands_panel_help_style = x;
        proof {
            reveal(agrees_except);
        }
    }

    fn set_style_options_panel_title_style(&mut self, x: StyleSpec)
        ensures
            final(self).style_options_panel_title_style == x,
            agrees_except(*old(self), *final(self), set![ConfigField::StyleOptionsPanelTitleStyle]),
    {
        self.style_options_panel_title_style = x;
        proof {
            reveal(agrees_except);
        }
    }

    fn set_style_commands_panel_title_style(&mut self, x: StyleSpec)
        ensures
            final(self).style_commands_panel_title_style == x,
            agrees_except(*old(self), *final(self), set![ConfigField::StyleCommandsPanelTitleStyle]),
    {
        self.style_commands_panel_title_style = x;
        proof {
            reveal(agrees_except);
        }
    }

    fn set_style_options_panel_style(&mut self, x: StyleSpec)
        ensures
            final(self).style_options_panel_style == x,
            agrees_except(*old(self), *final(self), set![ConfigField::StyleOptionsPanelStyle]),
    {
        self.style_options_panel_style = x;
        proof {
            reveal(agrees_except);
        }
    }

    fn set_style_commands_panel_style(&mut self, x: StyleSpec)
        ensures
            final(self).style_commands_panel_style == x,
            agrees_except(*old(self), *final(self), set![ConfigField::StyleCommandsPanelStyle]),
    {
        self.style_commands_panel_style = x;
        proof {
            reveal(agrees_except);
        }
    }

    fn set_style_padding_usage(&mut self, x: StyleSpec)
        ensures
            final(self).style_padding_usage == x,
            agrees_except(*old(self), *final(self), set![ConfigField::StylePaddingUsage]),
    {
        self.style_padding_usage = x;
        proof {
            reveal(agrees_except);
        }
    }

    fn set_style_padding_helptext(&mut self, x: StyleSpec)
        ensures
            final(self).style_padding_helptext == x,
            agrees_except(*old(self), *final(self), set![ConfigField::StylePaddingHelptext]),
    {
        self.style_padding_helptext = x;
        proof {
            reveal(agrees_except);
        }
    }

    fn set_style_padding_epilog(&mut self, x: StyleSpec)
        ensures
            final(self).style_padding_epilog == x,
            agrees_except(*old(self), *final(self), set![ConfigField::StylePaddingEpilog]),
    {
        self.style_padding_epilog = x;
        proof {
            reveal(agrees_except);
        }
    }

    fn set_style_padding_errors(&mut self, x: StyleSpec)
        ensures
            final(self).style_padding_errors == x,
            agrees_except(*old(self), *final(self), set![ConfigField::StylePaddingErrors]),
    {
        self.style_padding_errors = x;
        proof {
            reveal(agrees_except);
        }
    }

    fn set_style_aborted(&mut self, x: StyleSpec)
        ensures
            final(self).style_aborted == x,
            agrees_except(*old(self), *final(self), set![ConfigField::StyleAborted]),
    {
        self.style_aborted = x;
        proof {
            reveal(agrees_except);
        }
    }

    fn set_style_options_table_border_style(&mut self, x: StyleSpec)
        ensures
            final(self).style_options_table_border_style == x,
            agrees_except(*old(self), *final(self), set![ConfigField::StyleOptionsTableBorderStyle]),
    {
        self.style_options_table_border_style = x;
        proof {
            reveal(agrees_except);
        }
    }

    fn set_style_commands_table_border_style(&mut self, x: StyleSpec)
        ensures
            final(self).style_commands_table_border_style == x,
            agrees_except(*old(self), *final(self), set![ConfigField::StyleCommandsTableBorderStyle]),
    {
        self.style_commands_table_border_style = x;
        proof {
            reveal(agrees_except);
        }
    }

    fn set_style_option_negative(&mut self, x: Option<StyleSpec>)
        ensures
            final(self).style_option_negative == x,
            agrees_except(*old(self), *final(self), set![ConfigField::StyleOptionNegative]),
    {
        self.style_option_negative = x;
        proof {
            reveal(agrees_except);
        }
    }

    fn set_style_switch_negative(&mut self, x: Option<StyleSpec>)
        ensures
            final(self).style_switch_negative == x,
            agrees_except(*old(self), *final(self), set![ConfigField::StyleSwitchNegative]),
    {
        self.style_switch_negative = x;
        proof {
            reveal(agrees_except);
        }
    }

    fn set_style_range_append(&mut self, x: Option<StyleSpec>)
        ensures
            final(self).style_range_append == x,
            agrees_except(*old(self), *final(self), set![ConfigField::StyleRangeAppend]),
    {
        self.style_range_append = x;
        proof {
            reveal(agrees_except);
        }
    }

    fn set_style_helptext_aliases(&mut self, x: Option<StyleSpec>)
        ensures
            final(self).style_helptext_aliases == x,
            agrees_except(*old(self), *final(self), set![ConfigField::StyleHelptextAliases]),
    {
        self.style_helptext_aliases = x;
        proof {
            reveal(agrees_except);
        }
    }

    fn set_style_options_panel_box(&mut self, x: Option<BoxType>)
        ensures
            final(self).style_options_panel_box == x,
            agrees_except(*old(self), *final(self), set![ConfigField::StyleOptionsPanelBox]),
    {
        self.style_options_panel_box = x;
        proof {
            reveal(agrees_except);
        }
    }

    fn set_style_commands_panel_box(&mut self, x: Option<BoxType>)
        ensures
            final(self).style_commands_panel_box == x,
            agrees_except(*old(self), *final(self), set![ConfigField::StyleCommandsPanelBox]),
    {
        self.style_commands_panel_box = x;
        proof {
            reveal(agrees_except);
        }
    }

    fn set_style_errors_panel_box(&mut self, x: Option<BoxType>)
        ensures
            final(self).style_errors_panel_box == x,
            agrees_except(*old(self), *final(self), set![ConfigField::StyleErrorsPanelBox]),
    {
        self.style_errors_panel_box = x;
        proof {
            reveal(agrees_except);
        }
    }

    fn set_style_options_table_box(&mut self, x: Option<BoxType>)
        ensures
            final(self).style_options_table_box == x,
            agrees_except(*old(self), *final(self), set![ConfigField::StyleOptionsTableBox]),
    {
        self.style_options_table_box = x;
        proof {
            reveal(agrees_except);
        }
    }

    fn set_style_commands_table_box(&mut self, x: Option<BoxType>)
        ensures
            final(self).style_commands_table_box == x,
            agrees_except(*old(self), *final(self), set![ConfigField::StyleCommandsTableBox]),
    {
        self.style_commands_table_box = x;
        proof {
            reveal(agrees_except);
        }
    }

    fn set_style_commands_table_column_width_ratio(&mut self, x: Option<(Option<usize>, Option<usize>)>)
        ensures
            final(self).style_commands_table_column_width_ratio == x,
            agrees_except(*old(self), *final(self), set![ConfigField::StyleCommandsTableColumnWidthRatio]),
    {
        self.style_commands_table_column_width_ratio = x;
        proof {
            reveal(agrees_except);
        }
    }

    fn set_style_options_table_leading(&mut self, x: usize)
        ensures
            final(self).style_options_table_leading == x,
            agrees_except(*old(self), *final(self), set![ConfigField::StyleOptionsTableLeading]),
    {
        self.style_options_table_leading = x;
        proof {
            reveal(agrees_except);
        }
    }

    fn set_style_commands_table_leading(&mut self, x: usize)
        ensures
            final(self).style_commands_table_leading == x,
            agrees_except(*old(self), *final(self), set![ConfigField::StyleCommandsTableLeading]),
    {
        self.style_commands_table_leading = x;
        proof {
            reveal(agrees_except);
        }
    }

    fn set_panel_title_padding(&mut self, x: usize)
        ensures
            final(self).panel_title_padding == x,
            agrees_except(*old(self), *final(self), set![ConfigField::PanelTitlePadding]),
    {
        self.panel_title_padding = x;
        proof {
            reveal(agrees_except);
        }
    }

    fn set_style_options_table_row_styles(&mut self, x: Vec<String>)
        ensures
            final(self).style_options_table_row_styles == x,
            agrees_except(*old(self), *final(self), set![ConfigField::StyleOptionsTableRowStyles]),
    {
        self.style_options_table_row_styles = x;
        proof {
            reveal(agrees_except);
        }
    }

    fn set_style_commands_table_row_styles(&mut self, x: Vec<String>)
        ensures
            final(self).style_commands_table_row_styles == x,
            agrees_except(*old(self), *final(self), set![ConfigField::StyleCommandsTableRowStyles]),
    {
        self.style_commands_table_row_styles = x;
        proof {
            reveal(agrees_except);
        }
    }

    fn set_options_table_column_types(&mut self, x: Vec<String>)
        ensures
            final(self).options_table_column_types == x,
            agrees_except(*old(self), *final(self), set![ConfigField::OptionsTableColumnTypes]),
    {
        self.options_table_column_types = x;
        proof {
            reveal(agrees_except);
        }
    }

    fn set_commands_table_column_types(&mut self, x: Vec<String>)
        ensures
            final(self).commands_table_column_types == x,
            agrees_except(*old(self), *final(self), set![ConfigField::CommandsTableColumnTypes]),
    {
        self.commands_table_column_types = x;
        proof {
            reveal(agrees_except);
        }
    }

    fn set_options_table_help_sections(&mut self, x: Vec<String>)
        ensures
            final(self).options_table_help_sections == x,
            agrees_except(*old(self), *final(self), set![ConfigField::OptionsTableHelpSections]),
    {
        self.options_table_help_sections = x;
        proof {
            reveal(agrees_except);
        }
    }

    fn set_commands_table_help_sections(&mut self, x: Vec<String>)
        ensures
            final(self).commands_table_help_sections == x,
            agrees_except(*old(self), *final(self), set![ConfigField::CommandsTableHelpSections]),
    {
        self.commands_table_help_sections = x;
        proof {
            reveal(agrees_except);
        }
    }

    fn set_style_options_panel_padding(&mut self, x: PaddingDimensions)
        ensures
            final(self).style_options_panel_padding == x,
            agrees_except(*old(self), *final(self), set![ConfigField::StyleOptionsPanelPadding]),
    {
        self.style_options_panel_padding = x;
        proof {
            reveal(agrees_except);
        }
    }

    fn set_style_commands_panel_padding(&mut self, x: PaddingDimensions)
        ensures
            final(self).style_commands_panel_padding == x,
            agrees_except(*old(self), *final(self), set![ConfigField::StyleCommandsPanelPadding]),
    {
        self.style_commands_panel_padding = x;
        proof {
            reveal(agrees_except);
        }
    }

    fn set_style_options_table_padding(&mut self, x: PaddingDimensions)
        ensures
            final(self).style_options_table_padding == x,
            agrees_except(*old(self), *final(self), set![ConfigField::StyleOptionsTablePadding]),
    {
        self.style_options_table_padding = x;
        proof {
            reveal(agrees_except);
        }
    }

    fn set_style_commands_table_padding(&mut self, x: PaddingDimensions)
        ensures
            final(self).style_commands_table_padding == x,
            agrees_except(*old(self), *final(self), set![ConfigField::StyleCommandsTablePadding]),
    {
        self.style_commands_table_padding = x;
        proof {
            reveal(agrees_except);
        }
    }

    fn set_padding_header_text(&mut self, x: PaddingDimensions)
        ensures
            final(self).padding_header_text == x,
            agrees_except(*old(self), *final(self), set![ConfigField::PaddingHeaderText]),
    {
        self.padding_header_text = x;
        proof {
            reveal(agrees_except);
        }
    }

    fn set_padding_usage(&mut self, x: PaddingDimensions)
        ensures
            final(self).padding_usage == x,
            agrees_except(*old(self), *final(self), set![ConfigField::PaddingUsage]),
    {
        self.padding_usage = x;
        proof {
            reveal(agrees_except);
        }
    }

    fn set_padding_helptext(&mut self, x: PaddingDimensions)
        ensures
            final(self).padding_helptext == x,
            agrees_except(*old(self), *final(self), set![ConfigField::PaddingHelptext]),
    {
        self.padding_helptext = x;
        proof {
            reveal(agrees_except);
        }
    }

    fn set_padding_helptext_deprecated(&mut self, x: PaddingDimensions)
        ensures
            final(self).padding_helptext_deprecated == x,
            agrees_except(*old(self), *final(self), set![ConfigField::PaddingHelptextDeprecated]),
    {
        self.padding_helptext_deprecated = x;
        proof {
            reveal(agrees_except);
        }
    }

    fn set_padding_helptext_first_line(&mut self, x: PaddingDimensions)
        ensures
            final(self).padding_helptext_first_line == x,
            agrees_except(*old(self), *final(self), set![ConfigField::PaddingHelptextFirstLine]),
    {
        self.padding_helptext_first_line = x;
        proof {
            reveal(agrees_except);
        }
    }

    fn set_padding_epilog(&mut self, x: PaddingDimensions)
        ensures
            final(self).padding_epilog == x,
            agrees_except(*old(self), *final(self), set![ConfigField::PaddingEpilog]),
    {
        self.padding_epilog = x;
        proof {
            reveal(agrees_except);
        }
    }

    fn set_padding_footer_text(&mut self, x: PaddingDimensions)
        ensures
            final(self).padding_footer_text == x,
            agrees_except(*old(self), *final(self), set![ConfigField::PaddingFooterText]),
    {
        self.padding_footer_text = x;
        proof {
            reveal(agrees_except);
        }
    }

    fn set_padding_errors_panel(&mut self, x: PaddingDimensions)
        ensures
            final(self).padding_errors_panel == x,
            agrees_except(*old(self), *final(self), set![ConfigField::PaddingErrorsPanel]),
    {
        self.padding_errors_panel = x;
        proof {
            reveal(agrees_except);
        }
    }

    fn set_padding_errors_suggestion(&mut self, x: PaddingDimensions)
        ensures
            final(self).padding_errors_suggestion == x,
            agrees_except(*old(self), *final(self), set![ConfigField::PaddingErrorsSuggestion]),
    {
        self.padding_errors_suggestion = x;
        proof {
            reveal(agrees_except);
        }
    }

    fn set_padding_errors_epilogue(&mut self, x: PaddingDimensions)
        ensures
            final(self).padding_errors_epilogue == x,
            agrees_except(*old(self), *final(self), set![ConfigField::PaddingErrorsEpilogue]),
    {
        self.padding_errors_epilogue = x;
        proof {
            reveal(agrees_except);
        }
    }

    fn set_align_options_panel(&mut self, x: AlignMethod)
        ensures
            final(self).align_options_panel == x,
            agrees_except(*old(self), *final(self), set![ConfigField::AlignOptionsPanel]),
    {
        self.align_options_panel = x;
        proof {
            reveal(agrees_except);
        }
    }

    fn set_align_commands_panel(&mut self, x: AlignMethod)
        ensures
            final(self).align_commands_panel == x,
            agrees_except(*old(self), *final(self), set![ConfigField::AlignCommandsPanel]),
    {
        self.align_commands_panel = x;
        proof {
            reveal(agrees_except);
        }
    }

    fn set_align_errors_panel(&mut self, x: AlignMethod)
        ensures
            final(self).align_errors_panel == x,
            agrees_except(*old(self), *final(self), set![ConfigField::AlignErrorsPanel]),
    {
        self.align_errors_panel = x;
        proof {
            reveal(agrees_except);
        }
    }

    fn set_text_markup(&mut self, x: TextMarkup)
        ensures
            final(self).text_markup == x,
            agrees_except(*old(self), *final(self), set![ConfigField::TextMarkup]),
    {
        self.text_markup = x;
        proof {
            reveal(agrees_except);
        }
    }

    fn set_text_paragraph_linebreaks(&mut self, x: Option<String>)
        ensures
            final(self).text_paragraph_linebreaks == x,
            agrees_except(*old(self), *final(self), set![ConfigField::TextParagraphLinebreaks]),
    {
        self.text_paragraph_linebreaks = x;
        proof {
            reveal(agrees_except);
        }
    }

    fn set_command_aliases(&mut self, x: Vec<CommandAliases>)
        ensures
            final(self).command_aliases == x,
            agrees_except(*old(self), *final(self), set![ConfigField::CommandAliases]),
    {
        self.command_aliases = x;
        proof {
            reveal(agrees_except);
        }
    }

    fn set_option_groups(&mut self, x: Vec<GroupConfig>)
        ensures
            final(self).option_groups == x,
            agrees_except(*old(self), *final(self), set![ConfigField::OptionGroups]),
    {
        self.option_groups = x;
        proof {
            reveal(agrees_except);
        }
    }

    fn set_command_groups(&mut self, x: Vec<GroupConfig>)
        ensures
            final(self).command_groups == x,
            agrees_except(*old(self), *final(self), set![ConfigField::CommandGroups]),
    {
        self.command_groups = x;
        proof {
            reveal(agrees_except);
        }
    }

    fn is_usize_opt_key(key: &str) -> (r: bool)
        ensures
            r == usize_opt_keys(key@),
    {
        str_eq(key, "width") || str_eq(key, "max_width")
    }

    fn set_usize_opt_field(&mut self, key: &str, x: Option<usize>)
        ensures
            set_usize_opt(*old(self), *final(self), key@, x),
    {
        if str_eq(key, "width") {
            self.set_width(x);
        } else if str_eq(key, "max_width") {
            self.set_max_width(x);
        } else {
            proof {
                lemma_agrees_except_refl(*self, Set::empty());
            }
        }
    }

    fn is_color_key(key: &str) -> (r: bool)
        ensures
            r == color_keys(key@),
    {
        str_eq(key, "color_system")
    }

    fn set_color_field(&mut self, key: &str, x: ColorSystemMode)
        ensures
            set_color(*old(self), *final(self), key@, x),
    {
        if str_eq(key, "color_system") {
            self.set_color_system(x);
        } else {
            proof {
                lemma_agrees_except_refl(*self, Set::empty());
            }
        }
    }

    fn is_bool_opt_key(key: &str) -> (r: bool)
        ensures
            r == bool_opt_keys(key@),
    {
        str_eq(key, "force_terminal") || str_eq(key, "show_arguments") || str_eq(key, "show_commands") || str_eq(key, "show_metavars_column") || str_eq(key, "append_metavars_help") || str_eq(key, "option_envvar_first") || str_eq(key, "text_emojis")
    }

    fn set_bool_opt_field(&mut self, key: &str, x: Option<bool>)
        ensures
            set_bool_opt(*old(self), *final(self), key@, x),
    {
        if str_eq(key, "force_terminal") {
            self.set_force_terminal(x);
        } else if str_eq(key, "show_arguments") {
            self.set_show_arguments(x);
        } else if str_eq(key, "show_commands") {
            self.set_show_commands(x);
        } else if str_eq(key, "show_metavars_column") {
            self.set_show_metavars_column(x);
        } else if str_eq(key, "append_metavars_help") {
            self.set_append_metavars_help(x);
        } else if str_eq(key, "option_envvar_first") {
            self.set_option_envvar_first(x);
        } else if str_eq(key, "text_emojis") {
            self.set_text_emojis(x);
        } else {
            proof {
                lemma_agrees_except_refl(*self, Set::empty());
            }
        }
    }

    fn is_str_key(key: &str) -> (r: bool)
        ensures
            r == str_keys(key@),
    {
        str_eq(key, "panel_title_string") || str_eq(key, "deprecated_string") || str_eq(key, "deprecated_with_reason_string") || str_eq(key, "default_string") || str_eq(key, "envvar_string") || str_eq(key, "required_short_string") || str_eq(key, "required_long_string") || str_eq(key, "range_string") || str_eq(key, "append_metavars_help_string") || str_eq(key, "append_range_help_string") || str_eq(key, "delimiter_comma") || str_eq(key, "delimiter_slash") || str_eq(key, "options_panel_title") || str_eq(key, "commands_panel_title") || str_eq(key, "arguments_panel_title") || str_eq(key, "errors_panel_title") || str_eq(key, "aborted_text") || str_eq(key, "errors_param_source_format") || str_eq(key, "prompt_string") || str_eq(key, "prompt_confirm_string") || str_eq(key, "prompt_hidden_string") || str_eq(key, "prompt_confirm_hidden_string") || str_eq(key, "panel_inline_help_delimiter")
    }

    fn set_str_field(&mut self, key: &str, x: String)
        ensures
            set_str(*old(self), *final(self), key@, x),
    {
        if str_eq(key, "panel_title_string") {
            self.set_panel_title_string(x);
        } else if str_eq(key, "deprecated_string") {
            self.set_deprecated_string(x);
        } else if str_eq(key, "deprecated_with_reason_string") {
            self.set_deprecated_with_reason_string(x);
        } else if str_eq(key, "default_string") {
            self.set_default_string(x);
        } else if str_eq(key, "envvar_string") {
            self.set_envvar_string(x);
        } else if str_eq(key, "required_short_string") {
            self.set_required_short_string(x);
        } else if str_eq(key, "required_long_string") {
            self.set_required_long_string(x);
        } else if str_eq(key, "range_string") {
            self.set_range_string(x);
        } else if str_eq(key, "append_metavars_help_string") {
            self.set_append_metavars_help_string(x);
        } else if str_eq(key, "append_range_help_string") {
            self.set_append_range_help_string(x);
        } else if str_eq(key, "delimiter_comma") {
            self.set_delimiter_comma(x);
        } else if str_eq(key, "delimiter_slash") {
            self.set_delimiter_slash(x);
        } else if str_eq(key, "options_panel_title") {
            self.set_options_panel_title(x);
        } else if str_eq(key, "commands_panel_title") {
            self.set_commands_panel_title(x);
        } else if str_eq(key, "arguments_panel_title") {
            self.set_arguments_panel_title(x);
        } else if str_eq(key, "errors_panel_title") {
            self.set_errors_panel_title(x);
        } else if str_eq(key, "aborted_text") {
            self.set_aborted_text(x);
        } else if str_eq(key, "errors_param_source_format") {
            self.set_errors_param_source_format(x);
        } else if str_eq(key, "prompt_string") {
            self.set_prompt_string(x);
        } else if str_eq(key, "prompt_confirm_string") {
            self.set_prompt_confirm_string(x);
        } else if str_eq(key, "prompt_hidden_string") {
            self.set_prompt_hidden_string(x);
        } else if str_eq(key, "prompt_confirm_hidden_string") {
            self.set_prompt_confirm_hidden_string(x);
        } else if str_eq(key, "panel_inline_help_delimiter") {
            self.set_panel_inline_help_delimiter(x);
        } else {
            proof {
                lemma_agrees_except_refl(*self, Set::empty());
            }
        }
    }

    fn is_bool_key(key: &str) -> (r: bool)
        ensures
            r == bool_keys(key@),
    {
        str_eq(key, "errors_show_param_source") || str_eq(key, "show_prompt") || str_eq(key, "style_options_table_show_lines") || str_eq(key, "style_commands_table_show_lines") || str_eq(key, "style_options_table_pad_edge") || str_eq(key, "style_commands_table_pad_edge") || str_eq(key, "style_options_table_collapse_padding") || str_eq(key, "style_commands_table_collapse_padding") || str_eq(key, "style_options_table_expand") || str_eq(key, "style_commands_table_expand") || str_eq(key, "panel_inline_help_in_title") || str_eq(key, "commands_before_options") || str_eq(key, "default_panels_first") || str_eq(key, "group_arguments_options") || str_eq(key, "use_click_short_help") || str_eq(key, "helptext_show_aliases")
    }

    fn set_bool_field(&mut self, key: &str, x: bool)
        ensures
            set_bool(*old(self), *final(self), key@, x),
    {
        if str_eq(key, "errors_show_param_source") {
            self.set_errors_show_param_source(x);
        } else if str_eq(key, "show_prompt") {
            self.set_show_prompt(x);
        } else if str_eq(key, "style_options_table_show_lines") {
            self.set_style_options_table_show_lines(x);
        } else if str_eq(key, "style_commands_table_show_lines") {
            self.set_style_commands_table_show_lines(x);
        } else if str_eq(key, "style_options_table_pad_edge") {
            self.set_style_options_table_pad_edge(x);
        } else if str_eq(key, "style_commands_table_pad_edge") {
            self.set_style_commands_table_pad_edge(x);
        } else if str_eq(key, "style_options_table_collapse_padding") {
            self.set_style_options_table_collapse_padding(x);
        } else if str_eq(key, "style_commands_table_collapse_padding") {
            self.set_style_commands_table_collapse_padding(x);
        } else if str_eq(key, "style_options_table_expand") {
            self.set_style_options_table_expand(x);
        } else if str_eq(key, "style_commands_table_expand") {
            self.set_style_commands_table_expand(x);
        } else if str_eq(key, "panel_inline_help_in_title") {
            self.set_panel_inline_help_in_title(x);
        } else if str_eq(key, "commands_before_options") {
            self.set_commands_before_options(x);
        } else if str_eq(key, "default_panels_first") {
            self.set_default_panels_first(x);
        } else if str_eq(key, "group_arguments_options") {
            self.set_group_arguments_options(x);
        } else if str_eq(key, "use_click_short_help") {
            self.set_use_click_short_help(x);
        } else if str_eq(key, "helptext_show_aliases") {
            self.set_helptext_show_aliases(x);
        } else {
            proof {
                lemma_agrees_except_refl(*self, Set::empty());
            }
        }
    }

    fn is_style_key(key: &str) -> (r: bool)
        ensures
            r == style_keys(key@),
    {
        str_eq(key, "style_option") || str_eq(key, "style_argument") || str_eq(key, "style_command") || str_eq(key, "style_command_aliases") || str_eq(key, "style_switch") || str_eq(key, "style_metavar") || str_eq(key, "style_metavar_append") || str_eq(key, "style_metavar_separator") || str_eq(key, "style_header_text") || str_eq(key, "style_epilog_text") || str_eq(key, "style_footer_text") || str_eq(key, "style_usage") || str_eq(key, "style_usage_command") || str_eq(key, "style_usage_separator") || str_eq(key, "style_deprecated") || str_eq(key, "style_helptext_first_line") || str_eq(key, "style_helptext") || str_eq(key, "style_option_help") || str_eq(key, "style_command_help") || str_eq(key, "style_option_default") || str_eq(key, "style_option_envvar") || str_eq(key, "style_required_short") || str_eq(key, "style_required_long") || str_eq(key, "style_options_panel_border") || str_eq(key, "style_commands_panel_border") || str_eq(key, "style_errors_panel_border") || str_eq(key, "style_options_panel_help_style") || str_eq(key, "style_commands_panel_help_style") || str_eq(key, "style_options_panel_title_style") || str_eq(key, "style_commands_panel_title_style") || str_eq(key, "style_options_panel_style") || str_eq(key, "style_commands_panel_style") || str_eq(key, "style_padding_usage") || str_eq(key, "style_padding_helptext") || str_eq(key, "style_padding_epilog") || str_eq(key, "style_padding_errors") || str_eq(key, "style_aborted") || str_eq(key, "style_options_table_border_style") || str_eq(key, "style_commands_table_border_style")
    }

    fn set_style_field(&mut self, key: &str, x: StyleSpec)
        ensures
            set_style(*old(self), *final(self), key@, x),
    {
        if str_eq(key, "style_option") {
            self.set_style_option(x);
        } else if str_eq(key, "style_argument") {
            self.set_style_argument(x);
        } else if str_eq(key, "style_command") {
            self.set_style_command(x);
        } else if str_eq(key, "style_command_aliases") {
            self.set_style_command_aliases(x);
        } else if str_eq(key, "style_switch") {
            self.set_style_switch(x);
        } else if str_eq(key, "style_metavar") {
            self.set_style_metavar(x);
        } else if str_eq(key, "style_metavar_append") {
            self.set_style_metavar_append(x);
        } else if str_eq(key, "style_metavar_separator") {
            self.set_style_metavar_separator(x);
        } else if str_eq(key, "style_header_text") {
            self.set_style_header_text(x);
        } else if str_eq(key, "style_epilog_text") {
            self.set_style_epilog_text(x);
        } else if str_eq(key, "style_footer_text") {
            self.set_style_footer_text(x);
        } else if str_eq(key, "style_usage") {
            self.set_style_usage(x);
        } else if str_eq(key, "style_usage_command") {
            self.set_style_usage_command(x);
        } else if str_eq(key, "style_usage_separator") {
            self.set_style_usage_separator(x);
        } else if str_eq(key, "style_deprecated") {
            self.set_style_deprecated(x);
        } else if str_eq(key, "style_helptext_first_line") {
            self.set_style_helptext_first_line(x);
        } else if str_eq(key, "style_helptext") {
            self.set_style_helptext(x);
        } else if str_eq(key, "style_option_help") {
            self.set_style_option_help(x);
        } else if str_eq(key, "style_command_help") {
            self.set_style_command_help(x);
        } else if str_eq(key, "style_option_default") {
            self.set_style_option_default(x);
        } else if str_eq(key, "style_option_envvar") {
            self.set_style_option_envvar(x);
        } else if str_eq(key, "style_required_short") {
            self.set_style_required_short(x);
        } else if str_eq(key, "style_required_long") {
            self.set_style_required_long(x);
        } else if str_eq(key, "style_options_panel_border") {
            self.set_style_options_panel_border(x);
        } else if str_eq(key, "style_commands_panel_border") {
            self.set_style_commands_panel_border(x);
        } else if str_eq(key, "style_errors_panel_border") {
            self.set_style_errors_panel_border(x);
        } else if str_eq(key, "style_options_panel_help_style") {
            self.set_style_options_panel_help_style(x);
        } else if str_eq(key, "style_commands_panel_help_style") {
            self.set_style_commands_panel_help_style(x);
        } else if str_eq(key, "style_options_panel_title_style") {
            self.set_style_options_panel_title_style(x);
        } else if str_eq(key, "style_commands_panel_title_style") {
            self.set_style_commands_panel_title_style(x);
        } else if str_eq(key, "style_options_panel_style") {
            self.set_style_options_panel_style(x);
        } else if str_eq(key, "style_commands_panel_style") {
            self.set_style_commands_panel_style(x);
        } else if str_eq(key, "style_padding_usage") {
            self.set_style_padding_usage(x);
        } else if str_eq(key, "style_padding_helptext") {
            self.set_style_padding_helptext(x);
        } else if str_eq(key, "style_padding_epilog") {
            self.set_style_padding_epilog(x);
        } else if str_eq(key, "style_padding_errors") {
            self.set_style_padding_errors(x);
        } else if str_eq(key, "style_aborted") {
            self.set_style_aborted(x);
        } else if str_eq(key, "style_options_table_border_style") {
            self.set_style_options_table_border_style(x);
        } else if str_eq(key, "style_commands_table_border_style") {
            self.set_style_commands_table_border_style(x);
        } else {
            proof {
                lemma_agrees_except_refl(*self, Set::empty());
            }
        }
    }

    fn is_opt_style_key(key: &str) -> (r: bool)
        ensures
            r == opt_style_keys(key@),
    {
        str_eq(key, "style_option_negative") || str_eq(key, "style_switch_negative") || str_eq(key, "style_range_append") || str_eq(key, "style_helptext_aliases")
    }

    fn set_opt_style_field(&mut self, key: &str, x: Option<StyleSpec>)
        ensures
            set_opt_style(*old(self), *final(self), key@, x),
    {
        if str_eq(key, "style_option_negative") {
            self.set_style_option_negative(x);
        } else if str_eq(key, "style_switch_negative") {
            self.set_style_switch_negative(x);
        } else if str_eq(key, "style_range_append") {
            self.set_style_range_append(x);
        } else if str_eq(key, "style_helptext_aliases") {
            self.set_style_helptext_aliases(x);
        } else {
            proof {
                lemma_agrees_except_refl(*self, Set::empty());
            }
        }
    }

    fn is_box_key(key: &str) -> (r: bool)
        ensures
            r == box_keys(key@),
    {
        str_eq(key, "style_options_panel_box") || str_eq(key, "style_commands_panel_box") || str_eq(key, "style_errors_panel_box") || str_eq(key, "style_options_table_box") || str_eq(key, "style_commands_table_box")
    }

    fn set_box_field(&mut self, key: &str, x: Option<BoxType>)
        ensures
            set_box(*old(self), *final(self), key@, x),
    {
        if str_eq(key, "style_options_panel_box") {
            self.set_style_options_panel_box(x);
        } else if str_eq(key, "style_commands_panel_box") {
            self.set_style_commands_panel_box(x);
        } else if str_eq(key, "style_errors_panel_box") {
            self.set_style_errors_panel_box(x);
        } else if str_eq(key, "style_options_table_box") {
            self.set_style_options_table_box(x);
        } else if str_eq(key, "style_commands_table_box") {
            self.set_style_commands_table_box(x);
        } else {
            proof {
                lemma_agrees_except_refl(*self, Set::empty());
            }
        }
    }

    fn is_ratio_key(key: &str) -> (r: bool)
        ensures
            r == ratio_keys(key@),
    {
        str_eq(key, "style_commands_table_column_width_ratio")
    }

    fn set_ratio_field(&mut self, key: &str, x: Option<(Option<usize>, Option<usize>)>)
        ensures
            set_ratio(*old(self), *final(self), key@, x),
    {
        if str_eq(key, "style_commands_table_column_width_ratio") {
            self.set_style_commands_table_column_width_ratio(x);
        } else {
            proof {
                lemma_agrees_except_refl(*self, Set::empty());
            }
        }
    }

    fn is_usize_key(key: &str) -> (r: bool)
        ensures
            r == usize_keys(key@),
    {
        str_eq(key, "style_options_table_leading") || str_eq(key, "style_commands_table_leading") || str_eq(key, "panel_title_padding")
    }

    fn set_usize_field(&mut self, key: &str, x: usize)
        ensures
            set_usize(*old(self), *final(self), key@, x),
    {
        if str_eq(key, "style_options_table_leading") {
            self.set_style_options_table_leading(x);
        } else if str_eq(key, "style_commands_table_leading") {
            self.set_style_commands_table_leading(x);
        } else if str_eq(key, "panel_title_padding") {
            self.set_panel_title_padding(x);
        } else {
            proof {
                lemma_agrees_except_refl(*self, Set::empty());
            }
        }
    }

    fn is_str_list_key(key: &str) -> (r: bool)
        ensures
            r == str_list_keys(key@),
    {
        str_eq(key, "style_options_table_row_styles") || str_eq(key, "style_commands_table_row_styles") || str_eq(key, "options_table_column_types") || str_eq(key, "commands_table_column_types") || str_eq(key, "options_table_help_sections") || str_eq(key, "commands_table_help_sections")
    }

    fn set_str_list_field(&mut self, key: &str, x: Vec<String>)
        ensures
            set_str_list(*old(self), *final(self), key@, x@),
    {
        if str_eq(key, "style_options_table_row_styles") {
            self.set_style_options_table_row_styles(x);
        } else if str_eq(key, "style_commands_table_row_styles") {
            self.set_style_commands_table_row_styles(x);
        } else if str_eq(key, "options_table_column_types") {
            self.set_options_table_column_types(x);
        } else if str_eq(key, "commands_table_column_types") {
            self.set_commands_table_column_types(x);
        } else if str_eq(key, "options_table_help_sections") {
            self.set_options_table_help_sections(x);
        } else if str_eq(key, "commands_table_help_sections") {
            self.set_commands_table_help_sections(x);
        } else {
            proof {
                lemma_agrees_except_refl(*self, Set::empty());
            }
        }
    }

    fn is_padding_key(key: &str) -> (r: bool)
        ensures
            r == padding_keys(key@),
    {
        str_eq(key, "style_options_panel_padding") || str_eq(key, "style_commands_panel_padding") || str_eq(key, "style_options_table_padding") || str_eq(key, "style_commands_table_padding") || str_eq(key, "padding_header_text") || str_eq(key, "padding_usage") || str_eq(key, "padding_helptext") || str_eq(key, "padding_helptext_deprecated") || str_eq(key, "padding_helptext_first_line") || str_eq(key, "padding_epilog") || str_eq(key, "padding_footer_text") || str_eq(key, "padding_errors_panel") || str_eq(key, "padding_errors_suggestion") || str_eq(key, "padding_errors_epilogue")
    }

    fn set_padding_field(&mut self, key: &str, x: PaddingDimensions)
        ensures
            set_padding(*old(self), *final(self), key@, x),
    {
        if str_eq(key, "style_options_panel_padding") {
            self.set_style_options_panel_padding(x);
        } else if str_eq(key, "style_commands_panel_padding") {
            self.set_style_commands_panel_padding(x);
        } else if str_eq(key, "style_options_table_padding") {
            self.set_style_options_table_padding(x);
        } else if str_eq(key, "style_commands_table_padding") {
            self.set_style_commands_table_padding(x);
        } else if str_eq(key, "padding_header_text") {
            self.set_padding_header_text(x);
        } else if str_eq(key, "padding_usage") {
            self.set_padding_usage(x);
        } else if str_eq(key, "padding_helptext") {
            self.set_padding_helptext(x);
        } else if str_eq(key, "padding_helptext_deprecated") {
            self.set_padding_helptext_deprecated(x);
        } else if str_eq(key, "padding_helptext_first_line") {
            self.set_padding_helptext_first_line(x);
        } else if str_eq(key, "padding_epilog") {
            self.set_padding_epilog(x);
        } else if str_eq(key, "padding_footer_text") {
            self.set_padding_footer_text(x);
        } else if str_eq(key, "padding_errors_panel") {
            self.set_padding_errors_panel(x);
        } else if str_eq(key, "padding_errors_suggestion") {
            self.set_padding_errors_suggestion(x);
        } else if str_eq(key, "padding_errors_epilogue") {
            self.set_padding_errors_epilogue(x);
        } else {
            proof {
                lemma_agrees_except_refl(*self, Set::empty());
            }
        }
    }

    fn is_align_key(key: &str) -> (r: bool)
        ensures
            r == align_keys(key@),
    {
        str_eq(key, "align_options_panel") || str_eq(key, "align_commands_panel") || str_eq(key, "align_errors_panel")
    }

    fn set_align_field(&mut self, key: &str, x: AlignMethod)
        ensures
            set_align(*old(self), *final(self), key@, x),
    {
        if str_eq(key, "align_options_panel") {
            self.set_align_options_panel(x);
        } else if str_eq(key, "align_commands_panel") {
            self.set_align_commands_panel(x);
        } else if str_eq(key, "align_errors_panel") {
            self.set_align_errors_panel(x);
        } else {
            proof {
                lemma_agrees_except_refl(*self, Set::empty());
            }
        }
    }

    fn is_markup_key(key: &str) -> (r: bool)
        ensures
            r == markup_keys(key@),
    {
        str_eq(key, "text_markup")
    }

    fn set_markup_field(&mut self, key: &str, x: TextMarkup)
        ensures
            set_markup(*old(self), *final(self), key@, x),
    {
        if str_eq(key, "text_markup") {
            self.set_text_markup(x);
        } else {
            proof {
                lemma_agrees_except_refl(*self, Set::empty());
            }
        }
    }

    fn is_str_some_key(key: &str) -> (r: bool)
        ensures
            r == str_some_keys(key@),
    {
        str_eq(key, "text_paragraph_linebreaks")
    }

    fn set_str_some_field(&mut self, key: &str, x: Option<String>)
        ensures
            set_str_some(*old(self), *final(self), key@, x),
    {
        if str_eq(key, "text_paragraph_linebreaks") {
            self.set_text_paragraph_linebreaks(x);
        } else {
            proof {
                lemma_agrees_except_refl(*self, Set::empty());
            }
        }
    }

    fn is_alias_key(key: &str) -> (r: bool)
        ensures
            r == alias_keys(key@),
    {
        str_eq(key, "command_aliases")
    }

    fn set_alias_field(&mut self, key: &str, x: Vec<CommandAliases>)
        ensures
            set_alias(*old(self), *final(self), key@, alias_views(x@)),
    {
        if str_eq(key, "command_aliases") {
            self.set_command_aliases(x);
        } else {
            proof {
                lemma_agrees_except_refl(*self, Set::empty());
            }
        }
    }

    fn is_groups_options_key(key: &str) -> (r: bool)
        ensures
            r == groups_options_keys(key@),
    {
        str_eq(key, "option_groups")
    }

    fn set_groups_options_field(&mut self, key: &str, x: Vec<GroupConfig>)
        ensures
            set_groups_options(*old(self), *final(self), key@, group_views(x@)),
    {
        if str_eq(key, "option_groups") {
            self.set_option_groups(x);
        } else {
            proof {
                lemma_agrees_except_refl(*self, Set::empty());
            }
        }
    }

    fn is_groups_commands_key(key: &str) -> (r: bool)
        ensures
            r == groups_commands_keys(key@),
    {
        str_eq(key, "command_groups")
    }

    fn set_groups_commands_field(&mut self, key: &str, x: Vec<GroupConfig>)
        ensures
            set_groups_commands(*old(self), *final(self), key@, group_views(x@)),
    {
        if str_eq(key, "command_groups") {
            self.set_command_groups(x);
        } else {
            proof {
                lemma_agrees_except_refl(*self, Set::empty());
            }
        }
    }

    /// Applies one configuration override: the setting named `key` takes
    /// the value `value` denotes, when it denotes one of the right kind.
    pub fn apply_override(&mut self, key: &str, value: &JsonValue)
        ensures
            overridden(*old(self), *final(self), key@, *value),
    {
        if Self::is_usize_opt_key(key) {
            self.set_usize_opt_field(key, json_as_usize(value));
        } else if Self::is_color_key(key) {
            if let Some(x) = parse_color_system_mode(value) {
                self.set_color_field(key, x);
            } else {
                proof {
                    lemma_agrees_except_refl(*self, Set::empty());
                }
            }
        } else if Self::is_bool_opt_key(key) {
            self.set_bool_opt_field(key, value.as_bool());
        } else if Self::is_str_key(key) {
            if let Some(x) = str_value(value) {
                self.set_str_field(key, x);
            } else {
                proof {
                    lemma_agrees_except_refl(*self, Set::empty());
                }
            }
        } else if Self::is_bool_key(key) {
            if let Some(x) = value.as_bool() {
                self.set_bool_field(key, x);
            } else {
                proof {
                    lemma_agrees_except_refl(*self, Set::empty());
                }
            }
        } else if Self::is_style_key(key) {
            if let Some(x) = str_value(value) {
                self.set_style_field(key, x);
            } else {
                proof {
                    lemma_agrees_except_refl(*self, Set::empty());
                }
            }
        } else if Self::is_opt_style_key(key) {
            self.set_opt_style_field(key, parse_optional_style(value));
        } else if Self::is_box_key(key) {
            self.set_box_field(key, parse_box_value(value));
        } else if Self::is_ratio_key(key) {
            if let Some(x) = some_ratio_value(value) {
                self.set_ratio_field(key, x);
            } else {
                proof {
                    lemma_agrees_except_refl(*self, Set::empty());
                }
            }
        } else if Self::is_usize_key(key) {
            if let Some(x) = u64_as_usize_value(value) {
                self.set_usize_field(key, x);
            } else {
                proof {
                    lemma_agrees_except_refl(*self, Set::empty());
                }
            }
        } else if Self::is_str_list_key(key) {
            if let Some(x) = parse_string_list(value) {
                self.set_str_list_field(key, x);
            } else {
                proof {
                    lemma_agrees_except_refl(*self, Set::empty());
                }
            }
        } else if Self::is_padding_key(key) {
            if let Some(x) = parse_padding_value(value) {
                self.set_padding_field(key, x);
            } else {
                proof {
                    lemma_agrees_except_refl(*self, Set::empty());
                }
            }
        } else if Self::is_align_key(key) {
            if let Some(x) = parse_align(value) {
                self.set_align_field(key, x);
            } else {
                proof {
                    lemma_agrees_except_refl(*self, Set::empty());
                }
            }
        } else if Self::is_markup_key(key) {
            if let Some(x) = parse_text_markup(value) {
                self.set_markup_field(key, x);
            } else {
                proof {
                    lemma_agrees_except_refl(*self, Set::empty());
                }
            }
        } else if Self::is_str_some_key(key) {
            if let Some(x) = some_str_value(value) {
                self.set_str_some_field(key, x);
            } else {
                proof {
                    lemma_agrees_except_refl(*self, Set::empty());
                }
            }
        } else if Self::is_alias_key(key) {
            if let Some(x) = parse_alias_map(value) {
                self.set_alias_field(key, x);
            } else {
                proof {
                    lemma_agrees_except_refl(*self, Set::empty());
                }
            }
        } else if Self::is_groups_options_key(key) {
            if let Some(x) = parse_group_list(value, "options") {
                self.set_groups_options_field(key, x);
            } else {
                proof {
                    lemma_agrees_except_refl(*self, Set::empty());
                }
            }
        } else if Self::is_groups_commands_key(key) {
            if let Some(x) = parse_group_list(value, "commands") {
                self.set_groups_commands_field(key, x);
            } else {
                proof {
                    lemma_agrees_except_refl(*self, Set::empty());
                }
            }
        } else {
            proof {
                lemma_agrees_except_refl(*self, Set::empty());
            }
        }
    }
}

// ---------------------------------------------------------------------------
// Reading setting values out of JSON.
// ---------------------------------------------------------------------------

pub open spec fn json_usize(v: JsonValue) -> Option<usize> {
    match v.spec_as_u64() {
        Some(n) => Some(n as usize),
        None => None,
    }
}

pub open spec fn color_mode_spec(v: JsonValue) -> Option<ColorSystemMode> {
    match v.spec_as_str() {
        Some(s) => if s@ == "auto"@ {
            Some(ColorSystemMode::Auto)
        } else if s@ == "standard"@ {
            Some(ColorSystemMode::Standard)
        } else if s@ == "256"@ {
            Some(ColorSystemMode::EightBit)
        } else if s@ == "truecolor"@ {
            Some(ColorSystemMode::TrueColor)
        } else if s@ == "windows"@ {
            Some(ColorSystemMode::Windows)
        } else if s@ == "none"@ {
            Some(ColorSystemMode::NoColor)
        } else {
            None
        },
        None => None,
    }
}

fn parse_color_system_mode(value: &JsonValue) -> (r: Option<ColorSystemMode>)
    ensures
        r == color_mode_spec(*value),
{
    match value.as_str() {
        Some(s) => {
            let s = s.as_str();
            if str_eq(s, "auto") {
                Some(ColorSystemMode::Auto)
            } else if str_eq(s, "standard") {
                Some(ColorSystemMode::Standard)
            } else if str_eq(s, "256") {
                Some(ColorSystemMode::EightBit)
            } else if str_eq(s, "truecolor") {
                Some(ColorSystemMode::TrueColor)
            } else if str_eq(s, "windows") {
                Some(ColorSystemMode::Windows)
            } else if str_eq(s, "none") {
                Some(ColorSystemMode::NoColor)
            } else {
                None
            }
        },
        None => None,
    }
}

pub open spec fn text_markup_spec(v: JsonValue) -> Option<TextMarkup> {
    match v.spec_as_str() {
        Some(s) => if s@ == "ansi"@ {
            Some(TextMarkup::Ansi)
        } else if s@ == "rich"@ {
            Some(TextMarkup::Rich)
        } else if s@ == "markdown"@ {
            Some(TextMarkup::Markdown)
        } else if s@ == "none"@ {
            Some(TextMarkup::NoMarkup)
        } else {
            None
        },
        None => None,
    }
}

fn parse_text_markup(value: &JsonValue) -> (r: Option<TextMarkup>)
    ensures
        r == text_markup_spec(*value),
{
    match value.as_str() {
        Some(s) => {
            let s = s.as_str();
            if str_eq(s, "ansi") {
                Some(TextMarkup::Ansi)
            } else if str_eq(s, "rich") {
                Some(TextMarkup::Rich)
            } else if str_eq(s, "markdown") {
                Some(TextMarkup::Markdown)
            } else if str_eq(s, "none") {
                Some(TextMarkup::NoMarkup)
            } else {
                None
            }
        },
        None => None,
    }
}

pub open spec fn align_spec(v: JsonValue) -> Option<AlignMethod> {
    match v.spec_as_str() {
        Some(s) => if s@ == "left"@ || s@ == "Left"@ || s@ == "LEFT"@ {
            Some(AlignMethod::Left)
        } else if s@ == "center"@ || s@ == "Center"@ || s@ == "CENTER"@ {
            Some(AlignMethod::Center)
        } else if s@ == "right"@ || s@ == "Right"@ || s@ == "RIGHT"@ {
            Some(AlignMethod::Right)
        } else {
            None
        },
        None => None,
    }
}

fn parse_align(value: &JsonValue) -> (r: Option<AlignMethod>)
    ensures
        r == align_spec(*value),
{
    match value.as_str() {
        Some(s) => {
            let s = s.as_str();
            if str_eq(s, "left") || str_eq(s, "Left") || str_eq(s, "LEFT") {
                Some(AlignMethod::Left)
            } else if str_eq(s, "center") || str_eq(s, "Center") || str_eq(s, "CENTER") {
                Some(AlignMethod::Center)
            } else if str_eq(s, "right") || str_eq(s, "Right") || str_eq(s, "RIGHT") {
                Some(AlignMethod::Right)
            } else {
                None
            }
        },
        None => None,
    }
}

/// A style or its absence: `null` and non-strings give `None`.
pub open spec fn optional_style_spec(v: JsonValue) -> Option<StyleSpec> {
    if v is Null {
        None
    } else {
        v.spec_as_str()
    }
}

fn parse_optional_style(value: &JsonValue) -> (r: Option<StyleSpec>)
    ensures
        r == optional_style_spec(*value),
{
    if value.is_null() {
        return None;
    }
    match value.as_str() {
        Some(s) => Some(s.clone()),
        None => None,
    }
}

/// The box drawing of a given upper-case name.
pub open spec fn box_named(u: Seq<char>) -> Option<BoxType> {
    if u == "ASCII"@ {
        Some(BoxType::Ascii)
    } else if u == "ASCII2"@ {
        Some(BoxType::Ascii2)
    } else if u == "ASCII_DOUBLE_HEAD"@ {
        Some(BoxType::AsciiDoubleHead)
    } else if u == "SQUARE"@ {
        Some(BoxType::Square)
    } else if u == "SQUARE_DOUBLE_HEAD"@ {
        Some(BoxType::SquareDoubleHead)
    } else if u == "MINIMAL"@ {
        Some(BoxType::Minimal)
    } else if u == "MINIMAL_HEAVY_HEAD"@ {
        Some(BoxType::MinimalHeavyHead)
    } else if u == "MINIMAL_DOUBLE_HEAD"@ {
        Some(BoxType::MinimalDoubleHead)
    } else if u == "SIMPLE"@ {
        Some(BoxType::Simple)
    } else if u == "SIMPLE_HEAD"@ {
        Some(BoxType::SimpleHead)
    } else if u == "SIMPLE_HEAVY"@ {
        Some(BoxType::SimpleHeavy)
    } else if u == "HORIZONTALS"@ {
        Some(BoxType::Horizontals)
    } else if u == "HORIZONTALS_DOUBLE_TOP"@ {
        Some(BoxType::Horizontals)
    } else if u == "ROUNDED"@ {
        Some(BoxType::Rounded)
    } else if u == "HEAVY"@ {
        Some(BoxType::Heavy)
    } else if u == "HEAVY_EDGE"@ {
        Some(BoxType::HeavyEdge)
    } else if u == "HEAVY_HEAD"@ {
        Some(BoxType::HeavyHead)
    } else if u == "DOUBLE"@ {
        Some(BoxType::Double)
    } else if u == "DOUBLE_EDGE"@ {
        Some(BoxType::DoubleEdge)
    } else if u == "MARKDOWN"@ {
        Some(BoxType::Markdown)
    } else {
        None
    }
}

fn box_by_name(u: &str) -> (r: Option<BoxType>)
    ensures
        r == box_named(u@),
{
    if str_eq(u, "ASCII") {
        Some(BoxType::Ascii)
    } else if str_eq(u, "ASCII2") {
        Some(BoxType::Ascii2)
    } else if str_eq(u, "ASCII_DOUBLE_HEAD") {
        Some(BoxType::AsciiDoubleHead)
    } else if str_eq(u, "SQUARE") {
        Some(BoxType::Square)
    } else if str_eq(u, "SQUARE_DOUBLE_HEAD") {
        Some(BoxType::SquareDoubleHead)
    } else if str_eq(u, "MINIMAL") {
        Some(BoxType::Minimal)
    } else if str_eq(u, "MINIMAL_HEAVY_HEAD") {
        Some(BoxType::MinimalHeavyHead)
    } else if str_eq(u, "MINIMAL_DOUBLE_HEAD") {
        Some(BoxType::MinimalDoubleHead)
    } else if str_eq(u, "SIMPLE") {
        Some(BoxType::Simple)
    } else if str_eq(u, "SIMPLE_HEAD") {
        Some(BoxType::SimpleHead)
    } else if str_eq(u, "SIMPLE_HEAVY") {
        Some(BoxType::SimpleHeavy)
    } else if str_eq(u, "HORIZONTALS") {
        Some(BoxType::Horizontals)
    } else if str_eq(u, "HORIZONTALS_DOUBLE_TOP") {
        Some(BoxType::Horizontals)
    } else if str_eq(u, "ROUNDED") {
        Some(BoxType::Rounded)
    } else if str_eq(u, "HEAVY") {
        Some(BoxType::Heavy)
    } else if str_eq(u, "HEAVY_EDGE") {
        Some(BoxType::HeavyEdge)
    } else if str_eq(u, "HEAVY_HEAD") {
        Some(BoxType::HeavyHead)
    } else if str_eq(u, "DOUBLE") {
        Some(BoxType::Double)
    } else if str_eq(u, "DOUBLE_EDGE") {
        Some(BoxType::DoubleEdge)
    } else if str_eq(u, "MARKDOWN") {
        Some(BoxType::Markdown)
    } else {
        None
    }
}

/// A box drawing named case-insensitively; `null`, `"blank"`, `"none"`,
/// non-strings and unknown names give `None`.
pub open spec fn box_value_spec(v: JsonValue) -> Option<BoxType> {
    if v is Null {
        None
    } else {
        match v.spec_as_str() {
            Some(s) => {
                let u = upper_spec(s@);
                if u == "BLANK"@ || u == "NONE"@ {
                    None
                } else {
                    box_named(u)
                }
            },
            None => None,
        }
    }
}

fn parse_box_value(value: &JsonValue) -> (r: Option<BoxType>)
    ensures
        r == box_value_spec(*value),
{
    if value.is_null() {
        return None;
    }
    match value.as_str() {
        Some(s) => {
            let u = to_upper(s.as_str());
            if str_eq(u.as_str(), "BLANK") || str_eq(u.as_str(), "NONE") {
                None
            } else {
                box_by_name(u.as_str())
            }
        },
        None => None,
    }
}

/// A pair of optional column ratios, read from a two-item array.
pub open spec fn ratio_pair_spec(v: JsonValue) -> Option<(Option<usize>, Option<usize>)> {
    match v {
        JsonValue::Array(items) => if items@.len() == 2 {
            Some((json_usize(items@[0]), json_usize(items@[1])))
        } else {
            None
        },
        _ => None,
    }
}

fn json_as_usize(v: &JsonValue) -> (r: Option<usize>)
    ensures
        r == json_usize(*v),
{
    match v.as_u64() {
        Some(n) => Some(n as usize),
        None => None,
    }
}

fn str_value(value: &JsonValue) -> (r: Option<String>)
    ensures
        r == value.spec_as_str(),
{
    match value.as_str() {
        Some(s) => Some(s.clone()),
        None => None,
    }
}

pub open spec fn some_str(v: JsonValue) -> Option<Option<String>> {
    match v.spec_as_str() {
        Some(s) => Some(Some(s)),
        None => None,
    }
}

fn some_str_value(value: &JsonValue) -> (r: Option<Option<String>>)
    ensures
        r == some_str(*value),
{
    match value.as_str() {
        Some(s) => Some(Some(s.clone())),
        None => None,
    }
}

pub open spec fn u64_as_usize(v: JsonValue) -> Option<usize> {
    json_usize(v)
}

fn u64_as_usize_value(value: &JsonValue) -> (r: Option<usize>)
    ensures
        r == u64_as_usize(*value),
{
    json_as_usize(value)
}

pub open spec fn some_ratio(v: JsonValue) -> Option<Option<(Option<usize>, Option<usize>)>> {
    match ratio_pair_spec(v) {
        Some(p) => Some(Some(p)),
        None => None,
    }
}

fn some_ratio_value(value: &JsonValue) -> (r: Option<Option<(Option<usize>, Option<usize>)>>)
    ensures
        r == some_ratio(*value),
{
    match parse_ratio_pair(value) {
        Some(p) => Some(Some(p)),
        None => None,
    }
}

fn parse_ratio_pair(value: &JsonValue) -> (r: Option<(Option<usize>, Option<usize>)>)
    ensures
        r == ratio_pair_spec(*value),
{
    match value {
        JsonValue::Array(items) => {
            if items.len() != 2 {
                return None;
            }
            Some((json_as_usize(&items[0]), json_as_usize(&items[1])))
        },
        _ => None,
    }
}

/// Padding read from a number or from an array of one, two or four numbers.
pub open spec fn padding_value_spec(v: JsonValue) -> Option<PaddingDimensions> {
    match v.spec_as_u64() {
        Some(n) => Some(PaddingDimensions::All(n as usize)),
        None => match v {
            JsonValue::Array(items) => {
                let l = items@;
                if l.len() == 1 {
                    match l[0].spec_as_u64() {
                        Some(a) => Some(PaddingDimensions::All(a as usize)),
                        None => None,
                    }
                } else if l.len() == 2 {
                    match (l[0].spec_as_u64(), l[1].spec_as_u64()) {
                        (Some(a), Some(b)) => Some(PaddingDimensions::TwoWay(a as usize, b as usize)),
                        _ => None,
                    }
                } else if l.len() == 4 {
                    match (l[0].spec_as_u64(), l[1].spec_as_u64(), l[2].spec_as_u64(), l[3].spec_as_u64()) {
                        (Some(a), Some(b), Some(c), Some(d)) => Some(
                            PaddingDimensions::FourWay(a as usize, b as usize, c as usize, d as usize),
                        ),
                        _ => None,
                    }
                } else {
                    None
                }
            },
            _ => None,
        },
    }
}

fn parse_padding_value(value: &JsonValue) -> (r: Option<PaddingDimensions>)
    ensures
        r == padding_value_spec(*value),
{
    if let Some(n) = value.as_u64() {
        return Some(PaddingDimensions::All(n as usize));
    }
    match value {
        JsonValue::Array(l) => {
            if l.len() == 1 {
                match l[0].as_u64() {
                    Some(a) => Some(PaddingDimensions::All(a as usize)),
                    None => None,
                }
            } else if l.len() == 2 {
                match (l[0].as_u64(), l[1].as_u64()) {
                    (Some(a), Some(b)) => Some(PaddingDimensions::TwoWay(a as usize, b as usize)),
                    _ => None,
                }
            } else if l.len() == 4 {
                match (l[0].as_u64(), l[1].as_u64(), l[2].as_u64(), l[3].as_u64()) {
                    (Some(a), Some(b), Some(c), Some(d)) => Some(
                        PaddingDimensions::FourWay(a as usize, b as usize, c as usize, d as usize),
                    ),
                    _ => None,
                }
            } else {
                None
            }
        },
        _ => None,
    }
}

/// The aliases an object of string lists gives, entry by entry; entries whose
/// value is not an array are skipped.
pub open spec fn alias_entries(entries: Seq<(String, JsonValue)>) -> Seq<(Seq<char>, Seq<Seq<char>>)>
    decreases entries.len(),
{
    if entries.len() == 0 {
        Seq::empty()
    } else {
        let rest = alias_entries(entries.drop_last());
        match string_list_spec(entries.last().1) {
            Some(l) => rest.push((entries.last().0@, views(l))),
            None => rest,
        }
    }
}

pub open spec fn alias_map_spec(v: JsonValue) -> Option<Seq<(Seq<char>, Seq<Seq<char>>)>> {
    match v {
        JsonValue::Object(entries) => Some(alias_entries(entries@)),
        _ => None,
    }
}

fn parse_alias_map(value: &JsonValue) -> (r: Option<Vec<CommandAliases>>)
    ensures
        match r {
            Some(m) => alias_map_spec(*value) == Some(alias_views(m@)),
            None => alias_map_spec(*value) is None,
        },
{
    match value {
        JsonValue::Object(entries) => {
            let mut out: Vec<CommandAliases> = Vec::new();
            let mut i: usize = 0;
            while i < entries.len()
                invariant
                    i <= entries@.len(),
                    alias_views(out@) == alias_entries(entries@.take(i as int)),
                decreases entries.len() - i,
            {
                assert(entries@.take(i + 1).drop_last() =~= entries@.take(i as int));
                let ghost before = out@;
                if let Some(list) = parse_string_list(&entries[i].1) {
                    out.push(CommandAliases { name: entries[i].0.clone(), aliases: list });
                    assert(alias_views(out@) =~= alias_views(before).push(
                        (entries@[i as int].0@, views(out@.last().aliases@)),
                    ));
                }
                i = i + 1;
            }
            assert(entries@.take(i as int) =~= entries@);
            Some(out)
        },
        _ => None,
    }
}

pub open spec fn str_of(v: Option<JsonValue>) -> Option<Seq<char>> {
    match v {
        Some(x) => opt_view(x.spec_as_str()),
        None => None,
    }
}

pub open spec fn bool_of(v: Option<JsonValue>) -> Option<bool> {
    match v {
        Some(x) => x.spec_as_bool(),
        None => None,
    }
}

pub open spec fn list_of(v: Option<JsonValue>) -> Option<Seq<String>> {
    match v {
        Some(x) => string_list_spec(x),
        None => None,
    }
}

/// The group an object describes; `None` when the item is not an object.
pub open spec fn group_of(item: JsonValue, key: Seq<char>) -> Option<GroupView> {
    match item {
        JsonValue::Object(_) => Some(
            (
                match str_of(item.spec_get("name"@)) {
                    Some(n) => n,
                    None => "Group"@,
                },
                match list_of(item.spec_get(key)) {
                    Some(l) => views(l),
                    None => match list_of(item.spec_get("items"@)) {
                        Some(l) => views(l),
                        None => Seq::empty(),
                    },
                },
                str_of(item.spec_get("help"@)),
                bool_of(item.spec_get("inline_help_in_title"@)),
                str_of(item.spec_get("title_style"@)),
                str_of(item.spec_get("help_style"@)),
            ),
        ),
        _ => None,
    }
}

pub open spec fn groups_of(items: Seq<JsonValue>, key: Seq<char>) -> Option<Seq<GroupView>>
    decreases items.len(),
{
    if items.len() == 0 {
        Some(Seq::empty())
    } else {
        match (groups_of(items.drop_last(), key), group_of(items.last(), key)) {
            (Some(r), Some(g)) => Some(r.push(g)),
            _ => None,
        }
    }
}

/// The groups an array of objects describes; `None` unless every item is an
/// object.
pub open spec fn group_list_spec(v: JsonValue, key: Seq<char>) -> Option<Seq<GroupView>> {
    match v {
        JsonValue::Array(items) => groups_of(items@, key),
        _ => None,
    }
}

fn get_str(item: &JsonValue, key: &str) -> (r: Option<String>)
    ensures
        opt_view(r) == str_of(item.spec_get(key@)),
{
    match item.get(key) {
        Some(v) => match v.as_str() {
            Some(s) => Some(s.clone()),
            None => None,
        },
        None => None,
    }
}

fn get_list(item: &JsonValue, key: &str) -> (r: Option<Vec<String>>)
    ensures
        match r {
            Some(l) => list_of(item.spec_get(key@)) == Some(l@),
            None => list_of(item.spec_get(key@)) is None,
        },
{
    match item.get(key) {
        Some(v) => parse_string_list(v),
        None => None,
    }
}

fn parse_group(item: &JsonValue, key: &str) -> (r: Option<GroupConfig>)
    ensures
        match r {
            Some(g) => group_of(*item, key@) == Some(group_view(g)),
            None => group_of(*item, key@) is None,
        },
{
    match item {
        JsonValue::Object(_) => {
            let name = match get_str(item, "name") {
                Some(n) => n,
                None => copy_str("Group"),
            };
            let items = match get_list(item, key) {
                Some(l) => l,
                None => match get_list(item, "items") {
                    Some(l) => l,
                    None => Vec::new(),
                },
            };
            let help = get_str(item, "help");
            let inline_help_in_title = match item.get("inline_help_in_title") {
                Some(v) => v.as_bool(),
                None => None,
            };
            let title_style = get_str(item, "title_style");
            let help_style = get_str(item, "help_style");
            let g = GroupConfig { name, items, help, inline_help_in_title, title_style, help_style };
            assert(group_view(g).1 =~= match list_of(item.spec_get(key@)) {
                Some(l) => views(l),
                None => match list_of(item.spec_get("items"@)) {
                    Some(l) => views(l),
                    None => Seq::empty(),
                },
            });
            Some(g)
        },
        _ => None,
    }
}

fn parse_group_list(value: &JsonValue, key: &str) -> (r: Option<Vec<GroupConfig>>)
    ensures
        match r {
            Some(g) => group_list_spec(*value, key@) == Some(group_views(g@)),
            None => group_list_spec(*value, key@) is None,
        },
{
    match value {
        JsonValue::Array(items) => {
            let mut out: Vec<GroupConfig> = Vec::new();
            let mut i: usize = 0;
            while i < items.len()
                invariant
                    i <= items@.len(),
                    group_list_spec(*value, key@) == groups_of(items@, key@),
                    groups_of(items@.take(i as int), key@) == Some(group_views(out@)),
                decreases items.len() - i,
            {
                assert(items@.take(i + 1).drop_last() =~= items@.take(i as int));
                match parse_group(&items[i], key) {
                    Some(g) => {
                        let ghost before = out@;
                        out.push(g);
                        assert(group_views(out@) =~= group_views(before).push(group_view(g)));
                    },
                    None => {
                        proof {
                            lemma_groups_of_none(items@, key@, i as int);
                        }
                        return None;
                    },
                }
                i = i + 1;
            }
            assert(items@.take(i as int) =~= items@);
            Some(out)
        },
        _ => None,
    }
}

proof fn lemma_groups_of_none(items: Seq<JsonValue>, key: Seq<char>, i: int)
    requires
        0 <= i < items.len(),
        group_of(items[i], key) is None,
    ensures
        groups_of(items, key) is None,
    decreases items.len(),
{
    if i < items.len() - 1 {
        lemma_groups_of_none(items.drop_last(), key, i);
    }
}

// ---------------------------------------------------------------------------
// Keeping the panel and table settings in step with the style fields.
// ---------------------------------------------------------------------------

pub open spec fn box_or_rounded(b: Option<BoxType>) -> BoxType {
    match b {
        Some(x) => x,
        None => BoxType::Rounded,
    }
}

/// The options panel the style fields of `c` describe.
pub open spec fn options_panel_of(c: RichHelpConfig) -> PanelConfig {
    PanelConfig {
        box_type: box_or_rounded(c.style_options_panel_box),
        border_style: c.style_options_panel_border,
        title_style: c.style_options_panel_title_style,
        panel_style: c.style_options_panel_style,
        padding: c.style_options_panel_padding,
        align: c.align_options_panel,
        expand: true,
    }
}

/// The commands panel the style fields of `c` describe.
pub open spec fn commands_panel_of(c: RichHelpConfig) -> PanelConfig {
    PanelConfig {
        box_type: box_or_rounded(c.style_commands_panel_box),
        border_style: c.style_commands_panel_border,
        title_style: c.style_commands_panel_title_style,
        panel_style: c.style_commands_panel_style,
        padding: c.style_commands_panel_padding,
        align: c.align_commands_panel,
        expand: true,
    }
}

/// The options table that the options table style fields of `c` describe,
/// its row styles included.
pub open spec fn options_table_of(c: RichHelpConfig) -> TableConfig {
    TableConfig {
        show_lines: c.style_options_table_show_lines,
        leading: c.style_options_table_leading,
        pad_edge: c.style_options_table_pad_edge,
        padding: (c.style_options_table_padding.spec_unpack().3, c.style_options_table_padding.spec_unpack().1),
        collapse_padding: c.style_options_table_collapse_padding,
        expand: c.style_options_table_expand,
        box_type: c.style_options_table_box,
        row_styles: c.style_options_table_row_styles,
        border_style: c.style_options_table_border_style,
    }
}

/// The commands table that the commands table style fields of `c` describe,
/// its row styles included.
pub open spec fn commands_table_of(c: RichHelpConfig) -> TableConfig {
    TableConfig {
        show_lines: c.style_commands_table_show_lines,
        leading: c.style_commands_table_leading,
        pad_edge: c.style_commands_table_pad_edge,
        padding: (c.style_commands_table_padding.spec_unpack().3, c.style_commands_table_padding.spec_unpack().1),
        collapse_padding: c.style_commands_table_collapse_padding,
        expand: c.style_commands_table_expand,
        box_type: c.style_commands_table_box,
        row_styles: c.style_commands_table_row_styles,
        border_style: c.style_commands_table_border_style,
    }
}

/// The emoji setting after synchronisation: an unset one follows the markup.
pub open spec fn emojis_of(c: RichHelpConfig) -> Option<bool> {
    match c.text_emojis {
        Some(b) => Some(b),
        None => Some(c.text_markup == TextMarkup::Markdown || c.text_markup == TextMarkup::Rich),
    }
}

/// `new` is `old` with its panel and table settings rebuilt from its style
/// fields, the argument panel and table copied from the option ones.
pub open spec fn synced(old: RichHelpConfig, new: RichHelpConfig) -> bool {
    &&& new.text_emojis == emojis_of(old)
    &&& new.panel_options == options_panel_of(old)
    &&& new.panel_commands == commands_panel_of(old)
    &&& new.panel_arguments == options_panel_of(old)
    &&& new.table_options.same_as(&options_table_of(old))
    &&& new.table_commands.same_as(&commands_table_of(old))
    &&& new.table_arguments.same_as(&new.table_options)
    &&& agrees_except(old, new, sync_fields())
}

/// Synchronising the render settings establishes that they agree with the
/// style fields.
pub proof fn lemma_synced_is_synced(old: RichHelpConfig, new: RichHelpConfig)
    requires
        synced(old, new),
    ensures
        new.is_synced(),
{
    reveal(agrees_except);
}

impl RichHelpConfig {
    /// The panel and table settings agree with the style fields.
    pub open spec fn is_synced(&self) -> bool {
        &&& self.text_emojis is Some
        &&& self.panel_options == options_panel_of(*self)
        &&& self.panel_commands == commands_panel_of(*self)
        &&& self.panel_arguments == options_panel_of(*self)
        &&& self.table_options.same_as(&options_table_of(*self))
        &&& self.table_commands.same_as(&commands_table_of(*self))
        &&& self.table_arguments.same_as(&self.table_options)
    }

    /// The configuration `RichHelpConfig::default()` gives.
    pub open spec fn is_default(&self) -> bool {
        &&& self.base_values()
        &&& self.default_box_values()
        &&& self.is_synced()
        &&& self.text_emojis == Some(false)
    }

    /// The options panel its style fields describe.
    fn options_panel(&self) -> (r: PanelConfig)
        ensures
            r == options_panel_of(*self),
    {
        PanelConfig {
            box_type: match self.style_options_panel_box {
                Some(b) => b,
                None => BoxType::Rounded,
            },
            border_style: self.style_options_panel_border.clone(),
            title_style: self.style_options_panel_title_style.clone(),
            panel_style: self.style_options_panel_style.clone(),
            padding: self.style_options_panel_padding,
            align: self.align_options_panel,
            expand: true,
        }
    }

    /// The commands panel its style fields describe.
    fn commands_panel(&self) -> (r: PanelConfig)
        ensures
            r == commands_panel_of(*self),
    {
        PanelConfig {
            box_type: match self.style_commands_panel_box {
                Some(b) => b,
                None => BoxType::Rounded,
            },
            border_style: self.style_commands_panel_border.clone(),
            title_style: self.style_commands_panel_title_style.clone(),
            panel_style: self.style_commands_panel_style.clone(),
            padding: self.style_commands_panel_padding,
            align: self.align_commands_panel,
            expand: true,
        }
    }

    /// The options table its style fields describe.
    fn options_table(&self) -> (r: TableConfig)
        ensures
            r.same_as(&options_table_of(*self)),
    {
        let padding = self.style_options_table_padding.unpack();
        TableConfig {
            show_lines: self.style_options_table_show_lines,
            leading: self.style_options_table_leading,
            pad_edge: self.style_options_table_pad_edge,
            padding: (padding.3, padding.1),
            collapse_padding: self.style_options_table_collapse_padding,
            expand: self.style_options_table_expand,
            box_type: self.style_options_table_box,
            row_styles: copy_strings(&self.style_options_table_row_styles),
            border_style: self.style_options_table_border_style.clone(),
        }
    }

    /// The commands table its style fields describe.
    fn commands_table(&self) -> (r: TableConfig)
        ensures
            r.same_as(&commands_table_of(*self)),
    {
        let padding = self.style_commands_table_padding.unpack();
        TableConfig {
            show_lines: self.style_commands_table_show_lines,
            leading: self.style_commands_table_leading,
            pad_edge: self.style_commands_table_pad_edge,
            padding: (padding.3, padding.1),
            collapse_padding: self.style_commands_table_collapse_padding,
            expand: self.style_commands_table_expand,
            box_type: self.style_commands_table_box,
            row_styles: copy_strings(&self.style_commands_table_row_styles),
            border_style: self.style_commands_table_border_style.clone(),
        }
    }

    /// Stores the render settings, leaving every other field as it is.
    fn store_render_settings(
        &mut self,
        emojis: Option<bool>,
        panel_options: PanelConfig,
        panel_commands: PanelConfig,
        panel_arguments: PanelConfig,
        table_options: TableConfig,
        table_commands: TableConfig,
        table_arguments: TableConfig,
    )
        ensures
            final(self).text_emojis == emojis,
            final(self).panel_options == panel_options,
            final(self).panel_commands == panel_commands,
            final(self).panel_arguments == panel_arguments,
            final(self).table_options == table_options,
            final(self).table_commands == table_commands,
            final(self).table_arguments == table_arguments,
            agrees_except(*old(self), *final(self), sync_fields()),
    {
        self.text_emojis = emojis;
        self.panel_options = panel_options;
        self.panel_commands = panel_commands;
        self.panel_arguments = panel_arguments;
        self.table_options = table_options;
        self.table_commands = table_commands;
        self.table_arguments = table_arguments;
        proof {
            reveal(agrees_except);
        }
    }

    /// Rebuilds the panel and table settings from the style fields.
    pub fn sync_render_config(&mut self)
        ensures
            synced(*old(self), *final(self)),
    {
        let emojis = match self.text_emojis {
            Some(b) => Some(b),
            None => Some(self.text_markup == TextMarkup::Markdown || self.text_markup == TextMarkup::Rich),
        };
        let panel_options = self.options_panel();
        let panel_commands = self.commands_panel();
        let panel_arguments = panel_options.copy();
        let table_options = self.options_table();
        let table_commands = self.commands_table();
        let table_arguments = table_options.copy();
        self.store_render_settings(
            emojis,
            panel_options,
            panel_commands,
            panel_arguments,
            table_options,
            table_commands,
            table_arguments,
        );
    }

    /// Applies the theme named `theme` and resynchronises the render settings;
    /// an unknown name leaves the configuration unchanged.
    pub fn apply_theme_name(&mut self, theme: &str) -> (r: Result<(), ThemeError>)
        ensures
            theme_applied(*old(self), *final(self), theme@),
            r is Ok <==> theme_known(theme@),
            match r {
                Ok(_) => true,
                Err(e) => e.message@ == unknown_theme_message(theme@),
            },
    {
        let ghost before = *self;
        let result = apply_theme(self, theme);
        proof {
            lemma_agrees_except_refl(*self, Set::empty());
        }
        if result.is_ok() {
            let ghost mid = *self;
            self.sync_render_config();
            proof {
                lemma_theme_then_sync(before, mid, *self, theme@);
            }
        }
        result
    }

    /// Applies the overrides of a JSON object: first its `"theme"` entry, when
    /// it is a string, then every other entry in order.
    pub fn apply_json_overrides(&mut self, value: &JsonValue)
        ensures
            json_overrides_applied(*old(self), *final(self), *value),
    {
        let ghost start = *self;
        proof {
            lemma_agrees_except_refl(*self, Set::empty());
        }
        if let Some(theme_value) = value.get("theme") {
            if let Some(theme) = theme_value.as_str() {
                let ghost before = *self;
                self.set_theme(Some(theme.clone()));
                let ghost named = *self;
                let _ = self.apply_theme_name(theme.as_str());
                assert(theme_applied(named, *self, theme@));
                assert(str_of(value.spec_get("theme"@)) == Some(theme@));
                assert(opt_view(named.theme) == Some(theme@));
                proof {
                    lemma_theme_step(before, named, *self, *value, theme@);
                }
            }
        }
        let ghost after_theme = *self;
        assert(theme_step(start, after_theme, *value));
        if let JsonValue::Object(entries) = value {
            let mut i: usize = 0;
            proof {
                lemma_agrees_except_refl(*self, Set::empty());
            }
            assert(entries_applied(after_theme, *self, entries@.take(0)));
            while i < entries.len()
                invariant
                    i <= entries@.len(),
                    entries_applied(after_theme, *self, entries@.take(i as int)),
                decreases entries.len() - i,
            {
                let ghost before = *self;
                if !str_eq(entries[i].0.as_str(), "theme") {
                    self.apply_override(entries[i].0.as_str(), &entries[i].1);
                } else {
                    proof {
                        lemma_agrees_except_refl(*self, Set::empty());
                    }
                }
                assert(entries@.take(i + 1).drop_last() =~= entries@.take(i as int));
                assert(entries@.take(i + 1).last() == entries@[i as int]);
                assert(entry_step(before, *self, entries@[i as int]));
                proof {
                    lemma_entries_step(after_theme, before, *self, entries@.take(i + 1));
                }
                i = i + 1;
            }
            assert(entries@.take(i as int) =~= entries@);
        } else {
            proof {
                lemma_agrees_except_refl(*self, Set::empty());
            }
        }
        assert(theme_step(start, after_theme, *value));
        assert(stage(after_theme));
    }
}

/// Marks a configuration that a chain of updates passes through: the trigger
/// of the quantifiers that name one.
pub open spec fn stage(c: RichHelpConfig) -> bool {
    true
}

/// `new` is `old` with the theme fields set as the theme `name` sets them.
pub open spec fn themed(old: RichHelpConfig, new: RichHelpConfig, name: Seq<char>) -> bool {
    theme_values(new, name) && agrees_except(old, new, default_box_fields())
}

/// Setting the theme fields and then synchronising the render settings
/// gives a configuration with the theme values whose render settings agree
/// with its style fields.
pub proof fn lemma_theme_then_sync(old: RichHelpConfig, mid: RichHelpConfig, new: RichHelpConfig, name: Seq<char>)
    requires
        themed(old, mid, name),
        synced(mid, new),
    ensures
        theme_values(new, name),
        agrees_except(old, new, default_box_fields().union(sync_fields())),
        new.text_emojis == emojis_of(old),
        new.is_synced(),
{
    reveal(agrees_except);
}

pub open spec fn unknown_theme_message(name: Seq<char>) -> Seq<char> {
    "unknown theme '"@ + name + "'"@
}

/// What applying the theme named `name` does to a configuration.
pub open spec fn theme_applied(old: RichHelpConfig, new: RichHelpConfig, name: Seq<char>) -> bool {
    if theme_known(name) {
        &&& theme_values(new, name)
        &&& agrees_except(old, new, default_box_fields().union(sync_fields()))
        &&& new.text_emojis == emojis_of(old)
        &&& new.is_synced()
    } else {
        unchanged(old, new)
    }
}

/// The `"theme"` entry of an override object: a string value names the theme
/// to record and apply.
pub open spec fn theme_step(old: RichHelpConfig, new: RichHelpConfig, v: JsonValue) -> bool {
    match str_of(v.spec_get("theme"@)) {
        Some(name) => exists|named: RichHelpConfig| #![trigger stage(named)] theme_applied(named, new, name)
            && opt_view(named.theme) == Some(name) && agrees_except(old, named, set![ConfigField::Theme]),
        None => unchanged(old, new),
    }
}

/// One entry of an override object, the `"theme"` entry being skipped.
pub open spec fn entry_step(old: RichHelpConfig, new: RichHelpConfig, e: (String, JsonValue)) -> bool {
    if e.0@ == "theme"@ {
        unchanged(old, new)
    } else {
        overridden(old, new, e.0@, e.1)
    }
}

/// `new` results from applying the entries one after the other to `old`.
pub open spec fn entries_applied(old: RichHelpConfig, new: RichHelpConfig, es: Seq<(String, JsonValue)>) -> bool
    decreases es.len(),
{
    if es.len() == 0 {
        unchanged(old, new)
    } else {
        exists|mid: RichHelpConfig| #![trigger stage(mid)] entries_applied(old, mid, es.drop_last()) && entry_step(mid, new, es.last())
    }
}

proof fn lemma_entries_step(
    old: RichHelpConfig,
    mid: RichHelpConfig,
    new: RichHelpConfig,
    es: Seq<(String, JsonValue)>,
)
    requires
        es.len() > 0,
        entries_applied(old, mid, es.drop_last()),
        entry_step(mid, new, es.last()),
    ensures
        entries_applied(old, new, es),
{
    assert(stage(mid));
}

proof fn lemma_theme_step(
    old: RichHelpConfig,
    named: RichHelpConfig,
    new: RichHelpConfig,
    v: JsonValue,
    name: Seq<char>,
)
    requires
        str_of(v.spec_get("theme"@)) == Some(name),
        theme_applied(named, new, name),
        opt_view(named.theme) == Some(name),
        agrees_except(old, named, set![ConfigField::Theme]),
    ensures
        theme_step(old, new, v),
{
    assert(stage(named));
}

/// What applying a JSON override document does to a configuration.
pub open spec fn json_overrides_applied(old: RichHelpConfig, new: RichHelpConfig, v: JsonValue) -> bool {
    exists|mid: RichHelpConfig| #![trigger stage(mid)] theme_step(old, mid, v) && match v {
        JsonValue::Object(entries) => entries_applied(mid, new, entries@),
        _ => unchanged(mid, new),
    }
}

/// Applying the "default-box" theme to the unthemed configuration gives the
/// default one.
proof fn lemma_default_config(old: RichHelpConfig, new: RichHelpConfig)
    requires
        old.base_values(),
        old.text_emojis is None,
        new.default_box_values(),
        agrees_except(old, new, default_box_fields().union(sync_fields())),
        new.text_emojis == emojis_of(old),
        new.is_synced(),
    ensures
        new.is_default(),
{
    reveal(agrees_except);
}

impl Default for RichHelpConfig {
    fn default() -> (cfg: Self)
        ensures
            cfg.is_default(),
    {
        let mut cfg = RichHelpConfig::unthemed();
        let ghost before = cfg;
        let name = "default-box";
        let _ = cfg.apply_theme_name(name);
        proof {
            reveal_strlit("default-box");
            reveal_strlit("solarized");
            assert(theme_known(name@));
            assert(name@.len() != "solarized"@.len());
            lemma_default_config(before, cfg);
        }
        cfg
    }
}

impl RichHelpConfig {
    fn set_theme(&mut self, x: Option<String>)
        ensures
            final(self).theme == x,
            agrees_except(*old(self), *final(self), set![ConfigField::Theme]),
    {
        self.theme = x;
        proof {
            reveal(agrees_except);
        }
    }
}

/// Builds a [`RichHelpConfig`] step by step.
pub struct RichHelpConfigBuilder {
    config: RichHelpConfig,
}

fn themed_by(c: RichHelpConfig, theme: &str) -> (r: RichHelpConfig)
    ensures
        theme_applied(c, r, theme@),
{
    let mut c = c;
    let _ = c.apply_theme_name(theme);
    c
}

impl RichHelpConfigBuilder {
    pub closed spec fn spec_config(&self) -> RichHelpConfig {
        self.config
    }

    /// A builder starting from `config`.
    pub fn from_config(config: RichHelpConfig) -> (b: Self)
        ensures
            b.spec_config() == config,
    {
        RichHelpConfigBuilder { config }
    }

    /// The configuration, with its render settings synchronised.
    pub fn build(self) -> (cfg: RichHelpConfig)
        ensures
            synced(self.spec_config(), cfg),
    {
        let mut cfg = self.config;
        cfg.sync_render_config();
        cfg
    }

    /// Records the theme name and applies the theme it names, if known.
    pub fn theme(self, theme: &str) -> (b: Self)
        ensures
            exists|named: RichHelpConfig| #![trigger stage(named)] theme_applied(named, b.spec_config(), theme@)
                && opt_view(named.theme) == Some(theme@)
                && agrees_except(self.spec_config(), named, set![ConfigField::Theme]),
    {
        let mut c = self.config;
        c.set_theme(Some(copy_str(theme)));
        let ghost named = c;
        let c = themed_by(c, theme);
        assert(stage(named));
        RichHelpConfigBuilder { config: c }
    }

    pub fn width(self, width: usize) -> (b: Self)
        ensures
            b.spec_config().width == Some(width),
            agrees_except(self.spec_config(), b.spec_config(), set![ConfigField::Width]),
    {
        let mut c = self.config;
        c.set_width(Some(width));
        RichHelpConfigBuilder { config: c }
    }

    pub fn max_width(self, width: usize) -> (b: Self)
        ensures
            b.spec_config().max_width == Some(width),
            agrees_except(self.spec_config(), b.spec_config(), set![ConfigField::MaxWidth]),
    {
        let mut c = self.config;
        c.set_max_width(Some(width));
        RichHelpConfigBuilder { config: c }
    }

    pub fn color_system(self, mode: ColorSystemMode) -> (b: Self)
        ensures
            b.spec_config().color_system == mode,
            agrees_except(self.spec_config(), b.spec_config(), set![ConfigField::ColorSystem]),
    {
        let mut c = self.config;
        c.set_color_system(mode);
        RichHelpConfigBuilder { config: c }
    }

    pub fn force_terminal(self, force: bool) -> (b: Self)
        ensures
            b.spec_config().force_terminal == Some(force),
            agrees_except(self.spec_config(), b.spec_config(), set![ConfigField::ForceTerminal]),
    {
        let mut c = self.config;
        c.set_force_terminal(Some(force));
        RichHelpConfigBuilder { config: c }
    }

    pub fn show_arguments(self, show: bool) -> (b: Self)
        ensures
            b.spec_config().show_arguments == Some(show),
            agrees_except(self.spec_config(), b.spec_config(), set![ConfigField::ShowArguments]),
    {
        let mut c = self.config;
        c.set_show_arguments(Some(show));
        RichHelpConfigBuilder { config: c }
    }

    pub fn text_markup(self, markup: TextMarkup) -> (b: Self)
        ensures
            b.spec_config().text_markup == markup,
            agrees_except(self.spec_config(), b.spec_config(), set![ConfigField::TextMarkup]),
    {
        let mut c = self.config;
        c.set_text_markup(markup);
        RichHelpConfigBuilder { config: c }
    }

    pub fn text_emojis(self, enabled: bool) -> (b: Self)
        ensures
            b.spec_config().text_emojis == Some(enabled),
            agrees_except(self.spec_config(), b.spec_config(), set![ConfigField::TextEmojis]),
    {
        let mut c = self.config;
        c.set_text_emojis(Some(enabled));
        RichHelpConfigBuilder { config: c }
    }

    pub fn commands_before_options(self, value: bool) -> (b: Self)
        ensures
            b.spec_config().commands_before_options == value,
            agrees_except(self.spec_config(), b.spec_config(), set![ConfigField::CommandsBeforeOptions]),
    {
        let mut c = self.config;
        c.set_commands_before_options(value);
        RichHelpConfigBuilder { config: c }
    }

    pub fn text_paragraph_linebreaks(self, value: &str) -> (b: Self)
        ensures
            opt_view(b.spec_config().text_paragraph_linebreaks) == Some(value@),
            agrees_except(self.spec_config(), b.spec_config(), set![ConfigField::TextParagraphLinebreaks]),
    {
        let mut c = self.config;
        c.set_text_paragraph_linebreaks(Some(copy_str(value)));
        RichHelpConfigBuilder { config: c }
    }
}


// ---------------------------------------------------------------------------
// Settings from the environment.
// ---------------------------------------------------------------------------

/// `TERMINAL_WIDTH`, when it holds a number, sets the width and the maximum
/// width that are not set yet.
pub open spec fn width_env_step(old: RichHelpConfig, new: RichHelpConfig, env: EnvSnapshot) -> bool {
    match env.terminal_width {
        Some(v) => match usize_spec(trim_spec(v@)) {
            Some(w) => {
                &&& new.width == (if old.width is None {
                    Some(w)
                } else {
                    old.width
                })
                &&& new.max_width == (if old.max_width is None {
                    Some(w)
                } else {
                    old.max_width
                })
                &&& agrees_except(old, new, set![ConfigField::Width, ConfigField::MaxWidth])
            },
            None => unchanged(old, new),
        },
        None => unchanged(old, new),
    }
}

/// The yes/no value of an environment variable.
pub open spec fn truthy_of(v: Option<String>) -> Option<bool> {
    match v {
        Some(s) => truthy_spec(s@),
        None => None,
    }
}

/// The first yes/no value among `FORCE_COLOR`, `PY_COLORS` and
/// `GITHUB_ACTIONS`.
pub open spec fn force_env_value(env: EnvSnapshot) -> Option<bool> {
    match truthy_of(env.force_color) {
        Some(b) => Some(b),
        None => match truthy_of(env.py_colors) {
            Some(b) => Some(b),
            None => truthy_of(env.github_actions),
        },
    }
}

/// That value forces the terminal mode when none is set.
pub open spec fn force_env_step(old: RichHelpConfig, new: RichHelpConfig, env: EnvSnapshot) -> bool {
    if old.force_terminal is Some {
        unchanged(old, new)
    } else {
        match force_env_value(env) {
            Some(b) => new.force_terminal == Some(b) && agrees_except(old, new, set![ConfigField::ForceTerminal]),
            None => unchanged(old, new),
        }
    }
}

/// `RICH_CLICK_THEME`: a JSON document (a value starting with `{`) applies
/// its overrides when it parses; any other value names the theme to record
/// and apply.
pub open spec fn theme_env_step(old: RichHelpConfig, new: RichHelpConfig, env: EnvSnapshot, json: Option<JsonValue>) -> bool {
    match env.theme {
        Some(v) => if has_prefix(trim_start_spec(v@), "{"@) {
            match json {
                Some(j) => json_overrides_applied(old, new, j),
                None => unchanged(old, new),
            }
        } else {
            exists|named: RichHelpConfig| #![trigger stage(named)]
                theme_applied(named, new, trim_spec(v@)) && opt_view(named.theme) == Some(trim_spec(v@))
                    && agrees_except(old, named, set![ConfigField::Theme])
        },
        None => unchanged(old, new),
    }
}

/// The theme variable of `env` parsed as JSON, where it parses.
pub open spec fn env_theme_json(env: EnvSnapshot) -> Option<JsonValue> {
    match env.theme {
        Some(v) => json_parse(v@),
        None => None,
    }
}

/// The configuration the environment gives: the default one, updated by the
/// width, the terminal forcing and the theme variable, then synchronised.
/// `json` is the parsed theme variable, if it parses as JSON.
pub open spec fn loaded_from_env(new: RichHelpConfig, env: EnvSnapshot, json: Option<JsonValue>) -> bool {
    exists|c0: RichHelpConfig, c1: RichHelpConfig, c2: RichHelpConfig, c3: RichHelpConfig|
        #![trigger stage(c0), stage(c1), stage(c2), stage(c3)]
        c0.is_default() && width_env_step(c0, c1, env) && force_env_step(c1, c2, env) && theme_env_step(c2, c3, env, json)
            && synced(c3, new)
}

impl RichHelpConfig {
    fn apply_terminal_width_env(&mut self, env: &EnvSnapshot)
        ensures
            width_env_step(*old(self), *final(self), *env),
    {
        proof {
            lemma_agrees_except_refl(*self, Set::empty());
        }
        match &env.terminal_width {
            Some(v) => {
                let t = trim(v.as_str());
                match parse_usize(t.as_str()) {
                    Some(w) => {
                        let ghost start = *self;
                        if self.width.is_none() {
                            self.set_width(Some(w));
                        } else {
                            proof {
                                lemma_agrees_except_refl(*self, set![ConfigField::Width]);
                            }
                        }
                        let ghost mid = *self;
                        if self.max_width.is_none() {
                            self.set_max_width(Some(w));
                        } else {
                            proof {
                                lemma_agrees_except_refl(*self, set![ConfigField::MaxWidth]);
                            }
                        }
                        proof {
                            lemma_agrees_except_trans(start, mid, *self, set![ConfigField::Width], set![ConfigField::MaxWidth]);
                            assert(set![ConfigField::Width].union(set![ConfigField::MaxWidth]) =~= set![ConfigField::Width, ConfigField::MaxWidth]);
                            lemma_agrees_except_field_max_width(start, mid);
                            lemma_agrees_except_field_width(mid, *self);
                        }
                    },
                    None => {},
                }
            },
            None => {},
        }
    }

    fn apply_force_terminal_env(&mut self, env: &EnvSnapshot)
        ensures
            force_env_step(*old(self), *final(self), *env),
    {
        proof {
            lemma_agrees_except_refl(*self, Set::empty());
        }
        if self.force_terminal.is_some() {
            return;
        }
        let value = match &env.force_color {
            Some(s) => parse_truthy(s.as_str()),
            None => None,
        };
        let value = match value {
            Some(b) => Some(b),
            None => match &env.py_colors {
                Some(s) => parse_truthy(s.as_str()),
                None => None,
            },
        };
        let value = match value {
            Some(b) => Some(b),
            None => match &env.github_actions {
                Some(s) => parse_truthy(s.as_str()),
                None => None,
            },
        };
        if let Some(b) = value {
            self.set_force_terminal(Some(b));
        }
    }

    fn apply_theme_env(&mut self, env: &EnvSnapshot, json: &Option<JsonValue>)
        ensures
            theme_env_step(*old(self), *final(self), *env, *json),
    {
        proof {
            lemma_agrees_except_refl(*self, Set::empty());
        }
        match &env.theme {
            Some(value) => {
                let ts = trim_start(value.as_str());
                proof {
                    reveal_strlit("{");
                }
                if starts_with(ts.as_str(), "{") {
                    match json {
                        Some(j) => self.apply_json_overrides(j),
                        None => {},
                    }
                } else {
                    let name = trim(value.as_str());
                    let ghost before = *self;
                    self.set_theme(Some(name.clone()));
                    let ghost named = *self;
                    let _ = self.apply_theme_name(name.as_str());
                    assert(stage(named));
                }
            },
            None => {},
        }
    }

    /// The configuration the environment selects, its theme variable being
    /// parsed as JSON where it opens with `{`.
    pub fn load_from_env(env: &EnvSnapshot) -> (cfg: Self)
        ensures
            loaded_from_env(cfg, *env, env_theme_json(*env)),
    {
        let json = match &env.theme {
            Some(v) => parse_json(v.as_str()),
            None => None,
        };
        RichHelpConfig::load_from_env_parsed(env, &json)
    }

    /// The configuration the environment selects, `json` being what the
    /// theme variable parses to as JSON.
    pub fn load_from_env_parsed(env: &EnvSnapshot, json: &Option<JsonValue>) -> (cfg: Self)
        ensures
            loaded_from_env(cfg, *env, *json),
    {
        let mut cfg = RichHelpConfig::default();
        let ghost c0 = cfg;
        if !cfg.enable_theme_env_var {
            return cfg;
        }
        cfg.apply_terminal_width_env(env);
        let ghost c1 = cfg;
        cfg.apply_force_terminal_env(env);
        let ghost c2 = cfg;
        cfg.apply_theme_env(env, json);
        let ghost c3 = cfg;
        cfg.sync_render_config();
        assert(stage(c0) && stage(c1) && stage(c2) && stage(c3));
        cfg
    }
}

/// Setting the maximum width keeps the width.
proof fn lemma_agrees_except_field_width(a: RichHelpConfig, b: RichHelpConfig)
    requires
        agrees_except(a, b, set![ConfigField::MaxWidth]),
    ensures
        b.width == a.width,
{
    reveal(agrees_except);
}

/// Setting the width keeps the maximum width.
proof fn lemma_agrees_except_field_max_width(a: RichHelpConfig, b: RichHelpConfig)
    requires
        agrees_except(a, b, set![ConfigField::Width]),
    ensures
        b.max_width == a.max_width,
{
    reveal(agrees_except);
}

}
