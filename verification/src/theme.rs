use vstd::prelude::*;

use crate::config::{agrees_except, default_box_fields, string_list2, string_list3, string_list5, unknown_theme_message, BoxType, PaddingDimensions, RichHelpConfig};
use crate::text::{concat3, copy_str, str_eq};

verus! {

/// The error an unknown theme name gives.
#[derive(Debug, Clone)]
pub struct ThemeError {
    pub message: String,
}

impl ThemeError {
    /// The error for the unknown theme `name`.
    pub fn unknown(name: &str) -> (e: Self)
        ensures
            e.message@ == unknown_theme_message(name@),
    {
        ThemeError { message: concat3("unknown theme '", name, "'") }
    }
}

/// The names of the themes that [`apply_theme`] knows.
pub open spec fn theme_known(name: Seq<char>) -> bool {
    name == "default"@ || name == "default-box"@ || name == "solarized"@
}

/// The theme fields of `c` hold the values of the known theme `name`:
/// "solarized" has its own colours, the others are "default-box".
pub open spec fn theme_values(c: RichHelpConfig, name: Seq<char>) -> bool {
    if name == "solarized"@ {
        c.solarized_values()
    } else {
        c.default_box_values()
    }
}

/// The names of the available themes.
pub fn list_themes() -> (names: Vec<String>)
    ensures
        names@.len() == 3,
        names@[0]@ == "default"@,
        names@[1]@ == "default-box"@,
        names@[2]@ == "solarized"@,
        forall|i: int| 0 <= i < names@.len() ==> theme_known(#[trigger] names@[i]@),
{
    vec![copy_str("default"), copy_str("default-box"), copy_str("solarized")]
}

/// Sets the theme fields of `cfg` for the theme named `theme`; an unknown
/// name leaves `cfg` unchanged and is an error.
pub fn apply_theme(cfg: &mut RichHelpConfig, theme: &str) -> (r: Result<(), ThemeError>)
    ensures
        r is Ok <==> theme_known(theme@),
        r is Ok ==> theme_values(*final(cfg), theme@) && agrees_except(*old(cfg), *final(cfg), default_box_fields()),
        match r {
            Ok(_) => true,
            Err(e) => e.message@ == unknown_theme_message(theme@) && *final(cfg) == *old(cfg),
        },
{
    if str_eq(theme, "solarized") {
        apply_solarized(cfg);
        Ok(())
    } else if str_eq(theme, "default") || str_eq(theme, "default-box") {
        proof {
            reveal_strlit("default");
            reveal_strlit("default-box");
            reveal_strlit("solarized");
        }
        apply_default_box(cfg);
        Ok(())
    } else {
        Err(ThemeError::unknown(theme))
    }
}

/// Sets the fields of the "default-box" theme.
pub fn apply_default_box(cfg: &mut RichHelpConfig)
    ensures
        final(cfg).default_box_values(),
        agrees_except(*old(cfg), *final(cfg), default_box_fields()),
{
    cfg.style_option = copy_str("bold cyan");
    cfg.style_option_negative = None;
    cfg.style_argument = copy_str("bold cyan");
    cfg.style_command = copy_str("bold cyan");
    cfg.style_command_aliases = copy_str("bold green");
    cfg.style_switch = copy_str("bold green");
    cfg.style_switch_negative = None;
    cfg.style_metavar = copy_str("bold yellow");
    cfg.style_metavar_append = copy_str("dim yellow");
    cfg.style_metavar_separator = copy_str("dim");
    cfg.style_range_append = None;
    cfg.style_header_text = copy_str("");
    cfg.style_epilog_text = copy_str("");
    cfg.style_footer_text = copy_str("");
    cfg.style_usage = copy_str("yellow");
    cfg.style_usage_command = copy_str("bold");
    cfg.style_usage_separator = copy_str("");
    cfg.style_deprecated = copy_str("red");
    cfg.style_helptext_first_line = copy_str("");
    cfg.style_helptext = copy_str("dim");
    cfg.style_option_help = copy_str("");
    cfg.style_command_help = copy_str("");
    cfg.style_option_default = copy_str("dim");
    cfg.style_option_envvar = copy_str("dim yellow");
    cfg.style_required_short = copy_str("red");
    cfg.style_required_long = copy_str("dim red");
    cfg.style_options_panel_border = copy_str("dim");
    cfg.style_options_panel_box = Some(BoxType::Rounded);
    cfg.style_options_panel_help_style = copy_str("dim");
    cfg.style_options_panel_title_style = copy_str("");
    cfg.style_options_panel_padding = PaddingDimensions::TwoWay(0, 1);
    cfg.style_options_panel_style = copy_str("");
    cfg.style_options_table_expand = true;
    cfg.style_options_table_box = None;
    cfg.style_options_table_border_style = copy_str("dim");
    cfg.style_commands_panel_border = copy_str("dim");
    cfg.panel_inline_help_in_title = false;
    cfg.panel_inline_help_delimiter = copy_str(" - ");
    cfg.style_commands_panel_box = Some(BoxType::Rounded);
    cfg.style_commands_panel_help_style = copy_str("dim");
    cfg.style_commands_panel_title_style = copy_str("");
    cfg.style_commands_panel_padding = PaddingDimensions::TwoWay(0, 1);
    cfg.style_commands_panel_style = copy_str("");
    cfg.style_commands_table_expand = true;
    cfg.style_commands_table_box = None;
    cfg.style_commands_table_border_style = copy_str("dim");
    cfg.style_errors_panel_border = copy_str("red");
    cfg.style_errors_panel_box = Some(BoxType::Rounded);
    cfg.style_padding_errors = copy_str("");
    cfg.style_padding_usage = copy_str("");
    cfg.style_padding_helptext = copy_str("");
    cfg.style_padding_epilog = copy_str("");
    cfg.panel_title_padding = 1;
    cfg.options_table_column_types = string_list5("required", "opt_long", "opt_short", "metavar", "help");
    cfg.commands_table_column_types = string_list3("name", "aliases", "help");
    cfg.options_table_help_sections = string_list5("help", "deprecated", "envvar", "default", "required");
    cfg.commands_table_help_sections = string_list2("help", "deprecated");
    cfg.panel_title_string = copy_str("{}");
    cfg.deprecated_string = copy_str("[deprecated]");
    cfg.deprecated_with_reason_string = copy_str("[deprecated: {}]");
    cfg.default_string = copy_str("[default: {}]");
    cfg.envvar_string = copy_str("[env var: {}]");
    cfg.required_short_string = copy_str("*");
    cfg.required_long_string = copy_str("[required]");
    cfg.range_string = copy_str("[{}]");
    cfg.append_metavars_help_string = copy_str("({})");
    cfg.append_range_help_string = copy_str("[range: {}]");
    cfg.delimiter_comma = copy_str(",");
    cfg.delimiter_slash = copy_str("/");
    cfg.padding_header_text = PaddingDimensions::FourWay(1, 1, 0, 1);
    cfg.padding_usage = PaddingDimensions::All(1);
    cfg.padding_helptext = PaddingDimensions::FourWay(0, 1, 1, 1);
    cfg.padding_epilog = PaddingDimensions::All(1);
    cfg.padding_footer_text = PaddingDimensions::All(1);
    proof {
        reveal(agrees_except);
    }
}

/// Sets the fields of the "solarized" theme: the "default-box" layout with
/// Solarized colours that this library chose, no source giving them.
pub fn apply_solarized(cfg: &mut RichHelpConfig)
    ensures
        final(cfg).solarized_values(),
        agrees_except(*old(cfg), *final(cfg), default_box_fields()),
{
    cfg.style_option = copy_str("bold #2aa198");
    cfg.style_option_negative = None;
    cfg.style_argument = copy_str("bold #2aa198");
    cfg.style_command = copy_str("bold #268bd2");
    cfg.style_command_aliases = copy_str("#859900");
    cfg.style_switch = copy_str("bold #859900");
    cfg.style_switch_negative = None;
    cfg.style_metavar = copy_str("bold #b58900");
    cfg.style_metavar_append = copy_str("#b58900");
    cfg.style_metavar_separator = copy_str("dim");
    cfg.style_range_append = None;
    cfg.style_header_text = copy_str("");
    cfg.style_epilog_text = copy_str("");
    cfg.style_footer_text = copy_str("");
    cfg.style_usage = copy_str("#b58900");
    cfg.style_usage_command = copy_str("bold #268bd2");
    cfg.style_usage_separator = copy_str("");
    cfg.style_deprecated = copy_str("#dc322f");
    cfg.style_helptext_first_line = copy_str("");
    cfg.style_helptext = copy_str("#93a1a1");
    cfg.style_option_help = copy_str("");
    cfg.style_command_help = copy_str("");
    cfg.style_option_default = copy_str("#93a1a1");
    cfg.style_option_envvar = copy_str("#b58900");
    cfg.style_required_short = copy_str("#dc322f");
    cfg.style_required_long = copy_str("#dc322f");
    cfg.style_options_panel_border = copy_str("#586e75");
    cfg.style_options_panel_box = Some(BoxType::Rounded);
    cfg.style_options_panel_help_style = copy_str("dim");
    cfg.style_options_panel_title_style = copy_str("");
    cfg.style_options_panel_padding = PaddingDimensions::TwoWay(0, 1);
    cfg.style_options_panel_style = copy_str("");
    cfg.style_options_table_expand = true;
    cfg.style_options_table_box = None;
    cfg.style_options_table_border_style = copy_str("dim");
    cfg.style_commands_panel_border = copy_str("#586e75");
    cfg.panel_inline_help_in_title = false;
    cfg.panel_inline_help_delimiter = copy_str(" - ");
    cfg.style_commands_panel_box = Some(BoxType::Rounded);
    cfg.style_commands_panel_help_style = copy_str("dim");
    cfg.style_commands_panel_title_style = copy_str("");
    cfg.style_commands_panel_padding = PaddingDimensions::TwoWay(0, 1);
    cfg.style_commands_panel_style = copy_str("");
    cfg.style_commands_table_expand = true;
    cfg.style_commands_table_box = None;
    cfg.style_commands_table_border_style = copy_str("dim");
    cfg.style_errors_panel_border = copy_str("#dc322f");
    cfg.style_errors_panel_box = Some(BoxType::Rounded);
    cfg.style_padding_errors = copy_str("");
    cfg.style_padding_usage = copy_str("");
    cfg.style_padding_helptext = copy_str("");
    cfg.style_padding_epilog = copy_str("");
    cfg.panel_title_padding = 1;
    cfg.options_table_column_types = string_list5("required", "opt_long", "opt_short", "metavar", "help");
    cfg.commands_table_column_types = string_list3("name", "aliases", "help");
    cfg.options_table_help_sections = string_list5("help", "deprecated", "envvar", "default", "required");
    cfg.commands_table_help_sections = string_list2("help", "deprecated");
    cfg.panel_title_string = copy_str("{}");
    cfg.deprecated_string = copy_str("[deprecated]");
    cfg.deprecated_with_reason_string = copy_str("[deprecated: {}]");
    cfg.default_string = copy_str("[default: {}]");
    cfg.envvar_string = copy_str("[env var: {}]");
    cfg.required_short_string = copy_str("*");
    cfg.required_long_string = copy_str("[required]");
    cfg.range_string = copy_str("[{}]");
    cfg.append_metavars_help_string = copy_str("({})");
    cfg.append_range_help_string = copy_str("[range: {}]");
    cfg.delimiter_comma = copy_str(",");
    cfg.delimiter_slash = copy_str("/");
    cfg.padding_header_text = PaddingDimensions::FourWay(1, 1, 0, 1);
    cfg.padding_usage = PaddingDimensions::All(1);
    cfg.padding_helptext = PaddingDimensions::FourWay(0, 1, 1, 1);
    cfg.padding_epilog = PaddingDimensions::All(1);
    cfg.padding_footer_text = PaddingDimensions::All(1);
    proof {
        reveal(agrees_except);
    }
}

}
