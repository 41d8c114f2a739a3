use rich_click_rs::config::{
    BoxType, ColorSystem, ColorSystemMode, PaddingDimensions, RichHelpConfig, RichHelpConfigBuilder, TextMarkup,
};
use rich_click_rs::env::EnvSnapshot;
use rich_click_rs::json::JsonValue;
use rich_click_rs::theme::{apply_theme, list_themes, ThemeError};

#[test]
fn default_config_has_default_box_theme() {
    let cfg = RichHelpConfig::default();
    assert_eq!(cfg.style_option, "bold cyan");
    assert_eq!(cfg.style_switch, "bold green");
    assert_eq!(cfg.style_metavar, "bold yellow");
    assert_eq!(cfg.style_usage, "yellow");
    assert_eq!(cfg.panel_title_string, "{}");
    assert_eq!(cfg.panel_title_padding, 1);
    assert_eq!(cfg.text_markup, TextMarkup::Ansi);
    assert_eq!(cfg.text_emojis, Some(false));
    assert_eq!(cfg.panel_options.box_type, BoxType::Rounded);
    assert_eq!(cfg.panel_options.border_style, "dim");
    assert_eq!(cfg.table_options.padding, (1, 1));
    assert!(cfg.table_options.expand);
    assert!(!cfg.show_prompt);
    assert!(!cfg.errors_show_param_source);
    assert_eq!(cfg.options_table_column_types, vec!["required", "opt_long", "opt_short", "metavar", "help"]);
}

#[test]
fn listed_themes_apply() {
    let names = list_themes();
    assert_eq!(names, vec!["default".to_string(), "default-box".to_string(), "solarized".to_string()]);
    for name in names {
        let mut cfg = RichHelpConfig::default();
        assert!(apply_theme(&mut cfg, &name).is_ok());
    }
}

#[test]
fn unknown_theme_is_an_error_and_changes_nothing() {
    let mut cfg = RichHelpConfig::default();
    cfg.style_option = "red".to_string();
    let r: Result<(), ThemeError> = apply_theme(&mut cfg, "monokai");
    match r {
        Err(e) => assert_eq!(e.message, "unknown theme 'monokai'"),
        Ok(_) => panic!("expected an error"),
    }
    assert_eq!(cfg.style_option, "red");
    assert_eq!(ThemeError::unknown("x").message, "unknown theme 'x'");
}

#[test]
fn apply_theme_name_resynchronises() {
    let mut cfg = RichHelpConfig::default();
    cfg.style_options_panel_border = "blue".to_string();
    cfg.sync_render_config();
    assert_eq!(cfg.panel_options.border_style, "blue");
    assert!(cfg.apply_theme_name("default").is_ok());
    assert_eq!(cfg.panel_options.border_style, "dim");
    assert!(cfg.apply_theme_name("nope").is_err());
}

#[test]
fn sync_copies_style_fields() {
    let mut cfg = RichHelpConfig::default();
    cfg.style_options_panel_box = Some(BoxType::Heavy);
    cfg.style_options_table_padding = PaddingDimensions::FourWay(0, 3, 0, 2);
    cfg.text_emojis = None;
    cfg.text_markup = TextMarkup::Rich;
    cfg.style_options_table_row_styles = vec!["dim".to_string()];
    cfg.style_commands_table_row_styles = vec!["bold".to_string(), "".to_string()];
    cfg.sync_render_config();
    assert_eq!(cfg.table_options.row_styles, vec!["dim".to_string()]);
    assert_eq!(cfg.table_arguments.row_styles, vec!["dim".to_string()]);
    assert_eq!(cfg.table_commands.row_styles, vec!["bold".to_string(), "".to_string()]);
    assert_eq!(cfg.panel_options.box_type, BoxType::Heavy);
    assert_eq!(cfg.panel_arguments.box_type, BoxType::Heavy);
    assert_eq!(cfg.table_options.padding, (2, 3));
    assert_eq!(cfg.table_arguments.padding, (2, 3));
    assert_eq!(cfg.text_emojis, Some(true));
}

#[test]
fn json_overrides_apply_in_order() {
    let mut cfg = RichHelpConfig::default();
    let doc = JsonValue::Object(vec![
        ("width".to_string(), JsonValue::Number(Some(100))),
        ("text_markup".to_string(), JsonValue::Str("rich".to_string())),
        ("style_option".to_string(), JsonValue::Str("magenta".to_string())),
        ("theme".to_string(), JsonValue::Str("default".to_string())),
        ("unknown_key".to_string(), JsonValue::Bool(true)),
    ]);
    cfg.apply_json_overrides(&doc);
    assert_eq!(cfg.width, Some(100));
    assert_eq!(cfg.text_markup, TextMarkup::Rich);
    // The theme is applied first, so the later style override stands.
    assert_eq!(cfg.style_option, "magenta");
    assert_eq!(cfg.theme, Some("default".to_string()));
}

#[test]
fn json_override_of_unknown_theme_keeps_config() {
    let mut cfg = RichHelpConfig::default();
    let doc = JsonValue::Object(vec![("theme".to_string(), JsonValue::Str("nope".to_string()))]);
    cfg.apply_json_overrides(&doc);
    assert_eq!(cfg.theme, Some("nope".to_string()));
    assert_eq!(cfg.style_option, "bold cyan");
}

#[test]
fn environment_settings() {
    let env = EnvSnapshot {
        terminal_width: Some(" 90 ".to_string()),
        force_color: Some("maybe".to_string()),
        py_colors: Some("no".to_string()),
        github_actions: Some("1".to_string()),
        theme: Some(" default ".to_string()),
    };
    let cfg = RichHelpConfig::load_from_env(&env);
    assert_eq!(cfg.width, Some(90));
    assert_eq!(cfg.max_width, Some(90));
    assert_eq!(cfg.force_terminal, Some(false));
    assert_eq!(cfg.theme, Some("default".to_string()));
}

#[test]
fn environment_json_theme() {
    let env = EnvSnapshot {
        terminal_width: Some("wide".to_string()),
        force_color: None,
        py_colors: None,
        github_actions: None,
        theme: Some("  {\"max_width\": 70}".to_string()),
    };
    let cfg = RichHelpConfig::load_from_env(&env);
    assert_eq!(cfg.width, None);
    assert_eq!(cfg.max_width, Some(70));
    assert_eq!(cfg.force_terminal, None);
    assert_eq!(cfg.theme, None);
    let doc = JsonValue::Object(vec![("max_width".to_string(), JsonValue::Number(Some(70)))]);
    let parsed = RichHelpConfig::load_from_env_parsed(&env, &Some(doc));
    assert_eq!(parsed.max_width, Some(70));
}

#[test]
fn environment_json_theme_entries() {
    let env = EnvSnapshot {
        terminal_width: None,
        force_color: None,
        py_colors: None,
        github_actions: None,
        theme: Some("{\"theme\": \"default\", \"width\": 88, \"style_option\": \"red\", \"show_arguments\": true}".to_string()),
    };
    let cfg = RichHelpConfig::load_from_env(&env);
    assert_eq!(cfg.theme, Some("default".to_string()));
    assert_eq!(cfg.width, Some(88));
    assert_eq!(cfg.style_option, "red");
    assert_eq!(cfg.show_arguments, Some(true));
}

#[test]
fn environment_malformed_json_theme() {
    let env = EnvSnapshot {
        terminal_width: None,
        force_color: None,
        py_colors: None,
        github_actions: None,
        theme: Some("{\"width\": 88".to_string()),
    };
    let cfg = RichHelpConfig::load_from_env(&env);
    assert_eq!(cfg.width, None);
    assert_eq!(cfg.theme, None);
    assert_eq!(cfg.style_option, "bold cyan");
}

#[test]
fn builder_sets_fields() {
    let cfg = RichHelpConfigBuilder::from_config(RichHelpConfig::default())
        .width(100)
        .max_width(120)
        .color_system(ColorSystemMode::TrueColor)
        .force_terminal(true)
        .show_arguments(true)
        .text_markup(TextMarkup::Markdown)
        .text_emojis(true)
        .commands_before_options(true)
        .text_paragraph_linebreaks("\n\n")
        .build();
    assert_eq!(cfg.width, Some(100));
    assert_eq!(cfg.max_width, Some(120));
    assert_eq!(cfg.color_system, ColorSystemMode::TrueColor);
    assert_eq!(cfg.force_terminal, Some(true));
    assert_eq!(cfg.show_arguments, Some(true));
    assert_eq!(cfg.text_markup, TextMarkup::Markdown);
    assert_eq!(cfg.text_emojis, Some(true));
    assert!(cfg.commands_before_options);
    assert_eq!(cfg.text_paragraph_linebreaks, Some("\n\n".to_string()));
}

#[test]
fn color_system_modes() {
    assert_eq!(ColorSystemMode::Auto.to_color_system(Some(ColorSystem::Standard)), Some(ColorSystem::Standard));
    assert_eq!(ColorSystemMode::EightBit.to_color_system(None), Some(ColorSystem::EightBit));
    assert_eq!(ColorSystemMode::NoColor.to_color_system(Some(ColorSystem::TrueColor)), None);
    assert_eq!(ColorSystemMode::default(), ColorSystemMode::Auto);
    assert_eq!(TextMarkup::default(), TextMarkup::Ansi);
}

#[test]
fn padding_unpacks() {
    assert_eq!(PaddingDimensions::All(2).unpack(), (2, 2, 2, 2));
    assert_eq!(PaddingDimensions::TwoWay(0, 1).unpack(), (0, 1, 0, 1));
    assert_eq!(PaddingDimensions::FourWay(1, 2, 3, 4).unpack(), (1, 2, 3, 4));
}

#[test]
fn solarized_theme_applies_its_colours() {
    let mut cfg = RichHelpConfig::default();
    assert!(cfg.apply_theme_name("solarized").is_ok());
    assert_eq!(cfg.style_option, "bold #2aa198");
    assert_eq!(cfg.style_switch, "bold #859900");
    assert_eq!(cfg.style_metavar, "bold #b58900");
    assert_eq!(cfg.style_command, "bold #268bd2");
    assert_eq!(cfg.style_errors_panel_border, "#dc322f");
    assert_eq!(cfg.panel_options.border_style, "#586e75");
    assert_eq!(cfg.panel_options.box_type, BoxType::Rounded);
    assert_eq!(cfg.options_table_column_types, vec!["required", "opt_long", "opt_short", "metavar", "help"]);
    assert!(cfg.apply_theme_name("default-box").is_ok());
    assert_eq!(cfg.style_option, "bold cyan");
    assert_eq!(cfg.panel_options.border_style, "dim");
}

#[test]
fn environment_selects_solarized() {
    let env = EnvSnapshot {
        terminal_width: None,
        force_color: None,
        py_colors: None,
        github_actions: None,
        theme: Some("solarized".to_string()),
    };
    let cfg = RichHelpConfig::load_from_env(&env);
    assert_eq!(cfg.theme, Some("solarized".to_string()));
    assert_eq!(cfg.style_option, "bold #2aa198");
    assert_eq!(cfg.style_usage, "#b58900");
    assert_eq!(cfg.panel_commands.border_style, "#586e75");
}
