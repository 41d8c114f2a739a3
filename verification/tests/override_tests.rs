use rich_click_rs::config::{AlignMethod, BoxType, ColorSystemMode, PaddingDimensions, RichHelpConfig};
use rich_click_rs::json::JsonValue;

fn s(v: &str) -> JsonValue {
    JsonValue::Str(v.to_string())
}

fn n(v: u64) -> JsonValue {
    JsonValue::Number(Some(v))
}

#[test]
fn box_values_case_insensitive() {
    let mut cfg = RichHelpConfig::default();
    cfg.apply_override("style_options_panel_box", &s("heavy_edge"));
    assert_eq!(cfg.style_options_panel_box, Some(BoxType::HeavyEdge));
    cfg.apply_override("style_options_panel_box", &s("Horizontals_Double_Top"));
    assert_eq!(cfg.style_options_panel_box, Some(BoxType::Horizontals));
    cfg.apply_override("style_options_panel_box", &s("none"));
    assert_eq!(cfg.style_options_panel_box, None);
    cfg.apply_override("style_options_panel_box", &s("ROUNDED"));
    cfg.apply_override("style_options_panel_box", &s("fancy"));
    assert_eq!(cfg.style_options_panel_box, None);
}

#[test]
fn padding_values() {
    let mut cfg = RichHelpConfig::default();
    cfg.apply_override("style_options_panel_padding", &n(2));
    assert_eq!(cfg.style_options_panel_padding, PaddingDimensions::All(2));
    cfg.apply_override("style_options_panel_padding", &JsonValue::Array(vec![n(1), n(3)]));
    assert_eq!(cfg.style_options_panel_padding, PaddingDimensions::TwoWay(1, 3));
    cfg.apply_override("style_options_panel_padding", &JsonValue::Array(vec![n(1), n(2), n(3), n(4)]));
    assert_eq!(cfg.style_options_panel_padding, PaddingDimensions::FourWay(1, 2, 3, 4));
    cfg.apply_override("style_options_panel_padding", &JsonValue::Array(vec![n(1), n(2), n(3)]));
    assert_eq!(cfg.style_options_panel_padding, PaddingDimensions::FourWay(1, 2, 3, 4));
}

#[test]
fn scalar_values() {
    let mut cfg = RichHelpConfig::default();
    cfg.apply_override("color_system", &s("256"));
    assert_eq!(cfg.color_system, ColorSystemMode::EightBit);
    cfg.apply_override("color_system", &s("bogus"));
    assert_eq!(cfg.color_system, ColorSystemMode::EightBit);
    cfg.apply_override("align_options_panel", &s("Center"));
    assert_eq!(cfg.align_options_panel, AlignMethod::Center);
    cfg.apply_override("show_arguments", &JsonValue::Bool(true));
    assert_eq!(cfg.show_arguments, Some(true));
    cfg.apply_override("show_arguments", &s("yes"));
    assert_eq!(cfg.show_arguments, None);
    cfg.apply_override("width", &JsonValue::Null);
    assert_eq!(cfg.width, None);
    cfg.apply_override(
        "style_commands_table_column_width_ratio",
        &JsonValue::Array(vec![n(1), JsonValue::Null]),
    );
    assert_eq!(cfg.style_commands_table_column_width_ratio, Some((Some(1), None)));
}

#[test]
fn group_lists() {
    let mut cfg = RichHelpConfig::default();
    let groups = JsonValue::Array(vec![
        JsonValue::Object(vec![
            ("name".to_string(), s("Basic")),
            ("options".to_string(), JsonValue::Array(vec![s("--name"), n(3), s("--help")])),
            ("inline_help_in_title".to_string(), JsonValue::Bool(true)),
        ]),
        JsonValue::Object(vec![("items".to_string(), JsonValue::Array(vec![s("--x")]))]),
    ]);
    cfg.apply_override("option_groups", &groups);
    assert_eq!(cfg.option_groups.len(), 2);
    assert_eq!(cfg.option_groups[0].name, "Basic");
    assert_eq!(cfg.option_groups[0].items, vec!["--name", "--help"]);
    assert_eq!(cfg.option_groups[0].inline_help_in_title, Some(true));
    assert_eq!(cfg.option_groups[1].name, "Group");
    assert_eq!(cfg.option_groups[1].items, vec!["--x"]);
    // A list holding a non-object leaves the groups as they are.
    cfg.apply_override("option_groups", &JsonValue::Array(vec![n(1)]));
    assert_eq!(cfg.option_groups.len(), 2);
}

#[test]
fn alias_maps() {
    let mut cfg = RichHelpConfig::default();
    let map = JsonValue::Object(vec![
        ("rm".to_string(), JsonValue::Array(vec![s("del")])),
        ("ls".to_string(), s("not a list")),
    ]);
    cfg.apply_override("command_aliases", &map);
    assert_eq!(cfg.command_aliases.len(), 1);
    assert_eq!(cfg.command_aliases[0].name, "rm");
    assert_eq!(cfg.command_aliases[0].aliases, vec!["del"]);
}
