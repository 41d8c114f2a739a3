use rich_click_rs::commands::collect_commands;
use rich_click_rs::config::{RichHelpConfig, TextMarkup};
use rich_click_rs::doc::{Block, Content};
use rich_click_rs::helptext::{apply_paragraph_linebreaks, normalize_first_paragraph, normalize_help_text};
use rich_click_rs::model::{CommandInfo, ErrorInfo, ErrorKind, SubcommandInfo};
use rich_click_rs::render::RichHelpRenderer;

#[test]
fn paragraphs_rewrapped_and_joined() {
    let text = "First line\ncontinues.\n\nSecond para.\n\n\u{8}\nKeep\nlines\u{c}hidden";
    assert_eq!(
        apply_paragraph_linebreaks(TextMarkup::Ansi, &None, text),
        "First line continues.\nSecond para.\nKeep\nlines"
    );
    assert_eq!(
        apply_paragraph_linebreaks(TextMarkup::Ansi, &Some("\n\n".to_string()), "a\nb\n\nc"),
        "a b\n\nc"
    );
    assert_eq!(apply_paragraph_linebreaks(TextMarkup::Markdown, &Some("\n".to_string()), "a\n\nb"), "a\nb");
    assert_eq!(apply_paragraph_linebreaks(TextMarkup::Markdown, &None, "a\n\nb"), "a\n\nb");
}

#[test]
fn help_text_normalized() {
    assert_eq!(normalize_help_text(TextMarkup::Rich, "  one\ntwo\n\nthree  "), "one two\nthree");
    assert_eq!(normalize_help_text(TextMarkup::Markdown, "a\n\nb\u{c}c"), "a\n\nb");
    assert_eq!(normalize_first_paragraph(TextMarkup::Ansi, " Short\nhelp.\n\nMore."), "Short help.");
    assert_eq!(normalize_first_paragraph(TextMarkup::Markdown, "Short\nhelp.\n\nMore."), "Short\nhelp.");
}

#[test]
fn markdown_help_block() {
    let mut cfg = RichHelpConfig::default();
    cfg.text_markup = TextMarkup::Markdown;
    let cmd = CommandInfo {
        usage: "Usage: t".to_string(),
        help: Some("Intro\n\n> quoted\n\nEnd".to_string()),
        deprecated: None,
        epilog: None,
        options: vec![],
        arguments: vec![],
    };
    let blocks = RichHelpRenderer::new(cfg).render_command_help(&cmd);
    match &blocks[1] {
        Block::Padded(Content::Markdown(md), _, _, _) => assert_eq!(md, "Intro\n\n> quoted  \nEnd"),
        _ => panic!("expected Markdown help"),
    }
}

#[test]
fn sync_twice_is_sync_once() {
    let mut cfg = RichHelpConfig::default();
    cfg.style_commands_panel_border = "green".to_string();
    cfg.sync_render_config();
    let first = (cfg.panel_commands.border_style.clone(), cfg.text_emojis, cfg.table_commands.padding);
    cfg.sync_render_config();
    assert_eq!((cfg.panel_commands.border_style.clone(), cfg.text_emojis, cfg.table_commands.padding), first);
}

#[test]
fn aliases_in_code_point_order() {
    let cfg = RichHelpConfig::default();
    let sub = SubcommandInfo {
        id: 7,
        registered: "go".to_string(),
        name: None,
        hidden: false,
        aliases: vec!["é".to_string(), "z".to_string(), "A".to_string(), "a".to_string(), "go".to_string()],
        derived_short_help: String::new(),
        short_help: Some("Go.".to_string()),
        help: Some("Ignored.".to_string()),
    };
    let entries = collect_commands(&cfg, &vec![sub]);
    assert_eq!(entries[0].name, "go");
    assert_eq!(entries[0].aliases, vec!["A", "a", "z", "é"]);
    assert_eq!(entries[0].help, "Go.");
}

#[test]
fn no_sources_looked_up_by_default() {
    let r = RichHelpRenderer::new(RichHelpConfig::default());
    let e = ErrorInfo {
        kind: ErrorKind::MissingParameter,
        message: "Missing option '--name'.".to_string(),
        param_name: Some("name".to_string()),
        param_hint: None,
    };
    assert!(r.error_param_names(&e).is_empty());
}
