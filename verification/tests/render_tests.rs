use rich_click_rs::commands::collect_commands;
use rich_click_rs::config::{BoxType, CommandAliases, GroupConfig, RichHelpConfig, TextMarkup};
use rich_click_rs::doc::{Block, Cell, Content, PanelBody, StyledText};
use rich_click_rs::model::{ArgumentInfo, CommandInfo, ErrorInfo, ErrorKind, GroupInfo, OptionInfo, SubcommandInfo};
use rich_click_rs::option_help::{option_help_markdown, option_help_text};
use rich_click_rs::page::{ansi_safe_check, is_slim_theme, markup_safe_check, options_readable_check, ConsoleSettings};
use rich_click_rs::render::RichHelpRenderer;

fn value_option(long: &str, short: &str, help: &str) -> OptionInfo {
    OptionInfo {
        name: long.trim_start_matches('-').replace('-', "_"),
        long: vec![long.to_string()],
        short: if short.is_empty() { vec![] } else { vec![short.to_string()] },
        is_flag: false,
        is_bool_flag: false,
        count: false,
        required: false,
        hidden: false,
        help: Some(help.to_string()),
        envvar: None,
        show_envvar: false,
        show_default: false,
        default: None,
        prompt: None,
        confirmation_prompt: false,
        hide_input: false,
        metavar: Some("TEXT".to_string()),
        configured_metavar: None,
    }
}

fn help_option() -> OptionInfo {
    let mut o = value_option("--help", "", "Show this message and exit.");
    o.is_flag = true;
    o.metavar = None;
    o
}

fn command(usage: &str, help: Option<&str>, options: Vec<OptionInfo>, arguments: Vec<ArgumentInfo>) -> CommandInfo {
    CommandInfo {
        usage: usage.to_string(),
        help: help.map(|s| s.to_string()),
        deprecated: None,
        epilog: None,
        options,
        arguments,
    }
}

fn subcommand(id: usize, name: &str, help: &str) -> SubcommandInfo {
    SubcommandInfo {
        id,
        registered: name.to_string(),
        name: Some(name.to_string()),
        hidden: false,
        aliases: vec![],
        derived_short_help: help.to_string(),
        short_help: None,
        help: Some(help.to_string()),
    }
}

fn group_config(name: &str, items: &[&str]) -> GroupConfig {
    GroupConfig {
        name: name.to_string(),
        items: items.iter().map(|s| s.to_string()).collect(),
        help: None,
        inline_help_in_title: None,
        title_style: None,
        help_style: None,
    }
}

fn text_of(t: &StyledText) -> String {
    t.segments.iter().map(|s| s.text.clone()).collect()
}

fn panel_titles(blocks: &[Block]) -> Vec<String> {
    blocks
        .iter()
        .filter_map(|b| match b {
            Block::Panel(p) => Some(text_of(&p.title)),
            _ => None,
        })
        .collect()
}

fn panel_first_cells(blocks: &[Block], title: &str) -> Vec<String> {
    for b in blocks {
        if let Block::Panel(p) = b {
            if text_of(&p.title) == title {
                if let PanelBody::Table(t) = &p.body {
                    return t
                        .rows
                        .iter()
                        .map(|r| match &r[0] {
                            Cell::Text(t) => text_of(t),
                            Cell::Markdown(s) => s.clone(),
                        })
                        .collect();
                }
            }
        }
    }
    vec![]
}

fn lines(blocks: &[Block]) -> Vec<String> {
    blocks
        .iter()
        .filter_map(|b| match b {
            Block::Line(s) => Some(s.trim_end().to_string()),
            _ => None,
        })
        .collect()
}

fn service_group(names: &[(&str, &str)], cfg_groups: Vec<GroupConfig>) -> (GroupInfo, RichHelpConfig) {
    let subs = names.iter().enumerate().map(|(i, (n, h))| subcommand(i, n, h)).collect();
    let g = GroupInfo {
        command: command("Usage: cli [OPTIONS] COMMAND [ARGS]...", Some("My CLI"), vec![help_option()], vec![]),
        subcommands: subs,
    };
    let mut cfg = RichHelpConfig::default();
    cfg.command_groups = cfg_groups;
    (g, cfg)
}

#[test]
fn test_command_groups_rendered_as_separate_panels() {
    let (g, cfg) = service_group(
        &[("start", "Start"), ("stop", "Stop"), ("status", "Status"), ("logs", "Logs")],
        vec![group_config("Lifecycle", &["start", "stop"]), group_config("Observability", &["status", "logs"])],
    );
    let blocks = RichHelpRenderer::new(cfg).render_group_help(&g);
    assert_eq!(panel_titles(&blocks), vec![" Options ", " Lifecycle ", " Observability "]);
    assert_eq!(panel_first_cells(&blocks, " Lifecycle "), vec!["start", "stop"]);
    assert_eq!(panel_first_cells(&blocks, " Observability "), vec!["status", "logs"]);
}

#[test]
fn test_command_groups_ungrouped_fallback() {
    let (g, cfg) = service_group(
        &[("run", "Run"), ("build", "Build"), ("extra", "Extra command")],
        vec![group_config("Main", &["run", "build"])],
    );
    let blocks = RichHelpRenderer::new(cfg).render_group_help(&g);
    assert_eq!(panel_titles(&blocks), vec![" Options ", " Main ", " Commands "]);
    assert_eq!(panel_first_cells(&blocks, " Main "), vec!["run", "build"]);
    assert_eq!(panel_first_cells(&blocks, " Commands "), vec!["extra"]);
}

#[test]
fn default_panels_first_and_commands_before_options() {
    let (g, mut cfg) = service_group(
        &[("run", "Run"), ("extra", "Extra")],
        vec![group_config("Main", &["run"])],
    );
    cfg.default_panels_first = true;
    cfg.commands_before_options = true;
    let blocks = RichHelpRenderer::new(cfg).render_group_help(&g);
    assert_eq!(panel_titles(&blocks), vec![" Commands ", " Main ", " Options "]);
}

#[test]
fn usage_line_styles_command_name() {
    let cmd = command("Usage: tool [OPTIONS]", None, vec![], vec![]);
    let blocks = RichHelpRenderer::new(RichHelpConfig::default()).render_command_help(&cmd);
    match &blocks[0] {
        Block::Padded(Content::Marked(m), _, _, end) => {
            assert_eq!(m.source, "Usage: tool [OPTIONS]");
            assert_eq!(m.base, "yellow");
            assert_eq!(m.spans.len(), 1);
            assert_eq!((m.spans[0].start, m.spans[0].end), (7, 11));
            assert_eq!(m.spans[0].style, "bold");
            assert_eq!(end, "");
        }
        _ => panic!("expected the usage block"),
    }
    assert_eq!(blocks.len(), 1);
}

#[test]
fn option_help_sections() {
    let mut cfg = RichHelpConfig::default();
    let mut o = value_option("--name", "-n", "Name to\ngreet.");
    o.default = Some("world".to_string());
    o.show_default = true;
    o.envvar = Some(vec!["GREET_NAME".to_string(), "NAME".to_string()]);
    o.show_envvar = true;
    o.required = true;
    assert_eq!(
        text_of(&option_help_text(&cfg, &o)),
        "Name to greet. [env var: GREET_NAME,NAME] [default: world] [required]"
    );
    cfg.text_markup = TextMarkup::Markdown;
    assert_eq!(
        option_help_markdown(&cfg, &o),
        "Name to\ngreet.  \n[env var: GREET_NAME,NAME]  \n[default: world]  \n[required]"
    );
}

#[test]
fn bool_flag_default_shows_selected_spelling() {
    let cfg = RichHelpConfig::default();
    let mut o = value_option("--cache", "", "Use the cache.");
    o.long = vec!["--cache".to_string(), "--no-cache".to_string()];
    o.is_flag = true;
    o.is_bool_flag = true;
    o.metavar = None;
    o.show_default = true;
    o.default = Some("false".to_string());
    assert_eq!(text_of(&option_help_text(&cfg, &o)), "Use the cache. [default: no-cache]");
    o.default = Some("true".to_string());
    assert_eq!(text_of(&option_help_text(&cfg, &o)), "Use the cache. [default: cache]");
}

#[test]
fn prompt_label_when_enabled() {
    let mut cfg = RichHelpConfig::default();
    let mut o = value_option("--token", "", "API token.");
    o.prompt = Some("Token".to_string());
    o.hide_input = true;
    assert_eq!(text_of(&option_help_text(&cfg, &o)), "API token.");
    cfg.show_prompt = true;
    assert_eq!(text_of(&option_help_text(&cfg, &o)), "API token. [prompt (hidden)]");
}

#[test]
fn options_table_columns() {
    let cfg = RichHelpConfig::default();
    let cmd = command("Usage: t", None, vec![value_option("--name", "", "Name."), help_option()], vec![]);
    let blocks = RichHelpRenderer::new(cfg).render_command_help(&cmd);
    for b in &blocks {
        if let Block::Panel(p) = b {
            if let PanelBody::Table(t) = &p.body {
                // No option is required and none has a short name.
                assert_eq!(t.rows[0].len(), 3);
                assert_eq!(t.column_ratios, vec![None, None, Some(1)]);
                match &t.rows[0][1] {
                    Cell::Text(c) => assert_eq!(text_of(c), "TEXT"),
                    _ => panic!(),
                }
                match &t.rows[1][1] {
                    Cell::Text(c) => assert_eq!(text_of(c), ""),
                    _ => panic!(),
                }
                return;
            }
        }
    }
    panic!("no options table");
}

#[test]
fn aliases_sorted_without_duplicates() {
    let mut cfg = RichHelpConfig::default();
    cfg.helptext_show_aliases = true;
    cfg.command_aliases = vec![CommandAliases { name: "rm".to_string(), aliases: vec!["zap".to_string(), "remove".to_string()] }];
    let mut s = subcommand(0, "rm", "Remove files.\n\nLonger text.");
    s.name = Some("remove".to_string());
    s.aliases = vec!["erase".to_string(), "del".to_string(), "erase".to_string()];
    let mut dup = subcommand(0, "remove", "Remove files.");
    dup.name = Some("remove".to_string());
    let mut hidden = subcommand(1, "secret", "Hidden.");
    hidden.hidden = true;
    let entries = collect_commands(&cfg, &vec![s, dup, hidden]);
    assert_eq!(entries.len(), 1);
    assert_eq!(entries[0].name, "remove");
    assert_eq!(entries[0].aliases, vec!["del", "erase", "rm", "zap"]);
    assert_eq!(entries[0].help, "Remove files.  Aliases: del,erase,rm,zap");
}

#[test]
fn commands_hidden_when_configured() {
    let mut cfg = RichHelpConfig::default();
    cfg.show_commands = Some(false);
    assert!(collect_commands(&cfg, &vec![subcommand(0, "a", "A")]).is_empty());
}

#[test]
fn error_report_with_source() {
    let mut cfg = RichHelpConfig::default();
    cfg.errors_show_param_source = true;
    let r = RichHelpRenderer::new(cfg);
    let e = ErrorInfo {
        kind: ErrorKind::BadParameter,
        message: "Invalid value for '--name'\nUsage hint".to_string(),
        param_name: Some("name".to_string()),
        param_hint: Some(vec!["'--name' / '-n'".to_string()]),
    };
    assert_eq!(r.error_param_names(&e), vec!["'__name'", "'_n'", "name"]);
    let known = vec![("other".to_string(), "DEFAULT".to_string()), ("name".to_string(), "ENVIRONMENT".to_string())];
    assert_eq!(r.param_source_for_error(&e, &known), Some("ENVIRONMENT".to_string()));
    let earlier = vec![("name".to_string(), "ENVIRONMENT".to_string()), ("'_n'".to_string(), "COMMANDLINE".to_string())];
    assert_eq!(r.param_source_for_error(&e, &earlier), Some("COMMANDLINE".to_string()));
    assert_eq!(r.param_source_for_error(&e, &vec![("other".to_string(), "DEFAULT".to_string())]), None);
    let blocks = r.render_error(&e, &known);
    match &blocks[0] {
        Block::Panel(p) => {
            assert_eq!(text_of(&p.title), " Error ");
            assert_eq!(p.border_style, "red");
            assert_eq!(p.box_type, Some(BoxType::Rounded));
            match &p.body {
                PanelBody::Text(t) => assert_eq!(text_of(t), "Invalid value for '--name' (from ENVIRONMENT)\nUsage hint"),
                _ => panic!(),
            }
        }
        _ => panic!("expected the error panel"),
    }
    assert_eq!(blocks.len(), 1);
}

#[test]
fn abort_report() {
    let r = RichHelpRenderer::new(RichHelpConfig::default());
    let e = ErrorInfo { kind: ErrorKind::Abort, message: "ignored".to_string(), param_name: None, param_hint: None };
    assert!(r.error_param_names(&e).is_empty());
    let known = vec![("name".to_string(), "DEFAULT".to_string())];
    assert_eq!(r.param_source_for_error(&e, &known), None);
    match &r.render_error(&e, &known)[0] {
        Block::Panel(p) => match &p.body {
            PanelBody::Text(t) => assert_eq!(text_of(t), "Aborted."),
            _ => panic!(),
        },
        _ => panic!(),
    }
}

#[test]
fn slim_layout_reads_markup() {
    let mut cfg = RichHelpConfig::default();
    cfg.theme = Some(" Dark-SLIM ".to_string());
    cfg.text_markup = TextMarkup::Rich;
    cfg.width = Some(60);
    assert!(is_slim_theme(&cfg));
    let cmd = command(
        "Usage: t",
        None,
        vec![value_option("--loud", "-l", "[bold]Loud[/bold] output"), help_option()],
        vec![],
    );
    let blocks = RichHelpRenderer::new(cfg).render_command_help(&cmd);
    assert_eq!(
        lines(&blocks),
        vec![
            "Options:".to_string(),
            "  -l, --loud <TEXT>  Loud output".to_string(),
            format!("  --help{}  Show this message and exit.", " ".repeat(11)),
            String::new(),
        ]
    );
    for l in blocks.iter().filter_map(|b| match b {
        Block::Line(s) => Some(s),
        _ => None,
    }) {
        assert_eq!(l.chars().count(), 60);
    }
}

#[test]
fn slim_layout_reads_ansi() {
    let mut cfg = RichHelpConfig::default();
    cfg.theme = Some("slim".to_string());
    let cmd = command("Usage: t", None, vec![value_option("--x", "", "\u{1b}[1mBold\u{1b}[0m text")], vec![]);
    let blocks = RichHelpRenderer::new(cfg).render_command_help(&cmd);
    assert_eq!(lines(&blocks), vec!["Options:", "  --x <TEXT>  Bold text", ""]);
}

#[test]
fn argument_panel_rows() {
    let mut cfg = RichHelpConfig::default();
    cfg.show_arguments = Some(true);
    let args = vec![
        ArgumentInfo {
            name: "straße".to_string(),
            hidden: false,
            required: true,
            help: Some("Where to go.".to_string()),
            type_metavar: Some("a|b".to_string()),
            value_type: "text".to_string(),
            help_record: None,
        },
        ArgumentInfo {
            name: "hidden".to_string(),
            hidden: true,
            required: false,
            help: None,
            type_metavar: None,
            value_type: "text".to_string(),
            help_record: None,
        },
    ];
    let cmd = command("Usage: t", None, vec![], args);
    let blocks = RichHelpRenderer::new(cfg).render_command_help(&cmd);
    match &blocks[1] {
        Block::Panel(p) => {
            assert_eq!(text_of(&p.title), " Arguments ");
            match &p.body {
                PanelBody::Table(t) => {
                    assert_eq!(t.rows.len(), 1);
                    assert_eq!(t.padding, (0, 2));
                    assert!(t.collapse_padding);
                    let cells: Vec<String> = t.rows[0]
                        .iter()
                        .map(|c| match c {
                            Cell::Text(s) => text_of(s),
                            Cell::Markdown(s) => s.clone(),
                        })
                        .collect();
                    assert_eq!(cells, vec!["*", "STRASSE", "{a|b}", "Where to go. [required]"]);
                }
                _ => panic!(),
            }
        }
        _ => panic!("expected the arguments panel"),
    }
}

#[test]
fn deprecated_help_text() {
    let mut cmd = command("Usage: t", Some("Does things.\nMore."), vec![], vec![]);
    cmd.deprecated = Some("use other".to_string());
    let blocks = RichHelpRenderer::new(RichHelpConfig::default()).render_command_help(&cmd);
    match &blocks[1] {
        Block::Padded(Content::Marked(m), _, _, _) => {
            assert_eq!(m.source, "Does things. More. [deprecated: use other]");
            let last = m.spans.last().unwrap();
            assert_eq!((last.start, last.end), (19, 42));
            assert_eq!(last.style, "red");
        }
        _ => panic!("expected the help text"),
    }
    let mut only = command("Usage: t", None, vec![], vec![]);
    only.deprecated = Some(String::new());
    let blocks = RichHelpRenderer::new(RichHelpConfig::default()).render_command_help(&only);
    match &blocks[1] {
        Block::Padded(Content::Text(t), _, _, _) => assert_eq!(text_of(t), "[deprecated]"),
        _ => panic!("expected the notice"),
    }
}

#[test]
fn epilog_follows_blank_line() {
    let mut cmd = command("Usage: t", None, vec![], vec![]);
    cmd.epilog = Some("Bye.".to_string());
    let blocks = RichHelpRenderer::new(RichHelpConfig::default()).render_command_help(&cmd);
    assert_eq!(blocks.len(), 3);
    match (&blocks[1], &blocks[2]) {
        (Block::Line(l), Block::Text(t, end)) => {
            assert_eq!(l, "");
            assert_eq!(text_of(t), "Bye.");
            assert_eq!(end, "\n");
        }
        _ => panic!(),
    }
}

#[test]
fn rule_panels_draw_title_over_rule() {
    let mut cfg = RichHelpConfig::default();
    cfg.style_options_panel_box = Some(BoxType::Horizontals);
    cfg.panel_title_padding = 0;
    cfg.panel_inline_help_in_title = true;
    cfg.width = Some(20);
    cfg.sync_render_config();
    let cmd = command("Usage: t", None, vec![help_option()], vec![]);
    let blocks = RichHelpRenderer::new(cfg).render_command_help(&cmd);
    assert_eq!(lines(&blocks), vec![" Options".to_string(), format!(" {}", "─".repeat(18))]);
}

#[test]
fn console_settings_follow_config() {
    let mut cfg = RichHelpConfig::default();
    cfg.width = Some(100);
    cfg.force_terminal = Some(false);
    let r = RichHelpRenderer::new(cfg);
    let t = ConsoleSettings { width: 80, max_width: 80, color_system: None, is_terminal: true };
    let s = r.console_settings(t);
    assert_eq!(s.width, 100);
    assert_eq!(s.max_width, 100);
    assert!(!s.is_terminal);
    assert_eq!(s.color_system, None);
    assert_eq!(r.config().width, Some(100));
}

#[test]
fn error_source_not_shown_when_off() {
    let r = RichHelpRenderer::new(RichHelpConfig::default());
    let e = ErrorInfo {
        kind: ErrorKind::BadParameter,
        message: "Invalid value".to_string(),
        param_name: Some("name".to_string()),
        param_hint: None,
    };
    let known = vec![("name".to_string(), "ENVIRONMENT".to_string())];
    assert_eq!(r.param_source_for_error(&e, &known), None);
    match &r.render_error(&e, &known)[0] {
        Block::Panel(p) => match &p.body {
            PanelBody::Text(t) => assert_eq!(text_of(t), "Invalid value"),
            _ => panic!(),
        },
        _ => panic!(),
    }
}

#[test]
fn readable_checks() {
    assert!(markup_safe_check("[bold]héllo[/] wörld"));
    assert!(markup_safe_check("plain é text"));
    assert!(!markup_safe_check("[#éa]x"));
    assert!(markup_safe_check("a [tag é"));
    assert!(markup_safe_check("a [tag] é ] é"));
    assert!(markup_safe_check("[défaut: 3]"));
    assert!(markup_safe_check("[a#é]x"));
    assert!(markup_safe_check("[# é]x"));
    assert!(markup_safe_check("[#\u{a0}é]x"));
    assert!(markup_safe_check("#éa [bold]x[/]"));
    assert!(!markup_safe_check("[bold on #éa]x"));
    assert!(!markup_safe_check("[x=#é]y"));
    assert!(!markup_safe_check("[ ##aé]y"));
    assert!(ansi_safe_check("\u{1b}[1mBold\u{1b}[0m é"));
    assert!(ansi_safe_check("ends with escape \u{1b}"));
    assert!(!ansi_safe_check("\u{1b}é"));
}

#[test]
fn slim_help_readability() {
    let mut cfg = RichHelpConfig::default();
    cfg.theme = Some("slim".to_string());
    cfg.text_markup = TextMarkup::Rich;
    let good = vec![value_option("--loud", "-l", "[bold]Lóud[/bold] output")];
    assert!(options_readable_check(&cfg, &good));
    let bad = vec![value_option("--loud", "-l", "[#éa]x")];
    assert!(!options_readable_check(&cfg, &bad));
    let mut hidden = value_option("--loud", "-l", "[#éa]x");
    hidden.hidden = true;
    assert!(options_readable_check(&cfg, &vec![hidden]));
    cfg.text_markup = TextMarkup::Ansi;
    assert!(!options_readable_check(&cfg, &vec![value_option("--x", "", "\u{1b}é")]));
    assert!(options_readable_check(&cfg, &bad));
    cfg.theme = None;
    assert!(options_readable_check(&cfg, &vec![value_option("--x", "", "\u{1b}é")]));
}

#[test]
fn slim_layout_reads_non_ascii_tags() {
    let mut cfg = RichHelpConfig::default();
    cfg.theme = Some("slim".to_string());
    cfg.text_markup = TextMarkup::Rich;
    let opts = vec![value_option("--n", "", "Count [défaut: 3]")];
    assert!(options_readable_check(&cfg, &opts));
    let cmd = command("Usage: t", None, opts, vec![]);
    let blocks = RichHelpRenderer::new(cfg).render_command_help(&cmd);
    assert_eq!(lines(&blocks)[0], "Options:");
}
