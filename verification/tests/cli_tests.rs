use rich_click_rs::cli::{
    append_suffix_to_first_line, arg_matches_opt, collect_param_candidates, normalize_param_name,
    version_output_from_args,
};
use rich_click_rs::env::{parse_truthy, parse_usize};
use rich_click_rs::model::OptionInfo;

fn option(long: &[&str], short: &[&str], configured_metavar: Option<&str>) -> OptionInfo {
    OptionInfo {
        name: "opt".to_string(),
        long: long.iter().map(|s| s.to_string()).collect(),
        short: short.iter().map(|s| s.to_string()).collect(),
        is_flag: true,
        is_bool_flag: false,
        count: false,
        required: false,
        hidden: false,
        help: None,
        envvar: None,
        show_envvar: false,
        show_default: false,
        default: None,
        prompt: None,
        confirmation_prompt: false,
        hide_input: false,
        metavar: None,
        configured_metavar: configured_metavar.map(|s| s.to_string()),
    }
}

#[test]
fn arg_matches_exact_and_attached_value() {
    assert!(arg_matches_opt("--version", "--version"));
    assert!(arg_matches_opt("--name=value", "--name"));
    assert!(!arg_matches_opt("--names", "--name"));
    assert!(!arg_matches_opt("--name", "--names"));
}

#[test]
fn arg_matches_short_flag_bundles() {
    assert!(arg_matches_opt("-xvz", "-v"));
    assert!(!arg_matches_opt("-xz", "-v"));
    assert!(!arg_matches_opt("--v", "-v"));
    assert!(!arg_matches_opt("-x", "--"));
}

#[test]
fn suffix_goes_on_first_line() {
    assert_eq!(append_suffix_to_first_line("bad value\nmore", " (from env)"), "bad value (from env)\nmore");
    assert_eq!(append_suffix_to_first_line("bad value", " (from env)"), "bad value (from env)");
    assert_eq!(append_suffix_to_first_line("", "!"), "!");
}

#[test]
fn param_candidates_long_first() {
    assert_eq!(collect_param_candidates("-n / --name"), vec!["--name".to_string(), "-n".to_string()]);
    assert_eq!(collect_param_candidates(" NAME , ,--x"), vec!["--x".to_string(), "NAME".to_string()]);
    assert_eq!(collect_param_candidates(""), Vec::<String>::new());
}

#[test]
fn param_names_normalized() {
    assert_eq!(normalize_param_name("--dry-run"), Some("dry_run".to_string()));
    assert_eq!(normalize_param_name("--no-cache"), Some("cache".to_string()));
    assert_eq!(normalize_param_name("-v"), Some("v".to_string()));
    assert_eq!(normalize_param_name("--"), Some("".to_string()));
    assert_eq!(normalize_param_name("-"), None);
    assert_eq!(normalize_param_name("  "), None);
    assert_eq!(normalize_param_name("Out-File"), Some("out_file".to_string()));
}

#[test]
fn truthy_values() {
    assert_eq!(parse_truthy(" YES "), Some(true));
    assert_eq!(parse_truthy("on"), Some(true));
    assert_eq!(parse_truthy("1"), Some(true));
    assert_eq!(parse_truthy("Off"), Some(false));
    assert_eq!(parse_truthy("0"), Some(false));
    assert_eq!(parse_truthy("maybe"), None);
}

#[test]
fn usize_values() {
    assert_eq!(parse_usize("120"), Some(120));
    assert_eq!(parse_usize("+7"), Some(7));
    assert_eq!(parse_usize(""), None);
    assert_eq!(parse_usize("+"), None);
    assert_eq!(parse_usize("-1"), None);
    assert_eq!(parse_usize("12a"), None);
    assert_eq!(parse_usize("99999999999999999999999"), None);
    assert_eq!(parse_usize(&usize::MAX.to_string()), Some(usize::MAX));
}

#[test]
fn version_output_found() {
    let opts = vec![option(&["--version"], &["-V"], Some("__click_version__:tool 1.2"))];
    let args = vec!["-V".to_string()];
    assert_eq!(version_output_from_args(&opts, &args), Some("tool 1.2".to_string()));
    let args = vec!["run".to_string()];
    assert_eq!(version_output_from_args(&opts, &args), None);
}

#[test]
fn version_output_searches_every_option() {
    let opts = vec![
        option(&["--verbose"], &[], None),
        option(&["--version"], &[], Some("__click_version__:1.0")),
    ];
    let args = vec!["--version".to_string()];
    assert_eq!(version_output_from_args(&opts, &args), Some("1.0".to_string()));
}

#[test]
fn version_output_after_other_option() {
    let opts = vec![
        option(&["--type"], &[], Some("TYPE")),
        option(&["--version"], &[], Some("__click_version__:mytool 1.23")),
    ];
    let args = vec!["--version".to_string()];
    assert_eq!(version_output_from_args(&opts, &args), Some("mytool 1.23".to_string()));
    let args = vec!["--type".to_string()];
    assert_eq!(version_output_from_args(&opts, &args), None);
}

#[test]
fn normalize_ignores_surrounding_white_space() {
    for value in ["--dry-run", "-v", "Some-Name", "--no-cache", "  ", "---"] {
        let padded = format!(" \t{}\n ", value);
        assert_eq!(normalize_param_name(&padded), normalize_param_name(value));
        assert_eq!(normalize_param_name(value.trim()), normalize_param_name(value));
    }
    assert_eq!(normalize_param_name("\u{3000}--dry-run\u{a0}"), Some("dry_run".to_string()));
}
