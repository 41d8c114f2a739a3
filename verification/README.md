# rich_click_rs

Rich, panel-based help pages and error reports for command-line programs
built with click-rs, drawn with rich-rs.

The library (`src/`) is written in Verus and verified. It computes each help
page as data (`doc::Block`s: padded texts, panels, tables, plain lines) from
plain descriptions of commands (`model`), and a configuration (`config`,
`theme`, `env`). Every function states what it returns; the laws in `laws`
(every option and subcommand lands in exactly one panel, synchronising the
settings is idempotent, the subcommand entries are determined, and others)
are proved.

- `config`, `theme`, `env`, `json`: the configuration, its themes
  (`default`, `default-box`, `solarized`), JSON overrides and environment
  settings (`RICH_CLICK_THEME` names a theme or holds a JSON object of
  overrides).
- `model`: commands, options, arguments, subcommands and errors as plain values.
- `helptext`, `option_help`, `option_table`, `commands`, `order`, `table`,
  `panels`, `page`, `render`: the pieces of a page and the renderer.
- `cli`: command-line helpers (argument matching, version output, parameter
  names of errors).
- `text`: the string operations the rest is built on, with their models.

`app/` reads click-rs commands and the process environment, draws the pages
with rich-rs, and runs commands with rich help and errors (`rich_main!`,
`rich_main_with_errors!`, `rich_main_group!`, `rich_main_group_with_errors!`,
`RichCliRunner`).
