use vstd::prelude::*;

use crate::commands::{entries_of, entry_views, CommandEntry};
use crate::config::{opt_view, RichHelpConfig};
use crate::doc::{block_views, Block};
use crate::model::{CommandInfo, ErrorInfo, GroupInfo};
use crate::page::{
    command_page, command_page_spec, console_settings, console_settings_spec, error_blocks_spec, error_param_names,
    error_param_names_spec, group_page, options_readable, param_source, param_source_spec, group_page_spec, render_error, ConsoleSettings,
};
use crate::text::views;

verus! {

/// Renders help pages and error reports with a configuration.
#[derive(Debug)]
pub struct RichHelpRenderer {
    config: RichHelpConfig,
}

impl RichHelpRenderer {
    pub closed spec fn spec_config(&self) -> RichHelpConfig {
        self.config
    }

    /// A renderer using `config`.
    pub fn new(config: RichHelpConfig) -> (r: Self)
        ensures
            r.spec_config() == config,
    {
        RichHelpRenderer { config }
    }

    /// The configuration the renderer uses.
    pub fn config(&self) -> (c: &RichHelpConfig)
        ensures
            *c == self.spec_config(),
    {
        &self.config
    }

    /// The help page of a command.
    pub fn render_command_help(&self, command: &CommandInfo) -> (r: Vec<Block>)
        requires
            options_readable(self.spec_config(), command.options@),
        ensures
            block_views(r@) == command_page_spec(self.spec_config(), *command),
    {
        command_page(&self.config, command)
    }

    /// The help page of a group.
    pub fn render_group_help(&self, group: &GroupInfo) -> (r: Vec<Block>)
        requires
            options_readable(self.spec_config(), group.command.options@),
        ensures
            exists|es: Seq<CommandEntry>| #![trigger group_page_spec(self.spec_config(), *group, es)]
                entries_of(self.spec_config(), group.subcommands@, entry_views(es))
                && block_views(r@) == group_page_spec(self.spec_config(), *group, es),
    {
        group_page(&self.config, group)
    }

    /// The names of the parameters an error is about, in the order in which
    /// the source of their value is to be looked up.
    pub fn error_param_names(&self, error: &ErrorInfo) -> (r: Vec<String>)
        ensures
            views(r@) == error_param_names_spec(self.spec_config(), *error),
    {
        error_param_names(&self.config, error)
    }

    /// Where the value of the parameter an error is about came from: the
    /// first of its names, in order, with a source in `known` (the parameter
    /// sources recorded for the command being run). None when sources are
    /// not shown.
    pub fn param_source_for_error(&self, error: &ErrorInfo, known: &Vec<(String, String)>) -> (r: Option<String>)
        ensures
            opt_view(r) == param_source_spec(self.spec_config(), *error, known@),
    {
        param_source(&self.config, error, known)
    }

    /// The report of an error; `known` holds the parameter sources recorded
    /// for the command being run, by parameter name.
    pub fn render_error(&self, error: &ErrorInfo, known: &Vec<(String, String)>) -> (r: Vec<Block>)
        ensures
            block_views(r@) == error_blocks_spec(self.spec_config(), *error, param_source_spec(self.spec_config(), *error, known@)),
    {
        render_error(&self.config, error, known)
    }

    /// The settings of the console pages are drawn on, from the terminal's.
    pub fn console_settings(&self, terminal: ConsoleSettings) -> (r: ConsoleSettings)
        ensures
            r == console_settings_spec(self.spec_config(), terminal),
    {
        console_settings(&self.config, terminal)
    }
}

} // verus!
