use vstd::prelude::*;

verus! {

// ---------------------------------------------------------------------------
// What the renderer reads of a command-line definition, as plain values.
// ---------------------------------------------------------------------------

/// An option of a command, as far as its help entry is concerned.
#[derive(Debug, Clone)]
pub struct OptionInfo {
    /// The parameter name the option stores its value under.
    pub name: String,
    /// Long spellings, such as `--name`.
    pub long: Vec<String>,
    /// Short spellings, such as `-n`.
    pub short: Vec<String>,
    pub is_flag: bool,
    /// A flag given as an `--x/--no-x` pair.
    pub is_bool_flag: bool,
    /// A flag counted by repetition.
    pub count: bool,
    pub required: bool,
    pub hidden: bool,
    pub help: Option<String>,
    /// The environment variables the option reads.
    pub envvar: Option<Vec<String>>,
    pub show_envvar: bool,
    pub show_default: bool,
    pub default: Option<String>,
    pub prompt: Option<String>,
    pub confirmation_prompt: bool,
    pub hide_input: bool,
    /// The placeholder shown for the option's value.
    pub metavar: Option<String>,
    /// The placeholder as it was configured, which also carries the output of
    /// a version option.
    pub configured_metavar: Option<String>,
}

/// A positional argument of a command.
#[derive(Debug, Clone)]
pub struct ArgumentInfo {
    pub name: String,
    pub hidden: bool,
    pub required: bool,
    pub help: Option<String>,
    /// The placeholder its value type gives, if any.
    pub type_metavar: Option<String>,
    /// The name of its value type.
    pub value_type: String,
    /// The (name, help) pair of its help entry, if it has one.
    pub help_record: Option<(String, String)>,
}

/// A command as its help page shows it.
#[derive(Debug, Clone)]
pub struct CommandInfo {
    /// The usage line, such as `"Usage: tool [OPTIONS]"`.
    pub usage: String,
    pub help: Option<String>,
    /// `Some` for a deprecated command, with the reason (possibly empty).
    pub deprecated: Option<String>,
    pub epilog: Option<String>,
    /// The options, the `--help` option the command adds (if any) last.
    pub options: Vec<OptionInfo>,
    pub arguments: Vec<ArgumentInfo>,
}

/// A subcommand registered in a group, under the name `registered`.
#[derive(Debug, Clone)]
pub struct SubcommandInfo {
    /// Identifies the command object: equal for the entries of one command
    /// registered under several names.
    pub id: usize,
    pub registered: String,
    /// The command's own name, if it has one.
    pub name: Option<String>,
    pub hidden: bool,
    /// The aliases the group records for `registered`.
    pub aliases: Vec<String>,
    /// The short help the command library derives.
    pub derived_short_help: String,
    pub short_help: Option<String>,
    pub help: Option<String>,
}

/// A group: a command with subcommands.
#[derive(Debug, Clone)]
pub struct GroupInfo {
    pub command: CommandInfo,
    pub subcommands: Vec<SubcommandInfo>,
}

/// The kind of a command-line error, as far as naming its parameter goes.
#[derive(Debug, Clone, Copy, PartialEq, Eq, Structural)]
pub enum ErrorKind {
    Abort,
    BadParameter,
    MissingParameter,
    BadOptionUsage,
    Other,
}

/// A command-line error to report.
#[derive(Debug, Clone)]
pub struct ErrorInfo {
    pub kind: ErrorKind,
    /// The error's full message.
    pub message: String,
    /// The parameter name the error carries.
    pub param_name: Option<String>,
    /// The hints the error shows in place of the parameter name.
    pub param_hint: Option<Vec<String>>,
}

} // verus!
