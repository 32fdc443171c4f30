use vstd::prelude::*;

use crate::text::{owned, starts_with, str_eq, trim, trim_of};

verus! {

/// The command line: the project directory, whether to log in detail, and the command.
#[derive(Debug, Clone)]
pub struct Cli {
    pub project_dir: String,
    pub verbose: bool,
    pub command: Commands,
}

/// The commands of the program.
#[derive(Debug, Clone, Copy, PartialEq, Eq, Structural)]
pub enum Commands {
    /// Set up the project: scan the data files, record their structure, write the configuration.
    Init,
    /// Start the interactive analysis screen.
    Chat,
    /// Look for data quality problems and repair them.
    Clean,
    /// Manage the settings shared by all projects.
    Config { action: ConfigAction },
}

/// What the `config` command does.
#[derive(Debug, Clone, Copy, PartialEq, Eq, Structural)]
pub enum ConfigAction {
    /// Ask for the settings one by one.
    Setup,
    /// Print the settings.
    Show,
}

/// What a line typed at the prompt of the `chat` command asks for.
#[derive(Debug, Clone, PartialEq, Eq)]
pub enum ReplCommand {
    /// An empty line: ask again.
    Skip,
    Exit,
    Help,
    Clear,
    Refresh,
    /// A `/` command that is not known; holds the trimmed line.
    Unknown(String),
    /// A question for the agent; holds the trimmed line.
    Ask(String),
}

pub enum ReplCommandModel {
    Skip,
    Exit,
    Help,
    Clear,
    Refresh,
    Unknown(Seq<char>),
    Ask(Seq<char>),
}

impl View for ReplCommand {
    type V = ReplCommandModel;

    open spec fn view(&self) -> ReplCommandModel {
        match self {
            ReplCommand::Skip => ReplCommandModel::Skip,
            ReplCommand::Exit => ReplCommandModel::Exit,
            ReplCommand::Help => ReplCommandModel::Help,
            ReplCommand::Clear => ReplCommandModel::Clear,
            ReplCommand::Refresh => ReplCommandModel::Refresh,
            ReplCommand::Unknown(t) => ReplCommandModel::Unknown(t@),
            ReplCommand::Ask(t) => ReplCommandModel::Ask(t@),
        }
    }
}

/// The meaning of a line at the prompt, after trimming: nothing when empty; `/exit`,
/// `/quit`, `/q`, `/help`, `/clear`, `/refresh` or an unknown command when it begins
/// with `/`; a question otherwise.
pub open spec fn repl_command_of(line: Seq<char>) -> ReplCommandModel {
    let t = trim_of(line);
    if t.len() == 0 {
        ReplCommandModel::Skip
    } else if t[0] == '/' {
        if t == "/exit"@ || t == "/quit"@ || t == "/q"@ {
            ReplCommandModel::Exit
        } else if t == "/help"@ {
            ReplCommandModel::Help
        } else if t == "/clear"@ {
            ReplCommandModel::Clear
        } else if t == "/refresh"@ {
            ReplCommandModel::Refresh
        } else {
            ReplCommandModel::Unknown(t)
        }
    } else {
        ReplCommandModel::Ask(t)
    }
}

/// Reads a line typed at the prompt.
pub fn repl_command(line: &str) -> (r: ReplCommand)
    ensures
        r@ == repl_command_of(line@),
{
    let t = trim(line);
    if t.unicode_len() == 0 {
        return ReplCommand::Skip;
    }
    proof {
        reveal_strlit("/");
    }
    let slash = starts_with(t, "/");
    proof {
        assert(t@.subrange(0, 1)[0] == t@[0]);
        if t@[0] == '/' {
            assert(t@.subrange(0, 1) =~= "/"@);
        }
    }
    if !slash {
        return ReplCommand::Ask(owned(t));
    }
    if str_eq(t, "/exit") || str_eq(t, "/quit") || str_eq(t, "/q") {
        ReplCommand::Exit
    } else if str_eq(t, "/help") {
        ReplCommand::Help
    } else if str_eq(t, "/clear") {
        ReplCommand::Clear
    } else if str_eq(t, "/refresh") {
        ReplCommand::Refresh
    } else {
        ReplCommand::Unknown(owned(t))
    }
}

/// A setting after its prompt was answered: the trimmed answer, or the old value when
/// the answer is blank.
pub fn setting_after_input(current: String, input: &str) -> (r: String)
    ensures
        trim_of(input@).len() > 0 ==> r@ == trim_of(input@),
        trim_of(input@).len() == 0 ==> r@ == current@,
{
    let t = trim(input);
    if t.unicode_len() > 0 {
        owned(t)
    } else {
        current
    }
}

} // verus!
