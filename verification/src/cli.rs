//! The commands of the tool, as plain data.

use vstd::prelude::*;
use crate::text::same_text;

verus! {

/// What the user asks for.
#[derive(Debug, PartialEq, Eq)]
pub enum Commands {
    /// Log in to Microsoft's Graph database.
    Login {  },
    /// Log out of Microsoft's single sign-on.
    Logout {  },
    /// Display the kanban board.
    Show {
        /// Display as JSON instead of the default table.
        json: bool,
    },
    /// Create a new task.
    Add {
        /// The task description text.
        task: String,
    },
    /// Complete the given task.
    Complete { id: u32 },
    /// Reopen the given task.
    Reopen { id: u32 },
    /// Delete the given task.
    Delete { id: u32 },
    /// Show the user's details.
    Me {
        /// Display output as "lines", "json" or "table".
        output_format: String,
    },
    /// Show the user's To Do lists.
    Lists {
        /// Display output as "lines", "json" or "table".
        output_format: String,
    },
    /// Show the tasks of one list.
    Tasks {
        /// Display output as "lines", "json" or "table".
        output_format: String,
        /// Display all tasks, including those completed.
        display_all: bool,
        /// The short number of the list.
        list_id: u16,
    },
    /// The interactive shell.
    Intr,
}

/// A parsed command line.
#[derive(Debug, PartialEq, Eq)]
pub struct Cli {
    pub command: Option<Commands>,
}

/// How a command presents its result.
#[derive(Clone, Copy, Debug, PartialEq, Eq, Structural)]
pub enum OutputFormat {
    Lines,
    Json,
    Table,
}

/// The format that a name stands for: `"json"` and `"table"` name themselves,
/// every other name means lines.
pub open spec fn format_named(name: Seq<char>) -> OutputFormat {
    if name == "json"@ {
        OutputFormat::Json
    } else if name == "table"@ {
        OutputFormat::Table
    } else {
        OutputFormat::Lines
    }
}

impl OutputFormat {
    /// Reads the value of an `--output-format` option.
    pub fn parse(name: &str) -> (r: OutputFormat)
        ensures
            r == format_named(name@),
    {
        if same_text(name, "json") {
            OutputFormat::Json
        } else if same_text(name, "table") {
            OutputFormat::Table
        } else {
            OutputFormat::Lines
        }
    }
}

/// What the interactive shell does after a command line has been parsed.
#[derive(Clone, Copy, Debug, PartialEq, Eq, Structural)]
pub enum ShellStep {
    /// Carry the command out and prompt again.
    Run,
    /// Report the command line and leave the shell.
    Leave,
}

/// Whether the interactive shell carries `command` out.
pub open spec fn runs_in_shell(command: Option<Commands>) -> bool {
    match command {
        Some(Commands::Login {  }) => true,
        Some(Commands::Me { .. }) => true,
        Some(Commands::Show { .. }) => true,
        Some(Commands::Add { .. }) => true,
        Some(Commands::Complete { .. }) => true,
        Some(Commands::Reopen { .. }) => true,
        Some(Commands::Delete { .. }) => true,
        _ => false,
    }
}

/// Decides one round of the interactive shell: logging in, the profile and
/// the task commands are carried out, anything else ends the shell.
pub fn interactive(cli: &Cli) -> (step: ShellStep)
    ensures
        step == if runs_in_shell(cli.command) {
            ShellStep::Run
        } else {
            ShellStep::Leave
        },
{
    match &cli.command {
        Some(Commands::Login {  }) => ShellStep::Run,
        Some(Commands::Me { .. }) => ShellStep::Run,
        Some(Commands::Show { .. }) => ShellStep::Run,
        Some(Commands::Add { .. }) => ShellStep::Run,
        Some(Commands::Complete { .. }) => ShellStep::Run,
        Some(Commands::Reopen { .. }) => ShellStep::Run,
        Some(Commands::Delete { .. }) => ShellStep::Run,
        _ => ShellStep::Leave,
    }
}

} // verus!
