//! The viewer's decisions: which mode the arguments ask for, and how a read
//! of the file feeds the view.
use vstd::prelude::*;
use crate::log_file::{LogFile, new_entries, next_cursor};
use crate::tui::Tui;

verus! {

/// An action on the registry of applications.
pub enum ApplicationAction {
    /// Registers an application and its logging directory.
    Add { name: String, directory: String },
    /// Lists the registered applications.
    List,
    /// Removes an application.
    Remove { name: String },
}

/// A subcommand.
pub enum Commands {
    /// Manages registered applications.
    Application { action: ApplicationAction },
}

/// The command line, parsed.
pub struct Args {
    /// A subcommand, if one was given.
    pub command: Option<Commands>,
    /// The path of a single log file, when no subcommand is given.
    pub file_path: Option<String>,
    /// Start in follow mode.
    pub follow: bool,
}

/// What the viewer is asked to do.
#[derive(Debug, PartialEq, Eq)]
pub enum RunMode {
    /// Run the subcommand of the arguments.
    Commands,
    /// View the single file at this path.
    SingleFile(String),
    /// Neither or both were given.
    Invalid,
}

/// Why the viewer cannot go on.
#[derive(Debug, PartialEq, Eq)]
pub enum ViewerError {
    /// The subcommands have no implementation yet.
    CommandsNotImplemented,
}

/// The log viewer, set up from its command line.
pub struct LogViewer {
    /// The parsed arguments.
    args: Args,
}

impl LogViewer {
    /// The arguments the viewer holds.
    pub closed spec fn spec_args(&self) -> &Args {
        &self.args
    }

    /// A viewer for these arguments.
    pub fn new(args: Args) -> (r: Self)
        ensures
            r.spec_args() == args,
    {
        LogViewer { args }
    }

    /// The arguments the viewer was made with.
    pub fn args(&self) -> (r: &Args)
        ensures
            r == self.spec_args(),
    {
        &self.args
    }

    /// The mode the arguments ask for: a subcommand alone, or a file path alone.
    pub fn run_mode(&self) -> (r: RunMode)
        ensures
            (self.spec_args().command is Some && self.spec_args().file_path is None) ==> r
                == RunMode::Commands,
            (self.spec_args().command is None && self.spec_args().file_path is Some) ==> r
                == RunMode::SingleFile(self.spec_args().file_path.unwrap()),
            (self.spec_args().command is Some) == (self.spec_args().file_path is Some) ==> r
                == RunMode::Invalid,
    {
        match (&self.args.command, &self.args.file_path) {
            (Some(_), None) => RunMode::Commands,
            (None, Some(path)) => RunMode::SingleFile(path.clone()),
            _ => RunMode::Invalid,
        }
    }

    /// Runs a subcommand. None is implemented yet, so this always fails.
    pub fn run_commands(&self, commands: &Commands) -> (r: Result<(), ViewerError>)
        ensures
            r == Err::<(), ViewerError>(ViewerError::CommandsNotImplemented),
    {
        Err(ViewerError::CommandsNotImplemented)
    }

    /// Loads the first read of the file into the view: the entries after the
    /// cursor, shown from the top, not following.
    pub fn load_initial_log_entries(log_file: &mut LogFile, tui: &mut Tui, lines: &Vec<String>)
        ensures
            final(log_file).cursor() == next_cursor(lines@.len(), old(log_file).cursor()),
            final(log_file).spec_path() == old(log_file).spec_path(),
            final(log_file).spec_extension() == old(log_file).spec_extension(),
            final(tui)@ == old(tui)@.loaded(new_entries(lines@, old(log_file).cursor())),
    {
        let entries = log_file.get_entries(lines);
        tui.set_log_entries(entries);
    }

    /// Feeds a later read of the file into the view: the entries after the
    /// cursor are appended with `visible_height` rows on screen.
    pub fn update_log_entries_tui(
        log_file: &mut LogFile,
        tui: &mut Tui,
        lines: &Vec<String>,
        visible_height: usize,
    )
        ensures
            final(log_file).cursor() == next_cursor(lines@.len(), old(log_file).cursor()),
            final(log_file).spec_path() == old(log_file).spec_path(),
            final(log_file).spec_extension() == old(log_file).spec_extension(),
            final(tui)@ == old(tui)@.appended(
                new_entries(lines@, old(log_file).cursor()),
                visible_height as nat,
            ),
    {
        let entries = log_file.get_entries(lines);
        tui.append_new_log_entries(entries, visible_height);
    }
}

} // verus!
