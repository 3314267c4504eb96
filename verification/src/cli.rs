//! The commands of the suite and how the bar is started: what a command
//! asks for, whether the bar may start, and which program file is the bar.

use vstd::prelude::*;
use vstd::string::*;
use crate::sources::{parse_pid, pid_of};

verus! {

/// The command line of the suite.
#[derive(Debug, PartialEq, Eq)]
pub struct Cli {
    pub command: Commands,
}

/// The commands of the suite.
#[derive(Debug, Clone, Copy, PartialEq, Eq, Structural)]
pub enum Commands {
    /// Run the system bar; `no_kitten` runs it in this terminal instead of
    /// a panel of its own.
    Bar { no_kitten: bool },
    /// Run the menu system.
    Menu { categories: bool },
    /// Run the notification system.
    Notifications { dnd: bool },
}

/// What is done for a command.
#[derive(Debug, Clone, Copy, PartialEq, Eq, Structural)]
pub enum Task {
    /// Start the bar.
    StartBar { no_kitten: bool },
    /// Say that the menu is yet to come, and leave.
    AnnounceMenu,
    /// Say that the notifications are yet to come, and leave.
    AnnounceNotifications,
}

/// How the bar is started.
#[derive(Debug, Clone, Copy, PartialEq, Eq, Structural)]
pub enum Launch {
    /// Run the bar in this process.
    RunHere,
    /// A bar is running already: say so and leave.
    Refuse,
    /// Start the bar in a panel of its own and leave.
    SpawnInPanel,
}

/// Why it cannot be told whether a bar is running.
#[derive(Debug, Clone, Copy, PartialEq, Eq, Structural)]
pub enum LifecycleError {
    /// The PID file holds no process id.
    InvalidPid,
}

impl Cli {
    /// What is done for the command line.
    pub fn task(&self) -> (r: Task)
        ensures
            r == match self.command {
                Commands::Bar { no_kitten } => Task::StartBar { no_kitten },
                Commands::Menu { .. } => Task::AnnounceMenu,
                Commands::Notifications { .. } => Task::AnnounceNotifications,
            },
    {
        match self.command {
            Commands::Bar { no_kitten } => Task::StartBar { no_kitten },
            Commands::Menu { .. } => Task::AnnounceMenu,
            Commands::Notifications { .. } => Task::AnnounceNotifications,
        }
    }
}

/// How the bar is started. Asked to run without a panel, it runs here.
/// Otherwise it goes into a panel of its own, unless a bar is known to be
/// running: `running` is `Some(true)` then, and `None` where that could
/// not be found out.
pub fn handle_bar_cli(no_kitten: bool, running: Option<bool>) -> (r: Launch)
    ensures
        r == if no_kitten {
            Launch::RunHere
        } else if running == Some(true) {
            Launch::Refuse
        } else {
            Launch::SpawnInPanel
        },
{
    if no_kitten {
        Launch::RunHere
    } else {
        match running {
            Some(true) => Launch::Refuse,
            _ => Launch::SpawnInPanel,
        }
    }
}

/// The process that has to be alive for a bar to be running: none where
/// there is no PID file, else the process that the file names. A file
/// that names none is an error.
pub fn is_bar_running(pid_file: Option<&str>) -> (r: Result<Option<u32>, LifecycleError>)
    ensures
        match pid_file {
            None => r == Ok::<Option<u32>, LifecycleError>(None),
            Some(content) => match pid_of(content@) {
                Some(pid) => r matches Ok(Some(found)) && found == pid,
                None => r == Err::<Option<u32>, LifecycleError>(LifecycleError::InvalidPid),
            },
        },
{
    match pid_file {
        None => Ok(None),
        Some(content) => match parse_pid(content) {
            Some(pid) => Ok(Some(pid)),
            None => Err(LifecycleError::InvalidPid),
        },
    }
}

/// The first of the places that holds the program; `None` where none does.
pub open spec fn first_present(places: Seq<(String, bool)>) -> Option<Seq<char>>
    decreases places.len(),
{
    if places.len() == 0 {
        None
    } else if places[0].1 {
        Some(places[0].0@)
    } else {
        first_present(places.drop_first())
    }
}

/// The bar's program file: the first of the places to look, each given
/// with whether the program is there, that holds it.
pub fn find_bar_executable(places: &Vec<(String, bool)>) -> (r: Option<String>)
    ensures
        r.deep_view() == first_present(places@),
{
    let mut i: usize = 0;
    assert(places@.skip(0) =~= places@);
    while i < places.len()
        invariant
            i <= places.len(),
            first_present(places@) == first_present(places@.skip(i as int)),
        decreases places.len() - i,
    {
        assert(places@.skip(i as int)[0] == places@[i as int]);
        assert(places@.skip(i as int).drop_first() =~= places@.skip(i + 1));
        if places[i].1 {
            return Some(places[i].0.clone());
        }
        i = i + 1;
    }
    None
}

} // verus!
