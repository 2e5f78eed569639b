//! Where the Hermes files lie, and the programs that the launcher starts.
use vstd::prelude::*;
use crate::text::{join_path, joined_text, path_joined, text_of};

verus! {

/// A program to run and its arguments.
#[derive(Debug)]
pub struct LaunchCommand {
    pub program: String,
    pub args: Vec<String>,
}

pub struct LaunchCommandView {
    pub program: Seq<char>,
    pub args: Seq<Seq<char>>,
}

impl View for LaunchCommand {
    type V = LaunchCommandView;

    open spec fn view(&self) -> LaunchCommandView {
        LaunchCommandView { program: self.program@, args: self.args@.map_values(|s: String| s@) }
    }
}

/// The home directory used when the user's own cannot be found.
pub open spec fn fallback_home() -> Seq<char> {
    "/home/jeb"@
}

/// The Hermes directory under the given home directory.
pub open spec fn hermes_dir_of(home: Option<Seq<char>>) -> Seq<char> {
    match home {
        Some(h) => path_joined(h, ".hermes"@),
        None => path_joined(fallback_home(), ".hermes"@),
    }
}

/// The configuration file under the Hermes directory.
pub open spec fn config_path(hermes: Seq<char>) -> Seq<char> {
    path_joined(hermes, "config.yaml"@)
}

/// The agent's log file under the Hermes directory.
pub open spec fn log_path(hermes: Seq<char>) -> Seq<char> {
    path_joined(hermes, "logs/agent.log"@)
}

/// The checkout of the Python agent, whose own interpreter runs its command line.
pub open spec fn agent_checkout() -> Seq<char> {
    "/home/jeb/programs/hermes-agent-commissioning-20260401_175500/hermes-agent"@
}

/// The highest position in the launcher's list.
pub open spec fn launcher_last() -> usize {
    3
}

/// The files under the Hermes directory that the launcher's commands name.
#[derive(Debug)]
pub struct HermesFiles {
    pub tirith: String,
    pub config: String,
    pub log: String,
}

pub struct HermesFilesView {
    pub tirith: Seq<char>,
    pub config: Seq<char>,
    pub log: Seq<char>,
}

impl View for HermesFiles {
    type V = HermesFilesView;

    open spec fn view(&self) -> HermesFilesView {
        HermesFilesView { tirith: self.tirith@, config: self.config@, log: self.log@ }
    }
}

/// The files under the Hermes directory `hermes`.
pub open spec fn files_under(hermes: Seq<char>) -> HermesFilesView {
    HermesFilesView {
        tirith: path_joined(hermes, "bin/tirith"@),
        config: config_path(hermes),
        log: log_path(hermes),
    }
}

/// The command that the launcher entry at `selection` runs, given the files it names,
/// if there is such an entry.
pub open spec fn command_for_files(selection: usize, files: HermesFilesView) -> Option<LaunchCommandView> {
    if selection == 0 {
        Some(LaunchCommandView {
            program: agent_checkout() + "/venv/bin/python3"@,
            args: seq![agent_checkout() + "/cli.py"@],
        })
    } else if selection == 1 {
        Some(LaunchCommandView { program: files.tirith, args: seq!["doctor"@] })
    } else if selection == 2 {
        Some(LaunchCommandView { program: "nano"@, args: seq![files.config] })
    } else if selection == 3 {
        Some(LaunchCommandView { program: "tail"@, args: seq!["-f"@, files.log] })
    } else {
        None
    }
}

/// The command that the launcher entry at `selection` runs for the Hermes directory
/// `hermes`, if there is such an entry.
pub open spec fn launch_for(selection: usize, hermes: Seq<char>) -> Option<LaunchCommandView> {
    command_for_files(selection, files_under(hermes))
}

/// The Hermes directory: `.hermes` under the user's home, or under the fallback home.
pub fn hermes_dir(home: Option<String>) -> (d: String)
    ensures
        d@ == hermes_dir_of(match home {
            Some(h) => Some(h@),
            None => None,
        }),
{
    match home {
        Some(h) => join_path(h.as_str(), ".hermes"),
        None => join_path("/home/jeb", ".hermes"),
    }
}

/// The configuration file of the Hermes directory.
pub fn config_file(hermes: &str) -> (p: String)
    ensures
        p@ == config_path(hermes@),
{
    join_path(hermes, "config.yaml")
}

/// The log file of the Hermes directory.
pub fn log_file(hermes: &str) -> (p: String)
    ensures
        p@ == log_path(hermes@),
{
    join_path(hermes, "logs/agent.log")
}

/// The files under the Hermes directory `hermes`.
pub fn hermes_files(hermes: &str) -> (f: HermesFiles)
    ensures
        f@ == files_under(hermes@),
{
    HermesFiles { tirith: join_path(hermes, "bin/tirith"), config: config_file(hermes), log: log_file(hermes) }
}

/// The command of the launcher entry at `selection`, given the files it names, or
/// `None` past the last entry.
pub fn command_for(selection: usize, files: &HermesFiles) -> (c: Option<LaunchCommand>)
    ensures
        match c {
            Some(cmd) => command_for_files(selection, files@) == Some(cmd@),
            None => command_for_files(selection, files@) is None,
        },
{
    let mut args: Vec<String> = Vec::new();
    if selection == 0 {
        let dir = "/home/jeb/programs/hermes-agent-commissioning-20260401_175500/hermes-agent";
        args.push(joined_text(dir, "/cli.py"));
        let c = LaunchCommand { program: joined_text(dir, "/venv/bin/python3"), args };
        assert(c@.args =~= seq![agent_checkout() + "/cli.py"@]);
        Some(c)
    } else if selection == 1 {
        args.push(text_of("doctor"));
        let c = LaunchCommand { program: files.tirith.clone(), args };
        assert(c@.args =~= seq!["doctor"@]);
        Some(c)
    } else if selection == 2 {
        args.push(files.config.clone());
        let c = LaunchCommand { program: text_of("nano"), args };
        assert(c@.args =~= seq![files.config@]);
        Some(c)
    } else if selection == 3 {
        args.push(text_of("-f"));
        args.push(files.log.clone());
        let c = LaunchCommand { program: text_of("tail"), args };
        assert(c@.args =~= seq!["-f"@, files.log@]);
        Some(c)
    } else {
        None
    }
}

/// The command of the launcher entry at `selection` for the Hermes directory `hermes`,
/// or `None` past the last entry.
pub fn launch_command(selection: usize, hermes: &str) -> (c: Option<LaunchCommand>)
    ensures
        match c {
            Some(cmd) => launch_for(selection, hermes@) == Some(cmd@),
            None => launch_for(selection, hermes@) is None,
        },
{
    command_for(selection, &hermes_files(hermes))
}

} // verus!
