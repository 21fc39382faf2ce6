//! The action dispatcher: from a recognised command name to the script to launch.

use vstd::prelude::*;
use crate::config::BamBamConfig;
use crate::paths::expand_config_path;
use crate::paths::is_plain_path;
use crate::paths::PathExpansionError;

verus! {

/// The commands that have a configured action.
#[derive(Clone, Copy, Debug, PartialEq, Eq)]
pub enum Command {
    LockDoor,
    KitchenLightYellow,
    KitchenLightPurple,
}

/// What the dispatcher decided for one command name.
#[derive(Debug, PartialEq, Eq)]
pub enum Dispatch {
    /// Launch `program` as a child process with `first_argument` as its only
    /// argument. Both are the expanded action path.
    Launch { program: String, first_argument: String },
    /// The name is not a known command: nothing is launched, and that is a success.
    NoOp,
}

/// A launched action could not be executed at all.
#[derive(Debug, PartialEq, Eq)]
pub struct ActionLaunchError {
    /// The program that was to run.
    pub program: String,
    /// What the system said when the launch failed.
    pub message: String,
}

/// What a launch of `program` counts as. `status` is the exit code of the
/// child once it has ended (`None` where it ended without one), or the
/// message of the failure to start it. An action that ran has succeeded,
/// whatever its exit code; only a failure to start it is an error.
pub open spec fn launch_result(program: String, status: Result<Option<i32>, String>) -> Result<
    (),
    ActionLaunchError,
> {
    match status {
        Ok(_) => Ok(()),
        Err(message) => Err(ActionLaunchError { program, message }),
    }
}

/// The command that `name` stands for, if it is one of the three known names.
pub open spec fn known_command(name: Seq<char>) -> Option<Command> {
    if name == "lock_door"@ {
        Some(Command::LockDoor)
    } else if name == "kitchen_light_yellow"@ {
        Some(Command::KitchenLightYellow)
    } else if name == "kitchen_light_purple"@ {
        Some(Command::KitchenLightPurple)
    } else {
        None
    }
}

/// What the dispatcher decides once the action path of a known command has
/// been expanded: launch the expanded path with itself as first argument, or
/// hand the expansion error on.
pub open spec fn launch_plan(expansion: Result<String, PathExpansionError>) -> Result<
    Dispatch,
    PathExpansionError,
> {
    match expansion {
        Ok(path) => Ok(Dispatch::Launch { program: path, first_argument: path }),
        Err(error) => Err(error),
    }
}

/// Resolves a command name against the table of known commands.
pub fn resolve_command(name: &String) -> (command: Option<Command>)
    ensures
        command == known_command(name@),
{
    if *name == "lock_door".to_owned() {
        Some(Command::LockDoor)
    } else if *name == "kitchen_light_yellow".to_owned() {
        Some(Command::KitchenLightYellow)
    } else if *name == "kitchen_light_purple".to_owned() {
        Some(Command::KitchenLightPurple)
    } else {
        None
    }
}

/// Decides the launch from the expansion of a known command's action path.
pub fn plan_launch(expansion: Result<String, PathExpansionError>) -> (plan: Result<
    Dispatch,
    PathExpansionError,
>)
    ensures
        plan == launch_plan(expansion),
{
    match expansion {
        Ok(path) => {
            let first_argument = path.clone();
            Ok(Dispatch::Launch { program: path, first_argument })
        },
        Err(error) => Err(error),
    }
}

/// Judges a launch of `program` by what became of the child process: its exit
/// code is not interpreted, a failure to start it is reported.
pub fn launch_outcome(program: &String, status: Result<Option<i32>, String>) -> (outcome: Result<
    (),
    ActionLaunchError,
>)
    ensures
        outcome == launch_result(*program, status),
{
    match status {
        Ok(_) => Ok(()),
        Err(message) => Err(ActionLaunchError { program: program.clone(), message }),
    }
}

/// Decides what to do for `command`.
///
/// An unknown name is a no-op success, whatever the configuration holds. A
/// known name has its configured path expanded: the result is a launch of the
/// expanded path, which is the configured string itself where that is a plain
/// path, or the expansion error, which names the configured string.
pub fn process(config: &BamBamConfig, command: &String) -> (plan: Result<
    Dispatch,
    PathExpansionError,
>)
    ensures
        known_command(command@) is None ==> plan == Ok::<Dispatch, PathExpansionError>(
            Dispatch::NoOp,
        ),
        known_command(command@) matches Some(known) ==> match plan {
            Ok(Dispatch::Launch { program, first_argument }) => {
                &&& first_argument == program
                &&& is_plain_path(config.action_path_of(known)@) ==> program@
                    == config.action_path_of(known)@
            },
            Ok(Dispatch::NoOp) => false,
            Err(error) => {
                &&& error.path == config.action_path_of(known)
                &&& !is_plain_path(config.action_path_of(known)@)
            },
        },
{
    match resolve_command(command) {
        Some(known) => plan_launch(expand_config_path(config.action_path(known))),
        None => Ok(Dispatch::NoOp),
    }
}

/// Each of the three command names stands for its own command, and no other
/// string stands for any.
pub proof fn lemma_known_commands(name: Seq<char>)
    ensures
        known_command("lock_door"@) == Some(Command::LockDoor),
        known_command("kitchen_light_yellow"@) == Some(Command::KitchenLightYellow),
        known_command("kitchen_light_purple"@) == Some(Command::KitchenLightPurple),
        name != "lock_door"@ && name != "kitchen_light_yellow"@ && name
            != "kitchen_light_purple"@ ==> known_command(name) is None,
        known_command(name) == Some(Command::LockDoor) <==> name == "lock_door"@,
        known_command(name) == Some(Command::KitchenLightYellow) <==> name
            == "kitchen_light_yellow"@,
        known_command(name) == Some(Command::KitchenLightPurple) <==> name
            == "kitchen_light_purple"@,
{
    reveal_strlit("lock_door");
    reveal_strlit("kitchen_light_yellow");
    reveal_strlit("kitchen_light_purple");
    assert("lock_door"@.len() == 9);
    assert("kitchen_light_yellow"@.len() == 20);
    assert("kitchen_light_yellow"@[14] == 'y');
    assert("kitchen_light_purple"@[14] == 'p');
}

/// Each known command name is routed to the action path configured under that
/// name, whatever the configuration holds.
pub proof fn lemma_routing(config: BamBamConfig)
    ensures
        known_command("lock_door"@) matches Some(command) && config.action_path_of(command)
            == config.lock_door,
        known_command("kitchen_light_yellow"@) matches Some(command) && config.action_path_of(
            command,
        ) == config.kitchen_light_yellow,
        known_command("kitchen_light_purple"@) matches Some(command) && config.action_path_of(
            command,
        ) == config.kitchen_light_purple,
{
    lemma_known_commands("lock_door"@);
}

} // verus!
