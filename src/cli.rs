use vstd::prelude::*;

verus! {

/// How the program is to be started: with a window, or once from the
/// command line.
#[derive(Debug, Clone, Copy, PartialEq, Eq, Structural)]
pub struct AppBuilder {
    pub cli: bool,
}

impl AppBuilder {
    /// A builder for the windowed program.
    pub fn new() -> (r: AppBuilder)
        ensures
            !r.cli,
    {
        AppBuilder { cli: false }
    }

    /// Switches to the non-interactive mode, which runs one command and exits.
    pub fn cli(self) -> (r: Self)
        ensures
            r.cli,
    {
        let mut s = self;
        s.cli = true;
        s
    }
}

impl Default for AppBuilder {
    fn default() -> (r: AppBuilder)
        ensures
            !r.cli,
    {
        AppBuilder::new()
    }
}

/// A command of the non-interactive mode.
#[derive(Debug, Clone, Copy, PartialEq, Eq, Structural)]
pub enum CliCommand {
    Resume,
    Pause,
}

/// Why the non-interactive mode could not run a command.
#[derive(Debug, Clone, PartialEq, Eq)]
pub enum CliError {
    /// No command argument was given.
    MissingArgument,
    /// The argument is not a known command.
    UnknownCommand(String),
}

/// The command that an argument names, if any.
pub open spec fn command_named(arg: Seq<char>) -> Option<CliCommand> {
    if arg == "--resume"@ {
        Some(CliCommand::Resume)
    } else if arg == "--pause"@ {
        Some(CliCommand::Pause)
    } else {
        None
    }
}

/// Reads the command argument: `--resume` or `--pause`.
pub fn parse_command(arg: &String) -> (r: Result<CliCommand, CliError>)
    ensures
        command_named(arg@) is Some ==> r == Ok::<CliCommand, CliError>(command_named(arg@)->0),
        command_named(arg@) is None ==> r == Err::<CliCommand, CliError>(CliError::UnknownCommand(*arg)),
{
    let resume = String::from_str("--resume");
    let pause = String::from_str("--pause");
    if *arg == resume {
        Ok(CliCommand::Resume)
    } else if *arg == pause {
        Ok(CliCommand::Pause)
    } else {
        Err(CliError::UnknownCommand(arg.clone()))
    }
}

/// Reads the command from the program's arguments, the program's name first;
/// the command is the argument that follows it.
pub fn command_from_args(args: &Vec<String>) -> (r: Result<CliCommand, CliError>)
    ensures
        args.len() < 2 ==> r == Err::<CliCommand, CliError>(CliError::MissingArgument),
        args.len() >= 2 && command_named(args@[1]@) is Some ==> r == Ok::<CliCommand, CliError>(
            command_named(args@[1]@)->0,
        ),
        args.len() >= 2 && command_named(args@[1]@) is None ==> r == Err::<CliCommand, CliError>(
            CliError::UnknownCommand(args@[1]),
        ),
{
    if args.len() < 2 {
        Err(CliError::MissingArgument)
    } else {
        parse_command(&args[1])
    }
}

impl CliCommand {
    /// What a failure of this command reports.
    pub fn failure_context(&self) -> (r: String)
        ensures
            self is Resume ==> r@ == "Unable to resume playback"@,
            self is Pause ==> r@ == "Unable to pause playback"@,
    {
        match self {
            CliCommand::Resume => String::from_str("Unable to resume playback"),
            CliCommand::Pause => String::from_str("Unable to pause playback"),
        }
    }
}

impl CliError {
    /// A message for the user.
    pub fn message(&self) -> (r: String)
        ensures
            self is MissingArgument ==> r@ == "Invalid argument"@,
            self is UnknownCommand ==> r@ == "Unknown command: "@ + self->UnknownCommand_0@,
    {
        match self {
            CliError::MissingArgument => String::from_str("Invalid argument"),
            CliError::UnknownCommand(arg) => {
                let mut r = String::from_str("Unknown command: ");
                r.append(arg.as_str());
                r
            },
        }
    }
}

} // verus!
