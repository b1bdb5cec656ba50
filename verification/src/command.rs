use vstd::prelude::*;
use vstd::string::StringExecFns;

use crate::generate_npc_command_args::GenerateNpcCommandArgs;
use crate::generate_npc_command_args::spec_is_valid_profession;
use crate::generate_npc_command_args::spec_is_valid_species;
use crate::generate_npc_command_args::spec_offset;
use crate::generate_npc_command_args::spec_split_spaces;
use crate::text::spec_decimal_digits;
use crate::text::str_eq;
use crate::text::usize_to_string;

verus! {

/// Why a command line was rejected before it reached the engine.
#[derive(Debug, Clone, Copy, PartialEq, Eq, Structural)]
pub enum CommandError {
    InvalidCommand,
    InvalidArguments,
    EmptyCommand,
    TooFewArguments(usize, usize),
    TooManyArguments(usize, usize),
}

impl CommandError {
    /// The error's display text.
    pub open spec fn spec_message(&self) -> Seq<char> {
        match self {
            CommandError::EmptyCommand => "Command was empty"@,
            CommandError::InvalidArguments => "Command Arguments Invalid"@,
            CommandError::InvalidCommand => "Command not defined"@,
            CommandError::TooFewArguments(given, expected) => "Command needs "@
                + spec_decimal_digits(*given as int) + ", and got "@ + spec_decimal_digits(
                *expected as int,
            ) + " arguments"@,
            CommandError::TooManyArguments(given, expected) => "Command needs "@
                + spec_decimal_digits(*given as int) + ", and got "@ + spec_decimal_digits(
                *expected as int,
            ) + " arguments"@,
        }
    }

    pub fn message(&self) -> (r: String)
        ensures
            r@ == self.spec_message(),
    {
        match self {
            CommandError::EmptyCommand => String::from_str("Command was empty"),
            CommandError::InvalidArguments => String::from_str("Command Arguments Invalid"),
            CommandError::InvalidCommand => String::from_str("Command not defined"),
            CommandError::TooFewArguments(given, expected) => {
                let mut m = String::from_str("Command needs ");
                m.append(usize_to_string(*given).as_str());
                m.append(", and got ");
                m.append(usize_to_string(*expected).as_str());
                m.append(" arguments");
                m
            },
            CommandError::TooManyArguments(given, expected) => {
                let mut m = String::from_str("Command needs ");
                m.append(usize_to_string(*given).as_str());
                m.append(", and got ");
                m.append(usize_to_string(*expected).as_str());
                m.append(" arguments");
                m
            },
        }
    }
}

/// The commands the front end understands.
#[derive(Debug, Clone, Copy, PartialEq, Eq, Structural)]
pub enum Command {
    GenerateNpc,
}

/// Validation of one command's argument list: first the argument count, then
/// the professions argument (split at spaces, each part a valid profession
/// identifier), then the species argument.
pub open spec fn spec_validate_arguments(cmd: Command, args: Seq<Seq<char>>, arg_offset: int) -> Result<
    Command,
    CommandError,
> {
    let given = if args.len() >= arg_offset {
        args.len() - arg_offset
    } else {
        0
    };
    if args.len() > 2 + arg_offset {
        Err(CommandError::TooManyArguments(given as usize, 2))
    } else if args.len() < 2 + arg_offset {
        Err(CommandError::TooFewArguments(given as usize, 2))
    } else if !(forall|i: int|
        0 <= i < spec_split_spaces(args[1]).len() ==> spec_is_valid_profession(
            #[trigger] spec_split_spaces(args[1])[i],
        )) {
        Err(CommandError::InvalidArguments)
    } else if !spec_is_valid_species(args[2]) {
        Err(CommandError::InvalidArguments)
    } else {
        Ok(cmd)
    }
}

/// Parsing one command line: the command word at the offset selects the
/// command, whose arguments are then validated.
pub open spec fn spec_parse_command(args: Seq<Seq<char>>, arg_offset: Option<usize>) -> Result<
    Command,
    CommandError,
> {
    let off = spec_offset(arg_offset);
    if off >= args.len() {
        Err(CommandError::EmptyCommand)
    } else {
        match spec_command_from_str(args[off]) {
            Ok(cmd) => spec_validate_arguments(cmd, args, off + 1),
            Err(e) => Err(e),
        }
    }
}

/// The command a command word names.
pub open spec fn spec_command_from_str(s: Seq<char>) -> Result<Command, CommandError> {
    if s == "generate-npc"@ {
        Ok(Command::GenerateNpc)
    } else {
        Err(CommandError::InvalidCommand)
    }
}

impl Command {
    /// The command's textual form.
    pub open spec fn spec_str(&self) -> Seq<char> {
        "generate-npc"@
    }

    /// Every command there is.
    pub fn iterator() -> (r: Vec<Command>)
        ensures
            r@ == seq![Command::GenerateNpc],
    {
        let mut commands: Vec<Command> = Vec::new();
        commands.push(Command::GenerateNpc);
        proof {
            assert(commands@ =~= seq![Command::GenerateNpc]);
        }
        commands
    }

    pub fn to_str(&self) -> (r: &'static str)
        ensures
            r@ == self.spec_str(),
    {
        match self {
            Command::GenerateNpc => "generate-npc",
        }
    }

    pub fn from_str(command: &str) -> (r: Result<Command, CommandError>)
        ensures
            r == spec_command_from_str(command@),
    {
        if str_eq(command, "generate-npc") {
            Ok(Command::GenerateNpc)
        } else {
            Err(CommandError::InvalidCommand)
        }
    }

    /// Parse and validate one command line.
    pub fn parse_command(args: &Vec<String>, arg_offset: Option<usize>) -> (r: Result<
        Command,
        CommandError,
    >)
        ensures
            r == spec_parse_command(args.deep_view(), arg_offset),
    {
        let off = match arg_offset {
            Some(o) => o,
            None => 0,
        };
        if off >= args.len() {
            return Err(CommandError::EmptyCommand);
        }
        proof {
            assert(args.deep_view()[off as int] == args@[off as int]@);
        }
        let cmd = match Command::from_str(args[off].as_str()) {
            Ok(c) => c,
            Err(e) => {
                return Err(e);
            },
        };
        match cmd.validate_command_arguments(args, off + 1) {
            Ok(_) => Ok(cmd),
            Err(e) => Err(e),
        }
    }

    /// The command's usage line: its word and its argument placeholders.
    pub open spec fn spec_description(&self) -> Seq<char> {
        self.spec_str() + " ["@ + "<professions> <species>"@ + "]"@
    }

    pub fn command_description(&self) -> (r: String)
        ensures
            r@ == self.spec_description(),
    {
        let mut m = String::from_str(self.to_str());
        m.append(" [");
        m.append("<professions> <species>");
        m.append("]");
        m
    }

    fn command_params_count(&self) -> (r: usize)
        ensures
            r == 2,
    {
        match self {
            Command::GenerateNpc => 2,
        }
    }

    fn validate_command_arguments<'b>(&'b self, args: &Vec<String>, arg_offset: usize) -> (r:
        Result<&'b Self, CommandError>)
        requires
            arg_offset >= 1,
        ensures
            match spec_validate_arguments(*self, args.deep_view(), arg_offset as int) {
                Ok(_) => r is Ok,
                Err(e) => r == Err::<&'b Self, CommandError>(e),
            },
    {
        let params = self.command_params_count();
        let given = if args.len() >= arg_offset {
            args.len() - arg_offset
        } else {
            0
        };
        if given > params {
            return Err(CommandError::TooManyArguments(given, params));
        }
        if given < params || args.len() < arg_offset {
            return Err(CommandError::TooFewArguments(given, params));
        }
        match self {
            Command::GenerateNpc => {
                proof {
                    assert(args.deep_view().len() == args@.len());
                    assert(args.deep_view()[1] == args@[1]@);
                    assert(args.deep_view()[2] == args@[2]@);
                }
                let command_args = GenerateNpcCommandArgs(args);
                match command_args.validate_professions(Some(1)) {
                    Ok(_) => {},
                    Err(e) => {
                        return Err(e);
                    },
                }
                match command_args.validate_species(Some(1)) {
                    Ok(_) => {},
                    Err(e) => {
                        return Err(e);
                    },
                }
            },
        }
        Ok(self)
    }
}

} // verus!
