use npc_generator::command::Command;
use npc_generator::command::CommandError;

#[test]
fn parse_generate_npc_command() {
    let args: Vec<String> = vec![
        "generate-npc".into(),
        "your_mother_3 your_father_2".into(),
        "thebest".into(),
    ];
    assert_eq!(Command::parse_command(&args, None), Ok(Command::GenerateNpc));
}

#[test]
fn parse_generate_npc_command_invalid_arguments() {
    let args: Vec<String> = vec![
        "generate-npc".into(),
        "your_father_8 your_mother_2".into(),
        "thebest".into(),
    ];
    assert_eq!(
        Command::parse_command(&args, None),
        Err(CommandError::InvalidArguments)
    );
}

#[test]
fn parse_generate_npc_command_too_few_arguments() {
    let args: Vec<String> = vec!["generate-npc".into(), "thebest".into()];
    assert_eq!(
        Command::parse_command(&args, None),
        Err(CommandError::TooFewArguments(1, 2))
    );
}

#[test]
fn generate_npc_command_too_many_arguments() {
    let args: Vec<String> = vec![
        "generate-npc".into(),
        "warrior_1".into(),
        "warrior_1".into(),
        "thebest".into(),
    ];
    assert_eq!(
        Command::parse_command(&args, None),
        Err(CommandError::TooManyArguments(3, 2))
    );
}

#[test]
fn parse_command_command_missing() {
    let args: Vec<String> = vec![];
    assert_eq!(
        Command::parse_command(&args, None),
        Err(CommandError::EmptyCommand)
    );
}

#[test]
fn parse_command_invalid_command() {
    let args: Vec<String> = vec![
        "nan-is-a-great-return-type-for-division-in-dynamically-typed-languages-especially-if-it-is-not-directly-comparable-with-integers-nor-itself-and-you-detect-it-at-runtime".into(),
    ];
    assert_eq!(
        Command::parse_command(&args, None),
        Err(CommandError::InvalidCommand)
    );
}

#[test]
fn command_round_trip() {
    assert_eq!(
        Command::from_str(Command::GenerateNpc.to_str()),
        Ok(Command::GenerateNpc)
    );
    assert_eq!(
        Command::from_str("generate-np"),
        Err(CommandError::InvalidCommand)
    );
}

#[test]
fn command_description_text() {
    assert_eq!(
        Command::GenerateNpc.command_description(),
        "generate-npc [<professions> <species>]"
    );
}

#[test]
fn command_error_messages() {
    assert_eq!(CommandError::EmptyCommand.message(), "Command was empty");
    assert_eq!(
        CommandError::InvalidArguments.message(),
        "Command Arguments Invalid"
    );
    assert_eq!(CommandError::InvalidCommand.message(), "Command not defined");
    assert_eq!(
        CommandError::TooFewArguments(1, 2).message(),
        "Command needs 1, and got 2 arguments"
    );
    assert_eq!(
        CommandError::TooManyArguments(13, 2).message(),
        "Command needs 13, and got 2 arguments"
    );
}
