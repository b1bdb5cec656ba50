use npc_generator::generate_npc_command_args::GenerateNpcCommandArgs;

#[test]
fn is_valid_profession() {
    assert_eq!(GenerateNpcCommandArgs::is_valid_profession("a_b_3"), true);
}

#[test]
fn is_not_valid_profession() {
    assert_eq!(GenerateNpcCommandArgs::is_valid_profession("a_b_4"), false);
}

#[test]
fn professions() {
    let professions_string: Vec<String> = vec!["aaaa bb_bb".into()];
    let generate_npc_command_args = GenerateNpcCommandArgs(&professions_string);
    let professions: Vec<String> = generate_npc_command_args.professions(None).unwrap();
    assert_eq!(professions, (vec!["aaaa".to_string(), "bb_bb".to_string()]));
}

#[test]
fn validate_professions() {
    let professions_string: Vec<String> =
        vec!["generate-npc".into(), "aaaa_1 bb_bb_2".into(), "aaaa".into()];
    let generate_npc_command_args = GenerateNpcCommandArgs(&professions_string);

    assert_eq!(
        generate_npc_command_args
            .validate_professions(Some(1))
            .is_ok(),
        true
    );
}

#[test]
fn species() {
    let professions_string: Vec<String> = vec!["aaaa bb_bb".into(), "asdas".into()];
    let generate_npc_command_args = GenerateNpcCommandArgs(&professions_string);
    let professions: Vec<String> = generate_npc_command_args.professions(None).unwrap();
    assert_eq!(professions, (vec!["aaaa".to_string(), "bb_bb".to_string()]));
}

#[test]
fn validate_species() {
    let professions_string: Vec<String> =
        vec!["generate-npc".into(), "aaaa_1 bb_bb_2".into(), "aaaa".into()];
    let generate_npc_command_args = GenerateNpcCommandArgs(&professions_string);

    assert_eq!(
        generate_npc_command_args.validate_species(Some(1)).is_ok(),
        true
    );
}

#[test]
fn species_identifier_shape() {
    assert_eq!(GenerateNpcCommandArgs::is_valid_species("abc"), true);
    assert_eq!(GenerateNpcCommandArgs::is_valid_species("aBc"), false);
    assert_eq!(GenerateNpcCommandArgs::is_valid_species("a"), false);
    assert_eq!(GenerateNpcCommandArgs::is_valid_species("ab1"), false);
}

#[test]
fn split_keeps_empty_parts() {
    let args: Vec<String> = vec!["a  b".into()];
    let parts = GenerateNpcCommandArgs(&args).professions(None).unwrap();
    assert_eq!(
        parts,
        vec!["a".to_string(), "".to_string(), "b".to_string()]
    );
}
