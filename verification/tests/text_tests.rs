use npc_generator::app::App;
use npc_generator::text::str_eq;
use npc_generator::text::u32_to_string;
use npc_generator::text::usize_to_string;

#[test]
fn decimal_rendering() {
    assert_eq!(u32_to_string(0), "0");
    assert_eq!(u32_to_string(7), "7");
    assert_eq!(u32_to_string(10), "10");
    assert_eq!(u32_to_string(305), "305");
    assert_eq!(u32_to_string(4294967295), "4294967295");
    assert_eq!(usize_to_string(12), "12");
}

#[test]
fn string_equality() {
    assert!(str_eq("", ""));
    assert!(str_eq("abc", "abc"));
    assert!(!str_eq("abc", "abd"));
    assert!(!str_eq("abc", "ab"));
}

#[test]
fn formatted_command_list() {
    let _app = App::new();
    assert_eq!(
        App::get_formatted_command_list(),
        "\t-generate-npc [<professions> <species>]\n"
    );
}
