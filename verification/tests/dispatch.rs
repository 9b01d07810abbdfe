use storagenv::command::Command;
use storagenv::dispatch::{
    add_command, apply_command, command_effect, help_command, invalid_command, list_command,
    list_entry_line, list_header, pick_command, remove_command, Effect, StoreEvent,
};

const HELP_TEXT: &str = "Enter exit to quit.\nEnter 'list' to list all stored env\nEnter 'remove ENV_NAME' to remove specific environment\nEnter 'pick ENV_NAME' to retrieve specific environment file\nEnter 'add ENV_NAME ENV_STRING' to add new environment file\n\n";

#[test]
fn help_always_shows_the_help_text() {
    assert_eq!(help_command(), Some(String::from(HELP_TEXT)));
    assert_eq!(
        apply_command(&Command::Help, &StoreEvent::NoStore),
        Some(String::from(HELP_TEXT))
    );
}

#[test]
fn invalid_input_points_at_help() {
    let expected = "invalid command, run 'help' to see a list of valid commands";
    assert_eq!(invalid_command(), Some(String::from(expected)));
    assert_eq!(
        apply_command(&Command::Invalid, &StoreEvent::NoStore),
        Some(String::from(expected))
    );
}

#[test]
fn listing_an_empty_store_says_so() {
    assert_eq!(
        list_command(true),
        Some(String::from("No env's created yet"))
    );
    assert_eq!(
        apply_command(&Command::List, &StoreEvent::Listed { empty: true }),
        Some(String::from("No env's created yet"))
    );
}

#[test]
fn listing_a_nonempty_store_is_silent() {
    assert_eq!(list_command(false), None);
    assert_eq!(
        apply_command(&Command::List, &StoreEvent::Listed { empty: false }),
        None
    );
}

#[test]
fn picking_a_missing_entry_reports_the_name_invalid() {
    assert_eq!(
        pick_command(false, false),
        Some(String::from("Invalid env name"))
    );
    assert_eq!(
        apply_command(
            &Command::Pick(String::from("ghost")),
            &StoreEvent::PickRead {
                found: false,
                copied: false
            }
        ),
        Some(String::from("Invalid env name"))
    );
}

#[test]
fn a_rejected_clipboard_is_reported() {
    assert_eq!(
        pick_command(true, false),
        Some(String::from("Could not set to clipboard"))
    );
}

#[test]
fn a_successful_pick_is_silent() {
    assert_eq!(pick_command(true, true), None);
}

#[test]
fn a_failed_write_is_reported() {
    assert_eq!(
        add_command(false),
        Some(String::from("Could not write env, try again later"))
    );
}

#[test]
fn a_successful_add_is_silent() {
    assert_eq!(add_command(true), None);
    assert_eq!(
        apply_command(
            &Command::Add(String::from("a"), String::from("b")),
            &StoreEvent::Wrote { ok: true }
        ),
        None
    );
}

#[test]
fn a_failed_remove_is_reported() {
    assert_eq!(
        remove_command(false),
        Some(String::from("Unable to remove file"))
    );
}

#[test]
fn a_successful_remove_is_silent() {
    assert_eq!(remove_command(true), None);
}

#[test]
fn help_and_invalid_ask_nothing_of_the_store() {
    assert!(matches!(command_effect(&Command::Help), Effect::NoOp));
    assert!(matches!(command_effect(&Command::Invalid), Effect::NoOp));
    assert!(matches!(command_effect(&Command::List), Effect::ListEntries));
}

#[test]
fn an_add_effect_carries_the_encoded_file_text() {
    match command_effect(&Command::Add(String::from("x"), String::from("A=1\\nB=2"))) {
        Effect::WriteEntry(name, text) => {
            assert_eq!(name, "x");
            assert_eq!(text, "A=1\nB=2\n");
        }
        _ => panic!("an add must ask for a write"),
    }
}

#[test]
fn pick_and_remove_effects_carry_the_verbatim_name() {
    match command_effect(&Command::Pick(String::from("this.env"))) {
        Effect::PickEntry(name) => assert_eq!(name, "this.env"),
        _ => panic!("a pick must ask for a read"),
    }
    match command_effect(&Command::Remove(String::from("this.env"))) {
        Effect::RemoveEntry(name) => assert_eq!(name, "this.env"),
        _ => panic!("a remove must ask for a delete"),
    }
}

#[test]
fn the_list_echo_lines_are_fixed() {
    assert_eq!(list_header(), "storagenv - Stored env's");
    assert_eq!(list_entry_line("demo"), "- demo");
}
