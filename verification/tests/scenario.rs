//! Whole-command scenarios: each line is parsed, its effect performed
//! against an in-test store and clipboard, and the outcome message checked,
//! the way the interactive loop drives the library.

use storagenv::command::Command;
use storagenv::dispatch::{apply_command, command_effect, Effect, StoreEvent};
use storagenv::parser::parse_command;

/// The store as the effects see it: a directory that may not exist yet,
/// holding one text per name.
struct TestStore {
    exists: bool,
    entries: Vec<(String, String)>,
}

impl TestStore {
    fn fresh() -> TestStore {
        TestStore {
            exists: false,
            entries: Vec::new(),
        }
    }

    fn names(&self) -> Vec<String> {
        self.entries.iter().map(|(n, _)| n.clone()).collect()
    }
}

/// Performs one effect, the way the binary around the library does, and
/// reports the event it came back with. `clipboard` receives the text of a
/// successful pick.
fn perform(store: &mut TestStore, clipboard: &mut Option<String>, effect: Effect) -> StoreEvent {
    match effect {
        Effect::NoOp => StoreEvent::NoStore,
        Effect::ListEntries => {
            let empty = !store.exists || store.entries.is_empty();
            store.exists = true;
            StoreEvent::Listed { empty }
        }
        Effect::PickEntry(name) => match store.entries.iter().find(|(n, _)| *n == name) {
            Some((_, text)) => {
                *clipboard = Some(text.clone());
                StoreEvent::PickRead {
                    found: true,
                    copied: true,
                }
            }
            None => StoreEvent::PickRead {
                found: false,
                copied: false,
            },
        },
        Effect::WriteEntry(name, text) => {
            // A write that went through implies the directory was there.
            store.exists = true;
            store.entries.retain(|(n, _)| *n != name);
            store.entries.push((name, text));
            StoreEvent::Wrote { ok: true }
        }
        Effect::RemoveEntry(name) => {
            let had = store.entries.iter().any(|(n, _)| *n == name);
            store.entries.retain(|(n, _)| *n != name);
            StoreEvent::Removed { ok: had }
        }
    }
}

/// Runs one line end to end and returns the outcome message.
fn run(store: &mut TestStore, clipboard: &mut Option<String>, line: &str) -> Option<String> {
    let command: Command = parse_command(line).expect("the line must denote a command");
    let event = perform(store, clipboard, command_effect(&command));
    apply_command(&command, &event)
}

#[test]
fn add_then_pick_round_trips_through_the_clipboard() {
    let mut store = TestStore::fresh();
    let mut clipboard: Option<String> = None;
    assert_eq!(run(&mut store, &mut clipboard, "add x A=1\\nB=2"), None);
    assert_eq!(run(&mut store, &mut clipboard, "pick x"), None);
    assert_eq!(clipboard, Some(String::from("A=1\nB=2\n")));
}

#[test]
fn a_session_over_one_entry() {
    let mut store = TestStore::fresh();
    let mut clipboard: Option<String> = None;

    assert_eq!(run(&mut store, &mut clipboard, "add demo a\\nb"), None);
    assert_eq!(store.names(), vec![String::from("demo")]);
    assert_eq!(store.entries[0].1, "a\nb\n");

    assert_eq!(run(&mut store, &mut clipboard, "list"), None);

    assert_eq!(run(&mut store, &mut clipboard, "pick demo"), None);
    assert_eq!(clipboard, Some(String::from("a\nb\n")));

    assert_eq!(run(&mut store, &mut clipboard, "remove demo"), None);
    assert!(store.entries.is_empty());

    assert_eq!(
        run(&mut store, &mut clipboard, "list"),
        Some(String::from("No env's created yet"))
    );
}

#[test]
fn listing_twice_yields_the_same_names() {
    let mut store = TestStore::fresh();
    let mut clipboard: Option<String> = None;
    let _ = run(&mut store, &mut clipboard, "add one 1");
    let _ = run(&mut store, &mut clipboard, "add two 2");
    let first = store.names();
    assert_eq!(run(&mut store, &mut clipboard, "list"), None);
    let second = store.names();
    assert_eq!(run(&mut store, &mut clipboard, "list"), None);
    assert_eq!(first, second);
    assert_eq!(second, store.names());
}

#[test]
fn a_missing_name_fails_to_remove_and_then_fails_to_pick() {
    let mut store = TestStore::fresh();
    let mut clipboard: Option<String> = None;
    assert_eq!(
        run(&mut store, &mut clipboard, "remove ghost"),
        Some(String::from("Unable to remove file"))
    );
    assert_eq!(
        run(&mut store, &mut clipboard, "pick ghost"),
        Some(String::from("Invalid env name"))
    );
    assert_eq!(clipboard, None);
}

#[test]
fn listing_a_fresh_store_signals_empty_and_creates_the_directory() {
    let mut store = TestStore::fresh();
    let mut clipboard: Option<String> = None;
    assert!(!store.exists);
    assert_eq!(
        run(&mut store, &mut clipboard, "list"),
        Some(String::from("No env's created yet"))
    );
    assert!(store.exists);
    assert!(store.entries.is_empty());
}

#[test]
fn re_adding_a_name_overwrites_its_entry() {
    let mut store = TestStore::fresh();
    let mut clipboard: Option<String> = None;
    let _ = run(&mut store, &mut clipboard, "add demo old");
    let _ = run(&mut store, &mut clipboard, "add demo new");
    assert_eq!(store.names(), vec![String::from("demo")]);
    let _ = run(&mut store, &mut clipboard, "pick demo");
    assert_eq!(clipboard, Some(String::from("new\n")));
}
