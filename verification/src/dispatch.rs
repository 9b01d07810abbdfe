//! The dispatcher: what a command asks the store or the clipboard to do,
//! and the one optional message its outcome earns. Every failure is turned
//! into a fixed display string here; nothing structured passes this
//! boundary.

use vstd::prelude::*;
use crate::command::{Command, CommandView};
use crate::store::{encode_content, spec_encode};

verus! {

/// The help text, shown whole for `help`.
pub open spec fn help_text() -> Seq<char> {
    "Enter exit to quit.\nEnter 'list' to list all stored env\nEnter 'remove ENV_NAME' to remove specific environment\nEnter 'pick ENV_NAME' to retrieve specific environment file\nEnter 'add ENV_NAME ENV_STRING' to add new environment file\n\n"@
}

/// The message for input that is no command.
pub open spec fn invalid_text() -> Seq<char> {
    "invalid command, run 'help' to see a list of valid commands"@
}

/// The message for listing a store with no entries.
pub open spec fn empty_store_text() -> Seq<char> {
    "No env's created yet"@
}

/// The message for picking a name whose entry cannot be read.
pub open spec fn missing_entry_text() -> Seq<char> {
    "Invalid env name"@
}

/// The message for a clipboard that rejected the text.
pub open spec fn clipboard_failure_text() -> Seq<char> {
    "Could not set to clipboard"@
}

/// The message for an entry that could not be created or fully written.
pub open spec fn write_failure_text() -> Seq<char> {
    "Could not write env, try again later"@
}

/// The message for an entry that could not be removed.
pub open spec fn remove_failure_text() -> Seq<char> {
    "Unable to remove file"@
}

/// The header printed before the names when the store is enumerated.
pub open spec fn list_header_text() -> Seq<char> {
    "storagenv - Stored env's"@
}

/// What a command asks of the store or the clipboard. The payloads are
/// ready to use: the path-forming name verbatim, and for a write the full
/// file text, already encoded.
pub enum Effect {
    /// Nothing to perform: `help` and unrecognized input only show text.
    NoOp,
    /// Enumerate the store directory, creating it if it is missing, and
    /// echo each entry name.
    ListEntries,
    /// Read the entry and hand its full text to the clipboard.
    PickEntry(String),
    /// Create or truncate the entry and write the given file text.
    WriteEntry(String, String),
    /// Delete the entry.
    RemoveEntry(String),
}

/// The value of an `Effect` in specifications.
pub enum EffectView {
    NoOp,
    ListEntries,
    PickEntry(Seq<char>),
    WriteEntry(Seq<char>, Seq<char>),
    RemoveEntry(Seq<char>),
}

impl View for Effect {
    type V = EffectView;

    open spec fn view(&self) -> EffectView {
        match self {
            Effect::NoOp => EffectView::NoOp,
            Effect::ListEntries => EffectView::ListEntries,
            Effect::PickEntry(name) => EffectView::PickEntry(name@),
            Effect::WriteEntry(name, text) => EffectView::WriteEntry(name@, text@),
            Effect::RemoveEntry(name) => EffectView::RemoveEntry(name@),
        }
    }
}

/// What performing an effect reported back, as plain values.
#[derive(Debug, Clone, Copy, PartialEq, Eq, Structural)]
pub enum StoreEvent {
    /// No store or clipboard work was involved.
    NoStore,
    /// The store was enumerated; `empty` says whether it had no entries
    /// (a missing directory counts as empty, and is created).
    Listed { empty: bool },
    /// A pick ran: `found` says whether the entry could be read, `copied`
    /// whether the clipboard then took the text. `copied` is only
    /// meaningful where `found` holds.
    PickRead { found: bool, copied: bool },
    /// A write ran; `ok` says whether the entry was fully written.
    Wrote { ok: bool },
    /// A delete ran; `ok` says whether the entry was removed.
    Removed { ok: bool },
}

/// The effect each command asks for.
pub open spec fn spec_effect(c: CommandView) -> EffectView {
    match c {
        CommandView::Help => EffectView::NoOp,
        CommandView::Invalid => EffectView::NoOp,
        CommandView::List => EffectView::ListEntries,
        CommandView::Pick(name) => EffectView::PickEntry(name),
        CommandView::Add(name, content) => EffectView::WriteEntry(name, spec_encode(content)),
        CommandView::Remove(name) => EffectView::RemoveEntry(name),
    }
}

/// The message a command's outcome earns: `Some` text to display, `None`
/// for silent success. Events of the wrong shape for the command earn
/// nothing; a run pairs each command with the event its own effect
/// produced.
pub open spec fn spec_outcome(c: CommandView, e: StoreEvent) -> Option<Seq<char>> {
    match c {
        CommandView::Help => Some(help_text()),
        CommandView::Invalid => Some(invalid_text()),
        CommandView::List => match e {
            StoreEvent::Listed { empty } => if empty {
                Some(empty_store_text())
            } else {
                None
            },
            _ => None,
        },
        CommandView::Pick(_) => match e {
            StoreEvent::PickRead { found, copied } => if !found {
                Some(missing_entry_text())
            } else if !copied {
                Some(clipboard_failure_text())
            } else {
                None
            },
            _ => None,
        },
        CommandView::Add(_, _) => match e {
            StoreEvent::Wrote { ok } => if ok {
                None
            } else {
                Some(write_failure_text())
            },
            _ => None,
        },
        CommandView::Remove(_) => match e {
            StoreEvent::Removed { ok } => if ok {
                None
            } else {
                Some(remove_failure_text())
            },
            _ => None,
        },
    }
}

/// The outcome of `help`: the whole help text, always.
pub fn help_command() -> (r: Option<String>)
    ensures
        r.deep_view() == Some(help_text()),
{
    Some(String::from_str(
        "Enter exit to quit.\nEnter 'list' to list all stored env\nEnter 'remove ENV_NAME' to remove specific environment\nEnter 'pick ENV_NAME' to retrieve specific environment file\nEnter 'add ENV_NAME ENV_STRING' to add new environment file\n\n",
    ))
}

/// The outcome of unrecognized input: a pointer at `help`, always.
pub fn invalid_command() -> (r: Option<String>)
    ensures
        r.deep_view() == Some(invalid_text()),
{
    Some(String::from_str("invalid command, run 'help' to see a list of valid commands"))
}

/// The outcome of `list`, given whether the enumeration found no entries:
/// the empty-store message, or silence (the names were already echoed).
pub fn list_command(empty: bool) -> (r: Option<String>)
    ensures
        r.deep_view() == spec_outcome(CommandView::List, StoreEvent::Listed { empty }),
{
    if empty {
        Some(String::from_str("No env's created yet"))
    } else {
        None
    }
}

/// The outcome of `pick`, given whether the entry was read and whether the
/// clipboard took the text.
pub fn pick_command(found: bool, copied: bool) -> (r: Option<String>)
    ensures
        r.deep_view() == spec_outcome(
            CommandView::Pick(Seq::empty()),
            StoreEvent::PickRead { found, copied },
        ),
{
    if !found {
        Some(String::from_str("Invalid env name"))
    } else if !copied {
        Some(String::from_str("Could not set to clipboard"))
    } else {
        None
    }
}

/// The outcome of `add`, given whether the write went through.
pub fn add_command(ok: bool) -> (r: Option<String>)
    ensures
        r.deep_view() == spec_outcome(CommandView::Add(Seq::empty(), Seq::empty()), StoreEvent::Wrote { ok }),
{
    if ok {
        None
    } else {
        Some(String::from_str("Could not write env, try again later"))
    }
}

/// The outcome of `remove`, given whether the delete went through.
pub fn remove_command(ok: bool) -> (r: Option<String>)
    ensures
        r.deep_view() == spec_outcome(CommandView::Remove(Seq::empty()), StoreEvent::Removed { ok }),
{
    if ok {
        None
    } else {
        Some(String::from_str("Unable to remove file"))
    }
}

/// The store or clipboard work a command asks for, with the content of an
/// `add` already encoded into the file text to write.
pub fn command_effect(command: &Command) -> (e: Effect)
    ensures
        e@ == spec_effect(command@),
{
    match command {
        Command::Help => Effect::NoOp,
        Command::Invalid => Effect::NoOp,
        Command::List => Effect::ListEntries,
        Command::Pick(name) => Effect::PickEntry(name.clone()),
        Command::Add(name, content) => Effect::WriteEntry(
            name.clone(),
            encode_content(content.as_str()),
        ),
        Command::Remove(name) => Effect::RemoveEntry(name.clone()),
    }
}

/// The message a command's outcome earns, per `spec_outcome`: the fixed
/// help or invalid-input text, a fixed failure message, or silence.
pub fn apply_command(command: &Command, event: &StoreEvent) -> (r: Option<String>)
    ensures
        r.deep_view() == spec_outcome(command@, *event),
{
    match command {
        Command::Help => help_command(),
        Command::Invalid => invalid_command(),
        Command::List => match event {
            StoreEvent::Listed { empty } => list_command(*empty),
            _ => None,
        },
        Command::Pick(_) => match event {
            StoreEvent::PickRead { found, copied } => pick_command(*found, *copied),
            _ => None,
        },
        Command::Add(_, _) => match event {
            StoreEvent::Wrote { ok } => add_command(*ok),
            _ => None,
        },
        Command::Remove(_) => match event {
            StoreEvent::Removed { ok } => remove_command(*ok),
            _ => None,
        },
    }
}

/// The header line shown before the entry names during `list`.
pub fn list_header() -> (r: String)
    ensures
        r@ == list_header_text(),
{
    String::from_str("storagenv - Stored env's")
}

/// The line echoed for one entry name during `list`.
pub fn list_entry_line(name: &str) -> (r: String)
    ensures
        r@ == "- "@ + name@,
{
    let mut out = String::from_str("- ");
    out.append(name);
    out
}

} // verus!
