//! The read-eval loop's policy. The loop itself blocks on a line editor and
//! touches the console and the history file; what stands here is its
//! decision: which input-layer events keep the session running, which end
//! it, and the exact text acknowledged or shown on the way out.

use vstd::prelude::*;

verus! {

/// What one request for a line of input came back with.
pub enum InputEvent {
    /// A line of text was read.
    Line(String),
    /// The user interrupted the session.
    Interrupted,
    /// The input ended.
    EndOfInput,
    /// Some other input-layer failure, already rendered as text.
    Failed(String),
}

/// The value of an `InputEvent` in specifications.
pub enum InputEventView {
    Line(Seq<char>),
    Interrupted,
    EndOfInput,
    Failed(Seq<char>),
}

impl View for InputEvent {
    type V = InputEventView;

    open spec fn view(&self) -> InputEventView {
        match self {
            InputEvent::Line(line) => InputEventView::Line(line@),
            InputEvent::Interrupted => InputEventView::Interrupted,
            InputEvent::EndOfInput => InputEventView::EndOfInput,
            InputEvent::Failed(detail) => InputEventView::Failed(detail@),
        }
    }
}

/// What the loop does next: execute a line and keep running, or show a
/// last message, persist the history, and stop.
pub enum SessionStep {
    Execute(String),
    Quit(String),
}

/// The value of a `SessionStep` in specifications.
pub enum SessionStepView {
    Execute(Seq<char>),
    Quit(Seq<char>),
}

impl View for SessionStep {
    type V = SessionStepView;

    open spec fn view(&self) -> SessionStepView {
        match self {
            SessionStep::Execute(line) => SessionStepView::Execute(line@),
            SessionStep::Quit(message) => SessionStepView::Quit(message@),
        }
    }
}

/// The acknowledgement shown for an interrupt.
pub open spec fn interrupt_ack_text() -> Seq<char> {
    "CTRL-C"@
}

/// The acknowledgement shown for the end of input.
pub open spec fn end_of_input_ack_text() -> Seq<char> {
    "CTRL-D"@
}

/// The prefix put before the rendering of any other input failure.
pub open spec fn failure_prefix_text() -> Seq<char> {
    "Error: "@
}

/// The step each input event decides: only a read line keeps the session
/// running; every other event ends it, with its acknowledgement.
pub open spec fn spec_session_step(e: InputEventView) -> SessionStepView {
    match e {
        InputEventView::Line(line) => SessionStepView::Execute(line),
        InputEventView::Interrupted => SessionStepView::Quit(interrupt_ack_text()),
        InputEventView::EndOfInput => SessionStepView::Quit(end_of_input_ack_text()),
        InputEventView::Failed(detail) => SessionStepView::Quit(failure_prefix_text() + detail),
    }
}

/// Decides the loop's next step from one input event, per
/// `spec_session_step`.
pub fn session_step(event: InputEvent) -> (r: SessionStep)
    ensures
        r@ == spec_session_step(event@),
{
    match event {
        InputEvent::Line(line) => SessionStep::Execute(line),
        InputEvent::Interrupted => SessionStep::Quit(String::from_str("CTRL-C")),
        InputEvent::EndOfInput => SessionStep::Quit(String::from_str("CTRL-D")),
        InputEvent::Failed(detail) => {
            let mut message = String::from_str("Error: ");
            message.append(detail.as_str());
            SessionStep::Quit(message)
        },
    }
}

/// The banner shown when the session starts.
pub fn greeting() -> (r: String)
    ensures
        r@ == "storagenv - type 'help' to see a list of available commands"@,
{
    String::from_str("storagenv - type 'help' to see a list of available commands")
}

/// The prompt shown before each line is read.
pub fn prompt() -> (r: String)
    ensures
        r@ == ">> "@,
{
    String::from_str(">> ")
}

/// The file the line history is persisted in, in the working directory.
pub fn history_path() -> (r: String)
    ensures
        r@ == "history.txt"@,
{
    String::from_str("history.txt")
}

/// The notice shown when no previous history could be loaded; the session
/// goes on regardless.
pub fn history_missing_notice() -> (r: String)
    ensures
        r@ == "No previous history."@,
{
    String::from_str("No previous history.")
}

} // verus!
