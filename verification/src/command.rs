//! A program invocation: what the signing steps ask their caller to run.
use vstd::prelude::*;

verus! {

/// A program and its arguments, as they are handed to the operating system.
pub struct Invocation {
    pub program: String,
    pub args: Vec<String>,
}

/// The mathematical value of an `Invocation`.
pub struct CommandLine {
    pub program: Seq<char>,
    pub args: Seq<Seq<char>>,
}

impl View for Invocation {
    type V = CommandLine;

    open spec fn view(&self) -> CommandLine {
        CommandLine { program: self.program@, args: self.args.deep_view() }
    }
}

/// The value of an optional string.
pub open spec fn opt_view(o: Option<String>) -> Option<Seq<char>> {
    match o {
        Some(s) => Some(s@),
        None => None,
    }
}

/// The command line that runs `program` with `args`.
pub open spec fn command_line(program: Seq<char>, args: Seq<Seq<char>>) -> CommandLine {
    CommandLine { program, args }
}

/// Appends the argument `a`.
pub fn push_arg(args: &mut Vec<String>, a: &str)
    ensures
        final(args).deep_view() == old(args).deep_view().push(a@),
{
    let ghost before = args.deep_view();
    args.push(String::from_str(a));
    assert(args.deep_view() =~= before.push(a@));
}

/// Appends the argument `a`, taking the string.
pub fn push_owned_arg(args: &mut Vec<String>, a: String)
    ensures
        final(args).deep_view() == old(args).deep_view().push(a@),
{
    let ghost before = args.deep_view();
    let ghost av = a@;
    args.push(a);
    assert(args.deep_view() =~= before.push(av));
}

/// What the caller reports back after it performed the last action asked of
/// it (or, to start, `Begin`).
pub enum Event {
    /// Nothing was asked yet.
    Begin,
    /// The program that was to be run exited; `true` when successfully.
    Exited(bool),
    /// The standard output of the program whose output was asked for, or
    /// `None` when it could not be started.
    Output(Option<String>),
    /// Whether the file that was asked about exists.
    Exists(bool),
    /// The file work that was asked for is done.
    Completed,
}

/// The mathematical value of an `Event`.
pub enum EventView {
    Begin,
    Exited(bool),
    Output(Option<Seq<char>>),
    Exists(bool),
    Completed,
}

impl View for Event {
    type V = EventView;

    open spec fn view(&self) -> EventView {
        match self {
            Event::Begin => EventView::Begin,
            Event::Exited(b) => EventView::Exited(*b),
            Event::Output(o) => EventView::Output(
                match o {
                    Some(s) => Some(s@),
                    None => None,
                },
            ),
            Event::Exists(b) => EventView::Exists(*b),
            Event::Completed => EventView::Completed,
        }
    }
}

} // verus!
