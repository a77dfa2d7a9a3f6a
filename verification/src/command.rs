use vstd::prelude::*;

verus! {

/// A request from the producer to the worker.
#[derive(Debug, PartialEq, Eq)]
pub enum Command {
    /// Flash the referenced image and monitor the target. The reference is an
    /// opaque handle: whether it names a readable file shows only when the
    /// pipeline runs.
    Start(String),
    /// Accepted by the dispatch, but no stage acts on it.
    Stop,
}

/// The mathematical value of a [`Command`].
pub enum CommandView {
    Start(Seq<char>),
    Stop,
}

impl View for Command {
    type V = CommandView;

    open spec fn view(&self) -> CommandView {
        match self {
            Command::Start(image) => CommandView::Start(image@),
            Command::Stop => CommandView::Stop,
        }
    }
}

/// The value of a command that may be absent.
pub open spec fn view_of(command: Option<Command>) -> Option<CommandView> {
    match command {
        Some(c) => Some(c@),
        None => None,
    }
}

impl Command {
    /// A command that asks to flash `image`.
    pub fn start(image: &str) -> (command: Command)
        ensures
            command@ == CommandView::Start(image@),
    {
        Command::Start(String::from_str(image))
    }
}

impl Clone for Command {
    fn clone(&self) -> (copy: Command)
        ensures
            copy@ == self@,
    {
        match self {
            Command::Start(image) => Command::Start(image.clone()),
            Command::Stop => Command::Stop,
        }
    }
}

} // verus!
