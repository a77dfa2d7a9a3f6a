use vstd::prelude::*;

use crate::command::{view_of, Command, CommandView};

verus! {

/// A single-slot, overwrite-on-write hand-off between any number of producers
/// and one consumer. It holds the latest command that was not taken yet, or
/// nothing. It never queues, never blocks and never inspects a command.
///
/// The mailbox itself is plain data: a host that shares it between tasks
/// guards it with a lock and calls `submit` and `take` under that lock.
#[derive(Debug)]
pub struct Mailbox {
    slot: Option<Command>,
}

impl View for Mailbox {
    type V = Option<CommandView>;

    closed spec fn view(&self) -> Option<CommandView> {
        view_of(self.slot)
    }
}

/// The slot after `command` was submitted: whatever was pending is gone.
pub open spec fn after_submit(slot: Option<CommandView>, command: CommandView) -> Option<
    CommandView,
> {
    Some(command)
}

/// What a take hands out of `slot`.
pub open spec fn taken_from(slot: Option<CommandView>) -> Option<CommandView> {
    slot
}

/// The slot after a take: always empty.
pub open spec fn after_take(slot: Option<CommandView>) -> Option<CommandView> {
    None
}

impl Mailbox {
    /// An empty mailbox.
    pub fn new() -> (mailbox: Mailbox)
        ensures
            mailbox@ is None,
    {
        Mailbox { slot: None }
    }

    /// Stores `command`, replacing a command that was not consumed yet.
    pub fn submit(&mut self, command: Command)
        ensures
            final(self)@ == after_submit(old(self)@, command@),
    {
        self.slot = Some(command);
    }

    /// Removes and returns the pending command, if there is one.
    pub fn take(&mut self) -> (command: Option<Command>)
        ensures
            view_of(command) == taken_from(old(self)@),
            final(self)@ == after_take(old(self)@),
    {
        self.slot.take()
    }

    /// Whether no command is pending.
    pub fn is_empty(&self) -> (empty: bool)
        ensures
            empty == (self@ is None),
    {
        self.slot.is_none()
    }
}

/// Last write wins: of two commands submitted before any take, the first
/// take hands out the second one and no later take hands out anything, so
/// the first command is never observed.
pub proof fn law_last_write_wins(slot: Option<CommandView>, first: CommandView, second: CommandView)
    ensures
        taken_from(after_submit(after_submit(slot, first), second)) == Some(second),
        after_take(after_submit(after_submit(slot, first), second)) is None,
        taken_from(after_take(after_submit(after_submit(slot, first), second))) is None,
{
}

} // verus!
