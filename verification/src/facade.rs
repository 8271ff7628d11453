use vstd::prelude::*;
use crate::endpoint::Endpoint;
use crate::error::DeviceError;
use crate::session::{Command, CommandRequest, CommandRequestView};

verus! {

/// The facade's command builder: each of the four operations becomes
/// one command carrying a fresh single-resolution completion ticket,
/// so every command instance's completion is unique and is fulfilled
/// exactly once, by whichever sub-task processes it. Tickets are
/// handed out strictly increasing.
#[derive(Debug)]
pub struct CommandFactory {
    next_ticket: u64,
}

impl View for CommandFactory {
    type V = u64;

    closed spec fn view(&self) -> u64 {
        self.next_ticket
    }
}

impl CommandFactory {
    /// A factory for a fresh session; no tickets are issued yet.
    pub fn new() -> (factory: CommandFactory)
        ensures
            factory@ == 0u64,
    {
        CommandFactory { next_ticket: 0 }
    }

    /// Whether the ticket space is used up; while this is false the
    /// factory can issue another command.
    pub fn exhausted(&self) -> (used_up: bool)
        ensures
            used_up == (self@ == u64::MAX),
    {
        self.next_ticket == u64::MAX
    }

    /// The write command for an endpoint, carrying the bytes to send.
    pub fn write_command(&mut self, endpoint: Endpoint, data: Vec<u8>) -> (command: Command)
        requires
            old(self)@ < u64::MAX,
        ensures
            command@.ticket == old(self)@,
            command@.request == CommandRequestView::Write(endpoint@, data@),
            final(self)@ == old(self)@ + 1,
    {
        let ticket = self.next_ticket;
        self.next_ticket = self.next_ticket + 1;
        Command { ticket, request: CommandRequest::Write(endpoint, data) }
    }

    /// The read command for an endpoint.
    pub fn read_command(&mut self, endpoint: Endpoint) -> (command: Command)
        requires
            old(self)@ < u64::MAX,
        ensures
            command@.ticket == old(self)@,
            command@.request == CommandRequestView::Read(endpoint@),
            final(self)@ == old(self)@ + 1,
    {
        let ticket = self.next_ticket;
        self.next_ticket = self.next_ticket + 1;
        Command { ticket, request: CommandRequest::Read(endpoint) }
    }

    /// The subscribe command for an endpoint.
    pub fn subscribe_command(&mut self, endpoint: Endpoint) -> (command: Command)
        requires
            old(self)@ < u64::MAX,
        ensures
            command@.ticket == old(self)@,
            command@.request == CommandRequestView::Subscribe(endpoint@),
            final(self)@ == old(self)@ + 1,
    {
        let ticket = self.next_ticket;
        self.next_ticket = self.next_ticket + 1;
        Command { ticket, request: CommandRequest::Subscribe(endpoint) }
    }

    /// The unsubscribe command for an endpoint.
    pub fn unsubscribe_command(&mut self, endpoint: Endpoint) -> (command: Command)
        requires
            old(self)@ < u64::MAX,
        ensures
            command@.ticket == old(self)@,
            command@.request == CommandRequestView::Unsubscribe(endpoint@),
            final(self)@ == old(self)@ + 1,
    {
        let ticket = self.next_ticket;
        self.next_ticket = self.next_ticket + 1;
        Command { ticket, request: CommandRequest::Unsubscribe(endpoint) }
    }
}

/// The facade's best-effort disconnect: a no-op success by design —
/// actual teardown happens when the last facade handle is dropped and
/// the session's command queue closes. Callers must not rely on it
/// performing an active disconnect.
pub fn disconnect() -> (outcome: Result<(), DeviceError>)
    ensures
        outcome is Ok,
{
    Ok(())
}

} // verus!
