use vstd::prelude::*;
use crate::command::Command;
use crate::error::ActuationError;

verus! {

/// A sink for outbound hardware commands.
///
/// The crate never encodes or delivers a command itself: it hands each one to
/// a `Messenger` supplied by the caller, the way the surrounding system hands
/// this crate its hardware connection.  `sent` is the delivery history the
/// contracts speak of: every contract of this crate that mentions issued
/// commands pins down exactly how a call extends it.
pub trait Messenger {
    /// The commands delivered so far, oldest first.
    spec fn sent(&self) -> Seq<Command>;

    /// Whether the sink accepts deliveries.  While it does, publishing is
    /// guaranteed to succeed and leaves it accepting; a sink that may
    /// refuse at any time simply never satisfies this.
    spec fn reliable(&self) -> bool;

    /// Deliver one command.  On success the command is appended to the
    /// history; on failure nothing was delivered and the caller may retry.
    fn publish_message(&mut self, command: &Command) -> (r: Result<(), ActuationError>)
        ensures
            r matches Ok(()) ==> final(self).sent() == old(self).sent().push(*command),
            r matches Err(e) ==> final(self).sent() == old(self).sent()
                && e == ActuationError::PublishFailure,
            old(self).reliable() ==> (r matches Ok(()) && final(self).reliable()),
    ;
}

/// An in-memory command sink: it keeps every command it accepts, and can be
/// told to refuse delivery, which makes publish failures reproducible.
pub struct RecordingMessenger {
    /// Everything accepted so far, oldest first.
    pub commands: Vec<Command>,
    /// While set, every delivery is refused.
    pub refuse: bool,
}

impl RecordingMessenger {
    /// An empty sink that accepts every command.
    pub fn new() -> (r: RecordingMessenger)
        ensures
            r.commands@ == Seq::<Command>::empty(),
            !r.refuse,
    {
        RecordingMessenger { commands: Vec::new(), refuse: false }
    }
}

impl Messenger for RecordingMessenger {
    open spec fn sent(&self) -> Seq<Command> {
        self.commands@
    }

    open spec fn reliable(&self) -> bool {
        !self.refuse
    }

    fn publish_message(&mut self, command: &Command) -> (r: Result<(), ActuationError>) {
        if self.refuse {
            Err(ActuationError::PublishFailure)
        } else {
            self.commands.push(*command);
            Ok(())
        }
    }
}

} // verus!
