use vstd::prelude::*;

verus! {

/// Everything that can go wrong in this library. No operation panics on any
/// of these conditions; each is handed back to the immediate caller.
#[derive(Clone, Copy, Debug, PartialEq, Eq, Structural)]
pub enum SbioError {
    /// The transport could not open the channel, or the channel name cannot
    /// be handed to it.
    Connection,
    /// The operation was attempted on a connection that is not open.
    ChannelClosed,
    /// The transport rejected a send.
    Send,
    /// The transport failed to receive. The dispatch loop treats this as
    /// transient and goes on.
    Receive,
    /// A buffer could not be encoded, or one of its strings cannot be read.
    Serialization,
    /// The observer to remove is not registered.
    ObserverNotFound,
    /// A dispatch loop is already active on the connection.
    AlreadyReceiving,
    /// An observer could not take an event, for a reason of its own.
    ObserverFailed,
}

impl SbioError {
    /// The text that describes each error.
    pub open spec fn text(self) -> Seq<char> {
        match self {
            SbioError::Connection => "Couldn't open SBIO channel"@,
            SbioError::ChannelClosed => "SBIO channel is closed"@,
            SbioError::Send => "Couldn't send event"@,
            SbioError::Receive => "Couldn't receive event"@,
            SbioError::Serialization => "Couldn't serialize event data"@,
            SbioError::ObserverNotFound => "Observer is not registered"@,
            SbioError::AlreadyReceiving => "Already receiving events"@,
            SbioError::ObserverFailed => "Observer couldn't take the event"@,
        }
    }

    /// A description of the error, for logs and for callers that report text.
    pub fn message(&self) -> (text: &'static str)
        ensures
            text@ == self.text(),
    {
        match self {
            SbioError::Connection => "Couldn't open SBIO channel",
            SbioError::ChannelClosed => "SBIO channel is closed",
            SbioError::Send => "Couldn't send event",
            SbioError::Receive => "Couldn't receive event",
            SbioError::Serialization => "Couldn't serialize event data",
            SbioError::ObserverNotFound => "Observer is not registered",
            SbioError::AlreadyReceiving => "Already receiving events",
            SbioError::ObserverFailed => "Observer couldn't take the event",
        }
    }
}

} // verus!
