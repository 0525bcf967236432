use vstd::prelude::*;

verus! {

/// Names of the events the client reports to its user interface.
pub struct EventNames;

impl EventNames {
    pub const MESSAGE_RECEIVED: &'static str = "message";
    pub const KICKED: &'static str = "kicked";
    pub const STATUS_UPD: &'static str = "status";
    pub const SERVER_RESULT: &'static str = "server_result";
}

/// An event the client reports to its user interface.
#[derive(Clone, Copy, Debug, PartialEq, Eq, Structural)]
pub enum FrontendEvent {
    MessageReceived,
    Kicked,
    StatusUpd,
    ServerResult,
}

impl FrontendEvent {
    pub open spec fn spec_name(self) -> Seq<char> {
        match self {
            FrontendEvent::MessageReceived => "message"@,
            FrontendEvent::Kicked => "kicked"@,
            FrontendEvent::StatusUpd => "status"@,
            FrontendEvent::ServerResult => "server_result"@,
        }
    }

    /// The name under which the event is emitted.
    pub fn name(&self) -> (res: &'static str)
        ensures
            res@ == self.spec_name(),
    {
        match self {
            FrontendEvent::MessageReceived => EventNames::MESSAGE_RECEIVED,
            FrontendEvent::Kicked => EventNames::KICKED,
            FrontendEvent::StatusUpd => EventNames::STATUS_UPD,
            FrontendEvent::ServerResult => EventNames::SERVER_RESULT,
        }
    }
}

} // verus!
