//! Bus session: ownership of the well-known name and registration of the
//! object that answers calls.
//!
//! The session decides; the caller talks to the bus. Each report from the
//! bus is an event, and each event yields the next state and what to do.

use vstd::prelude::*;

verus! {

/// Where the session stands with the bus name.
#[derive(Clone, Copy, Debug, PartialEq, Eq, Structural)]
pub enum SessionState {
    /// Nothing has been asked of the bus.
    Unowned,
    /// The name has been requested.
    Acquiring,
    /// The name is ours.
    Owned,
    /// The name could not be had, or was taken away. Final.
    Lost,
}

/// Why the object could not be registered.
#[derive(Clone, Copy, Debug, PartialEq, Eq, Structural)]
pub enum RegistrationFailure {
    /// The interface description could not be parsed.
    MalformedSchema,
    /// The interface description holds no interface.
    NoInterface,
    /// The bus refused the registration.
    Rejected,
}

/// A fault to be reported once. None of them is retried.
#[derive(Clone, Copy, Debug, PartialEq, Eq, Structural)]
pub enum SessionFault {
    NameLost,
    RegistrationFailed(RegistrationFailure),
}

/// What the session learns.
#[derive(Clone, Copy, Debug, PartialEq, Eq, Structural)]
pub enum SessionEvent {
    /// The daemon's own command to start.
    Start,
    /// The bus reports that the name was acquired.
    Acquired,
    /// The bus reports that the name could not be acquired or was revoked.
    Lost,
    /// The object is registered and calls will arrive.
    Registered,
    /// The object could not be registered.
    RegistrationFailed(RegistrationFailure),
}

/// What the caller is to do next.
#[derive(Clone, Copy, Debug, PartialEq, Eq, Structural)]
pub enum SessionAction {
    /// Nothing.
    Nothing,
    /// Ask the session bus for the well-known name.
    OwnName,
    /// Parse the interface description and register the object at its
    /// path, with the dispatcher as the handler of every call.
    RegisterObject,
    /// Report the fault.
    Report(SessionFault),
}

/// State of a session: where it stands, and whether the object is
/// registered.
pub struct SessionModel {
    pub state: SessionState,
    pub serving: bool,
}

impl SessionModel {
    /// The object is registered only while the name is owned.
    pub open spec fn well_formed(self) -> bool {
        self.serving ==> self.state == SessionState::Owned
    }

    pub open spec fn initial() -> SessionModel {
        SessionModel { state: SessionState::Unowned, serving: false }
    }

    /// The state after `event`. An event that does not fit the state
    /// changes nothing.
    pub open spec fn next(self, event: SessionEvent) -> SessionModel {
        match (self.state, event) {
            (SessionState::Unowned, SessionEvent::Start) => SessionModel {
                state: SessionState::Acquiring,
                serving: false,
            },
            (SessionState::Acquiring, SessionEvent::Acquired) => SessionModel {
                state: SessionState::Owned,
                serving: false,
            },
            (SessionState::Acquiring, SessionEvent::Lost) => SessionModel {
                state: SessionState::Lost,
                serving: false,
            },
            (SessionState::Owned, SessionEvent::Lost) => SessionModel {
                state: SessionState::Lost,
                serving: false,
            },
            (SessionState::Owned, SessionEvent::Registered) => SessionModel {
                state: SessionState::Owned,
                serving: true,
            },
            (SessionState::Owned, SessionEvent::RegistrationFailed(_)) => SessionModel {
                state: SessionState::Owned,
                serving: false,
            },
            _ => self,
        }
    }

    /// What `event` asks of the caller in this state.
    pub open spec fn action(self, event: SessionEvent) -> SessionAction {
        match (self.state, event) {
            (SessionState::Unowned, SessionEvent::Start) => SessionAction::OwnName,
            (SessionState::Acquiring, SessionEvent::Acquired) => SessionAction::RegisterObject,
            (SessionState::Acquiring, SessionEvent::Lost) => SessionAction::Report(
                SessionFault::NameLost,
            ),
            (SessionState::Owned, SessionEvent::Lost) => SessionAction::Report(
                SessionFault::NameLost,
            ),
            (SessionState::Owned, SessionEvent::RegistrationFailed(failure)) => {
                SessionAction::Report(SessionFault::RegistrationFailed(failure))
            },
            _ => SessionAction::Nothing,
        }
    }
}

/// The session with the bus.
pub struct BusSession {
    state: SessionState,
    serving: bool,
}

impl View for BusSession {
    type V = SessionModel;

    closed spec fn view(&self) -> SessionModel {
        SessionModel { state: self.state, serving: self.serving }
    }
}

impl BusSession {
    #[verifier::type_invariant]
    spec fn registered_only_while_owned(&self) -> bool {
        self.serving ==> self.state == SessionState::Owned
    }

    /// A session that has asked nothing of the bus.
    pub fn new() -> (session: BusSession)
        ensures
            session@ == SessionModel::initial(),
    {
        BusSession { state: SessionState::Unowned, serving: false }
    }

    /// Where the session stands.
    pub fn state(&self) -> (state: SessionState)
        ensures
            state == self@.state,
    {
        self.state
    }

    /// Tells whether the object is registered, so that calls can arrive.
    pub fn is_serving(&self) -> (serving: bool)
        ensures
            serving == self@.serving,
            serving ==> self@.state == SessionState::Owned,
    {
        proof {
            use_type_invariant(self);
        }
        self.serving
    }

    /// Takes one event: moves to the next state and tells what to do.
    pub fn handle(&mut self, event: SessionEvent) -> (action: SessionAction)
        ensures
            final(self)@ == old(self)@.next(event),
            action == old(self)@.action(event),
            final(self)@.well_formed(),
    {
        proof {
            use_type_invariant(&*self);
        }
        match (self.state, event) {
            (SessionState::Unowned, SessionEvent::Start) => {
                self.state = SessionState::Acquiring;
                SessionAction::OwnName
            },
            (SessionState::Acquiring, SessionEvent::Acquired) => {
                self.state = SessionState::Owned;
                SessionAction::RegisterObject
            },
            (SessionState::Acquiring, SessionEvent::Lost) => {
                self.state = SessionState::Lost;
                SessionAction::Report(SessionFault::NameLost)
            },
            (SessionState::Owned, SessionEvent::Lost) => {
                self.serving = false;
                self.state = SessionState::Lost;
                SessionAction::Report(SessionFault::NameLost)
            },
            (SessionState::Owned, SessionEvent::Registered) => {
                self.serving = true;
                SessionAction::Nothing
            },
            (SessionState::Owned, SessionEvent::RegistrationFailed(failure)) => {
                self.serving = false;
                SessionAction::Report(SessionFault::RegistrationFailed(failure))
            },
            _ => SessionAction::Nothing,
        }
    }
}

/// Whatever happens, the object stays registered only while the name is
/// owned.
pub proof fn lemma_registered_only_while_owned(session: SessionModel, event: SessionEvent)
    requires
        session.well_formed(),
    ensures
        session.next(event).well_formed(),
{
}

/// Once the name is lost, nothing changes the state any more, and nothing
/// more is asked of the caller.
pub proof fn lemma_lost_is_final(session: SessionModel, event: SessionEvent)
    requires
        session.state == SessionState::Lost,
    ensures
        session.next(event) == session,
        session.action(event) == SessionAction::Nothing,
{
}

/// The name is requested exactly when the start command reaches a session
/// that has asked nothing yet; nothing else makes the request.
pub proof fn lemma_name_requested_once(session: SessionModel, event: SessionEvent)
    ensures
        session.action(event) == SessionAction::OwnName <==> (session.state
            == SessionState::Unowned && event == SessionEvent::Start),
        session.action(event) == SessionAction::OwnName ==> session.next(event).state
            == SessionState::Acquiring,
{
}

} // verus!
