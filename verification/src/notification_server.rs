//! The notification server: method dispatcher, identity allocator, bus
//! session and event forwarder under one owner.
//!
//! The server never talks to the bus itself. It is told of each call and of
//! each report of the bus, and answers with what is to be sent.

use vstd::prelude::*;
use async_channel::Sender;
use crate::allocator::counter_after;
use crate::allocator::resolved_id;
use crate::allocator::IdAllocator;
use crate::events::NotificationEvent;
use crate::events::NotificationEventView;
use crate::events::UIEvent;
use crate::events::UIEventView;
use crate::forwarder::channel_capacity;
use crate::forwarder::delivered_after;
use crate::forwarder::EventForwarder;
use crate::forwarder::ForwardOutcome;
use crate::notification::notification_of;
use crate::notification::replaces_id;
use crate::notification::replaces_id_of;
use crate::notification::Notification;
use crate::schema::get_server_information;
use crate::schema::method_named;
use crate::schema::method_of;
use crate::schema::server_information;
use crate::schema::views;
use crate::schema::well_typed;
use crate::schema::Method;
use crate::schema::Value;
use crate::schema::ValueView;
use crate::session::BusSession;
use crate::session::SessionAction;
use crate::session::SessionEvent;
use crate::session::SessionFault;
use crate::session::SessionModel;
use crate::session::SessionState;

verus! {

/// What one call leads to: the counter afterwards, the reply that goes back
/// to the caller, and the event that goes to the consumer after it.
pub struct Served {
    pub counter: u32,
    pub reply: Option<Seq<ValueView>>,
    pub event: Option<UIEventView>,
}

/// The dispatcher's rule. `counter` is the allocator's next fresh id.
///
/// `GetServerInformation` is answered with the fixed tuple. `Notify` is
/// answered with the id resolved for it, and yields one event that holds
/// the record under that id. Any other name is passed over: no reply, no
/// event.
pub open spec fn serve(counter: u32, method_name: Seq<char>, parameters: Seq<ValueView>) -> Served {
    match method_of(method_name) {
        Some(Method::GetServerInformation) => Served {
            counter,
            reply: Some(server_information()),
            event: None,
        },
        Some(Method::Notify) => {
            let replaces = replaces_id_of(parameters);
            let id = resolved_id(counter, replaces);
            Served {
                counter: counter_after(counter, replaces),
                reply: Some(seq![ValueView::Uint32(id)]),
                event: Some(
                    UIEventView::Notification(
                        NotificationEventView::NewNotification(notification_of(parameters, id)),
                    ),
                ),
            }
        },
        None => Served { counter, reply: None, event: None },
    }
}

/// What the dispatcher hands back for one call.
#[derive(Debug, PartialEq, Eq)]
pub struct Dispatch {
    /// The values to send back to the caller. `None`: nothing is sent.
    pub reply: Option<Vec<Value>>,
    /// The event to forward once the reply is out.
    pub event: Option<UIEvent>,
}

/// Mathematical content of a [`Dispatch`].
pub struct DispatchView {
    pub reply: Option<Seq<ValueView>>,
    pub event: Option<UIEventView>,
}

impl View for Dispatch {
    type V = DispatchView;

    open spec fn view(&self) -> DispatchView {
        DispatchView {
            reply: match self.reply {
                Some(values) => Some(views(values@)),
                None => None,
            },
            event: match self.event {
                Some(event) => Some(event@),
                None => None,
            },
        }
    }
}

/// State of a [`NotificationServer`].
pub struct ServerView {
    /// The id that the next fresh allocation returns. Never zero.
    pub next_id: u32,
    /// The session with the bus.
    pub session: SessionModel,
    /// The events that the forwarding queue has accepted, oldest first.
    pub delivered: Seq<UIEventView>,
    /// The producer handle that events are pushed through.
    pub channel: Sender<UIEvent>,
}

impl ServerView {
    /// Tells whether the forwarding queue can hold any number of events.
    pub open spec fn unbounded(self) -> bool {
        channel_capacity(self.channel) is None
    }
}

/// The daemon's core. It owns the id counter, so that ids are resolved one
/// call at a time, and the producer end of the forwarding queue.
pub struct NotificationServer {
    allocator: IdAllocator,
    forwarder: EventForwarder,
    session: BusSession,
}

impl View for NotificationServer {
    type V = ServerView;

    closed spec fn view(&self) -> ServerView {
        ServerView {
            next_id: self.allocator.next_id(),
            session: self.session@,
            delivered: self.forwarder.delivered(),
            channel: self.forwarder.channel(),
        }
    }
}

impl NotificationServer {
    /// A server that pushes its events through `sender`. Its first fresh id
    /// is `1`, it has asked nothing of the bus and delivered nothing.
    pub fn new(sender: Sender<UIEvent>) -> (server: NotificationServer)
        ensures
            server@ == (ServerView {
                next_id: 1,
                session: SessionModel::initial(),
                delivered: Seq::empty(),
                channel: sender,
            }),
    {
        NotificationServer {
            allocator: IdAllocator::new(),
            forwarder: EventForwarder::new(sender),
            session: BusSession::new(),
        }
    }

    /// The id that the next fresh allocation returns.
    pub fn next_id(&self) -> (id: u32)
        ensures
            id == self@.next_id,
            id != 0,
    {
        self.allocator.peek()
    }

    /// Where the session with the bus stands.
    pub fn session_state(&self) -> (state: SessionState)
        ensures
            state == self@.session.state,
    {
        self.session.state()
    }

    /// Tells whether the object is registered, so that calls can arrive.
    /// It is only while the name is owned.
    pub fn is_serving(&self) -> (serving: bool)
        ensures
            serving == self@.session.serving,
            serving ==> self@.session.state == SessionState::Owned,
    {
        self.session.is_serving()
    }

    /// Tells whether the forwarding queue can hold any number of events.
    pub fn queue_is_unbounded(&self) -> (unbounded: bool)
        ensures
            unbounded == self@.unbounded(),
    {
        self.forwarder.is_unbounded()
    }

    /// The start command. It always succeeds: the faults of a session are
    /// reported when they happen, none is returned here.
    ///
    /// A session that has asked nothing yet is acquiring afterwards, and
    /// the caller is to ask the session bus for the well-known name. Any
    /// other session stays as it is. What becomes of the request is learned
    /// later, through [`Self::session_event`].
    pub fn connect_to_dbus(&mut self) -> (result: Result<(), SessionFault>)
        ensures
            result == Ok::<(), SessionFault>(()),
            final(self)@ == (ServerView {
                session: old(self)@.session.next(SessionEvent::Start),
                ..old(self)@
            }),
    {
        let _ = self.session.handle(SessionEvent::Start);
        Ok(())
    }

    /// Takes one report of the bus and tells what to do about it.
    pub fn session_event(&mut self, event: SessionEvent) -> (action: SessionAction)
        ensures
            action == old(self)@.session.action(event),
            final(self)@ == (ServerView { session: old(self)@.session.next(event), ..old(self)@ }),
            final(self)@.session.well_formed(),
    {
        self.session.handle(event)
    }

    /// Handles one inbound call.
    ///
    /// The reply, if there is one, is to be sent first; the event, if there
    /// is one, is then to be handed to [`Self::forward`]. The reply does not
    /// wait for the queue and does not depend on it.
    pub fn handle_method_call(&mut self, method_name: String, parameters: Vec<Value>) -> (dispatch:
        Dispatch)
        requires
            well_typed(method_name@, views(parameters@)),
        ensures
            dispatch@ == (DispatchView {
                reply: serve(old(self)@.next_id, method_name@, views(parameters@)).reply,
                event: serve(old(self)@.next_id, method_name@, views(parameters@)).event,
            }),
            final(self)@ == (ServerView {
                next_id: serve(old(self)@.next_id, method_name@, views(parameters@)).counter,
                ..old(self)@
            }),
            final(self)@.next_id != 0,
            dispatch@.event matches Some(event) ==> event.id() != 0 && dispatch@.reply == Some(
                seq![ValueView::Uint32(event.id())],
            ),
    {
        // Zero is never the next id; the allocator says so when asked.
        let _ = self.allocator.peek();
        match method_named(method_name.as_str()) {
            Some(Method::GetServerInformation) => {
                Dispatch { reply: Some(get_server_information()), event: None }
            },
            Some(Method::Notify) => {
                let replaces = replaces_id(&parameters);
                let id = self.allocator.allocate_or_reuse(replaces);
                let notification = Notification::from_parameters(parameters, id);
                let reply = vec![Value::Uint32(id)];
                assert(views(reply@) =~= seq![ValueView::Uint32(id)]);
                Dispatch {
                    reply: Some(reply),
                    event: Some(UIEvent::Notification(NotificationEvent::NewNotification(notification))),
                }
            },
            None => {
                Dispatch { reply: None, event: None }
            },
        }
    }

    /// Pushes `event` onto the forwarding queue without waiting.
    ///
    /// A failure stays here: the outcome says what happened, the event
    /// comes back in it, and nothing else changes.
    pub fn forward(&mut self, event: UIEvent) -> (outcome: ForwardOutcome)
        ensures
            final(self)@ == (ServerView {
                delivered: delivered_after(old(self)@.delivered, event@, outcome.accepted()),
                ..old(self)@
            }),
            outcome matches ForwardOutcome::ConsumerGone(e) ==> e == event,
            outcome matches ForwardOutcome::QueueFull(e) ==> e == event && !old(self)@.unbounded(),
    {
        self.forwarder.send(event)
    }
}

} // verus!
