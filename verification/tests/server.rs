use async_channel::{bounded, unbounded, Receiver, TryRecvError};
use panel_notifications::events::{NotificationEvent, UIEvent};
use panel_notifications::forwarder::{EventForwarder, ForwardOutcome, SendFailure};
use panel_notifications::notification::{Hint, HintValue, Notification};
use panel_notifications::notification_server::{Dispatch, NotificationServer};
use panel_notifications::schema::Value;
use panel_notifications::session::{
    RegistrationFailure, SessionAction, SessionEvent, SessionFault, SessionState,
};
use panel_notifications::utils::{spawn, RunQueue};

fn mail_parameters(replaces: u32) -> Vec<Value> {
    vec![
        Value::Text("Mail".to_string()),
        Value::Uint32(replaces),
        Value::Text("".to_string()),
        Value::Text("New message".to_string()),
        Value::Text("You have 3 unread".to_string()),
        Value::TextArray(vec![]),
        Value::Dictionary(vec![]),
        Value::Int32(-1),
    ]
}

fn mail_record(id: u32, replaces: u32) -> Notification {
    Notification {
        id,
        app_name: "Mail".to_string(),
        replaces_id: replaces,
        app_icon: "".to_string(),
        summary: "New message".to_string(),
        body: "You have 3 unread".to_string(),
        actions: vec![],
        hints: vec![],
        expire_timeout: -1,
    }
}

fn new_mail(id: u32, replaces: u32) -> UIEvent {
    UIEvent::Notification(NotificationEvent::NewNotification(mail_record(id, replaces)))
}

fn fresh_server() -> (NotificationServer, Receiver<UIEvent>) {
    let (sender, receiver) = unbounded::<UIEvent>();
    (NotificationServer::new(sender), receiver)
}

fn notify(server: &mut NotificationServer, replaces: u32) -> Dispatch {
    server.handle_method_call("Notify".to_string(), mail_parameters(replaces))
}

fn replied_id(dispatch: &Dispatch) -> u32 {
    match dispatch.reply.as_deref() {
        Some([Value::Uint32(id)]) => *id,
        other => panic!("no id in the reply: {:?}", other),
    }
}

#[test]
fn notify_scenario_on_fresh_daemon() {
    let (mut server, _receiver) = fresh_server();
    let first = notify(&mut server, 0);
    assert_eq!(first.reply, Some(vec![Value::Uint32(1)]));
    let second = notify(&mut server, 0);
    assert_eq!(second.reply, Some(vec![Value::Uint32(2)]));
    let third = notify(&mut server, 1);
    assert_eq!(third.reply, Some(vec![Value::Uint32(1)]));
    assert_eq!(server.next_id(), 3);
    assert_eq!(first.event, Some(new_mail(1, 0)));
    assert_eq!(second.event, Some(new_mail(2, 0)));
    assert_eq!(third.event, Some(new_mail(1, 1)));
}

#[test]
fn server_pushes_through_the_channel_it_was_given() {
    let (sender, receiver) = unbounded::<UIEvent>();
    let (other_sender, other_receiver) = unbounded::<UIEvent>();
    let mut server = NotificationServer::new(sender);
    let mut other = NotificationServer::new(other_sender);
    let dispatch = notify(&mut server, 0);
    assert_eq!(server.forward(dispatch.event.unwrap()), ForwardOutcome::Delivered);
    assert_eq!(receiver.len(), 1);
    assert_eq!(other_receiver.len(), 0);
    let dispatch = notify(&mut other, 8);
    assert_eq!(other.forward(dispatch.event.unwrap()), ForwardOutcome::Delivered);
    assert_eq!(receiver.try_recv(), Ok(new_mail(1, 0)));
    assert_eq!(other_receiver.try_recv(), Ok(new_mail(8, 8)));
    assert_eq!(receiver.try_recv(), Err(TryRecvError::Empty));
}

#[test]
fn new_server_starts_at_one_and_unowned() {
    let (server, receiver) = fresh_server();
    assert_eq!(server.next_id(), 1);
    assert_eq!(server.session_state(), SessionState::Unowned);
    assert!(!server.is_serving());
    assert!(server.queue_is_unbounded());
    assert_eq!(receiver.try_recv(), Err(TryRecvError::Empty));
}

#[test]
fn fresh_ids_ascend_without_repeating() {
    let (mut server, _receiver) = fresh_server();
    let mut ids = Vec::new();
    for _ in 0..200 {
        ids.push(replied_id(&notify(&mut server, 0)));
    }
    assert_eq!(ids, (1..=200u32).collect::<Vec<u32>>());
    assert_eq!(server.next_id(), 201);
}

#[test]
fn replaced_id_is_returned_and_counter_is_unchanged() {
    let (mut server, _receiver) = fresh_server();
    for replaces in [1u32, 2, 17, 4_000_000_000, u32::MAX] {
        let before = server.next_id();
        let dispatch = notify(&mut server, replaces);
        assert_eq!(dispatch.reply, Some(vec![Value::Uint32(replaces)]));
        assert_eq!(dispatch.event, Some(new_mail(replaces, replaces)));
        assert_eq!(server.next_id(), before);
    }
    assert_eq!(server.next_id(), 1);
}

#[test]
fn server_information_does_not_depend_on_traffic() {
    let expected = Some(vec![
        Value::Text("My Rust Server".to_string()),
        Value::Text("Rust GTK".to_string()),
        Value::Text("1.0".to_string()),
        Value::Text("1.2".to_string()),
    ]);
    let (mut server, receiver) = fresh_server();
    let before = server.handle_method_call("GetServerInformation".to_string(), vec![]);
    assert_eq!(before.reply, expected);
    assert_eq!(before.event, None);
    assert_eq!(server.next_id(), 1);
    for replaces in [0u32, 0, 5, 0] {
        let dispatch = notify(&mut server, replaces);
        server.forward(dispatch.event.unwrap());
    }
    let after = server.handle_method_call("GetServerInformation".to_string(), vec![Value::Other]);
    assert_eq!(after.reply, expected);
    assert_eq!(after.event, None);
    assert_eq!(server.next_id(), 4);
    assert_eq!(receiver.len(), 4);
}

#[test]
fn unknown_method_gets_no_reply_and_no_event() {
    let (mut server, receiver) = fresh_server();
    for name in ["CloseNotification", "GetCapabilities", "", "notify"] {
        let dispatch = server.handle_method_call(name.to_string(), mail_parameters(0));
        assert_eq!(dispatch, Dispatch { reply: None, event: None });
    }
    assert_eq!(server.next_id(), 1);
    assert_eq!(receiver.try_recv(), Err(TryRecvError::Empty));
}

#[test]
fn each_notify_puts_one_event_with_its_id_on_the_queue() {
    let (mut server, receiver) = fresh_server();
    for replaces in [0u32, 0, 9, 0, 1] {
        let dispatch = notify(&mut server, replaces);
        let id = replied_id(&dispatch);
        let outcome = server.forward(dispatch.event.unwrap());
        assert_eq!(outcome, ForwardOutcome::Delivered);
        assert_eq!(receiver.len(), 1);
        let event = receiver.try_recv().unwrap();
        assert_eq!(event.id(), id);
        assert_eq!(event, new_mail(id, replaces));
        assert_eq!(receiver.try_recv(), Err(TryRecvError::Empty));
    }
}

#[test]
fn events_are_received_in_the_order_sent() {
    let (mut server, receiver) = fresh_server();
    let mut sent = Vec::new();
    for replaces in [0u32, 7, 0, 0, 7] {
        let dispatch = notify(&mut server, replaces);
        sent.push(replied_id(&dispatch));
        assert!(server.forward(dispatch.event.unwrap()).is_delivered());
    }
    let mut received = Vec::new();
    while let Ok(event) = receiver.try_recv() {
        received.push(event.id());
    }
    assert_eq!(sent, vec![1, 7, 2, 3, 7]);
    assert_eq!(received, sent);
}

#[test]
fn caller_is_answered_when_the_consumer_is_gone() {
    let (mut server, receiver) = fresh_server();
    drop(receiver);
    let first = notify(&mut server, 0);
    assert_eq!(first.reply, Some(vec![Value::Uint32(1)]));
    let outcome = server.forward(first.event.unwrap());
    assert_eq!(outcome, ForwardOutcome::ConsumerGone(new_mail(1, 0)));
    assert!(!outcome.is_delivered());
    let second = notify(&mut server, 0);
    assert_eq!(second.reply, Some(vec![Value::Uint32(2)]));
    let third = notify(&mut server, 2);
    assert_eq!(third.reply, Some(vec![Value::Uint32(2)]));
    assert_eq!(server.next_id(), 3);
}

#[test]
fn consumer_closing_between_reply_and_push_changes_nothing_for_the_caller() {
    let (mut server, receiver) = fresh_server();
    let dispatch = notify(&mut server, 0);
    assert_eq!(replied_id(&dispatch), 1);
    receiver.close();
    let outcome = server.forward(dispatch.event.unwrap());
    assert_eq!(outcome, ForwardOutcome::ConsumerGone(new_mail(1, 0)));
    assert_eq!(server.next_id(), 2);
    assert_eq!(receiver.try_recv(), Err(TryRecvError::Closed));
}

#[test]
fn bounded_queue_that_is_full_hands_the_event_back() {
    let (sender, receiver) = bounded::<UIEvent>(1);
    let mut server = NotificationServer::new(sender);
    assert!(!server.queue_is_unbounded());
    let first = notify(&mut server, 0);
    assert_eq!(server.forward(first.event.unwrap()), ForwardOutcome::Delivered);
    let second = notify(&mut server, 0);
    assert_eq!(replied_id(&second), 2);
    assert_eq!(
        server.forward(second.event.unwrap()),
        ForwardOutcome::QueueFull(new_mail(2, 0))
    );
    assert_eq!(receiver.try_recv(), Ok(new_mail(1, 0)));
    assert_eq!(receiver.try_recv(), Err(TryRecvError::Empty));
}

#[test]
fn forwarder_knows_whether_its_queue_is_bounded() {
    let (sender, _receiver) = unbounded::<UIEvent>();
    assert!(EventForwarder::new(sender).is_unbounded());
    let (sender, _receiver) = bounded::<UIEvent>(16);
    assert!(!EventForwarder::new(sender).is_unbounded());
}

#[test]
fn forwarder_delivers_closed_and_replaced_events_too() {
    let (sender, receiver) = unbounded::<UIEvent>();
    let mut forwarder = EventForwarder::new(sender);
    let closed = UIEvent::Notification(NotificationEvent::Closed(4));
    let replaced = UIEvent::Notification(NotificationEvent::Replaced(4, mail_record(4, 4)));
    assert_eq!(closed.id(), 4);
    assert_eq!(replaced.id(), 4);
    assert_eq!(forwarder.send(closed.clone()), ForwardOutcome::Delivered);
    assert_eq!(forwarder.send(replaced.clone()), ForwardOutcome::Delivered);
    assert_eq!(receiver.try_recv(), Ok(closed));
    assert_eq!(receiver.try_recv(), Ok(replaced));
    assert_eq!(receiver.try_recv(), Err(TryRecvError::Empty));
}

#[test]
fn outcome_is_read_from_the_result_of_the_push() {
    assert_eq!(ForwardOutcome::from_result(Ok(())), ForwardOutcome::Delivered);
    assert_eq!(
        ForwardOutcome::from_result(Err(SendFailure::Closed(new_mail(3, 0)))),
        ForwardOutcome::ConsumerGone(new_mail(3, 0))
    );
    assert_eq!(
        ForwardOutcome::from_result(Err(SendFailure::Full(new_mail(3, 0)))),
        ForwardOutcome::QueueFull(new_mail(3, 0))
    );
    assert!(ForwardOutcome::Delivered.is_delivered());
    assert!(!ForwardOutcome::ConsumerGone(new_mail(3, 0)).is_delivered());
    assert!(!ForwardOutcome::QueueFull(new_mail(3, 0)).is_delivered());
}

#[test]
fn calls_in_flight_together_get_a_contiguous_run_of_ids() {
    let (mut server, receiver) = fresh_server();
    for _ in 0..3 {
        notify(&mut server, 0);
    }
    let mut in_flight = RunQueue::new();
    for caller in 0..50u32 {
        spawn(&mut in_flight, (caller, mail_parameters(0)));
    }
    let mut granted = Vec::new();
    while let Some((caller, parameters)) = in_flight.take_next() {
        let dispatch = server.handle_method_call("Notify".to_string(), parameters);
        granted.push((caller, replied_id(&dispatch)));
        server.forward(dispatch.event.unwrap());
    }
    for (caller, id) in &granted {
        assert_eq!(*id, 4 + *caller);
    }
    let mut ids: Vec<u32> = granted.iter().map(|(_, id)| *id).collect();
    ids.sort();
    ids.dedup();
    assert_eq!(ids, (4..54u32).collect::<Vec<u32>>());
    assert_eq!(receiver.len(), 50);
}

#[test]
fn hints_and_actions_reach_the_consumer_untouched() {
    let (mut server, receiver) = fresh_server();
    let hints = vec![
        Hint { key: "urgency".to_string(), value: HintValue::Number(1) },
        Hint { key: "resident".to_string(), value: HintValue::Boolean(false) },
    ];
    let parameters = vec![
        Value::Text("Chat".to_string()),
        Value::Uint32(0),
        Value::Text("chat-icon".to_string()),
        Value::Text("Ping".to_string()),
        Value::Text("<b>hello</b>".to_string()),
        Value::TextArray(vec!["reply".to_string(), "Reply".to_string()]),
        Value::Dictionary(hints.clone()),
        Value::Int32(0),
    ];
    let dispatch = server.handle_method_call("Notify".to_string(), parameters);
    server.forward(dispatch.event.unwrap());
    assert_eq!(
        receiver.try_recv(),
        Ok(UIEvent::Notification(NotificationEvent::NewNotification(Notification {
            id: 1,
            app_name: "Chat".to_string(),
            replaces_id: 0,
            app_icon: "chat-icon".to_string(),
            summary: "Ping".to_string(),
            body: "<b>hello</b>".to_string(),
            actions: vec!["reply".to_string(), "Reply".to_string()],
            hints,
            expire_timeout: 0,
        })))
    );
}

#[test]
fn connect_starts_the_session_once() {
    let (mut server, _receiver) = fresh_server();
    assert_eq!(server.connect_to_dbus(), Ok(()));
    assert_eq!(server.session_state(), SessionState::Acquiring);
    assert_eq!(server.connect_to_dbus(), Ok(()));
    assert_eq!(server.session_state(), SessionState::Acquiring);
    assert_eq!(server.session_event(SessionEvent::Acquired), SessionAction::RegisterObject);
    assert_eq!(server.connect_to_dbus(), Ok(()));
    assert_eq!(server.session_state(), SessionState::Owned);
    assert_eq!(server.session_event(SessionEvent::Registered), SessionAction::Nothing);
    assert_eq!(server.connect_to_dbus(), Ok(()));
    assert_eq!(server.session_state(), SessionState::Owned);
    assert!(server.is_serving());
}

#[test]
fn connect_after_the_name_is_lost_succeeds_and_changes_nothing() {
    let (mut server, _receiver) = fresh_server();
    assert_eq!(server.connect_to_dbus(), Ok(()));
    assert_eq!(
        server.session_event(SessionEvent::Lost),
        SessionAction::Report(SessionFault::NameLost)
    );
    assert_eq!(server.connect_to_dbus(), Ok(()));
    assert_eq!(server.session_state(), SessionState::Lost);
    assert_eq!(server.session_event(SessionEvent::Acquired), SessionAction::Nothing);
    assert_eq!(server.session_state(), SessionState::Lost);
}

#[test]
fn only_the_first_start_asks_for_the_name() {
    let (mut server, _receiver) = fresh_server();
    assert_eq!(server.session_event(SessionEvent::Start), SessionAction::OwnName);
    assert_eq!(server.session_state(), SessionState::Acquiring);
    assert_eq!(server.session_event(SessionEvent::Start), SessionAction::Nothing);
    assert_eq!(server.connect_to_dbus(), Ok(()));
    assert_eq!(server.session_state(), SessionState::Acquiring);
}

#[test]
fn connect_leaves_counter_and_queue_alone() {
    let (mut server, receiver) = fresh_server();
    let dispatch = notify(&mut server, 0);
    server.forward(dispatch.event.unwrap());
    assert_eq!(server.connect_to_dbus(), Ok(()));
    assert_eq!(server.next_id(), 2);
    assert_eq!(receiver.len(), 1);
    assert!(server.queue_is_unbounded());
    assert_eq!(replied_id(&notify(&mut server, 0)), 2);
}

#[test]
fn server_serves_only_after_registration() {
    let (mut server, _receiver) = fresh_server();
    server.connect_to_dbus().unwrap();
    assert!(!server.is_serving());
    server.session_event(SessionEvent::Acquired);
    assert!(!server.is_serving());
    assert_eq!(server.session_event(SessionEvent::Registered), SessionAction::Nothing);
    assert!(server.is_serving());
    server.session_event(SessionEvent::Lost);
    assert!(!server.is_serving());
}

#[test]
fn rejected_registration_is_reported_by_the_server() {
    let (mut server, _receiver) = fresh_server();
    server.connect_to_dbus().unwrap();
    server.session_event(SessionEvent::Acquired);
    assert_eq!(
        server.session_event(SessionEvent::RegistrationFailed(RegistrationFailure::MalformedSchema)),
        SessionAction::Report(SessionFault::RegistrationFailed(
            RegistrationFailure::MalformedSchema
        ))
    );
    assert!(!server.is_serving());
    assert_eq!(server.session_state(), SessionState::Owned);
}

#[test]
fn session_events_leave_the_counter_alone() {
    let (mut server, _receiver) = fresh_server();
    notify(&mut server, 0);
    server.connect_to_dbus().unwrap();
    server.session_event(SessionEvent::Acquired);
    server.session_event(SessionEvent::Registered);
    assert_eq!(server.next_id(), 2);
    assert_eq!(replied_id(&notify(&mut server, 0)), 2);
}
