//! Events that the dispatcher hands to the consumer of the forwarding queue.

use vstd::prelude::*;
use crate::notification::Notification;
use crate::notification::NotificationView;

verus! {

/// What can happen to a notification.
#[derive(Clone, Debug, PartialEq, Eq)]
pub enum NotificationEvent {
    /// A `Notify` call was accepted.
    NewNotification(Notification),
    /// The notification with this id was closed.
    Closed(u32),
    /// The notification with this id was overwritten by the given record.
    Replaced(u32, Notification),
}

/// Payload of the forwarding queue.
#[derive(Clone, Debug, PartialEq, Eq)]
pub enum UIEvent {
    Notification(NotificationEvent),
}

/// Mathematical content of a [`NotificationEvent`].
pub enum NotificationEventView {
    NewNotification(NotificationView),
    Closed(u32),
    Replaced(u32, NotificationView),
}

/// Mathematical content of a [`UIEvent`].
pub enum UIEventView {
    Notification(NotificationEventView),
}

impl View for NotificationEvent {
    type V = NotificationEventView;

    open spec fn view(&self) -> NotificationEventView {
        match *self {
            NotificationEvent::NewNotification(n) => NotificationEventView::NewNotification(n@),
            NotificationEvent::Closed(id) => NotificationEventView::Closed(id),
            NotificationEvent::Replaced(id, n) => NotificationEventView::Replaced(id, n@),
        }
    }
}

impl View for UIEvent {
    type V = UIEventView;

    open spec fn view(&self) -> UIEventView {
        match *self {
            UIEvent::Notification(e) => UIEventView::Notification(e@),
        }
    }
}

impl UIEventView {
    /// The id of the notification that the event is about.
    pub open spec fn id(self) -> u32 {
        match self {
            UIEventView::Notification(NotificationEventView::NewNotification(n)) => n.id,
            UIEventView::Notification(NotificationEventView::Closed(id)) => id,
            UIEventView::Notification(NotificationEventView::Replaced(id, _)) => id,
        }
    }
}

impl UIEvent {
    /// The id of the notification that the event is about.
    pub fn id(&self) -> (id: u32)
        ensures
            id == self@.id(),
    {
        match self {
            UIEvent::Notification(NotificationEvent::NewNotification(n)) => n.id,
            UIEvent::Notification(NotificationEvent::Closed(id)) => *id,
            UIEvent::Notification(NotificationEvent::Replaced(id, _)) => *id,
        }
    }
}

} // verus!
