//! Core of a desktop notification daemon: the identity allocator, the
//! method dispatcher, the bus session state machine and the event forwarder.

pub mod allocator;
pub mod events;
pub mod forwarder;
pub mod notification;
pub mod notification_server;
pub mod schema;
pub mod session;
pub mod traffic;
pub mod utils;
