//! Component-messaging substrate and delivery-guarantee engine for routing
//! CloudEvents between input ports, routers and output ports.

pub mod config;
pub mod delivery;
pub mod event;
pub mod broker_event;
pub mod mailbox;
pub mod pending;
pub mod amqp;
pub mod engine;
pub mod router;
pub mod kernel;
pub mod unix_socket;
pub mod theorems;
