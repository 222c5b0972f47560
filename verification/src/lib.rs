//! Client-side session orchestration for a polled real-time communication
//! endpoint: connection lifecycle tracking, reconnection with exponential
//! backoff and jitter, typed event dispatch, multi-session scheduling and a
//! bounded poll-to-stream bridge.

pub mod backoff;
pub mod bridge;
pub mod dispatch;
pub mod manager;
pub mod message;
pub mod mock;
pub mod events;
pub mod hooks;
pub mod reconnect;
pub mod registry;
pub mod session;
pub mod state;
pub mod types;

pub use events::ConnectionState;
pub use events::Error;
pub use events::Event;
pub use message::Message;
