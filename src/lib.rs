//! A client for a server-sent event stream of configuration updates: the
//! extraction of event payloads from stream chunks, the exponential backoff
//! between connection attempts, and the state machine that decides, event by
//! event, when to connect, read, decode, deliver, retry and stop.
pub mod backoff;
pub mod config;
pub mod frame;
pub mod listener;
pub mod trace;

pub use config::ServerConfig;
