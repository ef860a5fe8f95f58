//! Discovery and remote-control plumbing for haptic device servers and clients.
//!
//! The crate holds the decisions of two pieces of machinery and proves them:
//!
//! * [`communication`] and [`timed_retry`]: the uniform lifecycle of a
//!   transport-specific discovery backend, and the adapter that turns a single
//!   scan pass into a cancellable, repeating background loop.
//! * [`connector`], [`messagesorter`], [`wire`] and [`wsconnector`]: the client
//!   side of the remote wire channel, which frames outbound requests, takes
//!   inbound frames apart, correlates their units with the requests that wait
//!   for them and fails every waiter when the connection goes away.
//!
//! Three libraries are called and trusted rather than proved: tokio-util for
//! cancellation tokens ([`timed_retry`]), ws for the websocket's sender
//! ([`wsconnector`]) and serde_json for splitting JSON text ([`json`]).
//!
//! Work that has to suspend or block (running a scan pass, sleeping, dialling a
//! peer) is carried out by the embedding program. The library tells it what to
//! do next and is told what happened.

pub mod communication;
pub mod connector;
pub mod json;
pub mod messagesorter;
pub mod scan_loop;
pub mod timed_retry;
pub mod wire;
pub mod wsconnector;
