//! Core of an Interledger node: the services that handle packets, and the
//! ILDCP exchange through which a node learns its address and asset.
//!
//! [`service`] holds the abstraction that all components share. A service
//! takes a request, which is an ILP Prepare packet together with the accounts
//! it comes from and goes to, and returns a future of a Fulfill or a Reject.
//! Services are chained by wrapping one in a function that is called on every
//! request.
//!
//! [`ildcp`] builds the request for a node's configuration, reads the response,
//! and decides how the exchange goes on after each event.

pub mod clock;
pub mod errors;
pub mod external;
pub mod ildcp;
pub mod oer;
pub mod packet;
pub mod service;
pub mod username;
