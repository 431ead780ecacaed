//! Core of an onion-routing forwarding node.
//!
//! A packet crosses the overlay as a [`hopper::LiveCoresPackage`]: a list of
//! per-hop ciphertexts and a payload sealed to its final recipient.  Each node
//! peels exactly one layer, learns the next hop, and either forwards the
//! package or hands the cleartext to a local consumer.  The
//! [`hopper::Hopper`] state machine decides, for every message, which local
//! sink receives the peeled package or why the attempt is fatal.

pub mod cryptde;
pub mod dispatcher;
pub mod errors;
pub mod hop;
pub mod hopper;
pub mod route;
