//! The fatal conditions the forwarding core can report.

use vstd::prelude::*;
use crate::dispatcher::Component;

verus! {

/// Everything that can go wrong while transforming or dispatching a cores
/// package.  The core never panics: each condition that the protocol treats
/// as fatal is surfaced as one of these values, and the embedding that runs
/// the actor decides how to abort.
#[derive(Clone, Copy, PartialEq, Eq, Debug)]
pub enum HopperError {
    /// A route or hop list was consulted where no hop remains.
    EmptyRoute,
    /// Sealing data under a recipient key failed.
    EncryptionFailure,
    /// Opening a ciphertext with the local private key failed.
    DecryptionFailure,
    /// A decrypted hop did not deserialize.
    MalformedHop,
    /// An originated package's first hop names no next node.
    MissingNextHopKey,
    /// The first hop of a package delivered here names no local component.
    NoTerminalComponent,
    /// The first hop names a component that is not a valid terminus yet.
    UnsupportedComponent(Component),
    /// Dispatch to the proxy server was requested before binding.
    ProxyServerUnbound,
    /// Dispatch to the proxy client was requested before binding.
    ProxyClientUnbound,
}

impl HopperError {
    /// The diagnostic a supervisor should log or die with.
    pub fn diagnostic(&self) -> (r: &'static str)
        ensures
            self is ProxyServerUnbound ==> r@ == "ProxyServer unbound in Hopper"@,
            self is ProxyClientUnbound ==> r@ == "ProxyClient unbound in Hopper"@,
    {
        match self {
            HopperError::EmptyRoute => "no hop remains in the route",
            HopperError::EncryptionFailure => "Encode error",
            HopperError::DecryptionFailure => "Decode error",
            HopperError::MalformedHop => "hop did not deserialize",
            HopperError::MissingNextHopKey => "first hop names no next node",
            HopperError::NoTerminalComponent => "first hop names no local component",
            HopperError::UnsupportedComponent(_) => "unsupported terminal component",
            HopperError::ProxyServerUnbound => "ProxyServer unbound in Hopper",
            HopperError::ProxyClientUnbound => "ProxyClient unbound in Hopper",
        }
    }
}

} // verus!
