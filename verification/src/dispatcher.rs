//! The closed set of local consumers a route can name.

use vstd::prelude::*;

verus! {

/// A local component to which a peeled package may be delivered.  Only
/// `ProxyServer` and `ProxyClient` are valid terminal components in this
/// release; naming the others in a terminal hop is a fatal routing error.
#[derive(Clone, Copy, PartialEq, Eq, Debug, Structural)]
pub enum Component {
    ProxyServer,
    ProxyClient,
    Hopper,
    Neighborhood,
}

} // verus!
