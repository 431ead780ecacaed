//! The cores-package forms and the forwarding state machine.
//!
//! An `IncipientCoresPackage` is the author-side cleartext form; the
//! originator transform seals it into a `LiveCoresPackage`, the on-wire
//! layered form.  Each node peels exactly one layer: `to_expired` removes
//! the first sealed hop, decrypts it and the payload, and produces the
//! `ExpiredCoresPackage` delivered to a local consumer.  The [`Hopper`]
//! state machine owns the node's crypto and decides, message by message,
//! which local sink receives the peeled package or why the attempt is
//! fatal.

use vstd::prelude::*;
use crate::cryptde::{null_seal, CryptDE, CryptDENull, CryptData, Key, PlainData};
use crate::cryptde::lemma_null_wrong_key;
use crate::dispatcher::Component;
use crate::errors::HopperError;
use crate::hop::{hop_bytes, lemma_hop_encode_decode_round_trip, parse_hop, spec_hop_decode, Hop, HopView};
use crate::route::{crypts_view, Route};

verus! {

/// The mathematical value of an [`IncipientCoresPackage`].
#[verifier::ext_equal]
pub struct IncipientView {
    pub route: Seq<Seq<u8>>,
    pub payload: Seq<u8>,
    pub payload_destination_key: Seq<u8>,
}

/// The origination-side cleartext form: the authored route, the cleartext
/// payload, and the public key of the payload's final recipient (not
/// necessarily the next hop).
#[derive(Clone, PartialEq, Eq, Debug)]
pub struct IncipientCoresPackage {
    pub route: Route,
    pub payload: PlainData,
    pub payload_destination_key: Key,
}

impl View for IncipientCoresPackage {
    type V = IncipientView;

    open spec fn view(&self) -> IncipientView {
        IncipientView {
            route: self.route@,
            payload: self.payload@,
            payload_destination_key: self.payload_destination_key@,
        }
    }
}

impl IncipientCoresPackage {
    pub fn new(route: Route, payload: PlainData, payload_destination_key: &Key) -> (r:
        IncipientCoresPackage)
        ensures
            r.route == route,
            r.payload == payload,
            r.payload_destination_key@ == payload_destination_key@,
    {
        IncipientCoresPackage {
            route,
            payload,
            payload_destination_key: Key::new(payload_destination_key.data.as_slice()),
        }
    }
}

/// The mathematical value of a [`LiveCoresPackage`].
#[verifier::ext_equal]
pub struct LiveView {
    pub hops: Seq<Seq<u8>>,
    pub payload: Seq<u8>,
}

/// The on-wire layered form: one ciphertext per remaining hop, each sealed
/// under the key of its predecessor's holder, and the payload sealed under
/// the final recipient's key.
#[derive(Clone, PartialEq, Eq, Debug)]
pub struct LiveCoresPackage {
    pub hops: Vec<CryptData>,
    pub payload: CryptData,
}

impl View for LiveCoresPackage {
    type V = LiveView;

    open spec fn view(&self) -> LiveView {
        LiveView { hops: crypts_view(self.hops@), payload: self.payload@ }
    }
}

/// The mathematical value of an [`ExpiredCoresPackage`].
#[verifier::ext_equal]
pub struct ExpiredView {
    pub remaining_route: Seq<Seq<u8>>,
    pub payload: Seq<u8>,
}

/// The this-node cleartext form delivered locally after peeling.
#[derive(Clone, PartialEq, Eq, Debug)]
pub struct ExpiredCoresPackage {
    pub remaining_route: Route,
    pub payload: PlainData,
}

impl View for ExpiredCoresPackage {
    type V = ExpiredView;

    open spec fn view(&self) -> ExpiredView {
        ExpiredView { remaining_route: self.remaining_route@, payload: self.payload@ }
    }
}

impl ExpiredCoresPackage {
    pub fn new(remaining_route: Route, payload: PlainData) -> (r: ExpiredCoresPackage)
        ensures
            r.remaining_route == remaining_route,
            r.payload == payload,
    {
        ExpiredCoresPackage { remaining_route, payload }
    }
}

/// Decrypting a sealed hop with the local private key and parsing it.
pub open spec fn spec_peel_hop<C: CryptDE>(c: C, crypt: Seq<u8>) -> Option<HopView> {
    spec_hop_decode(c, c.spec_private_key(), crypt)
}

/// The originator transform: what `from_incipient` produces for every
/// input, success and failure alike.
pub open spec fn spec_from_incipient<C: CryptDE>(c: C, inc: IncipientView) -> Result<
    (LiveView, Seq<u8>),
    HopperError,
> {
    if !c.spec_encode_ok(inc.payload_destination_key, inc.payload) {
        Err(HopperError::EncryptionFailure)
    } else if inc.route.len() == 0 {
        Err(HopperError::EmptyRoute)
    } else if !c.spec_decode_ok(c.spec_private_key(), inc.route[0]) {
        Err(HopperError::DecryptionFailure)
    } else {
        match parse_hop(c.spec_decode(c.spec_private_key(), inc.route[0])) {
            None => Err(HopperError::MalformedHop),
            Some(h) => match h.public_key {
                None => Err(HopperError::MissingNextHopKey),
                Some(k) => Ok(
                    (
                        LiveView {
                            hops: inc.route.skip(1),
                            payload: c.spec_encode(inc.payload_destination_key, inc.payload),
                        },
                        k,
                    ),
                ),
            },
        }
    }
}

/// The non-consuming peek at a live package's first hop.
pub open spec fn spec_next_hop<C: CryptDE>(c: C, live: LiveView) -> Result<HopView, HopperError> {
    if live.hops.len() == 0 {
        Err(HopperError::EmptyRoute)
    } else if !c.spec_decode_ok(c.spec_private_key(), live.hops[0]) {
        Err(HopperError::DecryptionFailure)
    } else {
        match parse_hop(c.spec_decode(c.spec_private_key(), live.hops[0])) {
            None => Err(HopperError::MalformedHop),
            Some(h) => Ok(h),
        }
    }
}

/// The peel: what `to_expired` produces for every input.  The decrypted
/// first hop is resealed under the holder's own key at the head of the
/// remaining route, and the payload is opened with the local private key.
pub open spec fn spec_to_expired<C: CryptDE>(c: C, live: LiveView) -> Result<
    ExpiredView,
    HopperError,
> {
    match spec_next_hop(c, live) {
        Err(e) => Err(e),
        Ok(h) => if !c.spec_decode_ok(c.spec_private_key(), live.payload) {
            Err(HopperError::DecryptionFailure)
        } else if !c.spec_encode_ok(c.spec_public_key(), hop_bytes(h)) {
            Err(HopperError::EncryptionFailure)
        } else {
            Ok(
                ExpiredView {
                    remaining_route: seq![
                        c.spec_encode(c.spec_public_key(), hop_bytes(h)),
                    ] + live.hops.skip(1),
                    payload: c.spec_decode(c.spec_private_key(), live.payload),
                },
            )
        },
    }
}

/// A `Result` of packages, seen at the view level.
pub open spec fn from_incipient_result_view(
    r: Result<(LiveCoresPackage, Key), HopperError>,
) -> Result<(LiveView, Seq<u8>), HopperError> {
    match r {
        Ok(p) => Ok((p.0@, p.1@)),
        Err(e) => Err(e),
    }
}

/// A `Result` of hops, seen at the view level.
pub open spec fn hop_result_view(r: Result<Hop, HopperError>) -> Result<HopView, HopperError> {
    match r {
        Ok(h) => Ok(h@),
        Err(e) => Err(e),
    }
}

/// A `Result` of expired packages, seen at the view level.
pub open spec fn expired_result_view(r: Result<ExpiredCoresPackage, HopperError>) -> Result<
    ExpiredView,
    HopperError,
> {
    match r {
        Ok(p) => Ok(p@),
        Err(e) => Err(e),
    }
}

impl LiveCoresPackage {
    pub fn new(hops: Vec<CryptData>, payload: CryptData) -> (r: LiveCoresPackage)
        ensures
            r.hops == hops,
            r.payload == payload,
    {
        LiveCoresPackage { hops, payload }
    }

    /// The originator transform: seals the payload under its destination
    /// key, splits the first hop off the authored route, and returns the
    /// live package together with the cleartext key of the first node it
    /// should be sent to.
    pub fn from_incipient<C: CryptDE>(incipient: IncipientCoresPackage, cryptde: &C) -> (r: Result<
        (LiveCoresPackage, Key),
        HopperError,
    >)
        ensures
            from_incipient_result_view(r) == spec_from_incipient(*cryptde, incipient@),
    {
        let encrypted_payload = match cryptde.encode(
            &incipient.payload_destination_key,
            &incipient.payload,
        ) {
            Ok(p) => p,
            Err(e) => {
                return Err(e);
            },
        };
        let (next_hop, tail) = match incipient.route.deconstruct(cryptde) {
            Ok(p) => p,
            Err(e) => {
                return Err(e);
            },
        };
        match next_hop.public_key {
            Some(key) => Ok((LiveCoresPackage::new(tail, encrypted_payload), key)),
            None => Err(HopperError::MissingNextHopKey),
        }
    }

    /// Consumes this package at its terminal node: removes the first hop,
    /// decrypts it and the payload with the local private key, and rebuilds
    /// the remaining route behind the decrypted hop.
    pub fn to_expired<C: CryptDE>(self, cryptde: &C) -> (r: Result<
        ExpiredCoresPackage,
        HopperError,
    >)
        ensures
            expired_result_view(r) == spec_to_expired(*cryptde, self@),
    {
        let ghost live = self@;
        let LiveCoresPackage { hops, payload } = self;
        let mut hops = hops;
        if hops.len() == 0 {
            return Err(HopperError::EmptyRoute);
        }
        let first = hops.remove(0);
        proof {
            assert(first@ == live.hops[0]);
            assert(crypts_view(hops@) =~= live.hops.skip(1));
        }
        let next_hop = match Self::crypt_data_to_hop(&first, cryptde) {
            Ok(h) => h,
            Err(e) => {
                return Err(e);
            },
        };
        let decrypted_payload = match cryptde.decode(&cryptde.private_key(), &payload) {
            Ok(p) => p,
            Err(e) => {
                return Err(e);
            },
        };
        let remaining_route = match Route::construct(next_hop, hops, cryptde) {
            Ok(rt) => rt,
            Err(e) => {
                return Err(e);
            },
        };
        Ok(ExpiredCoresPackage::new(remaining_route, decrypted_payload))
    }

    /// Peeks at the first hop without consuming the package.
    pub fn next_hop<C: CryptDE>(&self, cryptde: &C) -> (r: Result<Hop, HopperError>)
        ensures
            hop_result_view(r) == spec_next_hop(*cryptde, self@),
    {
        if self.hops.len() == 0 {
            return Err(HopperError::EmptyRoute);
        }
        let r = Self::crypt_data_to_hop(&self.hops[0], cryptde);
        proof {
            assert(self.hops@[0]@ == self@.hops[0]);
        }
        r
    }

    /// Decrypts one sealed hop with the local private key.
    fn crypt_data_to_hop<C: CryptDE>(encrypted_hop: &CryptData, cryptde: &C) -> (r: Result<
        Hop,
        HopperError,
    >)
        ensures
            r is Ok <==> spec_peel_hop(*cryptde, encrypted_hop@) is Some,
            r matches Ok(h) ==> Some(h@) == spec_peel_hop(*cryptde, encrypted_hop@),
            !cryptde.spec_decode_ok(cryptde.spec_private_key(), encrypted_hop@) ==> r == Err::<
                Hop,
                HopperError,
            >(HopperError::DecryptionFailure),
            cryptde.spec_decode_ok(cryptde.spec_private_key(), encrypted_hop@) && parse_hop(
                cryptde.spec_decode(cryptde.spec_private_key(), encrypted_hop@),
            ) is None ==> r == Err::<Hop, HopperError>(HopperError::MalformedHop),
    {
        let private_key = cryptde.private_key();
        Hop::decode(&private_key, cryptde, encrypted_hop)
    }
}

/// Where a peeled package is to be delivered, and what is delivered there.
#[derive(Clone, PartialEq, Eq, Debug)]
pub enum Dispatch {
    ToProxyServer(ExpiredCoresPackage),
    ToProxyClient(ExpiredCoresPackage),
}

/// The mathematical value of a [`Dispatch`].
#[verifier::ext_equal]
pub enum DispatchView {
    ToProxyServer(ExpiredView),
    ToProxyClient(ExpiredView),
}

impl View for Dispatch {
    type V = DispatchView;

    open spec fn view(&self) -> DispatchView {
        match self {
            Dispatch::ToProxyServer(p) => DispatchView::ToProxyServer(p@),
            Dispatch::ToProxyClient(p) => DispatchView::ToProxyClient(p@),
        }
    }
}

/// A `Result` of dispatches, seen at the view level.
pub open spec fn dispatch_result_view(r: Result<Dispatch, HopperError>) -> Result<
    DispatchView,
    HopperError,
> {
    match r {
        Ok(d) => Ok(d@),
        Err(e) => Err(e),
    }
}

/// The relay decision: what dispatching a live package does, for every
/// state of the sinks and every package.
pub open spec fn spec_dispatch_live<C: CryptDE>(
    c: C,
    proxy_server_bound: bool,
    proxy_client_bound: bool,
    live: LiveView,
) -> Result<DispatchView, HopperError> {
    match spec_next_hop(c, live) {
        Err(e) => Err(e),
        Ok(h) => match h.component {
            Some(Component::ProxyServer) => match spec_to_expired(c, live) {
                Err(e) => Err(e),
                Ok(exp) => if !proxy_server_bound {
                    Err(HopperError::ProxyServerUnbound)
                } else {
                    Ok(DispatchView::ToProxyServer(exp))
                },
            },
            Some(Component::ProxyClient) => match spec_to_expired(c, live) {
                Err(e) => Err(e),
                Ok(exp) => if !proxy_client_bound {
                    Err(HopperError::ProxyClientUnbound)
                } else {
                    Ok(DispatchView::ToProxyClient(exp))
                },
            },
            Some(other) => Err(HopperError::UnsupportedComponent(other)),
            None => Err(HopperError::NoTerminalComponent),
        },
    }
}

/// The originator decision: the originator transform followed by the same
/// dispatch as the relay path.
pub open spec fn spec_handle_incipient<C: CryptDE>(
    c: C,
    proxy_server_bound: bool,
    proxy_client_bound: bool,
    inc: IncipientView,
) -> Result<DispatchView, HopperError> {
    match spec_from_incipient(c, inc) {
        Err(e) => Err(e),
        Ok(p) => spec_dispatch_live(c, proxy_server_bound, proxy_client_bound, p.0),
    }
}

/// The forwarding state machine of one node.
///
/// It owns the node's crypto and remembers whether the two local sinks have
/// been wired.  It decides; the embedding that runs the actor performs the
/// sends.  Until `bind` is called, any dispatch that needs a sink is fatal
/// by design: traffic must not be admitted before wiring completes.
pub struct Hopper<C: CryptDE> {
    cryptde: C,
    to_proxy_server_bound: bool,
    to_proxy_client_bound: bool,
}

impl<C: CryptDE> Hopper<C> {
    /// The crypto this hopper owns.
    pub closed spec fn spec_cryptde(&self) -> C {
        self.cryptde
    }

    /// Whether the proxy-server sink is wired.
    pub closed spec fn spec_proxy_server_bound(&self) -> bool {
        self.to_proxy_server_bound
    }

    /// Whether the proxy-client sink is wired.
    pub closed spec fn spec_proxy_client_bound(&self) -> bool {
        self.to_proxy_client_bound
    }

    /// The state a hopper is in once its sinks are wired.
    pub closed spec fn spec_after_bind(self) -> Hopper<C> {
        Hopper { cryptde: self.cryptde, to_proxy_server_bound: true, to_proxy_client_bound: true }
    }

    /// A hopper with no sinks wired yet.
    pub fn new(cryptde: C) -> (r: Hopper<C>)
        ensures
            r.spec_cryptde() == cryptde,
            !r.spec_proxy_server_bound(),
            !r.spec_proxy_client_bound(),
    {
        Hopper { cryptde, to_proxy_server_bound: false, to_proxy_client_bound: false }
    }

    /// One-shot wiring.  After binding, both sinks are available; the
    /// resulting state does not depend on what was attempted before.
    pub fn bind(&mut self)
        ensures
            *final(self) == old(self).spec_after_bind(),
            final(self).spec_cryptde() == old(self).spec_cryptde(),
            final(self).spec_proxy_server_bound(),
            final(self).spec_proxy_client_bound(),
    {
        self.to_proxy_server_bound = true;
        self.to_proxy_client_bound = true;
    }

    /// The relay path: peeks at the first hop of a received live package
    /// and either peels it for a wired local sink or says why the attempt
    /// is fatal.  An attempt never changes the hopper.
    pub fn handle_live_cores_package(&mut self, live: LiveCoresPackage) -> (r: Result<
        Dispatch,
        HopperError,
    >)
        ensures
            *final(self) == *old(self),
            dispatch_result_view(r) == spec_dispatch_live(
                old(self).spec_cryptde(),
                old(self).spec_proxy_server_bound(),
                old(self).spec_proxy_client_bound(),
                live@,
            ),
    {
        let next_hop = match live.next_hop(&self.cryptde) {
            Ok(h) => h,
            Err(e) => {
                return Err(e);
            },
        };
        match next_hop.component {
            Some(Component::ProxyServer) => {
                let expired = match live.to_expired(&self.cryptde) {
                    Ok(p) => p,
                    Err(e) => {
                        return Err(e);
                    },
                };
                if !self.to_proxy_server_bound {
                    Err(HopperError::ProxyServerUnbound)
                } else {
                    Ok(Dispatch::ToProxyServer(expired))
                }
            },
            Some(Component::ProxyClient) => {
                let expired = match live.to_expired(&self.cryptde) {
                    Ok(p) => p,
                    Err(e) => {
                        return Err(e);
                    },
                };
                if !self.to_proxy_client_bound {
                    Err(HopperError::ProxyClientUnbound)
                } else {
                    Ok(Dispatch::ToProxyClient(expired))
                }
            },
            Some(other) => Err(HopperError::UnsupportedComponent(other)),
            None => Err(HopperError::NoTerminalComponent),
        }
    }

    /// The originating path: transforms a locally-authored package and
    /// dispatches it exactly as the relay path would.  An attempt never
    /// changes the hopper, so binding later is unaffected by earlier
    /// failures.
    pub fn handle_incipient_cores_package(&mut self, msg: IncipientCoresPackage) -> (r: Result<
        Dispatch,
        HopperError,
    >)
        ensures
            *final(self) == *old(self),
            dispatch_result_view(r) == spec_handle_incipient(
                old(self).spec_cryptde(),
                old(self).spec_proxy_server_bound(),
                old(self).spec_proxy_client_bound(),
                msg@,
            ),
    {
        let (live, _next_stop) = match LiveCoresPackage::from_incipient(msg, &self.cryptde) {
            Ok(p) => p,
            Err(e) => {
                return Err(e);
            },
        };
        self.handle_live_cores_package(live)
    }
}

/// The key returned by the originator transform is the cleartext public
/// key of the authored route's first hop.
pub proof fn lemma_from_incipient_key<C: CryptDE>(c: C, inc: IncipientView)
    requires
        spec_from_incipient(c, inc) is Ok,
    ensures
        spec_from_incipient(c, inc) matches Ok(p) && spec_peel_hop(c, inc.route[0]) matches Some(h)
            && h.public_key == Some(p.1),
{
}

/// Sending a package to oneself and peeling it returns the payload intact:
/// the one-hop round trip, for any crypto implementation.  The route holds
/// one network hop (sender = receiver) and its terminal hop; the payload
/// is sealed to the sender's own key.
pub proof fn lemma_one_hop_round_trip<C: CryptDE>(
    c: C,
    inc: IncipientView,
    first: HopView,
    terminal: HopView,
)
    requires
        inc.payload_destination_key == c.spec_public_key(),
        inc.route.len() == 2,
        inc.route[0] == c.spec_encode(c.spec_public_key(), hop_bytes(first)),
        inc.route[1] == c.spec_encode(c.spec_public_key(), hop_bytes(terminal)),
        first.public_key is Some,
        c.spec_encode_ok(c.spec_public_key(), inc.payload),
        c.spec_encode_ok(c.spec_public_key(), hop_bytes(first)),
        c.spec_encode_ok(c.spec_public_key(), hop_bytes(terminal)),
    ensures
        spec_from_incipient(c, inc) matches Ok(p) && spec_to_expired(c, p.0) matches Ok(exp)
            && exp.payload == inc.payload,
{
    c.lemma_own_keys_match();
    lemma_hop_encode_decode_round_trip(c, first, c.spec_public_key(), c.spec_private_key());
    lemma_hop_encode_decode_round_trip(c, terminal, c.spec_public_key(), c.spec_private_key());
    c.lemma_round_trip(c.spec_public_key(), c.spec_private_key(), inc.payload);
    assert(spec_peel_hop(c, inc.route[0]) == Some(first));
    let live = spec_from_incipient(c, inc)->Ok_0.0;
    assert(live.hops.len() == 1);
    assert(live.hops[0] == inc.route[1]);
    assert(spec_peel_hop(c, live.hops[0]) == Some(terminal));
    assert(c.spec_decode_ok(c.spec_private_key(), live.payload));
    assert(c.spec_decode(c.spec_private_key(), live.payload) == inc.payload);
}

/// Peeling shortens the sealed hop list by exactly one: the remaining
/// route is the hop just decrypted, resealed for the local node, ahead of
/// the untouched tail.
pub proof fn lemma_to_expired_peels_one<C: CryptDE>(c: C, live: LiveView)
    requires
        spec_to_expired(c, live) is Ok,
    ensures
        spec_to_expired(c, live) matches Ok(exp) && ({
            &&& live.hops.len() >= 1
            &&& exp.remaining_route.len() == live.hops.len()
            &&& exp.remaining_route.skip(1) == live.hops.skip(1)
            &&& spec_peel_hop(c, exp.remaining_route[0]) == spec_peel_hop(c, live.hops[0])
        }),
{
    c.lemma_own_keys_match();
    let h = spec_next_hop(c, live)->Ok_0;
    lemma_hop_encode_decode_round_trip(c, h, c.spec_public_key(), c.spec_private_key());
    let exp = spec_to_expired(c, live)->Ok_0;
    assert(exp.remaining_route.len() == live.hops.len());
    assert(exp.remaining_route.skip(1) =~= live.hops.skip(1));
    assert(exp.remaining_route[0] == c.spec_encode(c.spec_public_key(), hop_bytes(h)));
    assert(spec_peel_hop(c, live.hops[0]) == Some(h));
}

/// Peeling by a node whose private key does not match the first hop's
/// recipient fails with a decryption error: there is no silent success.
/// Stated for the null implementation, whose sealing is transparent enough
/// to say who the recipient is.
pub proof fn lemma_peel_wrong_key_fails(
    c: CryptDENull,
    recipient: Seq<u8>,
    hop_plain: Seq<u8>,
    live: LiveView,
)
    requires
        live.hops.len() >= 1,
        live.hops[0] == null_seal(recipient, hop_plain),
        c.spec_private_key() != recipient,
        recipient.len() < 0x10000000000000000,
        c.spec_private_key().len() < 0x10000000000000000,
    ensures
        spec_next_hop(c, live) == Err::<HopView, HopperError>(HopperError::DecryptionFailure),
        spec_to_expired(c, live) == Err::<ExpiredView, HopperError>(
            HopperError::DecryptionFailure,
        ),
{
    lemma_null_wrong_key(c.spec_private_key(), recipient, hop_plain);
}

/// Binding is effect-equivalent however many deliveries were attempted
/// before it: an attempt never changes a hopper (see the handlers'
/// contracts), and any two hoppers over the same crypto reach the same
/// state when bound.
pub proof fn lemma_bind_effect_equivalence<C: CryptDE>(a: Hopper<C>, b: Hopper<C>)
    requires
        a.spec_cryptde() == b.spec_cryptde(),
    ensures
        a.spec_after_bind() == b.spec_after_bind(),
{
}

} // verus!
