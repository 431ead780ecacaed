//! One routing step and its byte codec.
//!
//! A hop names the next node to send a package to, the local component to
//! deliver it to, or both.  On the wire a hop travels as a short byte record
//! sealed under the key of the node that will read it: a presence flag for
//! the key, a component code, then the key bytes.

use vstd::prelude::*;
use crate::cryptde::{copy_tail, push_bytes, CryptDE, CryptData, Key, PlainData};
use crate::dispatcher::Component;
use crate::errors::HopperError;

verus! {

/// The mathematical value of a [`Hop`].
#[verifier::ext_equal]
pub struct HopView {
    pub public_key: Option<Seq<u8>>,
    pub component: Option<Component>,
}

/// One routing step: the next node's public key, the local component to
/// deliver to at the node that decrypts this hop, or both.
#[derive(Clone, PartialEq, Eq, Debug)]
pub struct Hop {
    pub public_key: Option<Key>,
    pub component: Option<Component>,
}

impl View for Hop {
    type V = HopView;

    open spec fn view(&self) -> HopView {
        HopView {
            public_key: match self.public_key {
                Some(k) => Some(k@),
                None => None,
            },
            component: self.component,
        }
    }
}

/// The code under which a component choice travels.
pub open spec fn component_code(c: Option<Component>) -> u8 {
    match c {
        None => 0u8,
        Some(Component::ProxyServer) => 1u8,
        Some(Component::ProxyClient) => 2u8,
        Some(Component::Hopper) => 3u8,
        Some(Component::Neighborhood) => 4u8,
    }
}

/// The component choice a code stands for.
pub open spec fn code_component(b: u8) -> Option<Component> {
    if b == 1 {
        Some(Component::ProxyServer)
    } else if b == 2 {
        Some(Component::ProxyClient)
    } else if b == 3 {
        Some(Component::Hopper)
    } else if b == 4 {
        Some(Component::Neighborhood)
    } else {
        None
    }
}

/// The serialized form of a hop: a key-presence flag, the component code,
/// then the key bytes.
pub open spec fn hop_bytes(h: HopView) -> Seq<u8> {
    match h.public_key {
        Some(k) => seq![1u8, component_code(h.component)] + k,
        None => seq![0u8, component_code(h.component)],
    }
}

/// What a byte string deserializes to, if it is a well-formed hop record.
pub open spec fn parse_hop(b: Seq<u8>) -> Option<HopView> {
    if b.len() < 2 {
        None
    } else if b[1] > 4 {
        None
    } else if b[0] == 1 {
        Some(HopView { public_key: Some(b.skip(2)), component: code_component(b[1]) })
    } else if b[0] == 0 && b.len() == 2 {
        Some(HopView { public_key: None, component: code_component(b[1]) })
    } else {
        None
    }
}

/// Serializing any hop and parsing the bytes back yields the same hop.
pub proof fn lemma_hop_bytes_round_trip(h: HopView)
    ensures
        parse_hop(hop_bytes(h)) == Some(h),
{
    let b = hop_bytes(h);
    assert(b[1] == component_code(h.component));
    assert(code_component(component_code(h.component)) == h.component);
    match h.public_key {
        Some(k) => {
            assert(b.skip(2) =~= k);
        },
        None => {
            assert(b.len() == 2);
        },
    }
}

/// Opening a sealed hop: what decrypting `crypt` with `key` and parsing the
/// cleartext yields, or nothing if either step fails.
pub open spec fn spec_hop_decode<C: CryptDE>(c: C, key: Seq<u8>, crypt: Seq<u8>) -> Option<
    HopView,
> {
    if c.spec_decode_ok(key, crypt) {
        parse_hop(c.spec_decode(key, crypt))
    } else {
        None
    }
}

/// Encoding a hop for a recipient and decoding it with the matching private
/// key yields the original hop, through any crypto implementation.
pub proof fn lemma_hop_encode_decode_round_trip<C: CryptDE>(
    c: C,
    h: HopView,
    public_key: Seq<u8>,
    private_key: Seq<u8>,
)
    requires
        c.spec_matching_keys(public_key, private_key),
        c.spec_encode_ok(public_key, hop_bytes(h)),
    ensures
        spec_hop_decode(c, private_key, c.spec_encode(public_key, hop_bytes(h))) == Some(h),
{
    c.lemma_round_trip(public_key, private_key, hop_bytes(h));
    lemma_hop_bytes_round_trip(h);
}

/// The executable mirror of [`component_code`].
fn component_to_code(c: Option<Component>) -> (r: u8)
    ensures
        r == component_code(c),
{
    match c {
        None => 0,
        Some(Component::ProxyServer) => 1,
        Some(Component::ProxyClient) => 2,
        Some(Component::Hopper) => 3,
        Some(Component::Neighborhood) => 4,
    }
}

/// The executable mirror of [`code_component`].
fn code_to_component(b: u8) -> (r: Option<Component>)
    ensures
        r == code_component(b),
{
    if b == 1 {
        Some(Component::ProxyServer)
    } else if b == 2 {
        Some(Component::ProxyClient)
    } else if b == 3 {
        Some(Component::Hopper)
    } else if b == 4 {
        Some(Component::Neighborhood)
    } else {
        None
    }
}

impl Hop {
    /// A hop that only names the next node.
    pub fn with_key(key: &Key) -> (r: Hop)
        ensures
            r@ == (HopView { public_key: Some(key@), component: None }),
    {
        Hop { public_key: Some(Key::new(key.data.as_slice())), component: None }
    }

    /// A hop that only names a local component.
    pub fn with_component(component: Component) -> (r: Hop)
        ensures
            r@ == (HopView { public_key: None, component: Some(component) }),
    {
        Hop { public_key: None, component: Some(component) }
    }

    /// A hop with both parts chosen freely.
    pub fn new(public_key: Option<Key>, component: Option<Component>) -> (r: Hop)
        ensures
            r.public_key == public_key,
            r.component == component,
    {
        Hop { public_key, component }
    }

    /// This hop's serialized byte record.
    fn serialize(&self) -> (r: Vec<u8>)
        ensures
            r@ == hop_bytes(self@),
    {
        let mut v: Vec<u8> = Vec::new();
        match &self.public_key {
            Some(k) => {
                v.push(1);
                v.push(component_to_code(self.component));
                push_bytes(&mut v, k.data.as_slice());
                proof {
                    assert(v@ =~= hop_bytes(self@));
                }
            },
            None => {
                v.push(0);
                v.push(component_to_code(self.component));
                proof {
                    assert(v@ =~= hop_bytes(self@));
                }
            },
        }
        v
    }

    /// Seals this hop under `public_key`: the recipient is the node that
    /// holds the package when this hop is the first one.
    pub fn encode<C: CryptDE>(&self, public_key: &Key, cryptde: &C) -> (r: Result<
        CryptData,
        HopperError,
    >)
        ensures
            r is Ok <==> cryptde.spec_encode_ok(public_key@, hop_bytes(self@)),
            r matches Ok(c) ==> c@ == cryptde.spec_encode(public_key@, hop_bytes(self@)),
            r is Err ==> r == Err::<CryptData, HopperError>(HopperError::EncryptionFailure),
    {
        let plain = PlainData { data: self.serialize() };
        cryptde.encode(public_key, &plain)
    }

    /// Opens a sealed hop with `key` (the local private key) and parses it.
    pub fn decode<C: CryptDE>(key: &Key, cryptde: &C, crypt: &CryptData) -> (r: Result<
        Hop,
        HopperError,
    >)
        ensures
            r is Ok <==> spec_hop_decode(*cryptde, key@, crypt@) is Some,
            r matches Ok(h) ==> spec_hop_decode(*cryptde, key@, crypt@) == Some(h@),
            !cryptde.spec_decode_ok(key@, crypt@) ==> r == Err::<Hop, HopperError>(
                HopperError::DecryptionFailure,
            ),
            cryptde.spec_decode_ok(key@, crypt@) && parse_hop(
                cryptde.spec_decode(key@, crypt@),
            ) is None ==> r == Err::<Hop, HopperError>(HopperError::MalformedHop),
    {
        let plain = match cryptde.decode(key, crypt) {
            Ok(p) => p,
            Err(e) => {
                return Err(e);
            },
        };
        Self::deserialize(&plain)
    }

    /// Parses a cleartext hop record.
    fn deserialize(b: &PlainData) -> (r: Result<Hop, HopperError>)
        ensures
            r is Ok <==> parse_hop(b@) is Some,
            r matches Ok(h) ==> parse_hop(b@) == Some(h@),
            r is Err ==> r == Err::<Hop, HopperError>(HopperError::MalformedHop),
    {
        if b.data.len() < 2 {
            return Err(HopperError::MalformedHop);
        }
        let flag: u8 = b.data[0];
        let code: u8 = b.data[1];
        if code > 4 {
            return Err(HopperError::MalformedHop);
        }
        let component = code_to_component(code);
        if flag == 1 {
            let key_bytes = copy_tail(&b.data, 2);
            let hop = Hop { public_key: Some(Key { data: key_bytes }), component };
            proof {
                assert(parse_hop(b@) == Some(hop@));
            }
            Ok(hop)
        } else if flag == 0 && b.data.len() == 2 {
            let hop = Hop { public_key: None, component };
            proof {
                assert(parse_hop(b@) == Some(hop@));
            }
            Ok(hop)
        } else {
            Err(HopperError::MalformedHop)
        }
    }
}

} // verus!
