//! The encrypted hop sequence a package carries.
//!
//! An author writes a route down as segments of cleartext keys; sealing
//! turns it into a list of ciphertexts, each encrypted under the key of the
//! node that holds the package when that hop comes first.  The invariant the
//! protocol preserves: the first element of the list is always decryptable
//! by the current holder's private key.

use vstd::prelude::*;
use crate::cryptde::{CryptDE, CryptData, Key};
use crate::dispatcher::Component;
use crate::errors::HopperError;
use crate::hop::{hop_bytes, spec_hop_decode, Hop, HopView};

verus! {

/// The mathematical value of a [`RouteSegment`].
#[verifier::ext_equal]
pub struct RouteSegmentView {
    pub keys: Seq<Seq<u8>>,
    pub component: Component,
}

/// One leg of a route as its author writes it down: the node keys to
/// traverse in order, then the component to deliver to where the leg ends.
#[derive(Clone, PartialEq, Eq, Debug)]
pub struct RouteSegment {
    pub keys: Vec<Key>,
    pub component: Component,
}

impl View for RouteSegment {
    type V = RouteSegmentView;

    open spec fn view(&self) -> RouteSegmentView {
        RouteSegmentView {
            keys: Seq::new(self.keys@.len(), |i: int| self.keys@[i]@),
            component: self.component,
        }
    }
}

impl RouteSegment {
    pub fn new(keys: Vec<Key>, component: Component) -> (r: RouteSegment)
        ensures
            r@.keys == Seq::new(keys@.len(), |i: int| keys@[i]@),
            r@.component == component,
    {
        RouteSegment { keys, component }
    }
}

/// The views of a sequence of segments.
pub open spec fn segments_view(s: Seq<RouteSegment>) -> Seq<RouteSegmentView> {
    Seq::new(s.len(), |i: int| s[i]@)
}

/// The views of a sequence of cleartext hops.
pub open spec fn hops_view(s: Seq<Hop>) -> Seq<HopView> {
    Seq::new(s.len(), |i: int| s[i]@)
}

/// The views of a sequence of ciphertexts.
pub open spec fn crypts_view(s: Seq<CryptData>) -> Seq<Seq<u8>> {
    Seq::new(s.len(), |i: int| s[i]@)
}

/// The cleartext hops one segment contributes: one key-only hop per node,
/// then a component-only terminal hop.
pub open spec fn seg_hops(s: RouteSegmentView) -> Seq<HopView> {
    Seq::new(
        s.keys.len() + 1,
        |i: int|
            if i < s.keys.len() {
                HopView { public_key: Some(s.keys[i]), component: None }
            } else {
                HopView { public_key: None, component: Some(s.component) }
            },
    )
}

/// The cleartext hop sequence of a whole authored route: the segments'
/// contributions in order.
pub open spec fn route_cleartext(segs: Seq<RouteSegmentView>) -> Seq<HopView>
    decreases segs.len(),
{
    if segs.len() == 0 {
        Seq::empty()
    } else {
        route_cleartext(segs.drop_last()) + seg_hops(segs.last())
    }
}

/// The key under which the hop at position `i` travels: the author's own
/// key for position 0, after that the key most recently named before `i` —
/// a component-only hop leaves the package with the same holder.
pub open spec fn holder_key(author: Seq<u8>, hops: Seq<HopView>, i: int) -> Seq<u8>
    decreases i,
{
    if i <= 0 {
        author
    } else {
        match hops[i - 1].public_key {
            Some(k) => k,
            None => holder_key(author, hops, i - 1),
        }
    }
}

/// The sealed hop list of an authored route.
pub open spec fn route_crypts<C: CryptDE>(c: C, hops: Seq<HopView>) -> Seq<Seq<u8>> {
    Seq::new(
        hops.len(),
        |i: int| c.spec_encode(holder_key(c.spec_public_key(), hops, i), hop_bytes(hops[i])),
    )
}

/// Whether every hop of an authored route can be sealed.
pub open spec fn route_crypts_ok<C: CryptDE>(c: C, hops: Seq<HopView>) -> bool {
    forall|i: int|
        0 <= i < hops.len() ==> c.spec_encode_ok(
            holder_key(c.spec_public_key(), hops, i),
            hop_bytes(hops[i]),
        )
}

/// An ordered sequence of sealed hops.
#[derive(Clone, PartialEq, Eq, Debug)]
pub struct Route {
    pub hops: Vec<CryptData>,
}

impl View for Route {
    type V = Seq<Seq<u8>>;

    open spec fn view(&self) -> Seq<Seq<u8>> {
        Seq::new(self.hops@.len(), |i: int| self.hops@[i]@)
    }
}

/// Appends the cleartext hops of one segment.
fn push_segment_hops(cleartext: &mut Vec<Hop>, seg: &RouteSegment)
    ensures
        hops_view(final(cleartext)@) == hops_view(old(cleartext)@) + seg_hops(seg@),
{
    let ghost base = cleartext@;
    let mut ki: usize = 0;
    while ki < seg.keys.len()
        invariant
            ki <= seg.keys@.len(),
            base == old(cleartext)@,
            cleartext@.len() == base.len() + ki,
            forall|j: int| 0 <= j < base.len() ==> cleartext@[j] == base[j],
            forall|j: int|
                base.len() <= j < cleartext@.len() ==> #[trigger] cleartext@[j]@ == (HopView {
                    public_key: Some(seg@.keys[j - base.len()]),
                    component: None,
                }),
        decreases seg.keys@.len() - ki,
    {
        let hop = Hop::with_key(&seg.keys[ki]);
        cleartext.push(hop);
        ki = ki + 1;
    }
    let terminal = Hop::with_component(seg.component);
    cleartext.push(terminal);
    proof {
        let lhs = hops_view(cleartext@);
        let rhs = hops_view(old(cleartext)@) + seg_hops(seg@);
        assert forall|j: int| 0 <= j < lhs.len() implies lhs[j] == rhs[j] by {
            if j < base.len() {
                assert(cleartext@[j] == base[j]);
            } else if j < base.len() + seg.keys@.len() {
                assert(cleartext@[j]@ == (HopView {
                    public_key: Some(seg@.keys[j - base.len()]),
                    component: None,
                }));
            } else {
                assert(cleartext@[j] == terminal);
            }
        }
        assert(lhs =~= rhs);
    }
}

impl Route {
    /// Seals an authored route: each hop is encrypted under the key of the
    /// node that will hold the package when that hop comes first.
    pub fn new<C: CryptDE>(segments: Vec<RouteSegment>, cryptde: &C) -> (r: Result<
        Route,
        HopperError,
    >)
        ensures
            ({
                let ct = route_cleartext(segments_view(segments@));
                &&& (r is Ok <==> route_crypts_ok(*cryptde, ct))
                &&& (r matches Ok(route) ==> route@ == route_crypts(*cryptde, ct))
                &&& (r is Err ==> r == Err::<Route, HopperError>(HopperError::EncryptionFailure))
            }),
    {
        let ghost sv = segments_view(segments@);
        let mut cleartext: Vec<Hop> = Vec::new();
        let mut si: usize = 0;
        while si < segments.len()
            invariant
                si <= segments@.len(),
                sv == segments_view(segments@),
                hops_view(cleartext@) == route_cleartext(sv.take(si as int)),
            decreases segments@.len() - si,
        {
            push_segment_hops(&mut cleartext, &segments[si]);
            proof {
                assert(sv.take(si as int + 1).drop_last() =~= sv.take(si as int));
                assert(sv.take(si as int + 1).last() == sv[si as int]);
                assert(segments@[si as int]@ == sv[si as int]);
                assert(route_cleartext(sv.take(si as int + 1)) == route_cleartext(
                    sv.take(si as int),
                ) + seg_hops(sv[si as int]));
            }
            si = si + 1;
        }
        proof {
            assert(sv.take(segments@.len() as int) =~= sv);
        }
        let ghost ct = hops_view(cleartext@);
        let ghost author = cryptde.spec_public_key();
        let mut out: Vec<CryptData> = Vec::new();
        let mut current_key: Key = cryptde.public_key();
        let mut i: usize = 0;
        while i < cleartext.len()
            invariant
                i <= cleartext@.len(),
                ct == hops_view(cleartext@),
                ct == route_cleartext(segments_view(segments@)),
                author == cryptde.spec_public_key(),
                current_key@ == holder_key(author, ct, i as int),
                crypts_view(out@) == route_crypts(*cryptde, ct).take(i as int),
                forall|j: int|
                    0 <= j < i ==> cryptde.spec_encode_ok(
                        holder_key(author, ct, j),
                        hop_bytes(ct[j]),
                    ),
            decreases cleartext@.len() - i,
        {
            let hop = &cleartext[i];
            proof {
                assert(hop@ == ct[i as int]);
            }
            let crypt = match hop.encode(&current_key, cryptde) {
                Ok(c) => c,
                Err(_) => {
                    proof {
                        assert(!cryptde.spec_encode_ok(
                            holder_key(author, ct, i as int),
                            hop_bytes(ct[i as int]),
                        ));
                        assert(!route_crypts_ok(*cryptde, ct));
                    }
                    return Err(HopperError::EncryptionFailure);
                },
            };
            let ghost prev_out = out@;
            out.push(crypt);
            match &hop.public_key {
                Some(k) => {
                    current_key = Key::new(k.data.as_slice());
                },
                None => {},
            }
            proof {
                assert(holder_key(author, ct, i as int + 1) == current_key@);
                let lhs = crypts_view(out@);
                let rhs = route_crypts(*cryptde, ct).take(i as int + 1);
                assert(route_crypts(*cryptde, ct).len() == ct.len());
                assert(ct.len() == cleartext@.len());
                assert(crypts_view(prev_out).len() == prev_out.len());
                assert(crypts_view(prev_out) == route_crypts(*cryptde, ct).take(i as int));
                assert(prev_out.len() == i as int);
                assert forall|j: int| 0 <= j < lhs.len() implies lhs[j] == rhs[j] by {
                    if j < i as int {
                        assert(out@[j] == prev_out[j]);
                        assert(crypts_view(prev_out)[j] == route_crypts(*cryptde, ct).take(
                            i as int,
                        )[j]);
                    } else {
                        assert(out@[j] == crypt);
                    }
                }
                assert(lhs =~= rhs);
            }
            i = i + 1;
        }
        proof {
            assert(route_crypts(*cryptde, ct).take(cleartext@.len() as int) =~= route_crypts(
                *cryptde,
                ct,
            ));
        }
        let route = Route { hops: out };
        proof {
            assert(route@ =~= route_crypts(*cryptde, ct));
        }
        Ok(route)
    }

    /// Splits off the first hop: decrypts it with the local private key and
    /// hands back the remaining sealed tail.
    pub fn deconstruct<C: CryptDE>(self, cryptde: &C) -> (r: Result<
        (Hop, Vec<CryptData>),
        HopperError,
    >)
        ensures
            r is Ok <==> self@.len() > 0 && spec_hop_decode(
                *cryptde,
                cryptde.spec_private_key(),
                self@[0],
            ) is Some,
            r matches Ok(p) ==> ({
                &&& Some(p.0@) == spec_hop_decode(*cryptde, cryptde.spec_private_key(), self@[0])
                &&& crypts_view(p.1@) == self@.skip(1)
            }),
            self@.len() == 0 ==> r == Err::<(Hop, Vec<CryptData>), HopperError>(
                HopperError::EmptyRoute,
            ),
            self@.len() > 0 && !cryptde.spec_decode_ok(cryptde.spec_private_key(), self@[0])
                ==> r == Err::<(Hop, Vec<CryptData>), HopperError>(HopperError::DecryptionFailure),
            self@.len() > 0 && cryptde.spec_decode_ok(cryptde.spec_private_key(), self@[0])
                && crate::hop::parse_hop(
                cryptde.spec_decode(cryptde.spec_private_key(), self@[0]),
            ) is None ==> r == Err::<(Hop, Vec<CryptData>), HopperError>(HopperError::MalformedHop),
    {
        let ghost original = self@;
        let mut hops = self.hops;
        if hops.len() == 0 {
            return Err(HopperError::EmptyRoute);
        }
        let first = hops.remove(0);
        proof {
            assert(first@ == original[0]);
            assert(crypts_view(hops@) =~= original.skip(1));
        }
        let private_key = cryptde.private_key();
        let hop = match Hop::decode(&private_key, cryptde, &first) {
            Ok(h) => h,
            Err(e) => {
                return Err(e);
            },
        };
        Ok((hop, hops))
    }

    /// Rebuilds a route for local delivery: the decrypted first hop is
    /// resealed under the holder's own public key, ahead of the remaining
    /// sealed tail, so the holder can still decrypt the first element.
    pub fn construct<C: CryptDE>(first_hop: Hop, tail: Vec<CryptData>, cryptde: &C) -> (r: Result<
        Route,
        HopperError,
    >)
        ensures
            r is Ok <==> cryptde.spec_encode_ok(cryptde.spec_public_key(), hop_bytes(first_hop@)),
            r matches Ok(route) ==> route@ == seq![
                cryptde.spec_encode(cryptde.spec_public_key(), hop_bytes(first_hop@)),
            ] + crypts_view(tail@),
            r is Err ==> r == Err::<Route, HopperError>(HopperError::EncryptionFailure),
    {
        let public_key = cryptde.public_key();
        let crypt = match first_hop.encode(&public_key, cryptde) {
            Ok(c) => c,
            Err(e) => {
                return Err(e);
            },
        };
        let ghost tail_view = crypts_view(tail@);
        let mut hops = tail;
        hops.insert(0, crypt);
        let route = Route { hops };
        proof {
            assert(route@ =~= seq![
                cryptde.spec_encode(cryptde.spec_public_key(), hop_bytes(first_hop@)),
            ] + tail_view);
        }
        Ok(route)
    }
}

} // verus!
