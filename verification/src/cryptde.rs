//! Byte-string value types and the asymmetric-crypto facade.
//!
//! The forwarding core treats cryptography as a black box behind the
//! [`CryptDE`] trait: sealing cleartext under a recipient's public key and
//! opening ciphertext with the local private key.  [`CryptDENull`] is the
//! null implementation used for integration testing: it "seals" data by
//! framing it with the recipient key, so that opening verifies the key
//! exactly and then returns the data unchanged.

use vstd::prelude::*;
use vstd::slice::slice_to_vec;
use crate::errors::HopperError;

verus! {

/// An opaque byte string identifying a node's public or private key.
#[derive(Clone, PartialEq, Eq, Debug)]
pub struct Key {
    pub data: Vec<u8>,
}

impl View for Key {
    type V = Seq<u8>;

    open spec fn view(&self) -> Seq<u8> {
        self.data@
    }
}

impl Key {
    pub fn new(data: &[u8]) -> (r: Key)
        ensures
            r@ == data@,
    {
        Key { data: slice_to_vec(data) }
    }
}

/// An opaque byte string holding cleartext.
#[derive(Clone, PartialEq, Eq, Debug)]
pub struct PlainData {
    pub data: Vec<u8>,
}

impl View for PlainData {
    type V = Seq<u8>;

    open spec fn view(&self) -> Seq<u8> {
        self.data@
    }
}

impl PlainData {
    pub fn new(data: &[u8]) -> (r: PlainData)
        ensures
            r@ == data@,
    {
        PlainData { data: slice_to_vec(data) }
    }
}

/// An opaque byte string holding ciphertext.
#[derive(Clone, PartialEq, Eq, Debug)]
pub struct CryptData {
    pub data: Vec<u8>,
}

impl View for CryptData {
    type V = Seq<u8>;

    open spec fn view(&self) -> Seq<u8> {
        self.data@
    }
}

impl CryptData {
    pub fn new(data: &[u8]) -> (r: CryptData)
        ensures
            r@ == data@,
    {
        CryptData { data: slice_to_vec(data) }
    }
}

/// The asymmetric encode/decode facade a hopper owns.
///
/// `encode` seals cleartext under a recipient's public key; `decode` opens a
/// ciphertext with a private key.  The two laws at the bottom are what the
/// layered-route protocol rests on: a node's own pair matches, and decoding
/// with the matching private key inverts encoding.
pub trait CryptDE: Sized {
    /// The node's public identity.
    spec fn spec_public_key(&self) -> Seq<u8>;

    /// The node's private key.
    spec fn spec_private_key(&self) -> Seq<u8>;

    /// Whether `private_key` opens what was sealed under `public_key`.
    spec fn spec_matching_keys(&self, public_key: Seq<u8>, private_key: Seq<u8>) -> bool;

    /// Whether sealing `plain` under `key` succeeds.
    spec fn spec_encode_ok(&self, key: Seq<u8>, plain: Seq<u8>) -> bool;

    /// The ciphertext produced by sealing `plain` under `key`.
    spec fn spec_encode(&self, key: Seq<u8>, plain: Seq<u8>) -> Seq<u8>;

    /// Whether `key` opens the ciphertext `crypt`.
    spec fn spec_decode_ok(&self, key: Seq<u8>, crypt: Seq<u8>) -> bool;

    /// The cleartext recovered from `crypt` with `key`.
    spec fn spec_decode(&self, key: Seq<u8>, crypt: Seq<u8>) -> Seq<u8>;

    fn public_key(&self) -> (r: Key)
        ensures
            r@ == self.spec_public_key(),
    ;

    fn private_key(&self) -> (r: Key)
        ensures
            r@ == self.spec_private_key(),
    ;

    fn encode(&self, key: &Key, data: &PlainData) -> (r: Result<CryptData, HopperError>)
        ensures
            r is Ok <==> self.spec_encode_ok(key@, data@),
            r matches Ok(c) ==> c@ == self.spec_encode(key@, data@),
            r is Err ==> r == Err::<CryptData, HopperError>(HopperError::EncryptionFailure),
    ;

    fn decode(&self, key: &Key, data: &CryptData) -> (r: Result<PlainData, HopperError>)
        ensures
            r is Ok <==> self.spec_decode_ok(key@, data@),
            r matches Ok(p) ==> p@ == self.spec_decode(key@, data@),
            r is Err ==> r == Err::<PlainData, HopperError>(HopperError::DecryptionFailure),
    ;

    /// A node's own key pair matches.
    proof fn lemma_own_keys_match(&self)
        ensures
            self.spec_matching_keys(self.spec_public_key(), self.spec_private_key()),
    ;

    /// Decoding with the matching private key inverts encoding.
    proof fn lemma_round_trip(&self, public_key: Seq<u8>, private_key: Seq<u8>, plain: Seq<u8>)
        requires
            self.spec_matching_keys(public_key, private_key),
            self.spec_encode_ok(public_key, plain),
        ensures
            self.spec_decode_ok(private_key, self.spec_encode(public_key, plain)),
            self.spec_decode(private_key, self.spec_encode(public_key, plain)) == plain,
    ;
}

/// The eight little-endian bytes of `n`'s low 64 bits.
pub open spec fn le8(n: nat) -> Seq<u8> {
    seq![
        (n % 256) as u8,
        ((n / 0x100) % 256) as u8,
        ((n / 0x10000) % 256) as u8,
        ((n / 0x1000000) % 256) as u8,
        ((n / 0x100000000) % 256) as u8,
        ((n / 0x10000000000) % 256) as u8,
        ((n / 0x1000000000000) % 256) as u8,
        ((n / 0x100000000000000) % 256) as u8,
    ]
}

/// Distinct lengths below 2^64 have distinct little-endian framings.
pub proof fn lemma_le8_injective(a: u64, b: u64)
    requires
        le8(a as nat) == le8(b as nat),
    ensures
        a == b,
{
    let sa = le8(a as nat);
    let sb = le8(b as nat);
    assert(sa[0] == sb[0]);
    assert(sa[1] == sb[1]);
    assert(sa[2] == sb[2]);
    assert(sa[3] == sb[3]);
    assert(sa[4] == sb[4]);
    assert(sa[5] == sb[5]);
    assert(sa[6] == sb[6]);
    assert(sa[7] == sb[7]);
    assert(a == b) by (bit_vector)
        requires
            a % 256 == b % 256,
            (a / 0x100) % 256 == (b / 0x100) % 256,
            (a / 0x10000) % 256 == (b / 0x10000) % 256,
            (a / 0x1000000) % 256 == (b / 0x1000000) % 256,
            (a / 0x100000000) % 256 == (b / 0x100000000) % 256,
            (a / 0x10000000000) % 256 == (b / 0x10000000000) % 256,
            (a / 0x1000000000000) % 256 == (b / 0x1000000000000) % 256,
            (a / 0x100000000000000) % 256 == (b / 0x100000000000000) % 256,
    ;
}

/// What the null implementation's `encode` produces: the recipient key,
/// framed by its length, followed by the cleartext.
pub open spec fn null_seal(key: Seq<u8>, plain: Seq<u8>) -> Seq<u8> {
    le8(key.len()) + key + plain
}

/// Whether the null implementation's `decode` with `key` accepts `crypt`.
pub open spec fn null_opens(key: Seq<u8>, crypt: Seq<u8>) -> bool {
    crypt.len() >= key.len() + 8 && crypt.take((key.len() + 8) as int) == le8(key.len()) + key
}

/// The cleartext the null implementation's `decode` recovers.
pub open spec fn null_open(key: Seq<u8>, crypt: Seq<u8>) -> Seq<u8> {
    crypt.skip((key.len() + 8) as int)
}

/// Opening a null seal with the key it was sealed under recovers the
/// cleartext.
pub proof fn lemma_null_round_trip(key: Seq<u8>, plain: Seq<u8>)
    ensures
        null_opens(key, null_seal(key, plain)),
        null_open(key, null_seal(key, plain)) == plain,
{
    let c = null_seal(key, plain);
    assert(c.take((key.len() + 8) as int) =~= le8(key.len()) + key);
    assert(c.skip((key.len() + 8) as int) =~= plain);
}

/// A null seal opens under no key but the one it was sealed under: there is
/// no silent success with a wrong key.
pub proof fn lemma_null_wrong_key(key1: Seq<u8>, key2: Seq<u8>, plain: Seq<u8>)
    requires
        key1 != key2,
        key1.len() < 0x10000000000000000,
        key2.len() < 0x10000000000000000,
    ensures
        !null_opens(key1, null_seal(key2, plain)),
{
    let c = null_seal(key2, plain);
    if null_opens(key1, c) {
        let t = c.take((key1.len() + 8) as int);
        assert forall|i: int| 0 <= i < 8 implies le8(key1.len())[i] == le8(key2.len())[i] by {
            assert(t[i] == (le8(key1.len()) + key1)[i]);
            assert(c[i] == (le8(key2.len()) + key2 + plain)[i]);
        }
        assert(le8(key1.len()) =~= le8(key2.len()));
        assert((key1.len() as u64) as nat == key1.len());
        assert((key2.len() as u64) as nat == key2.len());
        lemma_le8_injective(key1.len() as u64, key2.len() as u64);
        assert(key1.len() == key2.len());
        assert forall|j: int| 0 <= j < key1.len() implies key1[j] == key2[j] by {
            assert(t[j + 8] == (le8(key1.len()) + key1)[j + 8]);
            assert(c[j + 8] == (le8(key2.len()) + key2 + plain)[j + 8]);
        }
        assert(key1 =~= key2);
    }
}

/// Appends the little-endian framing of `n` to `v`.
fn push_le8(v: &mut Vec<u8>, n: u64)
    ensures
        final(v)@ == old(v)@ + le8(n as nat),
{
    let b0: u8 = (n % 256) as u8;
    let b1: u8 = ((n / 0x100) % 256) as u8;
    let b2: u8 = ((n / 0x10000) % 256) as u8;
    let b3: u8 = ((n / 0x1000000) % 256) as u8;
    let b4: u8 = ((n / 0x100000000) % 256) as u8;
    let b5: u8 = ((n / 0x10000000000) % 256) as u8;
    let b6: u8 = ((n / 0x1000000000000) % 256) as u8;
    let b7: u8 = ((n / 0x100000000000000) % 256) as u8;
    v.push(b0);
    v.push(b1);
    v.push(b2);
    v.push(b3);
    v.push(b4);
    v.push(b5);
    v.push(b6);
    v.push(b7);
    proof {
        assert(v@ =~= old(v)@ + le8(n as nat));
    }
}

/// Appends all of `src` to `dst`.
pub(crate) fn push_bytes(dst: &mut Vec<u8>, src: &[u8])
    ensures
        final(dst)@ == old(dst)@ + src@,
{
    let mut i: usize = 0;
    while i < src.len()
        invariant
            i <= src@.len(),
            dst@ == old(dst)@ + src@.take(i as int),
        decreases src@.len() - i,
    {
        let byte: u8 = src[i];
        dst.push(byte);
        proof {
            assert(dst@ =~= old(dst)@ + src@.take(i + 1 as int));
        }
        i = i + 1;
    }
    proof {
        assert(src@.take(i as int) =~= src@);
    }
}

/// Copies `src[start..]` into a fresh vector.
pub(crate) fn copy_tail(src: &Vec<u8>, start: usize) -> (r: Vec<u8>)
    requires
        start <= src@.len(),
    ensures
        r@ == src@.skip(start as int),
{
    let mut out: Vec<u8> = Vec::new();
    let mut i: usize = start;
    while i < src.len()
        invariant
            start <= i <= src@.len(),
            out@ == src@.subrange(start as int, i as int),
        decreases src@.len() - i,
    {
        let byte: u8 = src[i];
        out.push(byte);
        proof {
            assert(out@ =~= src@.subrange(start as int, i + 1 as int));
        }
        i = i + 1;
    }
    proof {
        assert(out@ =~= src@.skip(start as int));
    }
    out
}

/// The null implementation's fixed default identity.
pub open spec fn null_default_key() -> Seq<u8> {
    seq![110u8, 117u8, 108u8, 108u8]
}

/// The identity-crypto implementation used for integration tests.
///
/// Its public and private keys are the same bytes.  Sealing frames the
/// cleartext with the recipient key; opening checks that frame against the
/// supplied key and strips it.  Nothing is hidden, but a wrong key is
/// detected exactly as a real implementation would fail to decrypt.
#[derive(Clone, PartialEq, Eq, Debug)]
pub struct CryptDENull {
    pub key: Key,
}

impl CryptDENull {
    /// A null instance with the fixed default identity.
    pub fn new() -> (r: CryptDENull)
        ensures
            r.key@ == null_default_key(),
    {
        let mut v: Vec<u8> = Vec::new();
        v.push(110);
        v.push(117);
        v.push(108);
        v.push(108);
        proof {
            assert(v@ =~= null_default_key());
        }
        CryptDENull { key: Key { data: v } }
    }

    /// A null instance whose identity is `key`, for tests that need several
    /// distinct nodes.
    pub fn from_key(key: &Key) -> (r: CryptDENull)
        ensures
            r.key@ == key@,
    {
        CryptDENull { key: Key::new(key.data.as_slice()) }
    }
}

impl CryptDE for CryptDENull {
    open spec fn spec_public_key(&self) -> Seq<u8> {
        self.key@
    }

    open spec fn spec_private_key(&self) -> Seq<u8> {
        self.key@
    }

    open spec fn spec_matching_keys(&self, public_key: Seq<u8>, private_key: Seq<u8>) -> bool {
        private_key == public_key
    }

    open spec fn spec_encode_ok(&self, key: Seq<u8>, plain: Seq<u8>) -> bool {
        true
    }

    open spec fn spec_encode(&self, key: Seq<u8>, plain: Seq<u8>) -> Seq<u8> {
        null_seal(key, plain)
    }

    open spec fn spec_decode_ok(&self, key: Seq<u8>, crypt: Seq<u8>) -> bool {
        null_opens(key, crypt)
    }

    open spec fn spec_decode(&self, key: Seq<u8>, crypt: Seq<u8>) -> Seq<u8> {
        null_open(key, crypt)
    }

    fn public_key(&self) -> (r: Key) {
        Key::new(self.key.data.as_slice())
    }

    fn private_key(&self) -> (r: Key) {
        Key::new(self.key.data.as_slice())
    }

    fn encode(&self, key: &Key, data: &PlainData) -> (r: Result<CryptData, HopperError>) {
        let mut v: Vec<u8> = Vec::new();
        push_le8(&mut v, key.data.len() as u64);
        push_bytes(&mut v, key.data.as_slice());
        push_bytes(&mut v, data.data.as_slice());
        proof {
            assert(v@ =~= null_seal(key@, data@));
        }
        Ok(CryptData { data: v })
    }

    fn decode(&self, key: &Key, data: &CryptData) -> (r: Result<PlainData, HopperError>) {
        let mut expected: Vec<u8> = Vec::new();
        push_le8(&mut expected, key.data.len() as u64);
        push_bytes(&mut expected, key.data.as_slice());
        proof {
            assert(expected@ =~= le8(key@.len()) + key@);
        }
        if data.data.len() < expected.len() {
            proof {
                assert(!null_opens(key@, data@));
            }
            return Err(HopperError::DecryptionFailure);
        }
        let mut i: usize = 0;
        while i < expected.len()
            invariant
                i <= expected@.len() <= data.data@.len(),
                expected@ == le8(key@.len()) + key@,
                expected@.len() == key@.len() + 8,
                forall|j: int| 0 <= j < i ==> data.data@[j] == expected@[j],
            decreases expected@.len() - i,
        {
            if data.data[i] != expected[i] {
                proof {
                    if null_opens(key@, data@) {
                        assert(data.data@.take((key@.len() + 8) as int)[i as int]
                            == expected@[i as int]);
                    }
                }
                return Err(HopperError::DecryptionFailure);
            }
            i = i + 1;
        }
        proof {
            assert(data.data@.take((key@.len() + 8) as int) =~= expected@);
            assert(null_opens(key@, data@));
        }
        let rest = copy_tail(&data.data, expected.len());
        Ok(PlainData { data: rest })
    }

    proof fn lemma_own_keys_match(&self) {
    }

    proof fn lemma_round_trip(&self, public_key: Seq<u8>, private_key: Seq<u8>, plain: Seq<u8>) {
        lemma_null_round_trip(public_key, plain);
    }
}

} // verus!
