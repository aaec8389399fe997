//! Key material, the signing capability the flows consume, and a
//! transparent reference scheme.
//!
//! The signature scheme itself is a collaborator: the core only demands a
//! way to mint keypairs and handles and to sign a payload with a given
//! private key. The `Crypto` trait states those demands exactly, so that
//! every contract downstream can say which key signed which bytes.

use vstd::prelude::*;

use crate::bytes::copy_bytes;
use crate::key_handle::KeyHandle;

verus! {

/// Private key material of one credential (or of the attestation
/// identity). The core exposes it only to the signature scheme's signing
/// operation: it is never returned in a response field and never
/// compared against caller input.
pub struct PrivateKey {
    bytes: Vec<u8>,
}

impl View for PrivateKey {
    type V = Seq<u8>;

    closed spec fn view(&self) -> Seq<u8> {
        self.bytes@
    }
}

impl PrivateKey {
    /// Wraps provisioned key bytes.
    pub fn from_bytes(bytes: Vec<u8>) -> (r: PrivateKey)
        ensures
            r@ == bytes@,
    {
        PrivateKey { bytes }
    }

    /// The raw key bytes, for the signing primitive alone.
    pub fn as_bytes(&self) -> (r: &[u8])
        ensures
            r@ == self@,
    {
        self.bytes.as_slice()
    }
}

impl Clone for PrivateKey {
    fn clone(&self) -> (r: Self)
        ensures
            r@ == self@,
    {
        PrivateKey { bytes: copy_bytes(self.bytes.as_slice()) }
    }
}

/// Public half of a credential keypair; returned in registration responses.
#[derive(Debug)]
pub struct PublicKey {
    bytes: Vec<u8>,
}

impl View for PublicKey {
    type V = Seq<u8>;

    closed spec fn view(&self) -> Seq<u8> {
        self.bytes@
    }
}

impl PublicKey {
    /// Wraps encoded public-key bytes.
    pub fn from_bytes(bytes: Vec<u8>) -> (r: PublicKey)
        ensures
            r@ == bytes@,
    {
        PublicKey { bytes }
    }

    /// The encoded public-key bytes, for responses and signed payloads.
    pub fn as_bytes(&self) -> (r: &[u8])
        ensures
            r@ == self@,
    {
        self.bytes.as_slice()
    }
}

impl Clone for PublicKey {
    fn clone(&self) -> (r: Self)
        ensures
            r@ == self@,
    {
        PublicKey { bytes: copy_bytes(self.bytes.as_slice()) }
    }
}

/// The process-lifetime attestation identity: the device-wide private key
/// and the certificate relying parties verify registration signatures
/// against. Provisioned once at startup, immutable afterwards, and used
/// only to sign registration responses — never authentication responses.
pub struct Attestation {
    /// The attestation private key.
    pub key: PrivateKey,
    /// The attestation certificate, returned verbatim in every
    /// registration response.
    pub certificate: Vec<u8>,
}

impl Attestation {
    /// Binds provisioned attestation key material to its certificate.
    pub fn new(key: PrivateKey, certificate: Vec<u8>) -> (r: Attestation)
        ensures
            r.key@ == key@,
            r.certificate@ == certificate@,
    {
        Attestation { key, certificate }
    }
}

/// The cryptographic capability the flows consume: minting keypairs and
/// handles, and signing bytes with a given private key.
///
/// `sign_of` names, per implementation, the signature that a given key
/// produces over given bytes; `public_of` names the public half derived
/// from a private key. Both are deterministic per implementation, which is
/// what lets a contract say *which* key signed a payload. Generation of
/// keys and handles promises nothing about the values drawn, only how the
/// two halves of a pair relate: freshness of handles is enforced by the
/// store, not assumed of the source.
pub trait Crypto: Sized {
    /// The signature this scheme produces with `key` over `data`.
    spec fn sign_of(key: Seq<u8>, data: Seq<u8>) -> Seq<u8>;

    /// The public half derived from private key bytes.
    spec fn public_of(key: Seq<u8>) -> Seq<u8>;

    /// Length of every private key this scheme mints.
    spec fn key_length() -> nat;

    /// Length of every handle this scheme mints.
    spec fn handle_length() -> nat;

    /// Mints a fresh keypair, returned as (private, public).
    fn generate_keypair(&mut self) -> (r: (PrivateKey, PublicKey))
        ensures
            r.0@.len() == Self::key_length(),
            r.1@ == Self::public_of(r.0@),
    ;

    /// Mints a fresh candidate key handle.
    fn fresh_handle(&mut self) -> (r: KeyHandle)
        ensures
            r@.len() == Self::handle_length(),
    ;

    /// Signs `data` with `key`.
    fn sign(&self, key: &PrivateKey, data: &[u8]) -> (r: Vec<u8>)
        ensures
            r@ == Self::sign_of(key@, data@),
    ;

    /// Key separation, demanded of every scheme: two different keys of
    /// equal length never produce the same signature over the same
    /// bytes, so an attestation signature can never pass as a credential
    /// key's signature, nor the reverse.
    proof fn signatures_separate(key_a: Seq<u8>, key_b: Seq<u8>, data: Seq<u8>)
        requires
            key_a.len() == key_b.len(),
            key_a != key_b,
        ensures
            Self::sign_of(key_a, data) != Self::sign_of(key_b, data),
    ;
}

/// Mask applied bytewise to turn a private key into its public half in
/// the transparent scheme.
pub const KEY_MASK: u8 = 0xA5;

/// `s` with every byte masked.
pub open spec fn masked(s: Seq<u8>) -> Seq<u8> {
    s.map_values(|b: u8| b ^ KEY_MASK)
}

/// Masking is an involution, so in the transparent scheme the private key
/// is recovered from the public one by masking again.
pub proof fn lemma_masked_involution(s: Seq<u8>)
    ensures
        masked(masked(s)) == s,
{
    assert forall|i: int| 0 <= i < s.len() implies masked(masked(s))[i] == s[i] by {
        let b = s[i];
        assert((b ^ KEY_MASK) ^ KEY_MASK == b) by (bit_vector);
    }
    assert(masked(masked(s)) =~= s);
}

/// Attestation and credential keys stay separate in the transparent
/// scheme: two different keys of equal length never produce the same
/// signature over the same bytes, so a registration's attestation
/// signature is not a credential key's signature, nor the reverse.
pub proof fn lemma_transparent_signatures_separate(key_a: Seq<u8>, key_b: Seq<u8>, data: Seq<u8>)
    requires
        key_a.len() == key_b.len(),
        key_a != key_b,
    ensures
        <TransparentCrypto as Crypto>::sign_of(key_a, data) != <TransparentCrypto as Crypto>::sign_of(
            key_b,
            data,
        ),
{
    if masked(key_a) + data == masked(key_b) + data {
        assert forall|i: int| 0 <= i < key_a.len() implies masked(key_a)[i] == masked(key_b)[i] by {
            assert((masked(key_a) + data)[i] == masked(key_a)[i]);
            assert((masked(key_b) + data)[i] == masked(key_b)[i]);
        }
        assert(masked(key_a) =~= masked(key_b));
        lemma_masked_involution(key_a);
        lemma_masked_involution(key_b);
        assert(key_a == key_b);
    }
}

/// `src` with every byte masked, as executable code.
pub fn mask_bytes(src: &[u8]) -> (r: Vec<u8>)
    ensures
        r@ == masked(src@),
{
    let mut out: Vec<u8> = Vec::new();
    let n = src.len();
    let mut i: usize = 0;
    while i < n
        invariant
            n == src@.len(),
            0 <= i <= n,
            out@ == masked(src@.take(i as int)),
        decreases n - i,
    {
        out.push(src[i] ^ KEY_MASK);
        assert(out@ =~= masked(src@.take(i as int + 1)));
        i += 1;
    }
    assert(src@.take(n as int) =~= src@);
    out
}

/// A transparent signature scheme: a keypair is a seed byte repeated,
/// the public key is the private key masked bytewise, and a signature is
/// the signing key's *public half* followed by the signed bytes. Every
/// contract of `Crypto` is concrete here, and a reader of a signature can
/// see exactly which key made it — which is what makes the separation of
/// attestation and credential keys checkable end to end — while the
/// private key itself never leaves the signer. It offers no forgery
/// resistance and stands in for a real signature scheme, which belongs to
/// the provisioning layer around the core.
pub struct TransparentCrypto {
    /// Seed byte of the next minted private key.
    pub next_key: u8,
    /// Seed byte of the next minted handle.
    pub next_handle: u8,
}

/// Length of minted private keys and handles.
pub const TRANSPARENT_LENGTH: usize = 32;

impl TransparentCrypto {
    /// A scheme whose first minted key and handle use seed 1.
    pub fn new() -> (r: TransparentCrypto)
        ensures
            r.next_key == 1,
            r.next_handle == 1,
    {
        TransparentCrypto { next_key: 1, next_handle: 1 }
    }

    /// The public half of a private key, derivable by anyone.
    pub fn derive_public(key: &PrivateKey) -> (r: PublicKey)
        ensures
            r@ == <TransparentCrypto as Crypto>::public_of(key@),
    {
        PublicKey::from_bytes(mask_bytes(key.as_bytes()))
    }

    /// Whether `signature` is what the private key behind `public_key`
    /// produces over `data` in this scheme.
    pub fn verify(public_key: &PublicKey, data: &[u8], signature: &[u8]) -> (r: bool)
        ensures
            r == (signature@ == <TransparentCrypto as Crypto>::sign_of(
                masked(public_key@),
                data@,
            )),
    {
        let mut expected = copy_bytes(public_key.as_bytes());
        crate::bytes::push_bytes(&mut expected, data);
        proof {
            lemma_masked_involution(public_key@);
        }
        crate::bytes::bytes_eq(signature, expected.as_slice())
    }

    fn repeated_byte(b: u8) -> (r: Vec<u8>)
        ensures
            r@ == Seq::new(TRANSPARENT_LENGTH as nat, |i: int| b),
    {
        let mut out: Vec<u8> = Vec::new();
        let mut i: usize = 0;
        while i < TRANSPARENT_LENGTH
            invariant
                0 <= i <= TRANSPARENT_LENGTH,
                out@ == Seq::new(i as nat, |j: int| b),
            decreases TRANSPARENT_LENGTH - i,
        {
            out.push(b);
            assert(out@ =~= Seq::new(i as nat + 1, |j: int| b));
            i += 1;
        }
        out
    }

    fn bump(b: u8) -> (r: u8)
        ensures
            r == next_seed(b),
    {
        if b == 255 {
            0
        } else {
            b + 1
        }
    }
}

/// The seed byte following `b`: one higher, wrapping at the top.
pub open spec fn next_seed(b: u8) -> u8 {
    if b == 255 {
        0
    } else {
        (b + 1) as u8
    }
}

impl Crypto for TransparentCrypto {
    open spec fn sign_of(key: Seq<u8>, data: Seq<u8>) -> Seq<u8> {
        masked(key) + data
    }

    open spec fn public_of(key: Seq<u8>) -> Seq<u8> {
        masked(key)
    }

    open spec fn key_length() -> nat {
        TRANSPARENT_LENGTH as nat
    }

    open spec fn handle_length() -> nat {
        TRANSPARENT_LENGTH as nat
    }

    fn generate_keypair(&mut self) -> (r: (PrivateKey, PublicKey))
        ensures
            r.0@ == Seq::new(TRANSPARENT_LENGTH as nat, |i: int| old(self).next_key),
            final(self).next_key == next_seed(old(self).next_key),
            final(self).next_handle == old(self).next_handle,
    {
        let seed = self.next_key;
        self.next_key = Self::bump(self.next_key);
        let private_key = PrivateKey::from_bytes(Self::repeated_byte(seed));
        let public_key = Self::derive_public(&private_key);
        (private_key, public_key)
    }

    fn fresh_handle(&mut self) -> (r: KeyHandle)
        ensures
            r@ == Seq::new(TRANSPARENT_LENGTH as nat, |i: int| old(self).next_handle),
            final(self).next_handle == next_seed(old(self).next_handle),
            final(self).next_key == old(self).next_key,
    {
        let seed = self.next_handle;
        self.next_handle = Self::bump(self.next_handle);
        KeyHandle::from_bytes(Self::repeated_byte(seed))
    }

    fn sign(&self, key: &PrivateKey, data: &[u8]) -> (r: Vec<u8>) {
        let mut out = mask_bytes(key.as_bytes());
        crate::bytes::push_bytes(&mut out, data);
        out
    }

    proof fn signatures_separate(key_a: Seq<u8>, key_b: Seq<u8>, data: Seq<u8>) {
        lemma_transparent_signatures_separate(key_a, key_b, data);
    }
}

} // verus!
