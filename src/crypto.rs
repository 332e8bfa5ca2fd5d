use vstd::prelude::*;

use openssl::ec::EcKey;
use openssl::ecdsa::EcdsaSig;
use openssl::error::ErrorStack;
use openssl::pkey::{PKey, Private, Public};

use crate::user::NewUser;

verus! {

#[verifier::external_type_specification]
#[verifier::external_body]
#[verifier::reject_recursive_types(T)]
pub struct ExEcKey<T>(EcKey<T>);

#[verifier::external_type_specification]
#[verifier::external_body]
pub struct ExPublic(Public);

#[verifier::external_type_specification]
#[verifier::external_body]
pub struct ExPrivate(Private);

#[verifier::external_type_specification]
#[verifier::external_body]
#[verifier::reject_recursive_types(T)]
pub struct ExPKey<T>(PKey<T>);

#[verifier::external_type_specification]
#[verifier::external_body]
pub struct ExEcdsaSig(EcdsaSig);

#[verifier::external_type_specification]
#[verifier::external_body]
pub struct ExErrorStack(ErrorStack);

/// Longest input that openssl's parsing and verification calls take
/// (`c_int::MAX`); they panic on longer ones.
pub const OPENSSL_MAX_INPUT: usize = 2147483647;

/// Whether `pem` decodes as a PEM SubjectPublicKeyInfo holding an EC key.
pub uninterp spec fn ec_public_key_parses(pem: Seq<u8>) -> bool;

/// Whether `der` decodes as a DER-encoded ECDSA signature.
pub uninterp spec fn ecdsa_signature_parses(der: Seq<u8>) -> bool;

/// Whether openssl's ECDSA verification (`ECDSA_do_verify`) accepts the
/// signature decoded from `der` as made over `data` by the EC key decoded
/// from `key_pem`.
pub uninterp spec fn ecdsa_signature_accepted(der: Seq<u8>, data: Seq<u8>, key_pem: Seq<u8>) -> bool;

/// An EC public key together with the PEM bytes it was decoded from. Only
/// `parse_ec_public_key` builds one.
pub struct VerifyingKey {
    key: EcKey<Public>,
    pem: Ghost<Seq<u8>>,
}

impl VerifyingKey {
    /// The PEM bytes this key was decoded from.
    pub closed spec fn pem(&self) -> Seq<u8> {
        self.pem@
    }
}

/// An ECDSA signature together with the DER bytes it was decoded from. Only
/// `ecdsa_signature_from_der` builds one.
pub struct ParsedSignature {
    sig: EcdsaSig,
    der: Ghost<Seq<u8>>,
}

impl ParsedSignature {
    /// The DER bytes this signature was decoded from.
    pub closed spec fn der(&self) -> Seq<u8> {
        self.der@
    }
}

/// Relies on openssl's `EcKey::public_key_from_pem`: it decodes a PEM
/// SubjectPublicKeyInfo holding an EC key and fails on anything else. It
/// panics on inputs longer than `c_int::MAX`.
#[verifier::external_body]
fn parse_ec_public_key(pem: &[u8]) -> (r: Result<VerifyingKey, ErrorStack>)
    requires
        pem@.len() <= OPENSSL_MAX_INPUT,
    ensures
        r is Ok <==> ec_public_key_parses(pem@),
        r is Ok ==> r->Ok_0.pem() == pem@,
{
    match EcKey::public_key_from_pem(pem) {
        Ok(key) => Ok(VerifyingKey { key, pem: Ghost(pem@) }),
        Err(e) => Err(e),
    }
}

/// Relies on openssl's `EcdsaSig::from_der`: it decodes a DER ECDSA
/// signature and fails on anything else.
#[verifier::external_body]
fn ecdsa_signature_from_der(der: &[u8]) -> (r: Result<ParsedSignature, ErrorStack>)
    ensures
        r is Ok <==> ecdsa_signature_parses(der@),
        r is Ok ==> r->Ok_0.der() == der@,
{
    match EcdsaSig::from_der(der) {
        Ok(sig) => Ok(ParsedSignature { sig, der: Ghost(der@) }),
        Err(e) => Err(e),
    }
}

/// Relies on openssl's `EcdsaSig::verify`: `Ok(true)` exactly when
/// `ECDSA_do_verify` accepts `sig` as a signature by `key` over `data`
/// (`Ok(false)` when it rejects it, `Err` when it fails). It panics on inputs
/// longer than `c_int::MAX`.
#[verifier::external_body]
fn ecdsa_verify(sig: &ParsedSignature, data: &[u8], key: &VerifyingKey) -> (r: Result<bool, ErrorStack>)
    requires
        data@.len() <= OPENSSL_MAX_INPUT,
    ensures
        (r is Ok && r->Ok_0) <==> ecdsa_signature_accepted(sig.der(), data@, key.pem()),
{
    sig.sig.verify(data, &key.key)
}

/// Whether the bundle's identity key can be parsed as an EC public key.
pub open spec fn identity_key_usable(bundle: NewUser) -> bool {
    bundle.identity_key@.len() <= OPENSSL_MAX_INPUT && ec_public_key_parses(bundle.identity_key@)
}

/// Whether the bundle's prekey signature can be decoded and checked at all:
/// necessary, not sufficient, for it to verify.
pub open spec fn signature_checkable(bundle: NewUser) -> bool {
    bundle.signed_prekey@.len() <= OPENSSL_MAX_INPUT && ecdsa_signature_parses(
        bundle.prekey_signature@,
    )
}

/// Whether the bundle's prekey signature is a valid signature by its
/// identity key over the exact bytes of its signed prekey.
pub open spec fn prekey_signature_valid(bundle: NewUser) -> bool {
    &&& identity_key_usable(bundle)
    &&& signature_checkable(bundle)
    &&& ecdsa_signature_accepted(
        bundle.prekey_signature@,
        bundle.signed_prekey@,
        bundle.identity_key@,
    )
}

/// Runs the cryptographic checks of a registration, in order: does the
/// identity key parse, and if so, is the prekey signature a valid signature
/// by that key over the exact bytes of the signed prekey. Returns
/// `(key_parsed, signature_verified)`; the signature is only examined once
/// the key has parsed.
pub fn check_bundle(bundle: &NewUser) -> (r: (bool, bool))
    ensures
        r.0 == identity_key_usable(*bundle),
        r.1 == prekey_signature_valid(*bundle),
{
    if bundle.identity_key.len() > OPENSSL_MAX_INPUT {
        return (false, false);
    }
    let key = match parse_ec_public_key(bundle.identity_key.as_bytes()) {
        Ok(key) => key,
        Err(_) => return (false, false),
    };
    let sig = match ecdsa_signature_from_der(bundle.prekey_signature.as_slice()) {
        Ok(sig) => sig,
        Err(_) => return (true, false),
    };
    if bundle.signed_prekey.len() > OPENSSL_MAX_INPUT {
        return (true, false);
    }
    let verified = match ecdsa_verify(&sig, bundle.signed_prekey.as_bytes(), &key) {
        Ok(valid) => valid,
        Err(_) => false,
    };
    (true, verified)
}

/// A public key as it travels on the wire and is stored: the encoded bytes
/// (PEM for an identity key).
#[derive(Debug, Default, Clone, PartialEq, Eq)]
pub struct PublicKey(Vec<u8>);

impl View for PublicKey {
    type V = Seq<u8>;

    closed spec fn view(&self) -> Seq<u8> {
        self.0@
    }
}

/// The encoded bytes of each key in `keys`, in order.
pub open spec fn key_bytes(keys: Seq<PublicKey>) -> Seq<Seq<u8>> {
    keys.map_values(|k: PublicKey| k@)
}

impl PublicKey {
    /// Wraps encoded key bytes.
    pub fn from_bytes(bytes: Vec<u8>) -> (r: PublicKey)
        ensures
            r@ == bytes@,
    {
        PublicKey(bytes)
    }

    /// The encoded key bytes.
    pub fn as_bytes(&self) -> (r: &[u8])
        ensures
            r@ == self@,
    {
        self.0.as_slice()
    }

    /// An identical copy of this key.
    pub fn duplicate(&self) -> (r: PublicKey)
        ensures
            r@ == self@,
    {
        let r = PublicKey(self.0.clone());
        assert(r.0@ =~= self.0@);
        r
    }

    /// This key decoded as a PEM EC public key.
    pub fn ec_key(&self) -> (r: Result<EcKey<Public>, ErrorStack>)
        requires
            self@.len() <= OPENSSL_MAX_INPUT,
        ensures
            r is Ok <==> ec_public_key_parses(self@),
    {
        match parse_ec_public_key(self.0.as_slice()) {
            Ok(parsed) => Ok(parsed.key),
            Err(e) => Err(e),
        }
    }

    /// Number of encoded bytes.
    pub fn len(&self) -> (r: usize)
        ensures
            r == self@.len(),
    {
        self.0.len()
    }
}

/// Relies on openssl's `PKey::generate_ed25519`: a fresh random Ed25519 key.
#[verifier::external_body]
fn generate_ed25519() -> (r: Result<PKey<Private>, ErrorStack>) {
    PKey::generate_ed25519()
}

/// Relies on openssl's `PKey::ec_key`: the elliptic-curve key inside `key`,
/// an error when `key` holds another kind of key.
#[verifier::external_body]
fn pkey_ec_key(key: &PKey<Private>) -> (r: Result<EcKey<Private>, ErrorStack>) {
    key.ec_key()
}

/// Relies on openssl's `EcKey::private_key_to_pem`: the private key as a PEM
/// ECPrivateKey.
#[verifier::external_body]
fn ec_private_key_to_pem(key: &EcKey<Private>) -> (r: Result<Vec<u8>, ErrorStack>) {
    key.private_key_to_pem()
}

/// Relies on openssl's `EcKey::public_key_to_pem`: the public half as a PEM
/// SubjectPublicKeyInfo holding an EC key, the form `public_key_from_pem`
/// decodes.
#[verifier::external_body]
fn ec_public_key_to_pem(key: &EcKey<Private>) -> (r: Result<Vec<u8>, ErrorStack>)
    ensures
        r is Ok ==> ec_public_key_parses(r->Ok_0@),
{
    key.public_key_to_pem()
}

/// A private key, PEM-encoded.
#[derive(Debug, Clone)]
pub struct PrivateKey {
    data: Vec<u8>,
}

impl View for PrivateKey {
    type V = Seq<u8>;

    closed spec fn view(&self) -> Seq<u8> {
        self.data@
    }
}

impl PrivateKey {
    /// Wraps PEM-encoded private key bytes.
    pub fn from_pem(data: Vec<u8>) -> (r: PrivateKey)
        ensures
            r@ == data@,
    {
        PrivateKey { data }
    }

    /// The PEM-encoded key bytes.
    pub fn as_bytes(&self) -> (r: &[u8])
        ensures
            r@ == self@,
    {
        self.data.as_slice()
    }

    /// Generates a key pair: a fresh Ed25519 key, taken as an elliptic-curve
    /// key and exported as PEM (private half, public half). Any openssl
    /// failure along the way is returned as is. The key material depends on
    /// chance; of a pair that is returned, the public half decodes as an EC
    /// public key.
    pub fn generate() -> (r: Result<(PrivateKey, PublicKey), ErrorStack>)
        ensures
            r is Ok ==> ec_public_key_parses(r->Ok_0.1@),
    {
        let pkey = generate_ed25519()?;
        let ec_key = pkey_ec_key(&pkey)?;
        let private = PrivateKey { data: ec_private_key_to_pem(&ec_key)? };
        let public = PublicKey(ec_public_key_to_pem(&ec_key)?);
        Ok((private, public))
    }
}

} // verus!
