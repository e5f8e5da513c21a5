//! Signatures over the curve secp256k1: signing, checking, and finding the
//! key that signed.

use vstd::prelude::*;
use crate::key::{Pk, Sk};

verus! {

/// The signature, 64 bytes in compact form, that the secret key `sk` gives
/// the digest `hmsg`, with the nonce that RFC 6979 derives from the two;
/// nothing for 32 bytes that are no secret key. It is a function of the two
/// alone, computed by the `secp256k1` crate and not defined here.
pub uninterp spec fn ecdsa_signed(sk: Seq<u8>, hmsg: Seq<u8>) -> Option<Seq<u8>>;

/// Whether `sig`, 64 bytes in compact form, is a signature of the public
/// key `pk` over the digest `hmsg`; nothing where `pk` is no public key or
/// `sig` no signature. Computed by the `secp256k1` crate and not defined here.
pub uninterp spec fn ecdsa_verified(pk: Seq<u8>, hmsg: Seq<u8>, sig: Seq<u8>) -> Option<bool>;

/// The signature of `ecdsa_signed` together with the number that tells
/// which of the keys that fit it is the signer's. Computed by the
/// `secp256k1` crate and not defined here.
pub uninterp spec fn ecdsa_signed_recoverable(sk: Seq<u8>, hmsg: Seq<u8>) -> Option<
    (i32, Seq<u8>),
>;

/// The public key, 33 bytes in short form, whose signature over the digest
/// `hmsg` is `sig` with the number `rec_id`; nothing where the number is not
/// one of 0 to 3, `sig` is no signature, or no key fits. Computed by the
/// `secp256k1` crate and not defined here.
pub uninterp spec fn ecdsa_recovered(rec_id: i32, sig: Seq<u8>, hmsg: Seq<u8>) -> Option<Seq<u8>>;

/// The public key, 33 bytes in short form, of the secret key `sk`; nothing
/// for 32 bytes that are no secret key. Computed by the `secp256k1` crate
/// and not defined here.
pub uninterp spec fn public_key_of(sk: Seq<u8>) -> Option<Seq<u8>>;

/// Calls `SecretKey::from_secret_bytes`, `ecdsa::sign` on the digest and
/// the key, and `Signature::serialize_compact`.
#[verifier::external_body]
fn ecdsa_sign(sk: &[u8], hmsg: &[u8; 32]) -> (r: Option<[u8; 64]>)
    requires
        sk@.len() == 32,
    ensures
        r.is_some() == ecdsa_signed(sk@, hmsg@).is_some(),
        r.is_some() ==> r.unwrap()@ == ecdsa_signed(sk@, hmsg@).unwrap(),
{
    let mut bytes = [0u8; 32];
    bytes.copy_from_slice(sk);
    match ::secp256k1::SecretKey::from_secret_bytes(bytes) {
        Ok(key) => Some(
            ::secp256k1::ecdsa::sign(::secp256k1::Message::from_digest(*hmsg), &key)
                .serialize_compact(),
        ),
        Err(_) => None,
    }
}

/// Calls `PublicKey::from_slice`, `Signature::from_compact` and
/// `ecdsa::verify`.
#[verifier::external_body]
fn ecdsa_verify(pk: &[u8], hmsg: &[u8; 32], sig: &[u8; 64]) -> (r: Option<bool>)
    ensures
        r == ecdsa_verified(pk@, hmsg@, sig@),
{
    let key = ::secp256k1::PublicKey::from_slice(pk);
    let signature = ::secp256k1::ecdsa::Signature::from_compact(sig);
    match (key, signature) {
        (Ok(k), Ok(s)) => Some(
            ::secp256k1::ecdsa::verify(&s, ::secp256k1::Message::from_digest(*hmsg), &k).is_ok(),
        ),
        _ => None,
    }
}

/// Calls `SecretKey::from_secret_bytes`,
/// `RecoverableSignature::sign_ecdsa_recoverable` and
/// `RecoverableSignature::serialize_compact`.
#[verifier::external_body]
fn ecdsa_sign_recoverable(sk: &[u8], hmsg: &[u8; 32]) -> (r: Option<(i32, [u8; 64])>)
    requires
        sk@.len() == 32,
    ensures
        r.is_some() == ecdsa_signed_recoverable(sk@, hmsg@).is_some(),
        r.is_some() ==> r.unwrap().0 == ecdsa_signed_recoverable(sk@, hmsg@).unwrap().0
            && r.unwrap().1@ == ecdsa_signed_recoverable(sk@, hmsg@).unwrap().1,
{
    let mut bytes = [0u8; 32];
    bytes.copy_from_slice(sk);
    match ::secp256k1::SecretKey::from_secret_bytes(bytes) {
        Ok(key) => {
            let (id, sig) = ::secp256k1::ecdsa::RecoverableSignature::sign_ecdsa_recoverable(
                ::secp256k1::Message::from_digest(*hmsg),
                &key,
            ).serialize_compact();
            Some((id.to_u8() as i32, sig))
        },
        Err(_) => None,
    }
}

/// Calls `RecoveryId::try_from`, `RecoverableSignature::from_compact`,
/// `RecoverableSignature::recover_ecdsa` and `PublicKey::serialize`.
#[verifier::external_body]
fn ecdsa_recover(rec_id: i32, sig: &[u8; 64], hmsg: &[u8; 32]) -> (r: Option<[u8; 33]>)
    ensures
        r.is_some() == ecdsa_recovered(rec_id, sig@, hmsg@).is_some(),
        r.is_some() ==> r.unwrap()@ == ecdsa_recovered(rec_id, sig@, hmsg@).unwrap(),
{
    let id = ::secp256k1::ecdsa::RecoveryId::try_from(rec_id).ok()?;
    let signature = ::secp256k1::ecdsa::RecoverableSignature::from_compact(sig, id).ok()?;
    let key = signature.recover_ecdsa(::secp256k1::Message::from_digest(*hmsg)).ok()?;
    Some(key.serialize())
}

/// Calls `SecretKey::from_secret_bytes`, `PublicKey::from_secret_key` and
/// `PublicKey::serialize`.
#[verifier::external_body]
fn derive_public_key(sk: &[u8]) -> (r: Option<[u8; 33]>)
    requires
        sk@.len() == 32,
    ensures
        r.is_some() == public_key_of(sk@).is_some(),
        r.is_some() ==> r.unwrap()@ == public_key_of(sk@).unwrap(),
{
    let mut bytes = [0u8; 32];
    bytes.copy_from_slice(sk);
    match ::secp256k1::SecretKey::from_secret_bytes(bytes) {
        Ok(key) => Some(::secp256k1::PublicKey::from_secret_key(&key).serialize()),
        Err(_) => None,
    }
}

/// The signature of `sk` over the digest `hmsg`; nothing where `sk` is no
/// secret key.
pub fn sign(sk: &Sk, hmsg: &[u8; 32]) -> (r: Option<[u8; 64]>)
    ensures
        r.is_some() == ecdsa_signed(sk@, hmsg@).is_some(),
        r.is_some() ==> r.unwrap()@ == ecdsa_signed(sk@, hmsg@).unwrap(),
{
    ecdsa_sign(sk.as_ref(), hmsg)
}

/// Whether `sig` is a signature of `pk` over the digest `hmsg`; nothing
/// where `pk` is no public key or `sig` no signature.
pub fn verify(pk: &Pk, hmsg: &[u8; 32], sig: &[u8; 64]) -> (r: Option<bool>)
    ensures
        r == ecdsa_verified(pk@, hmsg@, sig@),
{
    ecdsa_verify(pk.as_ref(), hmsg, sig)
}

/// The signature of `sk` over the digest `hmsg`, with the number by which
/// the signer's key is found again; nothing where `sk` is no secret key.
pub fn sign_recoverable(sk: &Sk, hmsg: &[u8; 32]) -> (r: Option<(i32, [u8; 64])>)
    ensures
        r.is_some() == ecdsa_signed_recoverable(sk@, hmsg@).is_some(),
        r.is_some() ==> r.unwrap().0 == ecdsa_signed_recoverable(sk@, hmsg@).unwrap().0
            && r.unwrap().1@ == ecdsa_signed_recoverable(sk@, hmsg@).unwrap().1,
{
    ecdsa_sign_recoverable(sk.as_ref(), hmsg)
}

/// The public key that signed the digest `hmsg` with `comp_sig` and the
/// number `rec_id`; nothing where none is found.
pub fn recover_from_sig(rec_id: i32, comp_sig: [u8; 64], hmsg: &[u8; 32]) -> (r: Option<Pk>)
    ensures
        r.is_some() == ecdsa_recovered(rec_id, comp_sig@, hmsg@).is_some(),
        r.is_some() ==> r.unwrap()@ == ecdsa_recovered(rec_id, comp_sig@, hmsg@).unwrap(),
{
    match ecdsa_recover(rec_id, &comp_sig, hmsg) {
        Some(bytes) => Some(Pk::from(bytes)),
        None => None,
    }
}

/// The public key that signed the digest `hmsg` with the signature whose
/// halves are `r` and `s`, and the number `v`; nothing where none is found.
pub fn recover_from_vrs(hmsg: &[u8; 32], v: i32, r: [u8; 32], s: [u8; 32]) -> (key: Option<Pk>)
    ensures
        key.is_some() == ecdsa_recovered(v, r@ + s@, hmsg@).is_some(),
        key.is_some() ==> key.unwrap()@ == ecdsa_recovered(v, r@ + s@, hmsg@).unwrap(),
{
    let mut compact_signature = [0u8;64];
    let mut idx: usize = 0;
    while idx < 32
        invariant
            idx <= 32,
            forall|j: int| 0 <= j < idx ==> compact_signature@[j] == r@[j],
            forall|j: int| 0 <= j < idx ==> compact_signature@[32 + j] == s@[j],
        decreases 32 - idx,
    {
        compact_signature[idx] = r[idx];
        compact_signature[32 + idx] = s[idx];
        idx += 1;
    }
    assert(compact_signature@ =~= r@ + s@);
    recover_from_sig(v, compact_signature, hmsg)
}

impl Sk {
    /// The public key of the secret key; nothing where the bytes are no
    /// secret key.
    pub fn pubkey(&self) -> (r: Option<Pk>)
        ensures
            r.is_some() == public_key_of(self@).is_some(),
            r.is_some() ==> r.unwrap()@ == public_key_of(self@).unwrap(),
    {
        match derive_public_key(self.as_ref()) {
            Some(bytes) => Some(Pk::from(bytes)),
            None => None,
        }
    }
}

impl Pk {
    /// The public key of `sk`; nothing where its bytes are no secret key.
    pub fn from_sk(sk: Sk) -> (r: Option<Pk>)
        ensures
            r.is_some() == public_key_of(sk@).is_some(),
            r.is_some() ==> r.unwrap()@ == public_key_of(sk@).unwrap(),
    {
        sk.pubkey()
    }
}

} // verus!
