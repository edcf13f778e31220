//! The curve and MAC primitives, as operations on plain bytes.
use vstd::prelude::*;

use ring::hmac;
use secp256k1::{PublicKey, Scalar, Secp256k1, SecretKey};

verus! {

/// The error type of the secp256k1 library, carried through unchanged.
#[verifier::external_type_specification]
#[verifier::external_body]
pub struct ExSecp256k1Error(secp256k1::Error);

/// The unsigned integer that `s` encodes, most significant byte first.
pub open spec fn be_int(s: Seq<u8>) -> nat
    decreases s.len(),
{
    if s.len() == 0 {
        0
    } else {
        be_int(s.drop_last()) * 256 + s.last() as nat
    }
}

/// The `n` bytes that encode `v` modulo 256^n, most significant byte first.
pub open spec fn be_bytes(v: nat, n: nat) -> Seq<u8>
    decreases n,
{
    if n == 0 {
        Seq::empty()
    } else {
        be_bytes(v / 256, (n - 1) as nat).push((v % 256) as u8)
    }
}

/// The order of the secp256k1 group.
pub open spec fn curve_order() -> nat {
    0xFFFF_FFFF_FFFF_FFFF_FFFF_FFFF_FFFF_FFFE * (0x1_0000_0000_0000_0000 * 0x1_0000_0000_0000_0000)
        + 0xBAAE_DCE6_AF48_A03B_BFD2_5E8C_D036_4141
}

/// A secret key: 32 bytes encoding an integer in [1, n - 1].
pub open spec fn is_valid_secret(s: Seq<u8>) -> bool {
    s.len() == 32 && 0 < be_int(s) && be_int(s) < curve_order()
}

/// HMAC-SHA512 of `msg` under `key`.
pub uninterp spec fn hmac_sha512_of(key: Seq<u8>, msg: Seq<u8>) -> Seq<u8>;

/// The compressed encoding of the public point of the secret key `secret`.
pub uninterp spec fn public_key_of(secret: Seq<u8>) -> Seq<u8>;

/// The prime of the field that secp256k1's coordinates lie in.
pub open spec fn field_prime() -> nat {
    0xFFFF_FFFF_FFFF_FFFF_FFFF_FFFF_FFFF_FFFF * (0x1_0000_0000_0000_0000 * 0x1_0000_0000_0000_0000)
        + 0xFFFF_FFFF_FFFF_FFFF_FFFF_FFFE_FFFF_FC2F
}

/// Whether (x, y) satisfies y^2 = x^3 + 7 over the field.
pub open spec fn on_curve(x: nat, y: nat) -> bool {
    (y * y) % field_prime() == (x * x * x + 7) % field_prime()
}

/// Whether the curve library parses `bytes` as a public key: a compressed point
/// (tag 2 or 3, then x), or an uncompressed (tag 4) or hybrid (tag 6 or 7, which
/// gives the parity of y) one, with coordinates below the field prime.
pub open spec fn public_key_accepts(bytes: Seq<u8>) -> bool {
    if bytes.len() == 33 && (bytes[0] == 2 || bytes[0] == 3) {
        let x = be_int(bytes.subrange(1, 33));
        x < field_prime() && exists|y: nat| y < field_prime() && #[trigger] on_curve(x, y)
    } else if bytes.len() == 65 && (bytes[0] == 4 || bytes[0] == 6 || bytes[0] == 7) {
        let x = be_int(bytes.subrange(1, 33));
        let y = be_int(bytes.subrange(33, 65));
        &&& x < field_prime()
        &&& y < field_prime()
        &&& bytes[0] == 6 ==> y % 2 == 0
        &&& bytes[0] == 7 ==> y % 2 == 1
        &&& on_curve(x, y)
    } else {
        false
    }
}

/// The compressed encoding of `point + tweak * G`, if that is a valid point.
pub uninterp spec fn tweaked_public_key(point: Seq<u8>, tweak: Seq<u8>) -> Option<Seq<u8>>;

/// Relies on ring::hmac::sign with HMAC_SHA512: a 64-byte tag that depends on
/// the key and the message alone.
#[verifier::external_body]
pub(crate) fn hmac_sha512(key: &[u8], msg: &[u8]) -> (r: Vec<u8>)
    ensures
        r@ == hmac_sha512_of(key@, msg@),
        r@.len() == 64,
{
    let signing_key = hmac::Key::new(hmac::HMAC_SHA512, key);
    hmac::sign(&signing_key, msg).as_ref().to_vec()
}

/// Relies on secp256k1::SecretKey::from_slice: it accepts exactly 32 bytes whose
/// big-endian value is non-zero and below the curve order.
#[verifier::external_body]
pub(crate) fn check_secret_key(bytes: &[u8]) -> (r: Result<(), secp256k1::Error>)
    ensures
        r is Ok <==> is_valid_secret(bytes@),
{
    SecretKey::from_slice(bytes).map(|_| ())
}

/// Relies on secp256k1::PublicKey::from_secret_key and PublicKey::serialize:
/// the 33-byte compressed encoding of `secret * G`, which the library parses back.
#[verifier::external_body]
pub(crate) fn public_key_from_secret(secret: &[u8]) -> (r: Vec<u8>)
    requires
        is_valid_secret(secret@),
    ensures
        r@ == public_key_of(secret@),
        r@.len() == 33,
        public_key_accepts(r@),
{
    let secret_key = SecretKey::from_slice(secret).expect("a valid secret key");
    PublicKey::from_secret_key(&Secp256k1::signing_only(), &secret_key).serialize().to_vec()
}

/// Relies on secp256k1::SecretKey::add_tweak: the sum modulo the curve order, in
/// big-endian bytes, or an error where the sum is zero.
#[verifier::external_body]
pub(crate) fn add_secret_tweak(secret: &[u8], tweak: &[u8]) -> (r: Result<Vec<u8>, secp256k1::Error>)
    requires
        is_valid_secret(secret@),
        is_valid_secret(tweak@),
    ensures
        r is Ok <==> (be_int(secret@) + be_int(tweak@)) % curve_order() != 0,
        r matches Ok(s) ==> s@ == be_bytes((be_int(secret@) + be_int(tweak@)) % curve_order(), 32)
            && is_valid_secret(s@),
{
    let secret_key = SecretKey::from_slice(secret).expect("a valid secret key");
    let tweak = Scalar::from(SecretKey::from_slice(tweak).expect("a valid secret key"));
    secret_key.add_tweak(&tweak).map(|k| k.secret_bytes().to_vec())
}

/// Relies on secp256k1::PublicKey::from_slice: whether the bytes parse as a point.
#[verifier::external_body]
pub(crate) fn check_public_key(bytes: &[u8]) -> (r: Result<(), secp256k1::Error>)
    ensures
        r is Ok <==> public_key_accepts(bytes@),
{
    PublicKey::from_slice(bytes).map(|_| ())
}

/// Relies on secp256k1::PublicKey::add_exp_tweak: `point + tweak * G`, which fails
/// only where the tweak is the negation of the point's secret key. On the point of a
/// secret key `s` it gives the point of `s + tweak` modulo the curve order.
#[verifier::external_body]
pub(crate) fn add_public_tweak(point: &[u8], tweak: &[u8]) -> (r: Result<Vec<u8>, secp256k1::Error>)
    requires
        public_key_accepts(point@),
        is_valid_secret(tweak@),
    ensures
        r matches Ok(q) ==> tweaked_public_key(point@, tweak@) == Some(q@) && q@.len() == 33
            && public_key_accepts(q@),
        r is Err ==> tweaked_public_key(point@, tweak@) is None,
        forall|s: Seq<u8>|
            is_valid_secret(s) && point@ == #[trigger] public_key_of(s) ==> (r is Ok <==> (be_int(s)
                + be_int(tweak@)) % curve_order() != 0) && (r matches Ok(q) ==> q@ == public_key_of(
                be_bytes((be_int(s) + be_int(tweak@)) % curve_order(), 32),
            )),
{
    let public_key = PublicKey::from_slice(point).expect("a valid public key");
    let tweak = Scalar::from(SecretKey::from_slice(tweak).expect("a valid secret key"));
    public_key.add_exp_tweak(&Secp256k1::verification_only(), &tweak).map(|k| k.serialize().to_vec())
}

} // verus!
