//! Key material of an ephemeral peer exchange.
//!
//! Keys are 32-byte Curve25519 values. The only computation on them is the
//! derivation of the public half of the ephemeral key, which is left to
//! `x25519-dalek`.

use vstd::prelude::*;

verus! {

/// A 32-byte public, private or pre-shared key.
pub type KeyBytes = [u8; 32];

/// What `x25519_dalek::x25519` returns for a scalar and a u-coordinate, both
/// given as their 32 bytes.
pub uninterp spec fn x25519(scalar: Seq<u8>, point: Seq<u8>) -> Seq<u8>;

/// The u-coordinate of the Curve25519 base point: nine, little endian.
pub open spec fn basepoint() -> Seq<u8> {
    Seq::new(32, |i: int| if i == 0 { 9u8 } else { 0u8 })
}

/// The public key that belongs to a private key.
pub open spec fn public_key_of(private_key: Seq<u8>) -> Seq<u8> {
    x25519(private_key, basepoint())
}

/// Calls `x25519_dalek::x25519`, the byte-oriented X25519 function. It
/// multiplies the point by the clamped scalar and neither fails nor panics;
/// nothing but the two arguments enters the result, which is all that the
/// contract claims.
#[verifier::external_body]
fn scalar_mult(scalar: &KeyBytes, point: &KeyBytes) -> (product: KeyBytes)
    ensures
        product@ == x25519(scalar@, point@),
{
    x25519_dalek::x25519(*scalar, *point)
}

/// Derives the public key of `private_key`.
pub fn derive_public_key(private_key: &KeyBytes) -> (public_key: KeyBytes)
    ensures
        public_key@ == public_key_of(private_key@),
{
    let mut point: KeyBytes = [0u8; 32];
    point[0] = 9;
    assert(point@ =~= basepoint());
    scalar_mult(private_key, &point)
}

} // verus!
