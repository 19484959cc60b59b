//! Elliptic-curve keys on the three supported curves.
//!
//! A secret key is kept as its scalar, which is known to be a key of its curve
//! from the moment it is made. The curve arithmetic and the SEC1 and PKCS#8
//! encodings are those of the `p224`, `p256` and `p384` crates.
use pkcs8::EncodePrivateKey;
use vstd::pervasive::unreached;
use vstd::prelude::*;
use crate::keys::outside::oid_of_any;
use crate::keys::outside::private_key_info;
use crate::keys::outside::reads_as_pkcs8;
use crate::keys::types::opt_bytes;
use crate::keys::types::EcView;
use crate::keys::types::EC_OID;
use crate::keys::types::ID_SECP224R1_OID;
use crate::keys::types::ID_SECP256R1_OID;
use crate::keys::types::ID_SECP384R1_OID;
use crate::keys::types::NamedCurve;
use crate::text::bytes_clone;

verus! {

/// The scalar that `p224::SecretKey::from_sec1_der` reads from a SEC1 structure.
pub uninterp spec fn p224_secret_key(sec1: Seq<u8>) -> Option<Seq<u8>>;

/// The point that belongs to a scalar, where the scalar is a key of the curve:
/// the uncompressed encoding of `p224::SecretKey::public_key`.
pub uninterp spec fn p224_public_key(scalar: Seq<u8>) -> Option<Seq<u8>>;

/// What `p224::SecretKey::to_sec1_der` writes for a scalar.
pub uninterp spec fn p224_sec1(scalar: Seq<u8>) -> Option<Seq<u8>>;

/// What `to_pkcs8_der` of `p224::SecretKey` writes for a scalar.
pub uninterp spec fn p224_pkcs8(scalar: Seq<u8>) -> Option<Seq<u8>>;

/// The uncompressed encoding of the point that
/// `p224::PublicKey::from_sec1_bytes` reads.
pub uninterp spec fn p224_point(sec1: Seq<u8>) -> Option<Seq<u8>>;

/// Calls `p224::SecretKey::from_sec1_der`: the scalar of the key, in
/// 28 bytes, or nothing where it fails. A scalar that comes out has a
/// public key.
#[verifier::external_body]
fn read_p224_secret_key(sec1: &[u8]) -> (r: Option<Vec<u8>>)
    ensures
        opt_bytes(r) == p224_secret_key(sec1@),
        r matches Some(scalar) ==> scalar@.len() == 28 && p224_public_key(scalar@) is Some,
{
    let key = p224::SecretKey::from_sec1_der(sec1).ok()?;
    Some(key.to_bytes().to_vec())
}

/// Calls `p224::SecretKey::public_key` on the key with this scalar: the point in
/// its uncompressed encoding, which reads back as itself; nothing where the
/// scalar is no key of the curve.
#[verifier::external_body]
fn derive_p224_public_key(scalar: &[u8]) -> (r: Option<Vec<u8>>)
    ensures
        opt_bytes(r) == p224_public_key(scalar@),
        r matches Some(point) ==> p224_point(point@) == Some(point@),
{
    let key = p224::SecretKey::from_slice(scalar).ok()?;
    Some(key.public_key().to_sec1_bytes().into_vec())
}

/// Calls `p224::SecretKey::to_sec1_der` on the key with this scalar. What it
/// writes for a scalar of full length reads back as that scalar.
#[verifier::external_body]
fn write_p224_sec1(scalar: &[u8]) -> (r: Option<Vec<u8>>)
    ensures
        opt_bytes(r) == p224_sec1(scalar@),
        scalar@.len() == 28 ==> (r matches Some(der) ==> p224_secret_key(der@) == Some(scalar@)),
{
    let key = p224::SecretKey::from_slice(scalar).ok()?;
    Some(key.to_sec1_der().ok()?.to_vec())
}

/// Calls `to_pkcs8_der` of `p224::SecretKey` on the key with this scalar: a
/// PKCS#8 structure for an elliptic-curve key on this curve, whose SEC1
/// content reads back as the scalar where that has full length.
#[verifier::external_body]
fn write_p224_pkcs8(scalar: &[u8]) -> (r: Option<Vec<u8>>)
    ensures
        opt_bytes(r) == p224_pkcs8(scalar@),
        scalar@.len() == 28 ==> (r matches Some(der) ==> {
            &&& private_key_info(der@) matches Some(info)
            &&& reads_as_pkcs8(der@, info)
            &&& info.algorithm.oid == EC_OID@
            &&& info.algorithm.parameters matches Some(any)
            &&& oid_of_any(any) == Some(ID_SECP224R1_OID@)
            &&& p224_secret_key(info.private_key) == Some(scalar@)
        }),
{
    let key = p224::SecretKey::from_slice(scalar).ok()?;
    Some(key.to_pkcs8_der().ok()?.as_bytes().to_vec())
}

/// Calls `p224::PublicKey::from_sec1_bytes`: the uncompressed encoding of the
/// point, which reads back as itself, or nothing where it fails.
#[verifier::external_body]
pub(crate) fn read_p224_point(sec1: &[u8]) -> (r: Option<Vec<u8>>)
    ensures
        opt_bytes(r) == p224_point(sec1@),
        r matches Some(point) ==> p224_point(point@) == Some(point@),
{
    let key = p224::PublicKey::from_sec1_bytes(sec1).ok()?;
    Some(key.to_sec1_bytes().into_vec())
}

/// Calls `p224::SecretKey::random` with the thread's random number generator:
/// the 28 bytes of a scalar that has a public key. Which one is left to chance.
#[verifier::external_body]
fn random_p224_scalar() -> (r: Vec<u8>)
    ensures
        r@.len() == 28,
        p224_public_key(r@) is Some,
{
    p224::SecretKey::random(&mut rand::thread_rng()).to_bytes().to_vec()
}

/// A secret key on the curve P224.
pub struct P224SecretKey {
    scalar: Vec<u8>,
}

impl View for P224SecretKey {
    type V = Seq<u8>;

    closed spec fn view(&self) -> Seq<u8> {
        self.scalar@
    }
}

impl P224SecretKey {
    /// The scalar has full length and a public key.
    #[verifier::type_invariant]
    spec fn valid(&self) -> bool {
        self.scalar@.len() == 28 && p224_public_key(self.scalar@) is Some
    }

    /// Reads a key from a SEC1 structure.
    pub fn from_sec1_der(sec1: &[u8]) -> (r: Option<P224SecretKey>)
        ensures
            r is Some <==> p224_secret_key(sec1@) is Some,
            r matches Some(key) ==> p224_secret_key(sec1@) == Some(key@),
    {
        match read_p224_secret_key(sec1) {
            Some(scalar) => Some(P224SecretKey { scalar }),
            None => None,
        }
    }

    /// Makes a key by chance.
    pub fn random() -> (r: P224SecretKey)
        ensures
            r@.len() == 28,
            p224_public_key(r@) is Some,
    {
        P224SecretKey { scalar: random_p224_scalar() }
    }

    /// The encoded point of the public key that belongs to this key.
    pub fn public_key(&self) -> (r: Vec<u8>)
        ensures
            p224_public_key(self@) == Some(r@),
            p224_point(r@) == Some(r@),
    {
        proof {
            use_type_invariant(self);
        }
        match derive_p224_public_key(self.scalar.as_slice()) {
            Some(point) => point,
            None => unreached(),
        }
    }

    /// The key as a SEC1 structure, which reads back as this key.
    pub fn to_sec1_der(&self) -> (r: Option<Vec<u8>>)
        ensures
            opt_bytes(r) == p224_sec1(self@),
            r matches Some(der) ==> p224_secret_key(der@) == Some(self@),
    {
        proof {
            use_type_invariant(self);
        }
        write_p224_sec1(self.scalar.as_slice())
    }

    /// The key as a PKCS#8 structure, whose content reads back as this key.
    pub fn to_pkcs8_der(&self) -> (r: Option<Vec<u8>>)
        ensures
            opt_bytes(r) == p224_pkcs8(self@),
            r matches Some(der) ==> {
                &&& private_key_info(der@) matches Some(info)
                &&& reads_as_pkcs8(der@, info)
                &&& info.algorithm.oid == EC_OID@
                &&& info.algorithm.parameters matches Some(any)
                &&& oid_of_any(any) == Some(ID_SECP224R1_OID@)
                &&& p224_secret_key(info.private_key) == Some(self@)
            },
    {
        proof {
            use_type_invariant(self);
        }
        write_p224_pkcs8(self.scalar.as_slice())
    }
}

impl Clone for P224SecretKey {
    fn clone(&self) -> (r: Self)
        ensures
            r@ == self@,
    {
        proof {
            use_type_invariant(self);
        }
        P224SecretKey { scalar: bytes_clone(&self.scalar) }
    }
}

/// The scalar that `p256::SecretKey::from_sec1_der` reads from a SEC1 structure.
pub uninterp spec fn p256_secret_key(sec1: Seq<u8>) -> Option<Seq<u8>>;

/// The point that belongs to a scalar, where the scalar is a key of the curve:
/// the uncompressed encoding of `p256::SecretKey::public_key`.
pub uninterp spec fn p256_public_key(scalar: Seq<u8>) -> Option<Seq<u8>>;

/// What `p256::SecretKey::to_sec1_der` writes for a scalar.
pub uninterp spec fn p256_sec1(scalar: Seq<u8>) -> Option<Seq<u8>>;

/// What `to_pkcs8_der` of `p256::SecretKey` writes for a scalar.
pub uninterp spec fn p256_pkcs8(scalar: Seq<u8>) -> Option<Seq<u8>>;

/// The uncompressed encoding of the point that
/// `p256::PublicKey::from_sec1_bytes` reads.
pub uninterp spec fn p256_point(sec1: Seq<u8>) -> Option<Seq<u8>>;

/// Calls `p256::SecretKey::from_sec1_der`: the scalar of the key, in
/// 32 bytes, or nothing where it fails. A scalar that comes out has a
/// public key.
#[verifier::external_body]
fn read_p256_secret_key(sec1: &[u8]) -> (r: Option<Vec<u8>>)
    ensures
        opt_bytes(r) == p256_secret_key(sec1@),
        r matches Some(scalar) ==> scalar@.len() == 32 && p256_public_key(scalar@) is Some,
{
    let key = p256::SecretKey::from_sec1_der(sec1).ok()?;
    Some(key.to_bytes().to_vec())
}

/// Calls `p256::SecretKey::public_key` on the key with this scalar: the point in
/// its uncompressed encoding, which reads back as itself; nothing where the
/// scalar is no key of the curve.
#[verifier::external_body]
fn derive_p256_public_key(scalar: &[u8]) -> (r: Option<Vec<u8>>)
    ensures
        opt_bytes(r) == p256_public_key(scalar@),
        r matches Some(point) ==> p256_point(point@) == Some(point@),
{
    let key = p256::SecretKey::from_slice(scalar).ok()?;
    Some(key.public_key().to_sec1_bytes().into_vec())
}

/// Calls `p256::SecretKey::to_sec1_der` on the key with this scalar. What it
/// writes for a scalar of full length reads back as that scalar.
#[verifier::external_body]
fn write_p256_sec1(scalar: &[u8]) -> (r: Option<Vec<u8>>)
    ensures
        opt_bytes(r) == p256_sec1(scalar@),
        scalar@.len() == 32 ==> (r matches Some(der) ==> p256_secret_key(der@) == Some(scalar@)),
{
    let key = p256::SecretKey::from_slice(scalar).ok()?;
    Some(key.to_sec1_der().ok()?.to_vec())
}

/// Calls `to_pkcs8_der` of `p256::SecretKey` on the key with this scalar: a
/// PKCS#8 structure for an elliptic-curve key on this curve, whose SEC1
/// content reads back as the scalar where that has full length.
#[verifier::external_body]
fn write_p256_pkcs8(scalar: &[u8]) -> (r: Option<Vec<u8>>)
    ensures
        opt_bytes(r) == p256_pkcs8(scalar@),
        scalar@.len() == 32 ==> (r matches Some(der) ==> {
            &&& private_key_info(der@) matches Some(info)
            &&& reads_as_pkcs8(der@, info)
            &&& info.algorithm.oid == EC_OID@
            &&& info.algorithm.parameters matches Some(any)
            &&& oid_of_any(any) == Some(ID_SECP256R1_OID@)
            &&& p256_secret_key(info.private_key) == Some(scalar@)
        }),
{
    let key = p256::SecretKey::from_slice(scalar).ok()?;
    Some(key.to_pkcs8_der().ok()?.as_bytes().to_vec())
}

/// Calls `p256::PublicKey::from_sec1_bytes`: the uncompressed encoding of the
/// point, which reads back as itself, or nothing where it fails.
#[verifier::external_body]
pub(crate) fn read_p256_point(sec1: &[u8]) -> (r: Option<Vec<u8>>)
    ensures
        opt_bytes(r) == p256_point(sec1@),
        r matches Some(point) ==> p256_point(point@) == Some(point@),
{
    let key = p256::PublicKey::from_sec1_bytes(sec1).ok()?;
    Some(key.to_sec1_bytes().into_vec())
}

/// Calls `p256::SecretKey::random` with the thread's random number generator:
/// the 32 bytes of a scalar that has a public key. Which one is left to chance.
#[verifier::external_body]
fn random_p256_scalar() -> (r: Vec<u8>)
    ensures
        r@.len() == 32,
        p256_public_key(r@) is Some,
{
    p256::SecretKey::random(&mut rand::thread_rng()).to_bytes().to_vec()
}

/// A secret key on the curve P256.
pub struct P256SecretKey {
    scalar: Vec<u8>,
}

impl View for P256SecretKey {
    type V = Seq<u8>;

    closed spec fn view(&self) -> Seq<u8> {
        self.scalar@
    }
}

impl P256SecretKey {
    /// The scalar has full length and a public key.
    #[verifier::type_invariant]
    spec fn valid(&self) -> bool {
        self.scalar@.len() == 32 && p256_public_key(self.scalar@) is Some
    }

    /// Reads a key from a SEC1 structure.
    pub fn from_sec1_der(sec1: &[u8]) -> (r: Option<P256SecretKey>)
        ensures
            r is Some <==> p256_secret_key(sec1@) is Some,
            r matches Some(key) ==> p256_secret_key(sec1@) == Some(key@),
    {
        match read_p256_secret_key(sec1) {
            Some(scalar) => Some(P256SecretKey { scalar }),
            None => None,
        }
    }

    /// Makes a key by chance.
    pub fn random() -> (r: P256SecretKey)
        ensures
            r@.len() == 32,
            p256_public_key(r@) is Some,
    {
        P256SecretKey { scalar: random_p256_scalar() }
    }

    /// The encoded point of the public key that belongs to this key.
    pub fn public_key(&self) -> (r: Vec<u8>)
        ensures
            p256_public_key(self@) == Some(r@),
            p256_point(r@) == Some(r@),
    {
        proof {
            use_type_invariant(self);
        }
        match derive_p256_public_key(self.scalar.as_slice()) {
            Some(point) => point,
            None => unreached(),
        }
    }

    /// The key as a SEC1 structure, which reads back as this key.
    pub fn to_sec1_der(&self) -> (r: Option<Vec<u8>>)
        ensures
            opt_bytes(r) == p256_sec1(self@),
            r matches Some(der) ==> p256_secret_key(der@) == Some(self@),
    {
        proof {
            use_type_invariant(self);
        }
        write_p256_sec1(self.scalar.as_slice())
    }

    /// The key as a PKCS#8 structure, whose content reads back as this key.
    pub fn to_pkcs8_der(&self) -> (r: Option<Vec<u8>>)
        ensures
            opt_bytes(r) == p256_pkcs8(self@),
            r matches Some(der) ==> {
                &&& private_key_info(der@) matches Some(info)
                &&& reads_as_pkcs8(der@, info)
                &&& info.algorithm.oid == EC_OID@
                &&& info.algorithm.parameters matches Some(any)
                &&& oid_of_any(any) == Some(ID_SECP256R1_OID@)
                &&& p256_secret_key(info.private_key) == Some(self@)
            },
    {
        proof {
            use_type_invariant(self);
        }
        write_p256_pkcs8(self.scalar.as_slice())
    }
}

impl Clone for P256SecretKey {
    fn clone(&self) -> (r: Self)
        ensures
            r@ == self@,
    {
        proof {
            use_type_invariant(self);
        }
        P256SecretKey { scalar: bytes_clone(&self.scalar) }
    }
}

/// The scalar that `p384::SecretKey::from_sec1_der` reads from a SEC1 structure.
pub uninterp spec fn p384_secret_key(sec1: Seq<u8>) -> Option<Seq<u8>>;

/// The point that belongs to a scalar, where the scalar is a key of the curve:
/// the uncompressed encoding of `p384::SecretKey::public_key`.
pub uninterp spec fn p384_public_key(scalar: Seq<u8>) -> Option<Seq<u8>>;

/// What `p384::SecretKey::to_sec1_der` writes for a scalar.
pub uninterp spec fn p384_sec1(scalar: Seq<u8>) -> Option<Seq<u8>>;

/// What `to_pkcs8_der` of `p384::SecretKey` writes for a scalar.
pub uninterp spec fn p384_pkcs8(scalar: Seq<u8>) -> Option<Seq<u8>>;

/// The uncompressed encoding of the point that
/// `p384::PublicKey::from_sec1_bytes` reads.
pub uninterp spec fn p384_point(sec1: Seq<u8>) -> Option<Seq<u8>>;

/// Calls `p384::SecretKey::from_sec1_der`: the scalar of the key, in
/// 48 bytes, or nothing where it fails. A scalar that comes out has a
/// public key.
#[verifier::external_body]
fn read_p384_secret_key(sec1: &[u8]) -> (r: Option<Vec<u8>>)
    ensures
        opt_bytes(r) == p384_secret_key(sec1@),
        r matches Some(scalar) ==> scalar@.len() == 48 && p384_public_key(scalar@) is Some,
{
    let key = p384::SecretKey::from_sec1_der(sec1).ok()?;
    Some(key.to_bytes().to_vec())
}

/// Calls `p384::SecretKey::public_key` on the key with this scalar: the point in
/// its uncompressed encoding, which reads back as itself; nothing where the
/// scalar is no key of the curve.
#[verifier::external_body]
fn derive_p384_public_key(scalar: &[u8]) -> (r: Option<Vec<u8>>)
    ensures
        opt_bytes(r) == p384_public_key(scalar@),
        r matches Some(point) ==> p384_point(point@) == Some(point@),
{
    let key = p384::SecretKey::from_slice(scalar).ok()?;
    Some(key.public_key().to_sec1_bytes().into_vec())
}

/// Calls `p384::SecretKey::to_sec1_der` on the key with this scalar. What it
/// writes for a scalar of full length reads back as that scalar.
#[verifier::external_body]
fn write_p384_sec1(scalar: &[u8]) -> (r: Option<Vec<u8>>)
    ensures
        opt_bytes(r) == p384_sec1(scalar@),
        scalar@.len() == 48 ==> (r matches Some(der) ==> p384_secret_key(der@) == Some(scalar@)),
{
    let key = p384::SecretKey::from_slice(scalar).ok()?;
    Some(key.to_sec1_der().ok()?.to_vec())
}

/// Calls `to_pkcs8_der` of `p384::SecretKey` on the key with this scalar: a
/// PKCS#8 structure for an elliptic-curve key on this curve, whose SEC1
/// content reads back as the scalar where that has full length.
#[verifier::external_body]
fn write_p384_pkcs8(scalar: &[u8]) -> (r: Option<Vec<u8>>)
    ensures
        opt_bytes(r) == p384_pkcs8(scalar@),
        scalar@.len() == 48 ==> (r matches Some(der) ==> {
            &&& private_key_info(der@) matches Some(info)
            &&& reads_as_pkcs8(der@, info)
            &&& info.algorithm.oid == EC_OID@
            &&& info.algorithm.parameters matches Some(any)
            &&& oid_of_any(any) == Some(ID_SECP384R1_OID@)
            &&& p384_secret_key(info.private_key) == Some(scalar@)
        }),
{
    let key = p384::SecretKey::from_slice(scalar).ok()?;
    Some(key.to_pkcs8_der().ok()?.as_bytes().to_vec())
}

/// Calls `p384::PublicKey::from_sec1_bytes`: the uncompressed encoding of the
/// point, which reads back as itself, or nothing where it fails.
#[verifier::external_body]
pub(crate) fn read_p384_point(sec1: &[u8]) -> (r: Option<Vec<u8>>)
    ensures
        opt_bytes(r) == p384_point(sec1@),
        r matches Some(point) ==> p384_point(point@) == Some(point@),
{
    let key = p384::PublicKey::from_sec1_bytes(sec1).ok()?;
    Some(key.to_sec1_bytes().into_vec())
}

/// Calls `p384::SecretKey::random` with the thread's random number generator:
/// the 48 bytes of a scalar that has a public key. Which one is left to chance.
#[verifier::external_body]
fn random_p384_scalar() -> (r: Vec<u8>)
    ensures
        r@.len() == 48,
        p384_public_key(r@) is Some,
{
    p384::SecretKey::random(&mut rand::thread_rng()).to_bytes().to_vec()
}

/// A secret key on the curve P384.
pub struct P384SecretKey {
    scalar: Vec<u8>,
}

impl View for P384SecretKey {
    type V = Seq<u8>;

    closed spec fn view(&self) -> Seq<u8> {
        self.scalar@
    }
}

impl P384SecretKey {
    /// The scalar has full length and a public key.
    #[verifier::type_invariant]
    spec fn valid(&self) -> bool {
        self.scalar@.len() == 48 && p384_public_key(self.scalar@) is Some
    }

    /// Reads a key from a SEC1 structure.
    pub fn from_sec1_der(sec1: &[u8]) -> (r: Option<P384SecretKey>)
        ensures
            r is Some <==> p384_secret_key(sec1@) is Some,
            r matches Some(key) ==> p384_secret_key(sec1@) == Some(key@),
    {
        match read_p384_secret_key(sec1) {
            Some(scalar) => Some(P384SecretKey { scalar }),
            None => None,
        }
    }

    /// Makes a key by chance.
    pub fn random() -> (r: P384SecretKey)
        ensures
            r@.len() == 48,
            p384_public_key(r@) is Some,
    {
        P384SecretKey { scalar: random_p384_scalar() }
    }

    /// The encoded point of the public key that belongs to this key.
    pub fn public_key(&self) -> (r: Vec<u8>)
        ensures
            p384_public_key(self@) == Some(r@),
            p384_point(r@) == Some(r@),
    {
        proof {
            use_type_invariant(self);
        }
        match derive_p384_public_key(self.scalar.as_slice()) {
            Some(point) => point,
            None => unreached(),
        }
    }

    /// The key as a SEC1 structure, which reads back as this key.
    pub fn to_sec1_der(&self) -> (r: Option<Vec<u8>>)
        ensures
            opt_bytes(r) == p384_sec1(self@),
            r matches Some(der) ==> p384_secret_key(der@) == Some(self@),
    {
        proof {
            use_type_invariant(self);
        }
        write_p384_sec1(self.scalar.as_slice())
    }

    /// The key as a PKCS#8 structure, whose content reads back as this key.
    pub fn to_pkcs8_der(&self) -> (r: Option<Vec<u8>>)
        ensures
            opt_bytes(r) == p384_pkcs8(self@),
            r matches Some(der) ==> {
                &&& private_key_info(der@) matches Some(info)
                &&& reads_as_pkcs8(der@, info)
                &&& info.algorithm.oid == EC_OID@
                &&& info.algorithm.parameters matches Some(any)
                &&& oid_of_any(any) == Some(ID_SECP384R1_OID@)
                &&& p384_secret_key(info.private_key) == Some(self@)
            },
    {
        proof {
            use_type_invariant(self);
        }
        write_p384_pkcs8(self.scalar.as_slice())
    }
}

impl Clone for P384SecretKey {
    fn clone(&self) -> (r: Self)
        ensures
            r@ == self@,
    {
        proof {
            use_type_invariant(self);
        }
        P384SecretKey { scalar: bytes_clone(&self.scalar) }
    }
}

/// The scalar that a SEC1 structure holds for a key on `curve`.
pub open spec fn ec_secret_key(curve: NamedCurve, sec1: Seq<u8>) -> Option<Seq<u8>> {
    match curve {
        NamedCurve::P224 => p224_secret_key(sec1),
        NamedCurve::P256 => p256_secret_key(sec1),
        NamedCurve::P384 => p384_secret_key(sec1),
    }
}

/// The public key that belongs to an elliptic-curve secret key.
pub open spec fn ec_public(key: EcView) -> EcView {
    EcView {
        curve: key.curve,
        bytes: match key.curve {
            NamedCurve::P224 => p224_public_key(key.bytes),
            NamedCurve::P256 => p256_public_key(key.bytes),
            NamedCurve::P384 => p384_public_key(key.bytes),
        }->0,
    }
}

/// An elliptic-curve secret key as a SEC1 structure.
pub open spec fn ec_sec1(key: EcView) -> Option<Seq<u8>> {
    match key.curve {
        NamedCurve::P224 => p224_sec1(key.bytes),
        NamedCurve::P256 => p256_sec1(key.bytes),
        NamedCurve::P384 => p384_sec1(key.bytes),
    }
}

/// An elliptic-curve secret key as a PKCS#8 structure.
pub open spec fn ec_pkcs8(key: EcView) -> Option<Seq<u8>> {
    match key.curve {
        NamedCurve::P224 => p224_pkcs8(key.bytes),
        NamedCurve::P256 => p256_pkcs8(key.bytes),
        NamedCurve::P384 => p384_pkcs8(key.bytes),
    }
}

/// The uncompressed encoding of the point on `curve` that SEC1 bytes encode.
pub open spec fn ec_point(curve: NamedCurve, sec1: Seq<u8>) -> Option<Seq<u8>> {
    match curve {
        NamedCurve::P224 => p224_point(sec1),
        NamedCurve::P256 => p256_point(sec1),
        NamedCurve::P384 => p384_point(sec1),
    }
}

} // verus!
