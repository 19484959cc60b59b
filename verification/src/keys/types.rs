//! The key objects and the ASN.1 structures that carry them.
//!
//! A key is held as the numbers and byte strings it consists of; the crates
//! that compute with keys are handed those.
use vstd::arithmetic::power::pow;
use vstd::prelude::*;
use vstd::slice::slice_to_vec;
use crate::keys::ec::ec_point;
use crate::keys::ec::P224SecretKey;
use crate::keys::ec::P256SecretKey;
use crate::keys::ec::P384SecretKey;
use crate::keys::outside::ed25519_valid;
use crate::text::bytes_clone;
use crate::text::bytes_eq;

verus! {

/// The named curves that elliptic-curve keys can be on.
#[derive(Clone, Copy, PartialEq, Eq, Structural, Debug)]
pub enum NamedCurve {
    P224,
    P256,
    P384,
}

/// The hash that an RSA-PSS key is restricted to.
#[derive(Clone, Copy, PartialEq, Eq, Structural, Debug)]
pub enum RsaPssHashAlgorithm {
    Sha1,
    Sha256,
    Sha384,
    Sha512,
}

/// An integer as its big-endian bytes is written without a leading zero byte
/// (zero itself is one byte).
pub open spec fn canonical(bytes: Seq<u8>) -> bool {
    bytes.len() >= 1 && (bytes.len() == 1 || bytes[0] != 0)
}

/// The integer that big-endian bytes stand for.
pub open spec fn be_value(bytes: Seq<u8>) -> nat
    decreases bytes.len(),
{
    if bytes.len() == 0 {
        0
    } else {
        be_value(bytes.drop_last()) * 256 + bytes.last() as nat
    }
}

/// The number of bits that an integer needs.
pub open spec fn bit_length(n: nat) -> nat
    decreases n,
{
    if n == 0 {
        0
    } else {
        1 + bit_length(n / 2)
    }
}

/// An RSA public key: modulus and public exponent, big-endian.
pub struct RsaPublicKey {
    pub n: Vec<u8>,
    pub e: Vec<u8>,
}

/// What an RSA public key says.
#[verifier::ext_equal]
pub struct RsaPublicView {
    pub n: Seq<u8>,
    pub e: Seq<u8>,
}

impl RsaPublicView {
    /// The integers are written without leading zeros.
    pub open spec fn wf(self) -> bool {
        canonical(self.n) && canonical(self.e)
    }

    /// The reader of RSA public keys takes the key: its modulus is odd and not too
    /// long, and its exponent is odd, neither too small nor too large, and below
    /// the modulus.
    pub open spec fn is_readable(self) -> bool {
        let n = be_value(self.n);
        let e = be_value(self.e);
        &&& bit_length(n) <= 4096
        &&& n % 2 == 1
        &&& e % 2 == 1
        &&& 2 <= e <= 0x1_ffff_ffff
        &&& e < n
    }
}

impl View for RsaPublicKey {
    type V = RsaPublicView;

    open spec fn view(&self) -> RsaPublicView {
        RsaPublicView { n: self.n@, e: self.e@ }
    }
}

impl Clone for RsaPublicKey {
    fn clone(&self) -> (r: Self)
        ensures
            r@ == self@,
    {
        RsaPublicKey { n: bytes_clone(&self.n), e: bytes_clone(&self.e) }
    }
}

/// An RSA private key with two primes, its integers big-endian.
pub struct RsaPrivateKey {
    pub n: Vec<u8>,
    pub e: Vec<u8>,
    pub d: Vec<u8>,
    pub p: Vec<u8>,
    pub q: Vec<u8>,
}

/// What an RSA private key says.
#[verifier::ext_equal]
pub struct RsaPrivateView {
    pub n: Seq<u8>,
    pub e: Seq<u8>,
    pub d: Seq<u8>,
    pub p: Seq<u8>,
    pub q: Seq<u8>,
}

impl RsaPrivateView {
    /// The integers are written without leading zeros.
    pub open spec fn wf(self) -> bool {
        canonical(self.n) && canonical(self.e) && canonical(self.d) && canonical(self.p)
            && canonical(self.q)
    }

    /// The modulus and the public exponent.
    pub open spec fn public(self) -> RsaPublicView {
        RsaPublicView { n: self.n, e: self.e }
    }
}

impl View for RsaPrivateKey {
    type V = RsaPrivateView;

    open spec fn view(&self) -> RsaPrivateView {
        RsaPrivateView { n: self.n@, e: self.e@, d: self.d@, p: self.p@, q: self.q@ }
    }
}

impl Clone for RsaPrivateKey {
    fn clone(&self) -> (r: Self)
        ensures
            r@ == self@,
    {
        RsaPrivateKey {
            n: bytes_clone(&self.n),
            e: bytes_clone(&self.e),
            d: bytes_clone(&self.d),
            p: bytes_clone(&self.p),
            q: bytes_clone(&self.q),
        }
    }
}

impl RsaPrivateKey {
    /// The public key that belongs to this private key.
    pub fn to_public_key(&self) -> (r: RsaPublicKey)
        ensures
            r@ == self@.public(),
    {
        RsaPublicKey { n: bytes_clone(&self.n), e: bytes_clone(&self.e) }
    }
}

/// An RSA private key for RSASSA-PSS.
pub struct RsaPssPrivateKey {
    pub key: RsaPrivateKey,
    pub hash_algorithm: RsaPssHashAlgorithm,
    pub salt_length: u32,
}

/// What an RSASSA-PSS private key says.
#[verifier::ext_equal]
pub struct RsaPssPrivateView {
    pub key: RsaPrivateView,
    pub hash_algorithm: RsaPssHashAlgorithm,
    pub salt_length: u32,
}

impl View for RsaPssPrivateKey {
    type V = RsaPssPrivateView;

    open spec fn view(&self) -> RsaPssPrivateView {
        RsaPssPrivateView {
            key: self.key@,
            hash_algorithm: self.hash_algorithm,
            salt_length: self.salt_length,
        }
    }
}

impl Clone for RsaPssPrivateKey {
    fn clone(&self) -> (r: Self)
        ensures
            r@ == self@,
    {
        RsaPssPrivateKey {
            key: self.key.clone(),
            hash_algorithm: self.hash_algorithm,
            salt_length: self.salt_length,
        }
    }
}

impl RsaPssPrivateView {
    /// The public half, with the same hash and salt length.
    pub open spec fn public(self) -> RsaPssPublicView {
        RsaPssPublicView {
            key: self.key.public(),
            hash_algorithm: self.hash_algorithm,
            salt_length: self.salt_length,
        }
    }
}

impl RsaPssPrivateKey {
    /// Derives the public key from the private key.
    pub fn to_public_key(&self) -> (r: RsaPssPublicKey)
        ensures
            r@ == self@.public(),
    {
        RsaPssPublicKey {
            key: self.key.to_public_key(),
            hash_algorithm: self.hash_algorithm,
            salt_length: self.salt_length,
        }
    }
}

/// An RSA public key for RSASSA-PSS.
pub struct RsaPssPublicKey {
    pub key: RsaPublicKey,
    pub hash_algorithm: RsaPssHashAlgorithm,
    pub salt_length: u32,
}

/// What an RSASSA-PSS public key says.
#[verifier::ext_equal]
pub struct RsaPssPublicView {
    pub key: RsaPublicView,
    pub hash_algorithm: RsaPssHashAlgorithm,
    pub salt_length: u32,
}

impl View for RsaPssPublicKey {
    type V = RsaPssPublicView;

    open spec fn view(&self) -> RsaPssPublicView {
        RsaPssPublicView {
            key: self.key@,
            hash_algorithm: self.hash_algorithm,
            salt_length: self.salt_length,
        }
    }
}

impl Clone for RsaPssPublicKey {
    fn clone(&self) -> (r: Self)
        ensures
            r@ == self@,
    {
        RsaPssPublicKey {
            key: self.key.clone(),
            hash_algorithm: self.hash_algorithm,
            salt_length: self.salt_length,
        }
    }
}

/// A DSA public key, its integers big-endian.
pub struct DsaPublicKey {
    pub p: Vec<u8>,
    pub q: Vec<u8>,
    pub g: Vec<u8>,
    pub y: Vec<u8>,
}

/// What a DSA public key says.
#[verifier::ext_equal]
pub struct DsaPublicView {
    pub p: Seq<u8>,
    pub q: Seq<u8>,
    pub g: Seq<u8>,
    pub y: Seq<u8>,
}

impl DsaPublicView {
    /// The integers are written without leading zeros.
    pub open spec fn wf(self) -> bool {
        canonical(self.p) && canonical(self.q) && canonical(self.g) && canonical(self.y)
    }
}

impl View for DsaPublicKey {
    type V = DsaPublicView;

    open spec fn view(&self) -> DsaPublicView {
        DsaPublicView { p: self.p@, q: self.q@, g: self.g@, y: self.y@ }
    }
}

impl Clone for DsaPublicKey {
    fn clone(&self) -> (r: Self)
        ensures
            r@ == self@,
    {
        DsaPublicKey {
            p: bytes_clone(&self.p),
            q: bytes_clone(&self.q),
            g: bytes_clone(&self.g),
            y: bytes_clone(&self.y),
        }
    }
}

/// The sizes of the DSA keys that can be generated.
#[derive(Clone, Copy, PartialEq, Eq, Structural, Debug)]
pub enum DsaKeySize {
    L1024N160,
    L2048N224,
    L2048N256,
    L3072N256,
}

impl DsaKeySize {
    /// The bits of the modulus.
    pub open spec fn modulus_length(self) -> nat {
        match self {
            DsaKeySize::L1024N160 => 1024,
            DsaKeySize::L2048N224 => 2048,
            DsaKeySize::L2048N256 => 2048,
            DsaKeySize::L3072N256 => 3072,
        }
    }

    /// The bits of the divisor.
    pub open spec fn divisor_length(self) -> nat {
        match self {
            DsaKeySize::L1024N160 => 160,
            DsaKeySize::L2048N224 => 224,
            DsaKeySize::L2048N256 => 256,
            DsaKeySize::L3072N256 => 256,
        }
    }
}

/// A DSA private key: the public key that belongs to it and the secret
/// exponent.
pub struct DsaPrivateKey {
    pub verifying_key: DsaPublicKey,
    pub x: Vec<u8>,
}

/// What a DSA private key says.
#[verifier::ext_equal]
pub struct DsaPrivateView {
    pub verifying_key: DsaPublicView,
    pub x: Seq<u8>,
}

impl DsaPrivateView {
    /// The integers are written without leading zeros.
    pub open spec fn wf(self) -> bool {
        self.verifying_key.wf() && canonical(self.x)
    }

    /// The public component is the one that belongs to the secret exponent.
    pub open spec fn is_consistent(self) -> bool {
        let key = self.verifying_key;
        be_value(key.y) == pow(be_value(key.g) as int, be_value(self.x)) % be_value(
            key.p,
        ) as int
    }
}

impl View for DsaPrivateKey {
    type V = DsaPrivateView;

    open spec fn view(&self) -> DsaPrivateView {
        DsaPrivateView { verifying_key: self.verifying_key@, x: self.x@ }
    }
}

impl Clone for DsaPrivateKey {
    fn clone(&self) -> (r: Self)
        ensures
            r@ == self@,
    {
        DsaPrivateKey { verifying_key: self.verifying_key.clone(), x: bytes_clone(&self.x) }
    }
}

/// An elliptic-curve private key.
pub enum EcPrivateKey {
    P224(P224SecretKey),
    P256(P256SecretKey),
    P384(P384SecretKey),
}

/// What an elliptic-curve key says: its curve, and its scalar (private) or its
/// encoded point (public).
#[verifier::ext_equal]
pub struct EcView {
    pub curve: NamedCurve,
    pub bytes: Seq<u8>,
}

impl View for EcPrivateKey {
    type V = EcView;

    open spec fn view(&self) -> EcView {
        match self {
            EcPrivateKey::P224(k) => EcView { curve: NamedCurve::P224, bytes: k@ },
            EcPrivateKey::P256(k) => EcView { curve: NamedCurve::P256, bytes: k@ },
            EcPrivateKey::P384(k) => EcView { curve: NamedCurve::P384, bytes: k@ },
        }
    }
}

impl Clone for EcPrivateKey {
    fn clone(&self) -> (r: Self)
        ensures
            r@ == self@,
    {
        match self {
            EcPrivateKey::P224(k) => EcPrivateKey::P224(k.clone()),
            EcPrivateKey::P256(k) => EcPrivateKey::P256(k.clone()),
            EcPrivateKey::P384(k) => EcPrivateKey::P384(k.clone()),
        }
    }
}

/// An elliptic-curve public key: the point in the uncompressed SEC1 encoding.
pub enum EcPublicKey {
    P224(Vec<u8>),
    P256(Vec<u8>),
    P384(Vec<u8>),
}

impl View for EcPublicKey {
    type V = EcView;

    open spec fn view(&self) -> EcView {
        match self {
            EcPublicKey::P224(k) => EcView { curve: NamedCurve::P224, bytes: k@ },
            EcPublicKey::P256(k) => EcView { curve: NamedCurve::P256, bytes: k@ },
            EcPublicKey::P384(k) => EcView { curve: NamedCurve::P384, bytes: k@ },
        }
    }
}

impl Clone for EcPublicKey {
    fn clone(&self) -> (r: Self)
        ensures
            r@ == self@,
    {
        match self {
            EcPublicKey::P224(k) => EcPublicKey::P224(bytes_clone(k)),
            EcPublicKey::P256(k) => EcPublicKey::P256(bytes_clone(k)),
            EcPublicKey::P384(k) => EcPublicKey::P384(bytes_clone(k)),
        }
    }
}

/// An asymmetric private key.
pub enum AsymmetricPrivateKey {
    Rsa(RsaPrivateKey),
    RsaPss(RsaPssPrivateKey),
    Dsa(DsaPrivateKey),
    Ec(EcPrivateKey),
    X25519([u8; 32]),
    Ed25519([u8; 32]),
    Dh(Vec<u8>),
}

/// What an asymmetric private key says.
#[verifier::ext_equal]
pub enum PrivateKeyView {
    Rsa(RsaPrivateView),
    RsaPss(RsaPssPrivateView),
    Dsa(DsaPrivateView),
    Ec(EcView),
    X25519(Seq<u8>),
    Ed25519(Seq<u8>),
    Dh(Seq<u8>),
}

impl PrivateKeyView {
    /// The integers of the key are written without leading zeros.
    pub open spec fn wf(self) -> bool {
        match self {
            PrivateKeyView::Rsa(key) => key.wf(),
            PrivateKeyView::RsaPss(key) => key.key.wf(),
            PrivateKeyView::Dsa(key) => key.wf(),
            _ => true,
        }
    }
}

impl View for AsymmetricPrivateKey {
    type V = PrivateKeyView;

    open spec fn view(&self) -> PrivateKeyView {
        match self {
            AsymmetricPrivateKey::Rsa(k) => PrivateKeyView::Rsa(k@),
            AsymmetricPrivateKey::RsaPss(k) => PrivateKeyView::RsaPss(k@),
            AsymmetricPrivateKey::Dsa(k) => PrivateKeyView::Dsa(k@),
            AsymmetricPrivateKey::Ec(k) => PrivateKeyView::Ec(k@),
            AsymmetricPrivateKey::X25519(k) => PrivateKeyView::X25519(k@),
            AsymmetricPrivateKey::Ed25519(k) => PrivateKeyView::Ed25519(k@),
            AsymmetricPrivateKey::Dh(k) => PrivateKeyView::Dh(k@),
        }
    }
}

impl Clone for AsymmetricPrivateKey {
    fn clone(&self) -> (r: Self)
        ensures
            r@ == self@,
    {
        match self {
            AsymmetricPrivateKey::Rsa(k) => AsymmetricPrivateKey::Rsa(k.clone()),
            AsymmetricPrivateKey::RsaPss(k) => AsymmetricPrivateKey::RsaPss(k.clone()),
            AsymmetricPrivateKey::Dsa(k) => AsymmetricPrivateKey::Dsa(k.clone()),
            AsymmetricPrivateKey::Ec(k) => AsymmetricPrivateKey::Ec(k.clone()),
            AsymmetricPrivateKey::X25519(k) => AsymmetricPrivateKey::X25519(*k),
            AsymmetricPrivateKey::Ed25519(k) => AsymmetricPrivateKey::Ed25519(*k),
            AsymmetricPrivateKey::Dh(k) => AsymmetricPrivateKey::Dh(bytes_clone(k)),
        }
    }
}

/// An asymmetric public key.
pub enum AsymmetricPublicKey {
    Rsa(RsaPublicKey),
    RsaPss(RsaPssPublicKey),
    Dsa(DsaPublicKey),
    Ec(EcPublicKey),
    X25519([u8; 32]),
    Ed25519([u8; 32]),
    Dh(Vec<u8>),
}

/// What an asymmetric public key says.
#[verifier::ext_equal]
pub enum PublicKeyView {
    Rsa(RsaPublicView),
    RsaPss(RsaPssPublicView),
    Dsa(DsaPublicView),
    Ec(EcView),
    X25519(Seq<u8>),
    Ed25519(Seq<u8>),
    Dh(Seq<u8>),
}

impl PublicKeyView {
    /// The integers of the key are written without leading zeros, and its point
    /// is one that the readers of public keys take, in its uncompressed form.
    pub open spec fn wf(self) -> bool {
        match self {
            PublicKeyView::Rsa(key) => key.wf(),
            PublicKeyView::RsaPss(key) => key.key.wf(),
            PublicKeyView::Dsa(key) => key.wf(),
            PublicKeyView::Ec(key) => ec_point(key.curve, key.bytes) == Some(key.bytes),
            PublicKeyView::Ed25519(key) => ed25519_valid(key),
            _ => true,
        }
    }
}

impl View for AsymmetricPublicKey {
    type V = PublicKeyView;

    open spec fn view(&self) -> PublicKeyView {
        match self {
            AsymmetricPublicKey::Rsa(k) => PublicKeyView::Rsa(k@),
            AsymmetricPublicKey::RsaPss(k) => PublicKeyView::RsaPss(k@),
            AsymmetricPublicKey::Dsa(k) => PublicKeyView::Dsa(k@),
            AsymmetricPublicKey::Ec(k) => PublicKeyView::Ec(k@),
            AsymmetricPublicKey::X25519(k) => PublicKeyView::X25519(k@),
            AsymmetricPublicKey::Ed25519(k) => PublicKeyView::Ed25519(k@),
            AsymmetricPublicKey::Dh(k) => PublicKeyView::Dh(k@),
        }
    }
}

impl Clone for AsymmetricPublicKey {
    fn clone(&self) -> (r: Self)
        ensures
            r@ == self@,
    {
        match self {
            AsymmetricPublicKey::Rsa(k) => AsymmetricPublicKey::Rsa(k.clone()),
            AsymmetricPublicKey::RsaPss(k) => AsymmetricPublicKey::RsaPss(k.clone()),
            AsymmetricPublicKey::Dsa(k) => AsymmetricPublicKey::Dsa(k.clone()),
            AsymmetricPublicKey::Ec(k) => AsymmetricPublicKey::Ec(k.clone()),
            AsymmetricPublicKey::X25519(k) => AsymmetricPublicKey::X25519(*k),
            AsymmetricPublicKey::Ed25519(k) => AsymmetricPublicKey::Ed25519(*k),
            AsymmetricPublicKey::Dh(k) => AsymmetricPublicKey::Dh(bytes_clone(k)),
        }
    }
}

/// A key object as JavaScript holds it.
pub enum KeyObjectHandle {
    AsymmetricPrivateKey(AsymmetricPrivateKey),
    AsymmetricPublicKey(AsymmetricPublicKey),
    SecretKey(Vec<u8>),
}

/// What a key object says.
#[verifier::ext_equal]
pub enum KeyView {
    Private(PrivateKeyView),
    Public(PublicKeyView),
    Secret(Seq<u8>),
}

impl KeyView {
    /// The key is in the form in which keys are read and derived.
    pub open spec fn wf(self) -> bool {
        match self {
            KeyView::Private(key) => key.wf(),
            KeyView::Public(key) => key.wf(),
            KeyView::Secret(_) => true,
        }
    }
}

impl View for KeyObjectHandle {
    type V = KeyView;

    open spec fn view(&self) -> KeyView {
        match self {
            KeyObjectHandle::AsymmetricPrivateKey(k) => KeyView::Private(k@),
            KeyObjectHandle::AsymmetricPublicKey(k) => KeyView::Public(k@),
            KeyObjectHandle::SecretKey(k) => KeyView::Secret(k@),
        }
    }
}

impl Clone for KeyObjectHandle {
    fn clone(&self) -> (r: Self)
        ensures
            r@ == self@,
    {
        match self {
            KeyObjectHandle::AsymmetricPrivateKey(k) => KeyObjectHandle::AsymmetricPrivateKey(
                k.clone(),
            ),
            KeyObjectHandle::AsymmetricPublicKey(k) => KeyObjectHandle::AsymmetricPublicKey(
                k.clone(),
            ),
            KeyObjectHandle::SecretKey(k) => KeyObjectHandle::SecretKey(bytes_clone(k)),
        }
    }
}

/// An ASN.1 value of any type: the octet of its tag and its contents.
pub struct Any {
    pub tag: u8,
    pub value: Vec<u8>,
}

/// What an ASN.1 value says.
#[verifier::ext_equal]
pub struct AnyView {
    pub tag: u8,
    pub value: Seq<u8>,
}

impl View for Any {
    type V = AnyView;

    open spec fn view(&self) -> AnyView {
        AnyView { tag: self.tag, value: self.value@ }
    }
}

/// What an optional ASN.1 value says.
pub open spec fn opt_any(a: Option<Any>) -> Option<AnyView> {
    match a {
        Some(a) => Some(a@),
        None => None,
    }
}

/// An algorithm and its parameters; the algorithm is an object identifier, of
/// which the contents in DER are held.
pub struct AlgorithmIdentifier {
    pub oid: Vec<u8>,
    pub parameters: Option<Any>,
}

/// What an algorithm identifier says.
#[verifier::ext_equal]
pub struct AlgorithmView {
    pub oid: Seq<u8>,
    pub parameters: Option<AnyView>,
}

impl View for AlgorithmIdentifier {
    type V = AlgorithmView;

    open spec fn view(&self) -> AlgorithmView {
        AlgorithmView { oid: self.oid@, parameters: opt_any(self.parameters) }
    }
}

/// The bytes of an optional byte string.
pub open spec fn opt_bytes(b: Option<Vec<u8>>) -> Option<Seq<u8>> {
    match b {
        Some(b) => Some(b@),
        None => None,
    }
}

/// A private key in the PKCS#8 structure.
pub struct PrivateKeyInfo {
    pub algorithm: AlgorithmIdentifier,
    pub private_key: Vec<u8>,
    pub public_key: Option<Vec<u8>>,
}

/// What a PKCS#8 structure says.
#[verifier::ext_equal]
pub struct PrivateKeyInfoView {
    pub algorithm: AlgorithmView,
    pub private_key: Seq<u8>,
    pub public_key: Option<Seq<u8>>,
}

impl View for PrivateKeyInfo {
    type V = PrivateKeyInfoView;

    open spec fn view(&self) -> PrivateKeyInfoView {
        PrivateKeyInfoView {
            algorithm: self.algorithm@,
            private_key: self.private_key@,
            public_key: opt_bytes(self.public_key),
        }
    }
}

/// A public key in the SubjectPublicKeyInfo structure. The key is absent where
/// its bit string does not end on a byte.
pub struct SubjectPublicKeyInfo {
    pub algorithm: AlgorithmIdentifier,
    pub subject_public_key: Option<Vec<u8>>,
}

/// What a SubjectPublicKeyInfo structure says.
#[verifier::ext_equal]
pub struct SpkiView {
    pub algorithm: AlgorithmView,
    pub subject_public_key: Option<Seq<u8>>,
}

impl View for SubjectPublicKeyInfo {
    type V = SpkiView;

    open spec fn view(&self) -> SpkiView {
        SpkiView {
            algorithm: self.algorithm@,
            subject_public_key: opt_bytes(self.subject_public_key),
        }
    }
}

/// The contents of the object identifier 1.3.14.3.2.26.
pub const ID_SHA1_OID: [u8; 5] = [0x2b, 0x0e, 0x03, 0x02, 0x1a];

/// The contents of the object identifier 2.16.840.1.101.3.4.2.1.
pub const ID_SHA256_OID: [u8; 9] = [0x60, 0x86, 0x48, 0x01, 0x65, 0x03, 0x04, 0x02, 0x01];

/// The contents of the object identifier 2.16.840.1.101.3.4.2.2.
pub const ID_SHA384_OID: [u8; 9] = [0x60, 0x86, 0x48, 0x01, 0x65, 0x03, 0x04, 0x02, 0x02];

/// The contents of the object identifier 2.16.840.1.101.3.4.2.3.
pub const ID_SHA512_OID: [u8; 9] = [0x60, 0x86, 0x48, 0x01, 0x65, 0x03, 0x04, 0x02, 0x03];

/// The contents of the object identifier 1.2.840.113549.1.1.8.
pub const ID_MFG1: [u8; 9] = [0x2a, 0x86, 0x48, 0x86, 0xf7, 0x0d, 0x01, 0x01, 0x08];

/// The contents of the object identifier 1.3.132.0.33.
pub const ID_SECP224R1_OID: [u8; 5] = [0x2b, 0x81, 0x04, 0x00, 0x21];

/// The contents of the object identifier 1.2.840.10045.3.1.7.
pub const ID_SECP256R1_OID: [u8; 8] = [0x2a, 0x86, 0x48, 0xce, 0x3d, 0x03, 0x01, 0x07];

/// The contents of the object identifier 1.3.132.0.34.
pub const ID_SECP384R1_OID: [u8; 5] = [0x2b, 0x81, 0x04, 0x00, 0x22];

/// The contents of the object identifier 1.2.840.113549.1.1.1.
pub const RSA_ENCRYPTION_OID: [u8; 9] = [0x2a, 0x86, 0x48, 0x86, 0xf7, 0x0d, 0x01, 0x01, 0x01];

/// The contents of the object identifier 1.2.840.113549.1.1.10.
pub const RSASSA_PSS_OID: [u8; 9] = [0x2a, 0x86, 0x48, 0x86, 0xf7, 0x0d, 0x01, 0x01, 0x0a];

/// The contents of the object identifier 1.2.840.10040.4.1.
pub const DSA_OID: [u8; 7] = [0x2a, 0x86, 0x48, 0xce, 0x38, 0x04, 0x01];

/// The contents of the object identifier 1.2.840.10045.2.1.
pub const EC_OID: [u8; 7] = [0x2a, 0x86, 0x48, 0xce, 0x3d, 0x02, 0x01];

/// The contents of the object identifier 1.3.101.110.
pub const X25519_OID: [u8; 3] = [0x2b, 0x65, 0x6e];

/// The contents of the object identifier 1.3.101.112.
pub const ED25519_OID: [u8; 3] = [0x2b, 0x65, 0x70];

/// The contents of the object identifier 1.2.840.113549.1.3.1.
pub const DH_KEY_AGREEMENT_OID: [u8; 9] = [0x2a, 0x86, 0x48, 0x86, 0xf7, 0x0d, 0x01, 0x03, 0x01];

/// The object identifier is the known one.
pub fn is_oid<const N: usize>(oid: &[u8], known: [u8; N]) -> (r: bool)
    ensures
        r == (oid@ == known@),
{
    bytes_eq(oid, known.as_slice())
}

/// The object identifier of a curve.
pub open spec fn curve_oid(curve: NamedCurve) -> Seq<u8> {
    match curve {
        NamedCurve::P224 => ID_SECP224R1_OID@,
        NamedCurve::P256 => ID_SECP256R1_OID@,
        NamedCurve::P384 => ID_SECP384R1_OID@,
    }
}

impl NamedCurve {
    /// The object identifier of the curve.
    pub fn to_oid(self) -> (r: Vec<u8>)
        ensures
            r@ == curve_oid(self),
    {
        match self {
            NamedCurve::P224 => slice_to_vec(ID_SECP224R1_OID.as_slice()),
            NamedCurve::P256 => slice_to_vec(ID_SECP256R1_OID.as_slice()),
            NamedCurve::P384 => slice_to_vec(ID_SECP384R1_OID.as_slice()),
        }
    }
}

/// The curve that an object identifier names.
pub open spec fn curve_of_oid(oid: Seq<u8>) -> Option<NamedCurve> {
    if oid == ID_SECP224R1_OID@ {
        Some(NamedCurve::P224)
    } else if oid == ID_SECP256R1_OID@ {
        Some(NamedCurve::P256)
    } else if oid == ID_SECP384R1_OID@ {
        Some(NamedCurve::P384)
    } else {
        None
    }
}

/// The object identifiers of the curves are all different.
pub proof fn lemma_curve_oids_differ()
    ensures
        ID_SECP224R1_OID@ != ID_SECP256R1_OID@,
        ID_SECP224R1_OID@ != ID_SECP384R1_OID@,
        ID_SECP256R1_OID@ != ID_SECP384R1_OID@,
{
    assert(ID_SECP224R1_OID@.len() == 5 && ID_SECP224R1_OID@[4] == 0x21);
    assert(ID_SECP256R1_OID@.len() == 8);
    assert(ID_SECP384R1_OID@.len() == 5 && ID_SECP384R1_OID@[4] == 0x22);
}

/// The object identifiers of the key types are all different.
pub proof fn lemma_key_oids_differ()
    ensures
        RSA_ENCRYPTION_OID@ != RSASSA_PSS_OID@,
        RSA_ENCRYPTION_OID@ != DSA_OID@,
        RSA_ENCRYPTION_OID@ != EC_OID@,
        RSA_ENCRYPTION_OID@ != X25519_OID@,
        RSA_ENCRYPTION_OID@ != ED25519_OID@,
        RSA_ENCRYPTION_OID@ != DH_KEY_AGREEMENT_OID@,
        RSASSA_PSS_OID@ != DSA_OID@,
        RSASSA_PSS_OID@ != EC_OID@,
        RSASSA_PSS_OID@ != X25519_OID@,
        RSASSA_PSS_OID@ != ED25519_OID@,
        RSASSA_PSS_OID@ != DH_KEY_AGREEMENT_OID@,
        DSA_OID@ != EC_OID@,
        DSA_OID@ != X25519_OID@,
        DSA_OID@ != ED25519_OID@,
        DSA_OID@ != DH_KEY_AGREEMENT_OID@,
        EC_OID@ != X25519_OID@,
        EC_OID@ != ED25519_OID@,
        EC_OID@ != DH_KEY_AGREEMENT_OID@,
        X25519_OID@ != ED25519_OID@,
        X25519_OID@ != DH_KEY_AGREEMENT_OID@,
        ED25519_OID@ != DH_KEY_AGREEMENT_OID@,
{
    assert(RSA_ENCRYPTION_OID@.len() == 9 && RSA_ENCRYPTION_OID@[7] == 1);
    assert(RSA_ENCRYPTION_OID@[8] == 1);
    assert(RSASSA_PSS_OID@.len() == 9 && RSASSA_PSS_OID@[7] == 1);
    assert(RSASSA_PSS_OID@[8] == 10);
    assert(DSA_OID@.len() == 7 && DSA_OID@[4] == 0x38);
    assert(EC_OID@.len() == 7 && EC_OID@[4] == 0x3d);
    assert(X25519_OID@.len() == 3 && X25519_OID@[2] == 0x6e);
    assert(ED25519_OID@.len() == 3 && ED25519_OID@[2] == 0x70);
    assert(DH_KEY_AGREEMENT_OID@.len() == 9 && DH_KEY_AGREEMENT_OID@[7] == 3);
}

} // verus!
