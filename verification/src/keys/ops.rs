//! The operations on key objects that JavaScript calls.
use std::borrow::Cow;
use vstd::prelude::*;
use vstd::utf8::decode_utf8;
use vstd::utf8::valid_utf8;
use crate::error::result_view;
use crate::error::type_error;
use crate::error::type_error_view;
use crate::error::AnyError;
use crate::error::ErrorView;
use crate::keys::ec::P224SecretKey;
use crate::keys::ec::P256SecretKey;
use crate::keys::ec::P384SecretKey;
use crate::keys::export::private_der;
use crate::keys::export::private_key_pem;
use crate::keys::export::public_der;
use crate::keys::export::public_key_pem;
use crate::keys::export::public_of;
use crate::keys::export::same_private_key;
use crate::keys::export::same_public_key;
use crate::keys::import::is_readable_private_key;
use crate::keys::import::is_readable_public_key;
use crate::keys::import::passphrase_view;
use crate::keys::import::private_key_from;
use crate::keys::import::public_key_from;
use crate::keys::import::readable_private_key;
use crate::keys::import::readable_public_key;
use crate::keys::import::structure_in;
use crate::keys::outside::base64url;
use crate::keys::outside::base64url_encode;
use crate::keys::outside::bits_of;
use crate::keys::outside::random_bytes;
use crate::keys::outside::random_dsa_key;
use crate::keys::outside::random_ed25519_secret;
use crate::keys::outside::random_rsa_key;
use crate::keys::outside::random_x25519_secret;
use crate::keys::primes::rsa_key_exists;
use crate::keys::types::be_value;
use crate::keys::types::bit_length;
use crate::keys::types::AsymmetricPrivateKey;
use crate::keys::types::AsymmetricPublicKey;
use crate::keys::types::DsaKeySize;
use crate::keys::types::DsaPublicKey;
use crate::keys::types::EcPrivateKey;
use crate::keys::types::EcPublicKey;
use crate::keys::types::KeyObjectHandle;
use crate::keys::types::KeyView;
use crate::keys::types::NamedCurve;
use crate::keys::types::PrivateKeyView;
use crate::keys::types::PublicKeyView;
use crate::keys::types::RsaPssHashAlgorithm;
use crate::text::bytes_clone;
use crate::text::concat2;
use crate::text::str_eq;

verus! {

impl KeyView {
    /// The private key, where this is one.
    pub open spec fn private_key(self) -> Option<PrivateKeyView> {
        match self {
            KeyView::Private(key) => Some(key),
            _ => None,
        }
    }

    /// The public key: this key itself, or the one that belongs to this private
    /// key.
    pub open spec fn public_key(self) -> Option<PublicKeyView> {
        match self {
            KeyView::Private(key) => Some(public_of(key)),
            KeyView::Public(key) => Some(key),
            KeyView::Secret(_) => None,
        }
    }

    /// The secret key, where this is one.
    pub open spec fn secret_key(self) -> Option<Seq<u8>> {
        match self {
            KeyView::Secret(key) => Some(key),
            _ => None,
        }
    }

    /// A Diffie-Hellman private key, from which no public key can be derived.
    pub open spec fn is_dh_private(self) -> bool {
        self matches KeyView::Private(key) && key is Dh
    }
}

impl KeyObjectHandle {
    /// Returns the private key if the handle is an asymmetric private key.
    pub fn as_private_key(&self) -> (r: Option<&AsymmetricPrivateKey>)
        ensures
            match r {
                Some(key) => self@.private_key() == Some(key@),
                None => self@.private_key() is None,
            },
    {
        match self {
            KeyObjectHandle::AsymmetricPrivateKey(key) => Some(key),
            _ => None,
        }
    }

    /// Returns the public key if the handle is an asymmetric public key. If it is
    /// a private key, it derives the public key from it and returns that.
    pub fn as_public_key(&self) -> (r: Option<Cow<'_, AsymmetricPublicKey>>)
        requires
            !self@.is_dh_private(),
        ensures
            match r {
                Some(key) => self@.public_key() == Some(key@),
                None => self@.public_key() is None,
            },
            self@.wf() ==> (r matches Some(key) ==> key@.wf()),
    {
        match self {
            KeyObjectHandle::AsymmetricPrivateKey(key) => Some(Cow::Owned(key.to_public_key())),
            KeyObjectHandle::AsymmetricPublicKey(key) => Some(Cow::Borrowed(key)),
            _ => None,
        }
    }

    /// Returns the secret key if the handle is a secret key.
    pub fn as_secret_key(&self) -> (r: Option<&[u8]>)
        ensures
            match r {
                Some(key) => self@.secret_key() == Some(key@),
                None => self@.secret_key() is None,
            },
    {
        match self {
            KeyObjectHandle::SecretKey(key) => Some(key.as_slice()),
            _ => None,
        }
    }
}

/// Reads a private key.
pub fn op_node_create_private_key(
    key: &[u8],
    format: &str,
    typ: &str,
    passphrase: Option<&[u8]>,
) -> (r: Result<KeyObjectHandle, AnyError>)
    requires
        readable_private_key(key@, format@, typ@, passphrase_view(passphrase)),
    ensures
        match private_key_from(key@, format@, typ@, passphrase_view(passphrase)) {
            Ok(k) => r matches Ok(handle) && handle@ == KeyView::Private(k),
            Err(e) => r matches Err(error) && error@ == e,
        },
        r matches Ok(handle) ==> handle@.wf(),
        passphrase is None ==> (r matches Ok(handle) ==> {
            &&& structure_in(key@, format@, typ@) matches Some((of, structure))
            &&& handle@ matches KeyView::Private(k)
            &&& of == "sec1"@ ==> k is Ec
            &&& of == "pkcs1"@ ==> k is Rsa
        }),
{
    KeyObjectHandle::new_asymmetric_private_key_from_js(key, format, typ, passphrase)
}

/// Reads a private key, unless it is encrypted with a key whose derivation does
/// not come to an end: then there is no result.
pub fn create_private_key_if_readable(
    key: &[u8],
    format: &str,
    typ: &str,
    passphrase: Option<&[u8]>,
) -> (r: Option<Result<KeyObjectHandle, AnyError>>)
    ensures
        r is Some <==> readable_private_key(key@, format@, typ@, passphrase_view(passphrase)),
        passphrase is None ==> r is Some,
        r matches Some(result) ==> match private_key_from(
            key@,
            format@,
            typ@,
            passphrase_view(passphrase),
        ) {
            Ok(k) => result matches Ok(handle) && handle@ == KeyView::Private(k) && handle@.wf(),
            Err(e) => result matches Err(error) && error@ == e,
        },
{
    if is_readable_private_key(key, format, typ, passphrase) {
        Some(op_node_create_private_key(key, format, typ, passphrase))
    } else {
        None
    }
}

/// Reads a public key. The passphrase is not used.
pub fn op_node_create_public_key(
    key: &[u8],
    format: &str,
    typ: &str,
    passphrase: Option<&[u8]>,
) -> (r: Result<KeyObjectHandle, AnyError>)
    requires
        readable_public_key(key@, format@, typ@),
    ensures
        match public_key_from(key@, format@, typ@) {
            Ok(k) => r matches Ok(handle) && handle@ == KeyView::Public(k),
            Err(e) => r matches Err(error) && error@ == e,
        },
        r matches Ok(handle) ==> handle@.wf(),
{
    KeyObjectHandle::new_asymmetric_public_key_from_js(key, format, typ, passphrase)
}

/// Reads a public key, unless its bit string breaks off inside a byte where that
/// is not asked: then there is no result.
pub fn create_public_key_if_readable(
    key: &[u8],
    format: &str,
    typ: &str,
    passphrase: Option<&[u8]>,
) -> (r: Option<Result<KeyObjectHandle, AnyError>>)
    ensures
        r is Some <==> readable_public_key(key@, format@, typ@),
        r matches Some(result) ==> match public_key_from(key@, format@, typ@) {
            Ok(k) => result matches Ok(handle) && handle@ == KeyView::Public(k) && handle@.wf(),
            Err(e) => result matches Err(error) && error@ == e,
        },
{
    if is_readable_public_key(key, format, typ) {
        Some(op_node_create_public_key(key, format, typ, passphrase))
    } else {
        None
    }
}

/// Makes a secret key of the given bytes.
pub fn op_node_create_secret_key(key: Vec<u8>) -> (r: KeyObjectHandle)
    ensures
        r@ == KeyView::Secret(key@),
{
    KeyObjectHandle::SecretKey(key)
}

/// The name of the type of a private key.
pub open spec fn private_key_type(key: PrivateKeyView) -> Seq<char> {
    match key {
        PrivateKeyView::Rsa(_) => "rsa"@,
        PrivateKeyView::RsaPss(_) => "rsa-pss"@,
        PrivateKeyView::Dsa(_) => "dsa"@,
        PrivateKeyView::Ec(_) => "ec"@,
        PrivateKeyView::X25519(_) => "x25519"@,
        PrivateKeyView::Ed25519(_) => "ed25519"@,
        PrivateKeyView::Dh(_) => "dh"@,
    }
}

/// The name of the type of a public key.
pub open spec fn public_key_type(key: PublicKeyView) -> Seq<char> {
    match key {
        PublicKeyView::Rsa(_) => "rsa"@,
        PublicKeyView::RsaPss(_) => "rsa-pss"@,
        PublicKeyView::Dsa(_) => "dsa"@,
        PublicKeyView::Ec(_) => "ec"@,
        PublicKeyView::X25519(_) => "x25519"@,
        PublicKeyView::Ed25519(_) => "ed25519"@,
        PublicKeyView::Dh(_) => "dh"@,
    }
}

/// The name of the type of an asymmetric key.
pub open spec fn asymmetric_key_type(key: KeyView) -> Result<Seq<char>, ErrorView> {
    match key {
        KeyView::Private(key) => Ok(private_key_type(key)),
        KeyView::Public(key) => Ok(public_key_type(key)),
        KeyView::Secret(_) => Err(type_error_view("symmetric key is not an asymmetric key"@)),
    }
}

/// The name of the type of an asymmetric key.
pub fn op_node_get_asymmetric_key_type(handle: &KeyObjectHandle) -> (r: Result<
    &'static str,
    AnyError,
>)
    ensures
        match asymmetric_key_type(handle@) {
            Ok(name) => r matches Ok(n) && n@ == name,
            Err(e) => r matches Err(error) && error@ == e,
        },
{
    match handle {
        KeyObjectHandle::AsymmetricPrivateKey(key) => match key {
            AsymmetricPrivateKey::Rsa(_) => Ok("rsa"),
            AsymmetricPrivateKey::RsaPss(_) => Ok("rsa-pss"),
            AsymmetricPrivateKey::Dsa(_) => Ok("dsa"),
            AsymmetricPrivateKey::Ec(_) => Ok("ec"),
            AsymmetricPrivateKey::X25519(_) => Ok("x25519"),
            AsymmetricPrivateKey::Ed25519(_) => Ok("ed25519"),
            AsymmetricPrivateKey::Dh(_) => Ok("dh"),
        },
        KeyObjectHandle::AsymmetricPublicKey(key) => match key {
            AsymmetricPublicKey::Rsa(_) => Ok("rsa"),
            AsymmetricPublicKey::RsaPss(_) => Ok("rsa-pss"),
            AsymmetricPublicKey::Dsa(_) => Ok("dsa"),
            AsymmetricPublicKey::Ec(_) => Ok("ec"),
            AsymmetricPublicKey::X25519(_) => Ok("x25519"),
            AsymmetricPublicKey::Ed25519(_) => Ok("ed25519"),
            AsymmetricPublicKey::Dh(_) => Ok("dh"),
        },
        KeyObjectHandle::SecretKey(_) => Err(type_error("symmetric key is not an asymmetric key")),
    }
}

/// What JavaScript is told of an asymmetric key. A public exponent is given as
/// its big-endian bytes.
#[derive(Debug)]
pub enum AsymmetricKeyDetails {
    Rsa { modulus_length: usize, public_exponent: Vec<u8> },
    RsaPss {
        modulus_length: usize,
        public_exponent: Vec<u8>,
        hash_algorithm: &'static str,
        salt_length: u32,
    },
    Dsa { modulus_length: usize, divisor_length: usize },
    Ec { named_curve: &'static str },
    X25519,
    Ed25519,
    Dh,
}

/// What the details of a key say.
#[verifier::ext_equal]
pub enum DetailsView {
    Rsa { modulus_length: nat, public_exponent: Seq<u8> },
    RsaPss {
        modulus_length: nat,
        public_exponent: Seq<u8>,
        hash_algorithm: Seq<char>,
        salt_length: u32,
    },
    Dsa { modulus_length: nat, divisor_length: nat },
    Ec { named_curve: Seq<char> },
    X25519,
    Ed25519,
    Dh,
}

impl View for AsymmetricKeyDetails {
    type V = DetailsView;

    open spec fn view(&self) -> DetailsView {
        match self {
            AsymmetricKeyDetails::Rsa { modulus_length, public_exponent } => DetailsView::Rsa {
                modulus_length: *modulus_length as nat,
                public_exponent: public_exponent@,
            },
            AsymmetricKeyDetails::RsaPss {
                modulus_length,
                public_exponent,
                hash_algorithm,
                salt_length,
            } => DetailsView::RsaPss {
                modulus_length: *modulus_length as nat,
                public_exponent: public_exponent@,
                hash_algorithm: hash_algorithm@,
                salt_length: *salt_length,
            },
            AsymmetricKeyDetails::Dsa { modulus_length, divisor_length } => DetailsView::Dsa {
                modulus_length: *modulus_length as nat,
                divisor_length: *divisor_length as nat,
            },
            AsymmetricKeyDetails::Ec { named_curve } => DetailsView::Ec {
                named_curve: named_curve@,
            },
            AsymmetricKeyDetails::X25519 => DetailsView::X25519,
            AsymmetricKeyDetails::Ed25519 => DetailsView::Ed25519,
            AsymmetricKeyDetails::Dh => DetailsView::Dh,
        }
    }
}

/// The number of bits of a big-endian integer.
pub open spec fn bits(bytes: Seq<u8>) -> nat {
    bit_length(be_value(bytes))
}

/// The name of a hash.
pub open spec fn hash_name(hash: RsaPssHashAlgorithm) -> Seq<char> {
    match hash {
        RsaPssHashAlgorithm::Sha1 => "sha1"@,
        RsaPssHashAlgorithm::Sha256 => "sha256"@,
        RsaPssHashAlgorithm::Sha384 => "sha384"@,
        RsaPssHashAlgorithm::Sha512 => "sha512"@,
    }
}

/// The name of a curve.
pub open spec fn curve_name(curve: NamedCurve) -> Seq<char> {
    match curve {
        NamedCurve::P224 => "p224"@,
        NamedCurve::P256 => "p256"@,
        NamedCurve::P384 => "p384"@,
    }
}

/// The details of a public key.
pub open spec fn public_details(key: PublicKeyView) -> DetailsView {
    match key {
        PublicKeyView::Rsa(key) => DetailsView::Rsa {
            modulus_length: bits(key.n),
            public_exponent: key.e,
        },
        PublicKeyView::RsaPss(key) => DetailsView::RsaPss {
            modulus_length: bits(key.key.n),
            public_exponent: key.key.e,
            hash_algorithm: hash_name(key.hash_algorithm),
            salt_length: key.salt_length,
        },
        PublicKeyView::Dsa(key) => DetailsView::Dsa {
            modulus_length: bits(key.p),
            divisor_length: bits(key.q),
        },
        PublicKeyView::Ec(key) => DetailsView::Ec { named_curve: curve_name(key.curve) },
        PublicKeyView::X25519(_) => DetailsView::X25519,
        PublicKeyView::Ed25519(_) => DetailsView::Ed25519,
        PublicKeyView::Dh(_) => DetailsView::Dh,
    }
}

/// The details of a private key.
pub open spec fn private_details(key: PrivateKeyView) -> DetailsView {
    match key {
        PrivateKeyView::Rsa(key) => DetailsView::Rsa {
            modulus_length: bits(key.n),
            public_exponent: key.e,
        },
        PrivateKeyView::RsaPss(key) => DetailsView::RsaPss {
            modulus_length: bits(key.key.n),
            public_exponent: key.key.e,
            hash_algorithm: hash_name(key.hash_algorithm),
            salt_length: key.salt_length,
        },
        PrivateKeyView::Dsa(key) => DetailsView::Dsa {
            modulus_length: bits(key.verifying_key.p),
            divisor_length: bits(key.verifying_key.q),
        },
        PrivateKeyView::Ec(key) => DetailsView::Ec { named_curve: curve_name(key.curve) },
        PrivateKeyView::X25519(_) => DetailsView::X25519,
        PrivateKeyView::Ed25519(_) => DetailsView::Ed25519,
        PrivateKeyView::Dh(_) => DetailsView::Dh,
    }
}

/// The details of a key.
pub open spec fn key_details(key: KeyView) -> Result<DetailsView, ErrorView> {
    match key {
        KeyView::Private(key) => Ok(private_details(key)),
        KeyView::Public(key) => Ok(public_details(key)),
        KeyView::Secret(_) => Err(type_error_view("symmetric key is not an asymmetric key"@)),
    }
}

/// The bits of the numbers that the details speak of can be counted.
pub open spec fn countable(key: KeyView) -> bool {
    match key {
        KeyView::Private(PrivateKeyView::Rsa(key)) => key.n.len() * 8 <= usize::MAX,
        KeyView::Private(PrivateKeyView::RsaPss(key)) => key.key.n.len() * 8 <= usize::MAX,
        KeyView::Private(PrivateKeyView::Dsa(key)) => {
            &&& key.verifying_key.p.len() * 8 <= usize::MAX
            &&& key.verifying_key.q.len() * 8 <= usize::MAX
        },
        KeyView::Public(PublicKeyView::Rsa(key)) => key.n.len() * 8 <= usize::MAX,
        KeyView::Public(PublicKeyView::RsaPss(key)) => key.key.n.len() * 8 <= usize::MAX,
        KeyView::Public(PublicKeyView::Dsa(key)) => {
            &&& key.p.len() * 8 <= usize::MAX
            &&& key.q.len() * 8 <= usize::MAX
        },
        _ => true,
    }
}

/// The name of a hash.
fn hash_name_of(hash: RsaPssHashAlgorithm) -> (r: &'static str)
    ensures
        r@ == hash_name(hash),
{
    match hash {
        RsaPssHashAlgorithm::Sha1 => "sha1",
        RsaPssHashAlgorithm::Sha256 => "sha256",
        RsaPssHashAlgorithm::Sha384 => "sha384",
        RsaPssHashAlgorithm::Sha512 => "sha512",
    }
}

/// The details of a DSA key.
fn dsa_details(key: &DsaPublicKey) -> (r: AsymmetricKeyDetails)
    requires
        key@.p.len() * 8 <= usize::MAX,
        key@.q.len() * 8 <= usize::MAX,
    ensures
        r@ == public_details(PublicKeyView::Dsa(key@)),
{
    AsymmetricKeyDetails::Dsa {
        modulus_length: bits_of(key.p.as_slice()),
        divisor_length: bits_of(key.q.as_slice()),
    }
}

/// The details of an asymmetric key.
pub fn op_node_get_asymmetric_key_details(handle: &KeyObjectHandle) -> (r: Result<
    AsymmetricKeyDetails,
    AnyError,
>)
    requires
        countable(handle@),
    ensures
        result_view(r) == key_details(handle@),
{
    match handle {
        KeyObjectHandle::AsymmetricPrivateKey(private_key) => match private_key {
            AsymmetricPrivateKey::Rsa(key) => Ok(
                AsymmetricKeyDetails::Rsa {
                    modulus_length: bits_of(key.n.as_slice()),
                    public_exponent: bytes_clone(&key.e),
                },
            ),
            AsymmetricPrivateKey::RsaPss(key) => Ok(
                AsymmetricKeyDetails::RsaPss {
                    modulus_length: bits_of(key.key.n.as_slice()),
                    public_exponent: bytes_clone(&key.key.e),
                    hash_algorithm: hash_name_of(key.hash_algorithm),
                    salt_length: key.salt_length,
                },
            ),
            AsymmetricPrivateKey::Dsa(key) => Ok(dsa_details(&key.verifying_key)),
            AsymmetricPrivateKey::Ec(key) => {
                let named_curve = match key {
                    EcPrivateKey::P224(_) => "p224",
                    EcPrivateKey::P256(_) => "p256",
                    EcPrivateKey::P384(_) => "p384",
                };
                Ok(AsymmetricKeyDetails::Ec { named_curve })
            },
            AsymmetricPrivateKey::X25519(_) => Ok(AsymmetricKeyDetails::X25519),
            AsymmetricPrivateKey::Ed25519(_) => Ok(AsymmetricKeyDetails::Ed25519),
            AsymmetricPrivateKey::Dh(_) => Ok(AsymmetricKeyDetails::Dh),
        },
        KeyObjectHandle::AsymmetricPublicKey(public_key) => match public_key {
            AsymmetricPublicKey::Rsa(key) => Ok(
                AsymmetricKeyDetails::Rsa {
                    modulus_length: bits_of(key.n.as_slice()),
                    public_exponent: bytes_clone(&key.e),
                },
            ),
            AsymmetricPublicKey::RsaPss(key) => Ok(
                AsymmetricKeyDetails::RsaPss {
                    modulus_length: bits_of(key.key.n.as_slice()),
                    public_exponent: bytes_clone(&key.key.e),
                    hash_algorithm: hash_name_of(key.hash_algorithm),
                    salt_length: key.salt_length,
                },
            ),
            AsymmetricPublicKey::Dsa(key) => Ok(dsa_details(key)),
            AsymmetricPublicKey::Ec(key) => {
                let named_curve = match key {
                    EcPublicKey::P224(_) => "p224",
                    EcPublicKey::P256(_) => "p256",
                    EcPublicKey::P384(_) => "p384",
                };
                Ok(AsymmetricKeyDetails::Ec { named_curve })
            },
            AsymmetricPublicKey::X25519(_) => Ok(AsymmetricKeyDetails::X25519),
            AsymmetricPublicKey::Ed25519(_) => Ok(AsymmetricKeyDetails::Ed25519),
            AsymmetricPublicKey::Dh(_) => Ok(AsymmetricKeyDetails::Dh),
        },
        KeyObjectHandle::SecretKey(_) => Err(type_error("symmetric key is not an asymmetric key")),
    }
}

/// The size of a secret key in bits.
pub open spec fn symmetric_key_size(key: KeyView) -> Result<nat, ErrorView> {
    match key {
        KeyView::Secret(key) => Ok(key.len() * 8),
        _ => Err(type_error_view("asymmetric key is not a symmetric key"@)),
    }
}

/// The size of a secret key in bits.
pub fn op_node_get_symmetric_key_size(handle: &KeyObjectHandle) -> (r: Result<usize, AnyError>)
    requires
        symmetric_key_size(handle@) matches Ok(size) ==> size <= usize::MAX,
    ensures
        match symmetric_key_size(handle@) {
            Ok(size) => r matches Ok(n) && n == size,
            Err(e) => r matches Err(error) && error@ == e,
        },
{
    match handle {
        KeyObjectHandle::AsymmetricPrivateKey(_) => Err(
            type_error("asymmetric key is not a symmetric key"),
        ),
        KeyObjectHandle::AsymmetricPublicKey(_) => Err(
            type_error("asymmetric key is not a symmetric key"),
        ),
        KeyObjectHandle::SecretKey(key) => Ok(key.len() * 8),
    }
}

/// Makes a secret key of `len` bytes by chance.
pub fn op_node_generate_secret_key(len: usize) -> (r: KeyObjectHandle)
    ensures
        r@ matches KeyView::Secret(key) && key.len() == len,
{
    KeyObjectHandle::SecretKey(random_bytes(len))
}

/// A private key and the public key that belongs to it, each to be taken once.
pub struct KeyObjectHandlePair {
    pub private_key: Option<KeyObjectHandle>,
    pub public_key: Option<KeyObjectHandle>,
}

/// What an optional key says.
pub open spec fn opt_key(key: Option<KeyObjectHandle>) -> Option<KeyView> {
    match key {
        Some(key) => Some(key@),
        None => None,
    }
}

impl KeyObjectHandlePair {
    /// Pairs two keys.
    pub fn new(private_key: AsymmetricPrivateKey, public_key: AsymmetricPublicKey) -> (r: Self)
        ensures
            opt_key(r.private_key) == Some(KeyView::Private(private_key@)),
            opt_key(r.public_key) == Some(KeyView::Public(public_key@)),
    {
        KeyObjectHandlePair {
            private_key: Some(KeyObjectHandle::AsymmetricPrivateKey(private_key)),
            public_key: Some(KeyObjectHandle::AsymmetricPublicKey(public_key)),
        }
    }

    /// The pair holds this private key and the public key that belongs to it.
    pub open spec fn holds(self, key: PrivateKeyView) -> bool {
        &&& opt_key(self.private_key) == Some(KeyView::Private(key))
        &&& opt_key(self.public_key) == Some(KeyView::Public(public_of(key)))
    }
}

/// Takes the public key out of a pair. Afterwards it is no longer there.
pub fn op_node_get_public_key_from_pair(pair: &mut KeyObjectHandlePair) -> (r: Option<
    KeyObjectHandle,
>)
    ensures
        r == old(pair).public_key,
        final(pair).public_key is None,
        final(pair).private_key == old(pair).private_key,
{
    pair.public_key.take()
}

/// Takes the private key out of a pair. Afterwards it is no longer there.
pub fn op_node_get_private_key_from_pair(pair: &mut KeyObjectHandlePair) -> (r: Option<
    KeyObjectHandle,
>)
    ensures
        r == old(pair).private_key,
        final(pair).private_key is None,
        final(pair).public_key == old(pair).public_key,
{
    pair.private_key.take()
}

/// The pair of a private key and the public key derived from it.
fn pair_of(private_key: AsymmetricPrivateKey) -> (r: KeyObjectHandlePair)
    requires
        !(private_key@ is Dh),
    ensures
        r.holds(private_key@),
{
    let public_key = private_key.to_public_key();
    KeyObjectHandlePair::new(private_key, public_key)
}

/// Makes an RSA key with a modulus of so many bits and a given public exponent.
pub fn generate_rsa(modulus_length: usize, public_exponent: usize) -> (r: KeyObjectHandlePair)
    requires
        rsa_key_exists(modulus_length as int, public_exponent as int),
    ensures
        exists|key: PrivateKeyView|
            {
                &&& #[trigger] r.holds(key)
                &&& key.wf()
                &&& key matches PrivateKeyView::Rsa(rsa)
                &&& bits(rsa.n) == modulus_length
                &&& be_value(rsa.e) == public_exponent
                &&& modulus_length <= 4096 ==> rsa.public().is_readable()
            },
{
    let private_key = AsymmetricPrivateKey::Rsa(random_rsa_key(modulus_length, public_exponent));
    pair_of(private_key)
}

/// Makes an RSA key pair.
pub fn op_node_generate_rsa_key(modulus_length: usize, public_exponent: usize) -> (r:
    KeyObjectHandlePair)
    requires
        rsa_key_exists(modulus_length as int, public_exponent as int),
    ensures
        exists|key: PrivateKeyView|
            {
                &&& #[trigger] r.holds(key)
                &&& key.wf()
                &&& key matches PrivateKeyView::Rsa(rsa)
                &&& bits(rsa.n) == modulus_length
                &&& be_value(rsa.e) == public_exponent
                &&& modulus_length <= 4096 ==> rsa.public().is_readable()
            },
{
    generate_rsa(modulus_length, public_exponent)
}

/// The size of key with these lengths, where there is one.
pub open spec fn dsa_key_size(modulus_length: int, divisor_length: int) -> Option<DsaKeySize> {
    if modulus_length == 1024 && divisor_length == 160 {
        Some(DsaKeySize::L1024N160)
    } else if modulus_length == 2048 && divisor_length == 224 {
        Some(DsaKeySize::L2048N224)
    } else if modulus_length == 2048 && divisor_length == 256 {
        Some(DsaKeySize::L2048N256)
    } else if modulus_length == 3072 && divisor_length == 256 {
        Some(DsaKeySize::L3072N256)
    } else {
        None
    }
}

/// The size of key with these lengths, where there is one.
pub fn select_dsa_key_size(modulus_length: usize, divisor_length: usize) -> (r: Option<DsaKeySize>)
    ensures
        r == dsa_key_size(modulus_length as int, divisor_length as int),
{
    match (modulus_length, divisor_length) {
        (1024, 160) => Some(DsaKeySize::L1024N160),
        (2048, 224) => Some(DsaKeySize::L2048N224),
        (2048, 256) => Some(DsaKeySize::L2048N256),
        (3072, 256) => Some(DsaKeySize::L3072N256),
        _ => None,
    }
}

/// What making a DSA key gives: an error unless the lengths go together.
pub open spec fn dsa_generated(
    r: Result<KeyObjectHandlePair, AnyError>,
    modulus_length: int,
    divisor_length: int,
) -> bool {
    match dsa_key_size(modulus_length, divisor_length) {
        None => r matches Err(e) && e@ == type_error_view(
            "Invalid modulusLength+divisorLength combination"@,
        ),
        Some(_) => {
            &&& r matches Ok(pair)
            &&& exists|key: PrivateKeyView|
                {
                    &&& #[trigger] pair.holds(key)
                    &&& key.wf()
                    &&& key matches PrivateKeyView::Dsa(dsa)
                    &&& bits(dsa.verifying_key.p) <= modulus_length
                    &&& bits(dsa.verifying_key.q) == divisor_length
                    &&& dsa.is_consistent()
                }
        },
    }
}

/// Makes a DSA key pair.
pub fn dsa_generate(modulus_length: usize, divisor_length: usize) -> (r: Result<
    KeyObjectHandlePair,
    AnyError,
>)
    ensures
        dsa_generated(r, modulus_length as int, divisor_length as int),
{
    match select_dsa_key_size(modulus_length, divisor_length) {
        None => Err(type_error("Invalid modulusLength+divisorLength combination")),
        Some(size) => {
            let private_key = AsymmetricPrivateKey::Dsa(random_dsa_key(size));
            Ok(pair_of(private_key))
        },
    }
}

/// Makes a DSA key pair.
pub fn op_node_generate_dsa_key(modulus_length: usize, divisor_length: usize) -> (r: Result<
    KeyObjectHandlePair,
    AnyError,
>)
    ensures
        dsa_generated(r, modulus_length as int, divisor_length as int),
{
    dsa_generate(modulus_length, divisor_length)
}

/// The curve that a name stands for in a request to make a key.
pub open spec fn curve_of_name(name: Seq<char>) -> Option<NamedCurve> {
    if name == "P-224"@ || name == "prime224v1"@ || name == "secp224r1"@ {
        Some(NamedCurve::P224)
    } else if name == "P-256"@ || name == "prime256v1"@ || name == "secp256r1"@ {
        Some(NamedCurve::P256)
    } else if name == "P-384"@ || name == "prime384v1"@ || name == "secp384r1"@ {
        Some(NamedCurve::P384)
    } else {
        None
    }
}

/// What making an elliptic-curve key gives: an error unless the name is that of
/// a curve.
pub open spec fn ec_generated(r: Result<KeyObjectHandlePair, AnyError>, name: Seq<char>) -> bool {
    match curve_of_name(name) {
        None => r matches Err(e) && e@ == type_error_view("unsupported named curve: "@ + name),
        Some(curve) => {
            &&& r matches Ok(pair)
            &&& exists|key: PrivateKeyView|
                {
                    &&& #[trigger] pair.holds(key)
                    &&& key matches PrivateKeyView::Ec(ec)
                    &&& ec.curve == curve
                }
        },
    }
}

/// Makes an elliptic-curve key pair.
pub fn ec_generate(named_curve: &str) -> (r: Result<KeyObjectHandlePair, AnyError>)
    ensures
        ec_generated(r, named_curve@),
{
    let private_key = if str_eq(named_curve, "P-224") || str_eq(named_curve, "prime224v1")
        || str_eq(named_curve, "secp224r1") {
        EcPrivateKey::P224(P224SecretKey::random())
    } else if str_eq(named_curve, "P-256") || str_eq(named_curve, "prime256v1") || str_eq(
        named_curve,
        "secp256r1",
    ) {
        EcPrivateKey::P256(P256SecretKey::random())
    } else if str_eq(named_curve, "P-384") || str_eq(named_curve, "prime384v1") || str_eq(
        named_curve,
        "secp384r1",
    ) {
        EcPrivateKey::P384(P384SecretKey::random())
    } else {
        return Err(type_error(concat2("unsupported named curve: ", named_curve).as_str()));
    };
    Ok(pair_of(AsymmetricPrivateKey::Ec(private_key)))
}

/// Makes an elliptic-curve key pair.
pub fn op_node_generate_ec_key(named_curve: &str) -> (r: Result<KeyObjectHandlePair, AnyError>)
    ensures
        ec_generated(r, named_curve@),
{
    ec_generate(named_curve)
}

/// Makes an X25519 key pair.
pub fn x25519_generate() -> (r: KeyObjectHandlePair)
    ensures
        exists|secret: Seq<u8>| #[trigger] r.holds(PrivateKeyView::X25519(secret)),
{
    let secret = random_x25519_secret();
    let pair = pair_of(AsymmetricPrivateKey::X25519(secret));
    assert(pair.holds(PrivateKeyView::X25519(secret@)));
    pair
}

/// Makes an X25519 key pair.
pub fn op_node_generate_x25519_key() -> (r: KeyObjectHandlePair)
    ensures
        exists|secret: Seq<u8>| #[trigger] r.holds(PrivateKeyView::X25519(secret)),
{
    x25519_generate()
}

/// Makes an Ed25519 key pair.
pub fn ed25519_generate() -> (r: KeyObjectHandlePair)
    ensures
        exists|secret: Seq<u8>| #[trigger] r.holds(PrivateKeyView::Ed25519(secret)),
{
    let secret = random_ed25519_secret();
    let pair = pair_of(AsymmetricPrivateKey::Ed25519(secret));
    assert(pair.holds(PrivateKeyView::Ed25519(secret@)));
    pair
}

/// Makes an Ed25519 key pair.
pub fn op_node_generate_ed25519_key() -> (r: KeyObjectHandlePair)
    ensures
        exists|secret: Seq<u8>| #[trigger] r.holds(PrivateKeyView::Ed25519(secret)),
{
    ed25519_generate()
}

/// A secret key, or an error where the key is none.
pub open spec fn secret_or_error(key: KeyView) -> Result<Seq<u8>, ErrorView> {
    match key.secret_key() {
        Some(key) => Ok(key),
        None => Err(type_error_view("key is not a secret key"@)),
    }
}

/// The bytes of a secret key.
pub fn op_node_export_secret_key(handle: &KeyObjectHandle) -> (r: Result<Vec<u8>, AnyError>)
    ensures
        result_view(r) == secret_or_error(handle@),
{
    match handle.as_secret_key() {
        Some(key) => Ok(vstd::slice::slice_to_vec(key)),
        None => Err(type_error("key is not a secret key")),
    }
}

/// A secret key in URL-safe Base64 without padding.
pub fn op_node_export_secret_key_b64url(handle: &KeyObjectHandle) -> (r: Result<String, AnyError>)
    ensures
        match secret_or_error(handle@) {
            Ok(key) => r matches Ok(text) && text@ == base64url(key),
            Err(e) => r matches Err(error) && error@ == e,
        },
{
    match handle.as_secret_key() {
        Some(key) => Ok(base64url_encode(key)),
        None => Err(type_error("key is not a secret key")),
    }
}

/// A public key, or the public half of a private one, in a PEM file.
pub open spec fn exported_public_pem(key: KeyView, typ: Seq<char>) -> Result<Seq<char>, ErrorView> {
    match key.public_key() {
        Some(key) => public_key_pem(key, typ),
        None => Err(type_error_view("key is not an asymmetric public key"@)),
    }
}

/// Writes a public key, or the public half of a private one, as a PEM file. What
/// is written reads back as the key.
pub fn op_node_export_public_key_pem(handle: &KeyObjectHandle, typ: &str) -> (r: Result<
    String,
    AnyError,
>)
    requires
        !handle@.is_dh_private(),
    ensures
        result_view(r) == exported_public_pem(handle@, typ@),
        handle@.wf() ==> (r matches Ok(text) ==> {
            &&& handle@.public_key() matches Some(key)
            &&& forall|bytes: Seq<u8>, any_typ: Seq<char>|
                valid_utf8(bytes) && decode_utf8(bytes) == text@ ==> {
                    &&& readable_public_key(bytes, "pem"@, any_typ)
                    &&& same_public_key(#[trigger] public_key_from(bytes, "pem"@, any_typ), key)
                }
        }),
{
    match handle.as_public_key() {
        Some(Cow::Borrowed(key)) => key.export_pem(typ),
        Some(Cow::Owned(key)) => key.export_pem(typ),
        None => Err(type_error("key is not an asymmetric public key")),
    }
}

/// A public key, or the public half of a private one, in DER.
pub open spec fn exported_public_der(key: KeyView, typ: Seq<char>) -> Result<Seq<u8>, ErrorView> {
    match key.public_key() {
        Some(key) => public_der(key, typ),
        None => Err(type_error_view("key is not an asymmetric public key"@)),
    }
}

/// Writes a public key, or the public half of a private one, in DER. What is
/// written reads back as the key.
pub fn op_node_export_public_key_der(handle: &KeyObjectHandle, typ: &str) -> (r: Result<
    Vec<u8>,
    AnyError,
>)
    requires
        !handle@.is_dh_private(),
    ensures
        result_view(r) == exported_public_der(handle@, typ@),
        handle@.wf() ==> (r matches Ok(der) ==> {
            &&& handle@.public_key() matches Some(key)
            &&& readable_public_key(der@, "der"@, typ@)
            &&& same_public_key(public_key_from(der@, "der"@, typ@), key)
        }),
{
    match handle.as_public_key() {
        Some(Cow::Borrowed(key)) => key.export_der(typ),
        Some(Cow::Owned(key)) => key.export_der(typ),
        None => Err(type_error("key is not an asymmetric public key")),
    }
}

/// A private key in a PEM file.
pub open spec fn exported_private_pem(key: KeyView, typ: Seq<char>) -> Result<
    Seq<char>,
    ErrorView,
> {
    match key.private_key() {
        Some(key) => private_key_pem(key, typ),
        None => Err(type_error_view("key is not an asymmetric private key"@)),
    }
}

/// Writes a private key as a PEM file. What is written as PKCS#8 or PKCS#1 reads
/// back as the key.
pub fn op_node_export_private_key_pem(handle: &KeyObjectHandle, typ: &str) -> (r: Result<
    String,
    AnyError,
>)
    ensures
        result_view(r) == exported_private_pem(handle@, typ@),
        handle@.wf() && typ@ != "sec1"@ ==> (r matches Ok(text) ==> {
            &&& handle@.private_key() matches Some(key)
            &&& forall|bytes: Seq<u8>, any_typ: Seq<char>|
                valid_utf8(bytes) && decode_utf8(bytes) == text@ ==> same_private_key(
                    #[trigger] private_key_from(bytes, "pem"@, any_typ, None),
                    key,
                )
        }),
{
    match handle.as_private_key() {
        Some(key) => key.export_pem(typ),
        None => Err(type_error("key is not an asymmetric private key")),
    }
}

/// A private key in DER.
pub open spec fn exported_private_der(key: KeyView, typ: Seq<char>) -> Result<Seq<u8>, ErrorView> {
    match key.private_key() {
        Some(key) => private_der(key, typ),
        None => Err(type_error_view("key is not an asymmetric private key"@)),
    }
}

/// Writes a private key in DER. What is written as PKCS#8 or PKCS#1 reads back as
/// the key.
pub fn op_node_export_private_key_der(handle: &KeyObjectHandle, typ: &str) -> (r: Result<
    Vec<u8>,
    AnyError,
>)
    ensures
        result_view(r) == exported_private_der(handle@, typ@),
        handle@.wf() && typ@ != "sec1"@ ==> (r matches Ok(der) ==> {
            &&& handle@.private_key() matches Some(key)
            &&& same_private_key(private_key_from(der@, "der"@, typ@, None), key)
        }),
{
    match handle.as_private_key() {
        Some(key) => key.export_der(typ),
        None => Err(type_error("key is not an asymmetric private key")),
    }
}

/// The kind of a key.
pub open spec fn key_kind(key: KeyView) -> Seq<char> {
    match key {
        KeyView::Private(_) => "private"@,
        KeyView::Public(_) => "public"@,
        KeyView::Secret(_) => "secret"@,
    }
}

/// The kind of a key.
pub fn op_node_key_type(handle: &KeyObjectHandle) -> (r: &'static str)
    ensures
        r@ == key_kind(handle@),
{
    match handle {
        KeyObjectHandle::AsymmetricPrivateKey(_) => "private",
        KeyObjectHandle::AsymmetricPublicKey(_) => "public",
        KeyObjectHandle::SecretKey(_) => "secret",
    }
}

/// The public key that belongs to a private key.
pub fn op_node_derive_public_key_from_private_key(handle: &KeyObjectHandle) -> (r: Result<
    KeyObjectHandle,
    AnyError,
>)
    requires
        !handle@.is_dh_private(),
    ensures
        match handle@.private_key() {
            Some(key) => r matches Ok(public) && public@ == KeyView::Public(public_of(key)),
            None => r matches Err(e) && e@ == type_error_view("expected private key"@),
        },
        handle@.wf() ==> (r matches Ok(public) ==> public@.wf()),
{
    match handle.as_private_key() {
        Some(private_key) => Ok(KeyObjectHandle::AsymmetricPublicKey(private_key.to_public_key())),
        None => Err(type_error("expected private key")),
    }
}

} // verus!
