//! What holds of key objects across operations.
use vstd::prelude::*;
use vstd::arithmetic::power::lemma_pow0;
use vstd::arithmetic::power::pow;
use vstd::arithmetic::power2::lemma2_to64;
use vstd::arithmetic::power2::lemma_pow2_unfold;
use vstd::arithmetic::power2::pow2;
use vstd::utf8::decode_utf8;
use vstd::utf8::valid_utf8;
use vstd::arithmetic::power2::lemma_pow2_strictly_increases;
use crate::error::type_error_view;
use crate::error::AnyError;
use crate::error::ErrorView;
use crate::keys::ec::ec_pkcs8;
use crate::keys::ec::ec_point;
use crate::keys::ec::ec_public;
use crate::keys::ec::ec_sec1;
use crate::keys::ec::ec_secret_key;
use crate::keys::ec::p224_pkcs8;
use crate::keys::ec::p224_point;
use crate::keys::ec::p224_public_key;
use crate::keys::ec::p224_sec1;
use crate::keys::ec::p224_secret_key;
use crate::keys::ec::p256_pkcs8;
use crate::keys::ec::p256_point;
use crate::keys::ec::p256_public_key;
use crate::keys::ec::p256_sec1;
use crate::keys::ec::p256_secret_key;
use crate::keys::ec::p384_pkcs8;
use crate::keys::ec::p384_point;
use crate::keys::ec::p384_public_key;
use crate::keys::ec::p384_sec1;
use crate::keys::ec::p384_secret_key;
use crate::keys::export::pem_of_der;
use crate::keys::export::private_der;
use crate::keys::export::public_der;
use crate::keys::export::public_of;
use crate::keys::export::same_private_key;
use crate::keys::export::same_public_key;
use crate::keys::import::has_whole_key;
use crate::keys::import::lemma_labels_differ;
use crate::keys::import::not_utf8;
use crate::keys::import::private_key_from;
use crate::keys::import::private_key_of_info;
use crate::keys::import::public_key_document;
use crate::keys::import::public_key_from;
use crate::keys::import::public_key_of_spki;
use crate::keys::import::public_pem_document;
use crate::keys::import::readable_private_key;
use crate::keys::import::readable_public_key;
use crate::keys::import::structure_in;
use crate::keys::ops::asymmetric_key_type;
use crate::keys::ops::bits;
use crate::keys::ops::countable;
use crate::keys::ops::curve_of_name;
use crate::keys::ops::dsa_generated;
use crate::keys::ops::dsa_key_size;
use crate::keys::ops::ec_generated;
use crate::keys::ops::exported_private_der;
use crate::keys::ops::exported_private_pem;
use crate::keys::ops::exported_public_der;
use crate::keys::ops::exported_public_pem;
use crate::keys::ops::key_details;
use crate::keys::ops::key_kind;
use crate::keys::ops::secret_or_error;
use crate::keys::ops::symmetric_key_size;
use crate::keys::ops::DetailsView;
use crate::keys::ops::KeyObjectHandlePair;
use crate::keys::outside::algorithm_identifier;
use crate::keys::outside::decrypted_der;
use crate::keys::outside::der_u32;
use crate::keys::outside::dsa_private_key;
use crate::keys::outside::dsa_private_pkcs8;
use crate::keys::outside::dsa_public_key;
use crate::keys::outside::dsa_public_spki;
use crate::keys::outside::ed25519_public;
use crate::keys::outside::ed25519_valid;
use crate::keys::outside::leading_value;
use crate::keys::outside::oid_of_any;
use crate::keys::outside::pem_text;
use crate::keys::outside::pkcs1_private_document;
use crate::keys::outside::pkcs1_public_document;
use crate::keys::outside::pkcs8_der;
use crate::keys::outside::pkcs8_document;
use crate::keys::outside::private_key_info;
use crate::keys::outside::public_document;
use crate::keys::outside::public_pem;
use crate::keys::outside::reads_as_pkcs8;
use crate::keys::outside::reads_as_spki;
use crate::keys::outside::rsa_private_key;
use crate::keys::outside::rsa_private_pkcs1;
use crate::keys::outside::rsa_private_pkcs8;
use crate::keys::outside::rsa_public_key;
use crate::keys::outside::rsa_public_pkcs1;
use crate::keys::outside::rsa_public_spki;
use crate::keys::outside::scrypt_cost;
use crate::keys::outside::sec1_document;
use crate::keys::outside::secret_pem;
use crate::keys::outside::spki;
use crate::keys::outside::spki_der;
use crate::keys::outside::x25519_public;
use crate::keys::primes::rsa_key_exists;
use crate::keys::pss::explicit_field;
use crate::keys::pss::pss_hash;
use crate::keys::pss::pss_parameters;
use crate::keys::pss::PssView;
use crate::keys::scrypt::ScryptCost;
use crate::keys::types::be_value;
use crate::keys::types::bit_length;
use crate::keys::types::curve_of_oid;
use crate::keys::types::curve_oid;
use crate::keys::types::lemma_curve_oids_differ;
use crate::keys::types::lemma_key_oids_differ;
use crate::keys::types::opt_bytes;
use crate::keys::types::AlgorithmView;
use crate::keys::types::AnyView;
use crate::keys::types::DsaPrivateKey;
use crate::keys::types::EcView;
use crate::keys::types::KeyObjectHandle;
use crate::keys::types::KeyView;
use crate::keys::types::NamedCurve;
use crate::keys::types::PrivateKeyInfo;
use crate::keys::types::PrivateKeyInfoView;
use crate::keys::types::PrivateKeyView;
use crate::keys::types::PublicKeyView;
use crate::keys::types::RsaPrivateKey;
use crate::keys::types::RsaPssHashAlgorithm;
use crate::keys::types::RsaPublicKey;
use crate::keys::types::SpkiView;
use crate::keys::types::SubjectPublicKeyInfo;
use crate::keys::types::DH_KEY_AGREEMENT_OID;
use crate::keys::types::DSA_OID;
use crate::keys::types::EC_OID;
use crate::keys::types::ED25519_OID;
use crate::keys::types::ID_MFG1;
use crate::keys::types::ID_SECP224R1_OID;
use crate::keys::types::ID_SECP256R1_OID;
use crate::keys::types::ID_SECP384R1_OID;
use crate::keys::types::ID_SHA1_OID;
use crate::keys::types::ID_SHA256_OID;
use crate::keys::types::ID_SHA384_OID;
use crate::keys::types::ID_SHA512_OID;
use crate::keys::types::RSASSA_PSS_OID;
use crate::keys::types::RSA_ENCRYPTION_OID;
use crate::keys::types::X25519_OID;
use crate::text::decimal;
use crate::text::law_digits_stand_for_number;
use crate::text::number_of;
use crate::text::valid_prefix_len;

verus! {

/// A public key that was derived from a private key has the private key's type
/// and details.
pub proof fn law_derived_public_key_keeps_details(key: PrivateKeyView)
    requires
        !(key is Dh),
    ensures
        asymmetric_key_type(KeyView::Public(public_of(key))) == asymmetric_key_type(
            KeyView::Private(key),
        ),
        key_details(KeyView::Public(public_of(key))) == key_details(KeyView::Private(key)),
{
}

/// Exporting the public half of a private key and exporting the public key that
/// was derived from it give the same.
pub proof fn law_public_export_of_private_key(key: PrivateKeyView, typ: Seq<char>)
    requires
        !(key is Dh),
    ensures
        exported_public_der(KeyView::Private(key), typ) == exported_public_der(
            KeyView::Public(public_of(key)),
            typ,
        ),
{
}

/// A secret key exports as the bytes it was made of, is eight times as many bits
/// long, and has neither the type of an asymmetric key nor an asymmetric export.
pub proof fn law_secret_key(bytes: Seq<u8>, typ: Seq<char>)
    ensures
        secret_or_error(KeyView::Secret(bytes)) == Ok::<_, ErrorView>(bytes),
        symmetric_key_size(KeyView::Secret(bytes)) == Ok::<nat, ErrorView>(8 * bytes.len()),
        asymmetric_key_type(KeyView::Secret(bytes)) is Err,
        key_details(KeyView::Secret(bytes)) is Err,
        exported_public_der(KeyView::Secret(bytes), typ) is Err,
        exported_private_der(KeyView::Secret(bytes), typ) is Err,
{
}

/// The object identifier that a private key stands under.
pub open spec fn private_key_oid(key: PrivateKeyView) -> Seq<u8> {
    match key {
        PrivateKeyView::Rsa(_) => RSA_ENCRYPTION_OID@,
        PrivateKeyView::RsaPss(_) => RSASSA_PSS_OID@,
        PrivateKeyView::Dsa(_) => DSA_OID@,
        PrivateKeyView::Ec(_) => EC_OID@,
        PrivateKeyView::X25519(_) => X25519_OID@,
        PrivateKeyView::Ed25519(_) => ED25519_OID@,
        PrivateKeyView::Dh(_) => DH_KEY_AGREEMENT_OID@,
    }
}

/// The object identifier that a public key stands under.
pub open spec fn public_key_oid(key: PublicKeyView) -> Seq<u8> {
    match key {
        PublicKeyView::Rsa(_) => RSA_ENCRYPTION_OID@,
        PublicKeyView::RsaPss(_) => RSASSA_PSS_OID@,
        PublicKeyView::Dsa(_) => DSA_OID@,
        PublicKeyView::Ec(_) => EC_OID@,
        PublicKeyView::X25519(_) => X25519_OID@,
        PublicKeyView::Ed25519(_) => ED25519_OID@,
        PublicKeyView::Dh(_) => DH_KEY_AGREEMENT_OID@,
    }
}

/// The type of a private key that is read is the one that its object identifier
/// names: no key is read under another's.
pub proof fn law_private_key_type_follows_oid(info: PrivateKeyInfoView)
    ensures
        private_key_of_info(info) matches Ok(key) ==> private_key_oid(key) == info.algorithm.oid,
{
}

/// The type of a public key that is read is the one that its object identifier
/// names: no key is read under another's.
pub proof fn law_public_key_type_follows_oid(info: SpkiView)
    ensures
        public_key_of_spki(info) matches Ok(key) ==> public_key_oid(key) == info.algorithm.oid,
{
}

/// Keys of different types stand under different object identifiers.
pub proof fn law_oid_tells_type(a: PrivateKeyView, b: PrivateKeyView)
    requires
        private_key_oid(a) == private_key_oid(b),
    ensures
        asymmetric_key_type(KeyView::Private(a)) == asymmetric_key_type(KeyView::Private(b)),
{
    lemma_key_oids_differ();
}

/// A passphrase is refused for every private key in DER that is not PKCS#8.
pub proof fn law_passphrase_only_for_pkcs8(key: Seq<u8>, typ: Seq<char>, passphrase: Seq<u8>)
    requires
        typ != "pkcs8"@,
    ensures
        private_key_from(key, "der"@, typ, Some(passphrase)) is Err,
{
    reveal_strlit("pem");
    reveal_strlit("der");
    assert("pem"@[0] == 'p' && "der"@[0] == 'd');
}

/// A PEM file whose label is not that of a public key is never read as one.
pub proof fn law_public_pem_needs_public_label(pem: Seq<char>)
    ensures
        public_pem_document(pem) is Ok ==> {
            &&& public_pem(pem) matches Some((label, document))
            &&& label == "PUBLIC KEY"@ || label == "RSA PUBLIC KEY"@
        },
{
}

/// RSASSA-PSS keys cannot be written, and only RSA keys can be written as PKCS#1.
pub proof fn law_export_limits(private: PrivateKeyView, public: PublicKeyView, typ: Seq<char>)
    ensures
        private is RsaPss ==> private_der(private, typ) is Err,
        public is RsaPss ==> public_der(public, typ) is Err,
        private_der(private, "pkcs1"@) is Ok ==> private is Rsa,
        public_der(public, "pkcs1"@) is Ok ==> public is Rsa,
        private_der(private, "sec1"@) is Ok ==> private is Ec,
        typ != "pkcs1"@ && typ != "sec1"@ && typ != "pkcs8"@ ==> private_der(private, typ) == Err::<
            Seq<u8>,
            _,
        >(type_error_view("unsupported key type: "@ + typ)),
{
    reveal_strlit("pkcs1");
    reveal_strlit("sec1");
    assert("pkcs1"@.len() == 5 && "sec1"@.len() == 4);
}

/// A private key in a PEM file reads as its document does in DER of the type that
/// its label names. Without a passphrase an encrypted one is refused, and so is a
/// file with a label that names no type; with one only an encrypted one is read.
pub proof fn law_pem_reads_as_der(
    key: Seq<u8>,
    typ: Seq<char>,
    label: Seq<char>,
    document: Seq<u8>,
    passphrase: Seq<u8>,
)
    requires
        valid_utf8(key),
        secret_pem(decode_utf8(key)) == Some((label, document)),
    ensures
        ({
            let read = private_key_from(key, "pem"@, typ, None);
            let decrypted = private_key_from(key, "pem"@, typ, Some(passphrase));
            let from_der = private_key_from(document, "der"@, "pkcs8"@, Some(passphrase));
            &&& label == "EC PRIVATE KEY"@ ==> read == private_key_from(
                document,
                "der"@,
                "sec1"@,
                None,
            )
            &&& label == "RSA PRIVATE KEY"@ ==> read == private_key_from(
                document,
                "der"@,
                "pkcs1"@,
                None,
            )
            &&& label == "PRIVATE KEY"@ ==> (forall|info: PrivateKeyInfoView| #[trigger]
                reads_as_pkcs8(document, info) ==> read == private_key_from(
                    document,
                    "der"@,
                    "pkcs8"@,
                    None,
                ))
            &&& read is Ok ==> label == "EC PRIVATE KEY"@ || label == "RSA PRIVATE KEY"@ || label
                == "PRIVATE KEY"@
            &&& label == "ENCRYPTED PRIVATE KEY"@ ==> decrypted is Ok == from_der is Ok && (
            decrypted is Ok ==> decrypted == from_der)
            &&& label != "ENCRYPTED PRIVATE KEY"@ ==> decrypted is Err
        }),
{
    lemma_labels_differ();
}

/// What is read without a passphrase is what the structure that the bytes hold
/// holds; a PEM file that is none, or is not UTF-8, is refused.
pub proof fn law_no_key_without_structure(key: Seq<u8>, format: Seq<char>, typ: Seq<char>)
    ensures
        structure_in(key, format, typ) is None ==> private_key_from(key, format, typ, None) is Err,
        structure_in(key, format, typ) matches Some((of, structure)) ==> (of != "pkcs8"@
            ==> private_key_from(key, format, typ, None) == private_key_from(
            structure,
            "der"@,
            of,
            None,
        )),
        private_key_from(key, format, typ, None) is Ok ==> (structure_in(key, format, typ)
            matches Some((of, _)) && (of == "pkcs8"@ || of == "pkcs1"@ || of == "sec1"@)),
{
    lemma_labels_differ();
}

/// A key in a SEC1 structure that names its curve reads as that key on that curve,
/// and on no other.
pub proof fn law_sec1_key_is_read(
    sec1: Seq<u8>,
    document: Seq<u8>,
    info: PrivateKeyInfoView,
    any: AnyView,
    curve: NamedCurve,
)
    requires
        sec1_document(sec1) == Some(document),
        private_key_info(document) == Some(info),
        info.algorithm.oid == EC_OID@,
        info.algorithm.parameters == Some(any),
        oid_of_any(any) == Some(curve_oid(curve)),
        info.private_key == sec1,
    ensures
        ({
            let scalar = match curve {
                NamedCurve::P224 => p224_secret_key(sec1),
                NamedCurve::P256 => p256_secret_key(sec1),
                NamedCurve::P384 => p384_secret_key(sec1),
            };
            match private_key_from(sec1, "der"@, "sec1"@, None) {
                Ok(key) => key matches PrivateKeyView::Ec(ec) && ec.curve == curve && scalar
                    == Some(ec.bytes),
                Err(_) => scalar is None,
            }
        }),
{
    lemma_labels_differ();
    lemma_key_oids_differ();
    lemma_curve_oids_differ();
}

/// A key in a PKCS#1 structure reads as that RSA key.
pub proof fn law_pkcs1_key_is_read(pkcs1: Seq<u8>, document: Seq<u8>, info: PrivateKeyInfoView)
    requires
        pkcs1_private_document(pkcs1) == Some(document),
        private_key_info(document) == Some(info),
        info.algorithm.oid == RSA_ENCRYPTION_OID@,
        info.private_key == pkcs1,
    ensures
        match private_key_from(pkcs1, "der"@, "pkcs1"@, None) {
            Ok(key) => key matches PrivateKeyView::Rsa(rsa) && rsa_private_key(pkcs1) == Some(rsa),
            Err(_) => rsa_private_key(pkcs1) is None,
        },
{
    lemma_labels_differ();
}

/// What a PKCS#8 structure holds, by its object identifier: for X25519 and Ed25519
/// the thirty-two bytes themselves, and no other number of them; for
/// Diffie-Hellman the bytes; for RSA, with or without parameters for RSASSA-PSS,
/// the key that they encode; for DSA and the curves the key that the crates read.
pub proof fn law_private_key_is_the_content(info: PrivateKeyInfoView)
    ensures
        ({
            let oid = info.algorithm.oid;
            let bytes = info.private_key;
            let read = private_key_of_info(info);
            let x25519 = seq![0x2bu8, 0x65, 0x6e];
            let ed25519 = seq![0x2bu8, 0x65, 0x70];
            let dh = seq![0x2au8, 0x86, 0x48, 0x86, 0xf7, 0x0d, 0x01, 0x03, 0x01];
            let rsa = seq![0x2au8, 0x86, 0x48, 0x86, 0xf7, 0x0d, 0x01, 0x01, 0x01];
            let pss = seq![0x2au8, 0x86, 0x48, 0x86, 0xf7, 0x0d, 0x01, 0x01, 0x0a];
            let dsa = seq![0x2au8, 0x86, 0x48, 0xce, 0x38, 0x04, 0x01];
            let ec = seq![0x2au8, 0x86, 0x48, 0xce, 0x3d, 0x02, 0x01];
            match read {
                Ok(PrivateKeyView::X25519(key)) => oid == x25519 && key == bytes && bytes.len()
                    == 32,
                Ok(PrivateKeyView::Ed25519(key)) => oid == ed25519 && key == bytes && bytes.len()
                    == 32,
                Ok(PrivateKeyView::Dh(key)) => oid == dh && key == bytes,
                Ok(PrivateKeyView::Rsa(key)) => oid == rsa && rsa_private_key(bytes) == Some(key),
                Ok(PrivateKeyView::RsaPss(key)) => {
                    &&& oid == pss
                    &&& rsa_private_key(bytes) == Some(key.key)
                    &&& info.algorithm.parameters matches Some(any)
                    &&& pss_parameters(any) matches Some(parameters)
                    &&& key.salt_length == parameters.salt_length
                    &&& pss_hash(parameters.hash_algorithm.oid) == Some(key.hash_algorithm)
                },
                Ok(PrivateKeyView::Dsa(key)) => oid == dsa && dsa_private_key(info) == Some(key),
                Ok(PrivateKeyView::Ec(key)) => {
                    &&& oid == ec
                    &&& info.algorithm.parameters matches Some(any)
                    &&& oid_of_any(any) == Some(curve_oid(key.curve))
                    &&& ec_secret_key(key.curve, bytes) == Some(key.bytes)
                },
                Err(_) => {
                    &&& oid == x25519 || oid == ed25519 ==> bytes.len() != 32
                    &&& oid != dh
                    &&& oid == rsa ==> rsa_private_key(bytes) is None
                    &&& oid == ec ==> (info.algorithm.parameters matches Some(any) ==> forall|
                        curve: NamedCurve,
                    |
                        oid_of_any(any) == Some(#[trigger] curve_oid(curve)) ==> ec_secret_key(
                            curve,
                            bytes,
                        ) is None)
                    &&& oid == dsa ==> dsa_private_key(info) is None
                    &&& oid == pss && rsa_private_key(bytes) is Some ==> (
                    info.algorithm.parameters matches Some(any) ==> (pss_parameters(any)
                        matches Some(parameters) ==> pss_hash(
                        parameters.hash_algorithm.oid,
                    ) is None))
                },
            }
        }),
{
    lemma_key_oids_differ();
    lemma_curve_oids_differ();
    lemma_oid_bytes();
}

/// What a SubjectPublicKeyInfo structure holds, by its object identifier.
pub proof fn law_public_key_is_the_content(info: SpkiView)
    requires
        info.subject_public_key is Some,
    ensures
        ({
            let oid = info.algorithm.oid;
            let bytes = info.subject_public_key->0;
            let x25519 = seq![0x2bu8, 0x65, 0x6e];
            let ed25519 = seq![0x2bu8, 0x65, 0x70];
            let dh = seq![0x2au8, 0x86, 0x48, 0x86, 0xf7, 0x0d, 0x01, 0x03, 0x01];
            let rsa = seq![0x2au8, 0x86, 0x48, 0x86, 0xf7, 0x0d, 0x01, 0x01, 0x01];
            let pss = seq![0x2au8, 0x86, 0x48, 0x86, 0xf7, 0x0d, 0x01, 0x01, 0x0a];
            let dsa = seq![0x2au8, 0x86, 0x48, 0xce, 0x38, 0x04, 0x01];
            let ec = seq![0x2au8, 0x86, 0x48, 0xce, 0x3d, 0x02, 0x01];
            match public_key_of_spki(info) {
                Ok(PublicKeyView::X25519(key)) => oid == x25519 && key == bytes && bytes.len()
                    == 32,
                Ok(PublicKeyView::Ed25519(key)) => oid == ed25519 && key == bytes && bytes.len()
                    == 32 && ed25519_valid(key),
                Ok(PublicKeyView::Dh(key)) => oid == dh && key == bytes,
                Ok(PublicKeyView::Rsa(key)) => oid == rsa && rsa_public_key(bytes) == Ok::<
                    _,
                    Seq<char>,
                >(key),
                Ok(PublicKeyView::RsaPss(key)) => {
                    &&& oid == pss
                    &&& rsa_public_key(bytes) == Ok::<_, Seq<char>>(key.key)
                    &&& info.algorithm.parameters matches Some(any)
                    &&& pss_parameters(any) matches Some(parameters)
                    &&& key.salt_length == parameters.salt_length
                    &&& pss_hash(parameters.hash_algorithm.oid) == Some(key.hash_algorithm)
                },
                Ok(PublicKeyView::Dsa(key)) => oid == dsa && dsa_public_key(info.algorithm, bytes)
                    == Some(key),
                Ok(PublicKeyView::Ec(key)) => {
                    &&& oid == ec
                    &&& info.algorithm.parameters matches Some(any)
                    &&& oid_of_any(any) == Some(curve_oid(key.curve))
                    &&& ec_point(key.curve, bytes) == Some(key.bytes)
                },
                Err(_) => {
                    &&& oid == x25519 ==> bytes.len() != 32
                    &&& oid == ed25519 ==> bytes.len() != 32 || !ed25519_valid(bytes)
                    &&& oid != dh
                    &&& oid == rsa ==> rsa_public_key(bytes) is Err
                    &&& oid == dsa ==> dsa_public_key(info.algorithm, bytes) is None
                    &&& oid == ec ==> (info.algorithm.parameters matches Some(any) ==> forall|
                        curve: NamedCurve,
                    |
                        oid_of_any(any) == Some(#[trigger] curve_oid(curve)) ==> ec_point(
                            curve,
                            bytes,
                        ) is None)
                },
            }
        }),
{
    lemma_key_oids_differ();
    lemma_curve_oids_differ();
    lemma_oid_bytes();
}

/// A public key in a PEM file reads as its document does in DER of the type that
/// its label names; a label that is not that of a public key is refused.
pub proof fn law_public_pem_reads_as_der(
    key: Seq<u8>,
    typ: Seq<char>,
    label: Seq<char>,
    document: Seq<u8>,
)
    requires
        valid_utf8(key),
        public_pem(decode_utf8(key)) == Some((label, document)),
    ensures
        ({
            let read = public_key_from(key, "pem"@, typ);
            &&& label == "RSA PUBLIC KEY"@ ==> read == public_key_from(document, "der"@, "pkcs1"@)
            &&& label == "PUBLIC KEY"@ ==> (forall|info: SpkiView| #[trigger]
                reads_as_spki(document, info) ==> read == public_key_from(
                    document,
                    "der"@,
                    "spki"@,
                ))
            &&& read is Ok ==> label == "RSA PUBLIC KEY"@ || label == "PUBLIC KEY"@
        }),
{
    lemma_labels_differ();
    reveal_strlit("spki");
    assert("spki"@.len() == 4) ;
    reveal_strlit("pkcs1");
    assert("pkcs1"@.len() == 5);
    assert("RSA PUBLIC KEY"@.len() == 14) by {
        reveal_strlit("RSA PUBLIC KEY");
    }
    assert("PUBLIC KEY"@.len() == 10) by {
        reveal_strlit("PUBLIC KEY");
    }
}

/// The contents of the object identifiers of the key types and curves.
proof fn lemma_oid_bytes()
    ensures
        X25519_OID@ == seq![0x2bu8, 0x65, 0x6e],
        ED25519_OID@ == seq![0x2bu8, 0x65, 0x70],
        DH_KEY_AGREEMENT_OID@ == seq![0x2au8, 0x86, 0x48, 0x86, 0xf7, 0x0d, 0x01, 0x03, 0x01],
        RSA_ENCRYPTION_OID@ == seq![0x2au8, 0x86, 0x48, 0x86, 0xf7, 0x0d, 0x01, 0x01, 0x01],
        RSASSA_PSS_OID@ == seq![0x2au8, 0x86, 0x48, 0x86, 0xf7, 0x0d, 0x01, 0x01, 0x0a],
        DSA_OID@ == seq![0x2au8, 0x86, 0x48, 0xce, 0x38, 0x04, 0x01],
        EC_OID@ == seq![0x2au8, 0x86, 0x48, 0xce, 0x3d, 0x02, 0x01],
{
    assert(X25519_OID@ =~= seq![0x2bu8, 0x65, 0x6e]);
    assert(ED25519_OID@ =~= seq![0x2bu8, 0x65, 0x70]);
    assert(DH_KEY_AGREEMENT_OID@ =~= seq![0x2au8, 0x86, 0x48, 0x86, 0xf7, 0x0d, 0x01, 0x03, 0x01]);
    assert(RSA_ENCRYPTION_OID@ =~= seq![0x2au8, 0x86, 0x48, 0x86, 0xf7, 0x0d, 0x01, 0x01, 0x01]);
    assert(RSASSA_PSS_OID@ =~= seq![0x2au8, 0x86, 0x48, 0x86, 0xf7, 0x0d, 0x01, 0x01, 0x0a]);
    assert(DSA_OID@ =~= seq![0x2au8, 0x86, 0x48, 0xce, 0x38, 0x04, 0x01]);
    assert(EC_OID@ =~= seq![0x2au8, 0x86, 0x48, 0xce, 0x3d, 0x02, 0x01]);
}

/// Which curve an object identifier names, by its bytes, and that the crate of one
/// curve never reads a key of another.
pub proof fn law_curves_and_their_crates(oid: Seq<u8>, bytes: Seq<u8>)
    ensures
        curve_of_oid(oid) == Some(NamedCurve::P224) <==> oid == seq![
            0x2bu8,
            0x81,
            0x04,
            0x00,
            0x21,
        ],
        curve_of_oid(oid) == Some(NamedCurve::P256) <==> oid == seq![
            0x2au8,
            0x86,
            0x48,
            0xce,
            0x3d,
            0x03,
            0x01,
            0x07,
        ],
        curve_of_oid(oid) == Some(NamedCurve::P384) <==> oid == seq![
            0x2bu8,
            0x81,
            0x04,
            0x00,
            0x22,
        ],
        forall|curve: NamedCurve| curve_of_oid(oid) == Some(curve) <==> oid == #[trigger] curve_oid(
            curve,
        ),
        ec_secret_key(NamedCurve::P224, bytes) == p224_secret_key(bytes),
        ec_secret_key(NamedCurve::P256, bytes) == p256_secret_key(bytes),
        ec_secret_key(NamedCurve::P384, bytes) == p384_secret_key(bytes),
        ec_point(NamedCurve::P224, bytes) == p224_point(bytes),
        ec_point(NamedCurve::P256, bytes) == p256_point(bytes),
        ec_point(NamedCurve::P384, bytes) == p384_point(bytes),
        ec_sec1(EcView { curve: NamedCurve::P224, bytes }) == p224_sec1(bytes),
        ec_sec1(EcView { curve: NamedCurve::P256, bytes }) == p256_sec1(bytes),
        ec_sec1(EcView { curve: NamedCurve::P384, bytes }) == p384_sec1(bytes),
        ec_pkcs8(EcView { curve: NamedCurve::P224, bytes }) == p224_pkcs8(bytes),
        ec_pkcs8(EcView { curve: NamedCurve::P256, bytes }) == p256_pkcs8(bytes),
        ec_pkcs8(EcView { curve: NamedCurve::P384, bytes }) == p384_pkcs8(bytes),
{
    assert(ID_SECP224R1_OID@ =~= seq![0x2bu8, 0x81, 0x04, 0x00, 0x21]);
    assert(ID_SECP256R1_OID@ =~= seq![0x2au8, 0x86, 0x48, 0xce, 0x3d, 0x03, 0x01, 0x07]);
    assert(ID_SECP384R1_OID@ =~= seq![0x2bu8, 0x81, 0x04, 0x00, 0x22]);
    lemma_curve_oids_differ();
}

/// The public half of a private key: of RSA the modulus and the exponent, of DSA
/// all but the secret exponent, and of the others what the crates derive from the
/// secret.
pub proof fn law_public_half(key: PrivateKeyView)
    requires
        !(key is Dh),
    ensures
        match (key, public_of(key)) {
            (PrivateKeyView::Rsa(k), PublicKeyView::Rsa(p)) => p.n == k.n && p.e == k.e,
            (PrivateKeyView::RsaPss(k), PublicKeyView::RsaPss(p)) => p.key.n == k.key.n && p.key.e
                == k.key.e && p.hash_algorithm == k.hash_algorithm && p.salt_length
                == k.salt_length,
            (PrivateKeyView::Dsa(k), PublicKeyView::Dsa(p)) => p.p == k.verifying_key.p && p.q
                == k.verifying_key.q && p.g == k.verifying_key.g && p.y == k.verifying_key.y,
            (PrivateKeyView::Ec(k), PublicKeyView::Ec(p)) => p.curve == k.curve && p.bytes
                == match k.curve {
                NamedCurve::P224 => p224_public_key(k.bytes)->0,
                NamedCurve::P256 => p256_public_key(k.bytes)->0,
                NamedCurve::P384 => p384_public_key(k.bytes)->0,
            },
            (PrivateKeyView::X25519(k), PublicKeyView::X25519(p)) => p == x25519_public(k),
            (PrivateKeyView::Ed25519(k), PublicKeyView::Ed25519(p)) => p == ed25519_public(k),
            _ => false,
        },
{
}

/// The number of bits of an integer is that of the power of two above it.
pub proof fn law_bits_of_number(n: nat)
    ensures
        n == 0 ==> bit_length(n) == 0,
        n > 0 ==> bit_length(n) > 0 && pow2((bit_length(n) - 1) as nat) <= n < pow2(bit_length(n)),
    decreases n,
{
    lemma2_to64();
    reveal_with_fuel(bit_length, 2);
    if n > 1 {
        law_bits_of_number(n / 2);
        let b = bit_length(n / 2);
        lemma_pow2_unfold(b);
        lemma_pow2_unfold(b + 1);
    }
}

/// A byte in front of others is worth itself times as many powers of 256 as there
/// are bytes behind it.
pub proof fn law_value_of_bytes(first: u8, rest: Seq<u8>)
    ensures
        be_value(Seq::empty()) == 0,
        be_value(seq![first] + rest) == first * pow(256, rest.len()) + be_value(rest),
    decreases rest.len(),
{
    let all = seq![first] + rest;
    lemma_pow0(256);
    if rest.len() == 0 {
        assert(all.drop_last() =~= Seq::empty());
        assert(be_value(all.drop_last()) == 0);
        assert(be_value(rest) == 0);
        assert(all.last() == first);
    } else {
        law_value_of_bytes(first, rest.drop_last());
        assert(all.drop_last() =~= seq![first] + rest.drop_last());
        assert(all.last() == rest.last());
        let n = (rest.len() - 1) as nat;
        let p = pow(256, n);
        reveal(pow);
        assert(pow(256, rest.len()) == 256 * p);
        assert((first * p) * 256 == first * (256 * p)) by (nonlinear_arith);
    }
}

/// The details of a key: the length of a modulus or divisor is the number of bits
/// of its value, the exponent is the key's own, and the curve, the hash and the
/// salt length are the key's.
pub proof fn law_details_of_a_key(key: KeyView)
    ensures
        match key {
            KeyView::Public(PublicKeyView::Rsa(k)) => key_details(key) matches Ok(
                DetailsView::Rsa { modulus_length, public_exponent },
            ) && public_exponent == k.e && modulus_length == bit_length(be_value(k.n)),
            KeyView::Public(PublicKeyView::RsaPss(k)) => key_details(key) matches Ok(
                DetailsView::RsaPss {
                    modulus_length,
                    public_exponent,
                    hash_algorithm,
                    salt_length,
                },
            ) && public_exponent == k.key.e && modulus_length == bit_length(be_value(k.key.n))
                && salt_length == k.salt_length && hash_algorithm == match k.hash_algorithm {
                RsaPssHashAlgorithm::Sha1 => "sha1"@,
                RsaPssHashAlgorithm::Sha256 => "sha256"@,
                RsaPssHashAlgorithm::Sha384 => "sha384"@,
                RsaPssHashAlgorithm::Sha512 => "sha512"@,
            },
            KeyView::Public(PublicKeyView::Dsa(k)) => key_details(key) matches Ok(
                DetailsView::Dsa { modulus_length, divisor_length },
            ) && modulus_length == bit_length(be_value(k.p)) && divisor_length == bit_length(
                be_value(k.q),
            ),
            KeyView::Public(PublicKeyView::Ec(k)) => key_details(key) matches Ok(
                DetailsView::Ec { named_curve },
            ) && named_curve == match k.curve {
                NamedCurve::P224 => "p224"@,
                NamedCurve::P256 => "p256"@,
                NamedCurve::P384 => "p384"@,
            },
            KeyView::Public(PublicKeyView::X25519(_)) => key_details(key) matches Ok(
                DetailsView::X25519,
            ),
            KeyView::Public(PublicKeyView::Ed25519(_)) => key_details(key) matches Ok(
                DetailsView::Ed25519,
            ),
            KeyView::Public(PublicKeyView::Dh(_)) => key_details(key) matches Ok(DetailsView::Dh),
            KeyView::Private(PrivateKeyView::Dh(_)) => key_details(key) matches Ok(DetailsView::Dh),
            KeyView::Private(k) => key_details(key) == key_details(KeyView::Public(public_of(k))),
            KeyView::Secret(_) => key_details(key) is Err,
        },
{
}

/// The name of the type of a key goes by what the key is, and that of its kind by
/// whether it is private, public or secret.
pub proof fn law_names_of_types(key: KeyView)
    ensures
        match key {
            KeyView::Public(PublicKeyView::Rsa(_)) => asymmetric_key_type(key) == Ok::<
                _,
                ErrorView,
            >("rsa"@),
            KeyView::Public(PublicKeyView::RsaPss(_)) => asymmetric_key_type(key) == Ok::<
                _,
                ErrorView,
            >("rsa-pss"@),
            KeyView::Public(PublicKeyView::Dsa(_)) => asymmetric_key_type(key) == Ok::<
                _,
                ErrorView,
            >("dsa"@),
            KeyView::Public(PublicKeyView::Ec(_)) => asymmetric_key_type(key) == Ok::<
                _,
                ErrorView,
            >("ec"@),
            KeyView::Public(PublicKeyView::X25519(_)) => asymmetric_key_type(key) == Ok::<
                _,
                ErrorView,
            >("x25519"@),
            KeyView::Public(PublicKeyView::Ed25519(_)) => asymmetric_key_type(key) == Ok::<
                _,
                ErrorView,
            >("ed25519"@),
            KeyView::Public(PublicKeyView::Dh(_)) => asymmetric_key_type(key) == Ok::<
                _,
                ErrorView,
            >("dh"@),
            KeyView::Private(PrivateKeyView::Dh(_)) => asymmetric_key_type(key) == Ok::<
                _,
                ErrorView,
            >("dh"@),
            KeyView::Private(k) => asymmetric_key_type(key) == asymmetric_key_type(
                KeyView::Public(public_of(k)),
            ),
            KeyView::Secret(_) => asymmetric_key_type(key) is Err,
        },
        key is Private ==> key_kind(key) == "private"@,
        key is Public ==> key_kind(key) == "public"@,
        key is Secret ==> key_kind(key) == "secret"@,
{
}

/// A DSA key is made exactly for the four pairs of lengths, and of the lengths that
/// were asked for.
pub proof fn law_sizes_of_dsa_keys(modulus_length: int, divisor_length: int)
    ensures
        match dsa_key_size(modulus_length, divisor_length) {
            Some(size) => size.modulus_length() == modulus_length && size.divisor_length()
                == divisor_length,
            None => !(modulus_length == 1024 && divisor_length == 160) && !(modulus_length == 2048
                && divisor_length == 224) && !(modulus_length == 2048 && divisor_length == 256)
                && !(modulus_length == 3072 && divisor_length == 256),
        },
{
}

/// A curve is asked for by any of its three names, and by no other.
pub proof fn law_names_of_curves(name: Seq<char>)
    ensures
        curve_of_name(name) == Some(NamedCurve::P224) <==> name == "P-224"@ || name
            == "prime224v1"@ || name == "secp224r1"@,
        curve_of_name(name) == Some(NamedCurve::P256) <==> name == "P-256"@ || name
            == "prime256v1"@ || name == "secp256r1"@,
        curve_of_name(name) == Some(NamedCurve::P384) <==> name == "P-384"@ || name
            == "prime384v1"@ || name == "secp384r1"@,
{
    reveal_strlit("P-224");
    reveal_strlit("P-256");
    reveal_strlit("P-384");
    reveal_strlit("prime224v1");
    reveal_strlit("prime256v1");
    reveal_strlit("prime384v1");
    reveal_strlit("secp224r1");
    reveal_strlit("secp256r1");
    reveal_strlit("secp384r1");
    assert("P-224"@.len() == 5 && "P-256"@.len() == 5 && "P-384"@.len() == 5);
    assert("prime224v1"@.len() == 10 && "prime256v1"@.len() == 10 && "prime384v1"@.len() == 10);
    assert("secp224r1"@.len() == 9 && "secp256r1"@.len() == 9 && "secp384r1"@.len() == 9);
    assert("P-224"@[3] != "P-256"@[3] && "P-224"@[3] != "P-384"@[3] && "P-256"@[3] != "P-384"@[3]);
    assert("prime224v1"@[6] != "prime256v1"@[6] && "prime224v1"@[6] != "prime384v1"@[6]
        && "prime256v1"@[6] != "prime384v1"@[6]);
    assert("secp224r1"@[5] != "secp256r1"@[5] && "secp224r1"@[5] != "secp384r1"@[5]
        && "secp256r1"@[5] != "secp384r1"@[5]);
}

/// A key is taken out of a handle as it is, under what it is.
pub proof fn law_key_of_a_handle(key: KeyView)
    ensures
        key matches KeyView::Private(k) ==> key.private_key() == Some(k) && key.secret_key() is None
            && key.public_key() == Some(public_of(k)),
        key matches KeyView::Public(k) ==> key.public_key() == Some(k) && key.private_key() is None
            && key.secret_key() is None,
        key matches KeyView::Secret(k) ==> key.secret_key() == Some(k) && key.private_key() is None
            && key.public_key() is None,
        key.is_dh_private() <==> key matches KeyView::Private(PrivateKeyView::Dh(_)),
{
}

/// A key of a curve is written in SEC1 by the crate of that curve.
pub proof fn law_sec1_is_written_by_its_curve(key: EcView)
    ensures
        ({
            let written = match key.curve {
                NamedCurve::P224 => p224_sec1(key.bytes),
                NamedCurve::P256 => p256_sec1(key.bytes),
                NamedCurve::P384 => p384_sec1(key.bytes),
            };
            match private_der(PrivateKeyView::Ec(key), "sec1"@) {
                Ok(der) => written == Some(der),
                Err(_) => written is None,
            }
        }),
{
    lemma_labels_differ();
}

/// Which hash the parameters of RSASSA-PSS ask for, by the bytes of its object
/// identifier.
pub proof fn law_hashes_by_identifier(oid: Seq<u8>)
    ensures
        pss_hash(oid) == Some(RsaPssHashAlgorithm::Sha1) <==> oid == seq![
            0x2bu8,
            0x0e,
            0x03,
            0x02,
            0x1a,
        ],
        pss_hash(oid) == Some(RsaPssHashAlgorithm::Sha256) <==> oid == seq![
            0x60u8, 0x86, 0x48, 0x01, 0x65, 0x03, 0x04, 0x02, 0x01,
        ],
        pss_hash(oid) == Some(RsaPssHashAlgorithm::Sha384) <==> oid == seq![
            0x60u8, 0x86, 0x48, 0x01, 0x65, 0x03, 0x04, 0x02, 0x02,
        ],
        pss_hash(oid) == Some(RsaPssHashAlgorithm::Sha512) <==> oid == seq![
            0x60u8, 0x86, 0x48, 0x01, 0x65, 0x03, 0x04, 0x02, 0x03,
        ],
{
    assert(ID_SHA1_OID@ =~= seq![0x2bu8, 0x0e, 0x03, 0x02, 0x1a]);
    assert(ID_SHA256_OID@ =~= seq![0x60u8, 0x86, 0x48, 0x01, 0x65, 0x03, 0x04, 0x02, 0x01]);
    assert(ID_SHA384_OID@ =~= seq![0x60u8, 0x86, 0x48, 0x01, 0x65, 0x03, 0x04, 0x02, 0x02]);
    assert(ID_SHA512_OID@ =~= seq![0x60u8, 0x86, 0x48, 0x01, 0x65, 0x03, 0x04, 0x02, 0x03]);
    assert(ID_SHA1_OID@.len() == 5);
    assert(ID_SHA256_OID@[8] == 1 && ID_SHA384_OID@[8] == 2 && ID_SHA512_OID@[8] == 3);
}

/// Parameters of RSASSA-PSS with nothing in them ask for SHA-1 and a salt of twenty
/// bytes.
pub proof fn law_pss_defaults(any: AnyView)
    requires
        any.value.len() == 0,
    ensures
        any.tag != 0x30 ==> pss_parameters(any) is None,
        any.tag == 0x30 ==> (pss_parameters(any) matches Some(pss) && pss.salt_length == 20
            && pss_hash(pss.hash_algorithm.oid) == Some(RsaPssHashAlgorithm::Sha1)
            && pss.mask_gen_algorithm.oid == seq![
            0x2au8, 0x86, 0x48, 0x86, 0xf7, 0x0d, 0x01, 0x01, 0x08,
        ]),
{
    assert(ID_MFG1@ =~= seq![0x2au8, 0x86, 0x48, 0x86, 0xf7, 0x0d, 0x01, 0x01, 0x08]);
}

/// Parameters of RSASSA-PSS that are the three fields in order, each in a
/// constructed value under its number, ask for the hash, the mask and the salt
/// length that the fields hold.
pub proof fn law_pss_fields(
    value: Seq<u8>,
    hash: (AnyView, nat),
    mask: (AnyView, nat),
    salt: (AnyView, nat),
    hash_algorithm: AlgorithmView,
    mask_gen_algorithm: AlgorithmView,
    salt_length: u32,
)
    requires
        0 < hash.1,
        0 < mask.1,
        0 < salt.1,
        hash.1 + mask.1 + salt.1 == value.len(),
        value[0] == 0xa0,
        value[hash.1 as int] == 0xa1,
        value[(hash.1 + mask.1) as int] == 0xa2,
        leading_value(value) == Some(hash),
        leading_value(value.skip(hash.1 as int)) == Some(mask),
        leading_value(value.skip((hash.1 + mask.1) as int)) == Some(salt),
        algorithm_identifier(hash.0.value) == Some(hash_algorithm),
        algorithm_identifier(mask.0.value) == Some(mask_gen_algorithm),
        der_u32(salt.0.value) == Some(salt_length),
    ensures
        pss_parameters(AnyView { tag: 0x30, value }) == Some(
            PssView { hash_algorithm, mask_gen_algorithm, salt_length },
        ),
{
    let (h, m) = (hash.1 as int, mask.1 as int);
    assert(value.skip(h).skip(m) =~= value.skip(h + m));
    assert(value.skip(h + m).skip(salt.1 as int) =~= Seq::empty());
    assert(value.skip(h)[0] == 0xa1 && value.skip(h + m)[0] == 0xa2);
}

/// Parameters of RSASSA-PSS that are a salt length alone ask for that and for the
/// defaults besides.
pub proof fn law_pss_salt_alone(value: Seq<u8>, salt: (AnyView, nat), salt_length: u32)
    requires
        value.len() > 0,
        salt.1 == value.len(),
        value[0] == 0xa2,
        leading_value(value) == Some(salt),
        der_u32(salt.0.value) == Some(salt_length),
    ensures
        pss_parameters(AnyView { tag: 0x30, value }) matches Some(pss) && pss.salt_length
            == salt_length && pss_hash(pss.hash_algorithm.oid) == Some(RsaPssHashAlgorithm::Sha1),
{
    assert(value.skip(salt.1 as int) =~= Seq::empty());
}

/// Something that is none of the fields is refused in parameters of RSASSA-PSS.
pub proof fn law_pss_refuses_the_rest(any: AnyView)
    requires
        any.value.len() > 0,
        any.value[0] < 0x80 || any.value[0] >= 0xc0,
    ensures
        pss_parameters(any) is None,
{
}

/// What the crates write of a private key for PKCS#8: for X25519, Ed25519 and
/// Diffie-Hellman the bytes of the key under the object identifier of its type.
pub open spec fn pkcs8_by_crates(key: PrivateKeyView) -> Option<Seq<u8>> {
    match key {
        PrivateKeyView::Rsa(k) => rsa_private_pkcs8(k),
        PrivateKeyView::RsaPss(_) => None,
        PrivateKeyView::Dsa(k) => dsa_private_pkcs8(k),
        PrivateKeyView::Ec(k) => ec_pkcs8(k),
        PrivateKeyView::X25519(k) => pkcs8_der(seq![0x2bu8, 0x65, 0x6e], k),
        PrivateKeyView::Ed25519(k) => pkcs8_der(seq![0x2bu8, 0x65, 0x70], k),
        PrivateKeyView::Dh(k) => pkcs8_der(
            seq![0x2au8, 0x86, 0x48, 0x86, 0xf7, 0x0d, 0x01, 0x03, 0x01],
            k,
        ),
    }
}

/// What the crates write of a public key for SubjectPublicKeyInfo.
pub open spec fn spki_by_crates(key: PublicKeyView) -> Option<Seq<u8>> {
    match key {
        PublicKeyView::Rsa(k) => rsa_public_spki(k),
        PublicKeyView::RsaPss(_) => None,
        PublicKeyView::Dsa(k) => dsa_public_spki(k),
        PublicKeyView::Ec(k) => spki_der(
            seq![0x2au8, 0x86, 0x48, 0xce, 0x3d, 0x02, 0x01],
            Some(curve_oid(k.curve)),
            k.bytes,
        ),
        PublicKeyView::X25519(k) => spki_der(seq![0x2bu8, 0x65, 0x6e], None, k),
        PublicKeyView::Ed25519(k) => spki_der(seq![0x2bu8, 0x65, 0x70], None, k),
        PublicKeyView::Dh(k) => spki_der(
            seq![0x2au8, 0x86, 0x48, 0x86, 0xf7, 0x0d, 0x01, 0x03, 0x01],
            None,
            k,
        ),
    }
}

/// An export gives what the crates write of the key, wherever they write anything:
/// it never fails for a key and a type that go together, and never gives something
/// else.
pub proof fn law_exports_are_what_is_written(private: PrivateKeyView, public: PublicKeyView)
    ensures
        match private_der(private, "pkcs8"@) {
            Ok(der) => pkcs8_by_crates(private) == Some(der),
            Err(_) => pkcs8_by_crates(private) is None,
        },
        match public_der(public, "spki"@) {
            Ok(der) => spki_by_crates(public) == Some(der),
            Err(_) => spki_by_crates(public) is None,
        },
        private matches PrivateKeyView::Rsa(key) ==> match private_der(private, "pkcs1"@) {
            Ok(der) => rsa_private_pkcs1(key) == Some(der),
            Err(_) => rsa_private_pkcs1(key) is None,
        },
        public matches PublicKeyView::Rsa(key) ==> match public_der(public, "pkcs1"@) {
            Ok(der) => rsa_public_pkcs1(key) == Some(der),
            Err(_) => rsa_public_pkcs1(key) is None,
        },
{
    lemma_labels_differ();
    lemma_oid_bytes();
    reveal_strlit("spki");
    reveal_strlit("pkcs1");
    assert("spki"@.len() == 4 && "pkcs1"@.len() == 5);
}

/// A handle exports what its key does: a private key its own private form and its
/// public half, a public key its public form. In a PEM file stands what DER of the
/// same type holds, under the label that the readers take for it.
pub proof fn law_handles_export_their_key(
    private: PrivateKeyView,
    public: PublicKeyView,
    typ: Seq<char>,
)
    ensures
        exported_private_der(KeyView::Private(private), typ) == private_der(private, typ),
        exported_public_der(KeyView::Public(public), typ) == public_der(public, typ),
        exported_private_der(KeyView::Public(public), typ) is Err,
        ({
            let label = if typ == "pkcs8"@ {
                "PRIVATE KEY"@
            } else if typ == "pkcs1"@ {
                "RSA PRIVATE KEY"@
            } else {
                "EC PRIVATE KEY"@
            };
            match (private_der(private, typ), exported_private_pem(KeyView::Private(private), typ)) {
                (Ok(der), Ok(pem)) => pem_text(label, der, 2048) == Ok::<_, Seq<char>>(pem),
                (Ok(der), Err(_)) => pem_text(label, der, 2048) is Err,
                (Err(a), Err(b)) => a == b,
                (Err(_), Ok(_)) => false,
            }
        }),
        ({
            let label = if typ == "spki"@ {
                "PUBLIC KEY"@
            } else {
                "RSA PUBLIC KEY"@
            };
            match (public_der(public, typ), exported_public_pem(KeyView::Public(public), typ)) {
                (Ok(der), Ok(pem)) => pem_text(label, der, 2048) == Ok::<_, Seq<char>>(pem),
                (Ok(der), Err(_)) => pem_text(label, der, 2048) is Err,
                (Err(a), Err(b)) => a == b,
                (Err(_), Ok(_)) => false,
            }
        }),
{
    lemma_labels_differ();
    reveal_strlit("spki");
    reveal_strlit("pkcs1");
    assert("spki"@.len() == 4 && "pkcs1"@.len() == 5);
}

/// Writing a PEM file fails only where the crate fails to write it.
pub proof fn law_pem_fails_with_the_crate(label: Seq<char>, der: Seq<u8>)
    ensures
        match pem_text(label, der, 2048) {
            Ok(text) => pem_of_der(label, der) == Ok::<_, ErrorView>(text),
            Err(_) => pem_of_der(label, der) is Err,
        },
{
}

/// A private key in PKCS#8 reads as what the structure holds, an encrypted one as
/// what the structure that was encrypted holds.
pub proof fn law_pkcs8_is_read(der: Seq<u8>, passphrase: Seq<u8>, info: PrivateKeyInfoView)
    ensures
        reads_as_pkcs8(der, info) ==> private_key_from(der, "der"@, "pkcs8"@, None)
            == private_key_of_info(info),
        decrypted_der(der, passphrase) matches Some(document) ==> (private_key_info(document)
            == Some(info) ==> private_key_from(der, "der"@, "pkcs8"@, Some(passphrase))
            == private_key_of_info(info)),
        decrypted_der(der, passphrase) is None ==> private_key_from(
            der,
            "der"@,
            "pkcs8"@,
            Some(passphrase),
        ) is Err,
{
    lemma_labels_differ();
}

/// A public key reads as what its SubjectPublicKeyInfo structure holds, in PKCS#1
/// as what the structure that is made around it holds.
pub proof fn law_spki_is_read(der: Seq<u8>, info: SpkiView)
    ensures
        reads_as_spki(der, info) ==> public_key_from(der, "der"@, "spki"@) == public_key_of_spki(
            info,
        ),
        pkcs1_public_document(der) matches Some(document) ==> (spki(document) == Ok::<
            _,
            Seq<char>,
        >(info) ==> public_key_from(der, "der"@, "pkcs1"@) == public_key_of_spki(info)),
        pkcs1_public_document(der) is None ==> public_key_from(der, "der"@, "pkcs1"@) is Err,
{
    lemma_labels_differ();
    reveal_strlit("spki");
    reveal_strlit("pkcs1");
    assert("spki"@.len() == 4 && "pkcs1"@.len() == 5);
}

/// What it means that a key is read back the same: of a private key, that the key
/// itself comes back, unless it is a DSA key whose public component does not belong to
/// its secret exponent; of a public key, that it comes back, unless it is an RSA key
/// whose numbers the reader does not take.
pub proof fn law_read_back_is_the_key(
    private_back: Result<PrivateKeyView, ErrorView>,
    private: PrivateKeyView,
    public_back: Result<PublicKeyView, ErrorView>,
    public: PublicKeyView,
)
    ensures
        same_private_key(private_back, private) && !(private matches PrivateKeyView::Dsa(k)
            && !k.is_consistent()) ==> private_back == Ok::<_, ErrorView>(private),
        same_private_key(private_back, private) && private_back is Ok ==> (private
            matches PrivateKeyView::Dsa(k) ==> (private_back->Ok_0 matches PrivateKeyView::Dsa(b)
            && b.x == k.x && b.verifying_key.p == k.verifying_key.p)),
        same_public_key(public_back, public) && !(public matches PublicKeyView::Rsa(k)
            && !k.is_readable()) ==> public_back == Ok::<_, ErrorView>(public),
        same_public_key(public_back, public) ==> (public matches PublicKeyView::Rsa(k)
            ==> public_back is Ok == k.is_readable()),
{
}

/// A public key is read unless its bit string breaks off inside a byte, and even then
/// where that is asked or the bytes hold no key.
pub proof fn law_what_public_keys_are_read(
    key: Seq<u8>,
    format: Seq<char>,
    typ: Seq<char>,
    info: SpkiView,
)
    ensures
        info.subject_public_key is Some ==> has_whole_key(info),
        info.subject_public_key is None && (info.algorithm.oid == RSA_ENCRYPTION_OID@
            || info.algorithm.oid == DH_KEY_AGREEMENT_OID@) ==> !has_whole_key(info),
        info.algorithm.oid == X25519_OID@ || info.algorithm.oid == ED25519_OID@
            || info.algorithm.oid == EC_OID@ || info.algorithm.oid == DSA_OID@ ==> has_whole_key(
            info,
        ),
        public_key_document(key, format, typ) is Err ==> readable_public_key(key, format, typ),
        public_key_document(key, format, typ) matches Ok(document) ==> (spki(document) == Ok::<
            _,
            Seq<char>,
        >(info) ==> readable_public_key(key, format, typ) == has_whole_key(info)),
{
    lemma_key_oids_differ();
}

/// A private key is read, unless it is decrypted with a passphrase and the costs that
/// it asks of scrypt are zero, or ask for more than memory can be asked for.
pub proof fn law_what_private_keys_are_read(
    key: Seq<u8>,
    format: Seq<char>,
    typ: Seq<char>,
    passphrase: Option<Seq<u8>>,
    cost: ScryptCost,
)
    ensures
        passphrase is None ==> readable_private_key(key, format, typ, passphrase),
        scrypt_cost(key) is None ==> readable_private_key(key, "der"@, typ, passphrase),
        scrypt_cost(key) == Some(cost) && passphrase is Some ==> readable_private_key(
            key,
            "der"@,
            "pkcs8"@,
            passphrase,
        ) == cost.is_derivable(),
        !cost.is_derivable() ==> cost.cost == 0 || cost.cost * cost.block_size * 128 > isize::MAX
            || cost.parallelization * cost.block_size * 128 > isize::MAX,
        cost.cost == 0 && (cost.key_length is None) ==> !cost.is_derivable(),
{
    lemma_labels_differ();
}

/// A pair holds a private key and the public key that was derived from it.
pub proof fn law_pairs_belong_together(pair: KeyObjectHandlePair, key: PrivateKeyView)
    requires
        pair.holds(key),
    ensures
        pair.private_key matches Some(handle) && handle@ == KeyView::Private(key),
        pair.public_key matches Some(handle) && handle@ == KeyView::Public(public_of(key)),
{
}

/// Making a DSA key gives a DSA pair of the lengths that were asked for, and making a
/// key of a curve one of that curve; where there is none, it is refused.
pub proof fn law_made_keys(
    dsa: Result<KeyObjectHandlePair, AnyError>,
    modulus_length: int,
    divisor_length: int,
    ec: Result<KeyObjectHandlePair, AnyError>,
    name: Seq<char>,
)
    ensures
        dsa_generated(dsa, modulus_length, divisor_length) ==> match dsa_key_size(
            modulus_length,
            divisor_length,
        ) {
            None => dsa is Err,
            Some(_) => {
                &&& dsa matches Ok(pair)
                &&& pair.private_key matches Some(handle)
                &&& handle@ matches KeyView::Private(PrivateKeyView::Dsa(key))
                &&& bit_length(be_value(key.verifying_key.q)) == divisor_length
                &&& bit_length(be_value(key.verifying_key.p)) <= modulus_length
                &&& pair.public_key matches Some(public)
                &&& public@ == KeyView::Public(PublicKeyView::Dsa(key.verifying_key))
            },
        },
        ec_generated(ec, name) ==> match curve_of_name(name) {
            None => ec is Err,
            Some(curve) => {
                &&& ec matches Ok(pair)
                &&& pair.private_key matches Some(handle)
                &&& handle@ matches KeyView::Private(PrivateKeyView::Ec(key))
                &&& key.curve == curve
                &&& pair.public_key matches Some(public)
                &&& public@ == KeyView::Public(PublicKeyView::Ec(ec_public(key)))
            },
        },
{
    if dsa_generated(dsa, modulus_length, divisor_length) {
        if dsa_key_size(modulus_length, divisor_length) is Some {
            let pair = dsa->Ok_0;
            let key = choose|key: PrivateKeyView|
                {
                    &&& #[trigger] pair.holds(key)
                    &&& key.wf()
                    &&& key matches PrivateKeyView::Dsa(dsa)
                    &&& bits(dsa.verifying_key.p) <= modulus_length
                    &&& bits(dsa.verifying_key.q) == divisor_length
                    &&& dsa.is_consistent()
                };
            assert(pair.holds(key));
        }
    }
    if ec_generated(ec, name) {
        if let Some(curve) = curve_of_name(name) {
            let pair = ec->Ok_0;
            let key = choose|key: PrivateKeyView|
                {
                    &&& #[trigger] pair.holds(key)
                    &&& key matches PrivateKeyView::Ec(ec)
                    &&& ec.curve == curve
                };
            assert(pair.holds(key));
        }
    }
}

/// RSA keys can be made from twelve bits on, with an odd exponent from three up to the
/// largest that is read; from thirty-four bits on with any such exponent.
pub proof fn law_which_rsa_keys_can_be_made(modulus_length: int, public_exponent: int)
    ensures
        modulus_length < 12 ==> !rsa_key_exists(modulus_length, public_exponent),
        public_exponent < 3 || public_exponent % 2 == 0 || public_exponent > 0x1_ffff_ffff
            ==> !rsa_key_exists(modulus_length, public_exponent),
        modulus_length >= 34 && 3 <= public_exponent <= 0x1_ffff_ffff && public_exponent % 2 == 1
            ==> rsa_key_exists(modulus_length, public_exponent),
{
    if modulus_length >= 34 {
        lemma2_to64();
        lemma_pow2_unfold(33);
        if modulus_length > 34 {
            lemma_pow2_strictly_increases(33, (modulus_length - 1) as nat);
        }
    }
}

/// The details of a key can be counted where its numbers are no longer than memory.
pub proof fn law_what_can_be_counted(key: KeyView)
    ensures
        key matches KeyView::Public(PublicKeyView::Rsa(k)) ==> countable(key) == (k.n.len() * 8
            <= usize::MAX),
        key matches KeyView::Private(PrivateKeyView::Rsa(k)) ==> countable(key) == (k.n.len() * 8
            <= usize::MAX),
        key matches KeyView::Public(PublicKeyView::Ec(_)) ==> countable(key),
        key matches KeyView::Private(PrivateKeyView::Ec(_)) ==> countable(key),
        key matches KeyView::Public(PublicKeyView::X25519(_)) ==> countable(key),
        key matches KeyView::Private(PrivateKeyView::X25519(_)) ==> countable(key),
        key matches KeyView::Public(PublicKeyView::Ed25519(_)) ==> countable(key),
        key matches KeyView::Private(PrivateKeyView::Ed25519(_)) ==> countable(key),
        key is Secret ==> countable(key),
{
}

/// Bytes of a PEM file that are not UTF-8 are refused with the number of those that
/// are, in decimal.
pub proof fn law_where_utf8_ends(kind: Seq<char>, key: Seq<u8>)
    ensures
        not_utf8(kind, key).class == "TypeError"@,
        not_utf8(kind, key).message.len() > kind.len(),
        not_utf8(kind, key).message.subrange(0, kind.len() as int) == kind,
        number_of(not_utf8(kind, key).message.skip(kind.len() as int), 10) == valid_prefix_len(key),
{
    law_digits_stand_for_number(valid_prefix_len(key), 10);
    let message = not_utf8(kind, key).message;
    assert(message.subrange(0, kind.len() as int) =~= kind);
    assert(message.skip(kind.len() as int) =~= decimal(valid_prefix_len(key)));
}

/// What keys and the structures that carry them say is what they hold.
pub proof fn law_keys_say_what_they_hold(
    rsa: RsaPrivateKey,
    rsa_public: RsaPublicKey,
    dsa: DsaPrivateKey,
    info: PrivateKeyInfo,
    spki_info: SubjectPublicKeyInfo,
    handle: KeyObjectHandle,
    bytes: Vec<u8>,
)
    ensures
        rsa@.n == rsa.n@ && rsa@.e == rsa.e@ && rsa@.d == rsa.d@ && rsa@.p == rsa.p@ && rsa@.q
            == rsa.q@,
        rsa_public@.n == rsa_public.n@ && rsa_public@.e == rsa_public.e@,
        dsa@.x == dsa.x@ && dsa@.verifying_key.p == dsa.verifying_key.p@ && dsa@.verifying_key.q
            == dsa.verifying_key.q@ && dsa@.verifying_key.g == dsa.verifying_key.g@
            && dsa@.verifying_key.y == dsa.verifying_key.y@,
        info@.algorithm.oid == info.algorithm.oid@ && info@.private_key == info.private_key@
            && info@.public_key == opt_bytes(info.public_key),
        info.algorithm.parameters is None ==> info@.algorithm.parameters is None,
        info.algorithm.parameters matches Some(any) ==> info@.algorithm.parameters == Some(
            AnyView { tag: any.tag, value: any.value@ },
        ),
        spki_info@.algorithm.oid == spki_info.algorithm.oid@ && spki_info@.subject_public_key
            == opt_bytes(spki_info.subject_public_key),
        match (handle, handle@) {
            (KeyObjectHandle::AsymmetricPrivateKey(a), KeyView::Private(b)) => a@ == b,
            (KeyObjectHandle::AsymmetricPublicKey(a), KeyView::Public(b)) => a@ == b,
            (KeyObjectHandle::SecretKey(a), KeyView::Secret(b)) => a@ == b,
            _ => false,
        },
        opt_bytes(Some(bytes)) == Some(bytes@) && opt_bytes(None) is None,
{
}

/// How a field of the parameters of RSASSA-PSS is looked for: one with a lower number
/// is passed over; one with the number is taken, out of a constructed value only; one
/// with a higher number, and the end, stay where they are.
pub proof fn law_fields_by_number(bytes: Seq<u8>, number: int, any: AnyView, len: nat)
    requires
        0 <= number < 31,
        leading_value(bytes) == Some((any, len)),
        0 < len <= bytes.len(),
    ensures
        explicit_field(Seq::empty(), number) == Some((None::<Seq<u8>>, Seq::<u8>::empty())),
        bytes[0] == 0xa0 + number ==> explicit_field(bytes, number) == Some(
            (Some(any.value), bytes.skip(len as int)),
        ),
        bytes[0] == 0x80 + number ==> explicit_field(bytes, number) is None,
        0xa0 <= bytes[0] < 0xa0 + number ==> explicit_field(bytes, number) == explicit_field(
            bytes.skip(len as int),
            number,
        ),
        0xa0 + number < bytes[0] < 0xbf ==> explicit_field(bytes, number) == Some(
            (None::<Seq<u8>>, bytes),
        ),
        bytes[0] < 0x80 ==> explicit_field(bytes, number) == Some((None::<Seq<u8>>, bytes)),
{
}

/// A private key that is refused is refused with a `TypeError` that says why.
pub proof fn law_why_private_keys_are_refused(info: PrivateKeyInfoView)
    ensures
        private_key_of_info(info) matches Err(e) ==> {
            let oid = info.algorithm.oid;
            &&& e.class == "TypeError"@
            &&& oid == RSA_ENCRYPTION_OID@ ==> e.message == "invalid PKCS#1 private key"@
            &&& oid == RSASSA_PSS_OID@ ==> match info.algorithm.parameters {
                None => e.message == "missing pss private key parameters"@,
                Some(any) => match pss_parameters(any) {
                    None => e.message == "malformed pss private key parameters"@,
                    Some(pss) => e.message == if pss_hash(pss.hash_algorithm.oid) is None {
                        "unsupported pss hash algorithm"@
                    } else {
                        "invalid PKCS#1 private key"@
                    },
                },
            }
            &&& oid == DSA_OID@ ==> e.message == "invalid DSA private key"@
            &&& oid == EC_OID@ ==> e.message == match info.algorithm.parameters {
                None => "malformed or missing named curve in ec parameters"@,
                Some(any) => match oid_of_any(any) {
                    None => "malformed or missing named curve in ec parameters"@,
                    Some(named) => if curve_of_oid(named) is None {
                        "unsupported ec named curve"@
                    } else {
                        "invalid SEC1 private key"@
                    },
                },
            }
            &&& oid == X25519_OID@ || oid == ED25519_OID@ ==> e.message
                == "x25519 private key is the wrong length"@
            &&& oid != RSA_ENCRYPTION_OID@ && oid != RSASSA_PSS_OID@ && oid != DSA_OID@ && oid
                != EC_OID@ && oid != X25519_OID@ && oid != ED25519_OID@ ==> e.message
                == "unsupported private key oid"@
        },
{
    lemma_key_oids_differ();
}

/// Why a private key in a PEM file or in DER is refused before it is looked at.
pub proof fn law_why_private_documents_are_refused(
    key: Seq<u8>,
    format: Seq<char>,
    typ: Seq<char>,
    label: Seq<char>,
    document: Seq<u8>,
)
    ensures
        format != "pem"@ && format != "der"@ ==> private_key_from(key, format, typ, None) == Err::<
            PrivateKeyView,
            _,
        >(type_error_view("unsupported key format: "@ + format)),
        typ != "pkcs8"@ && typ != "pkcs1"@ && typ != "sec1"@ ==> private_key_from(
            key,
            "der"@,
            typ,
            None,
        ) == Err::<PrivateKeyView, _>(type_error_view("unsupported key type: "@ + typ)),
        valid_utf8(key) && secret_pem(decode_utf8(key)) is None ==> private_key_from(
            key,
            "pem"@,
            typ,
            None,
        ) == Err::<PrivateKeyView, _>(type_error_view("invalid PEM private key"@)),
        valid_utf8(key) && secret_pem(decode_utf8(key)) == Some((label, document)) ==> {
            &&& label == "ENCRYPTED PRIVATE KEY"@ ==> private_key_from(key, "pem"@, typ, None)
                == Err::<PrivateKeyView, _>(
                type_error_view("encrypted private key requires a passphrase to decrypt"@),
            )
            &&& label != "ENCRYPTED PRIVATE KEY"@ && label != "PRIVATE KEY"@ && label
                != "RSA PRIVATE KEY"@ && label != "EC PRIVATE KEY"@ ==> private_key_from(
                key,
                "pem"@,
                typ,
                None,
            ) == Err::<PrivateKeyView, _>(type_error_view("unsupported PEM label: "@ + label))
        },
        !valid_utf8(key) ==> private_key_from(key, "pem"@, typ, None) == Err::<PrivateKeyView, _>(
            not_utf8("invalid PEM private key: not valid utf8 starting at byte "@, key),
        ),
        sec1_document(key) is None ==> private_key_from(key, "der"@, "sec1"@, None) == Err::<
            PrivateKeyView,
            _,
        >(type_error_view("invalid SEC1 private key"@)),
        pkcs1_private_document(key) is None ==> private_key_from(key, "der"@, "pkcs1"@, None)
            == Err::<PrivateKeyView, _>(type_error_view("invalid PKCS#1 private key"@)),
        pkcs8_document(key) is None ==> private_key_from(key, "der"@, "pkcs8"@, None) == Err::<
            PrivateKeyView,
            _,
        >(type_error_view("invalid PKCS#8 private key"@)),
{
    lemma_labels_differ();
}

/// Why a public key is refused: a private key in a PEM file is not taken for one.
pub proof fn law_why_public_keys_are_refused(
    key: Seq<u8>,
    format: Seq<char>,
    typ: Seq<char>,
    label: Seq<char>,
    document: Seq<u8>,
)
    ensures
        format != "pem"@ && format != "der"@ ==> public_key_from(key, format, typ) == Err::<
            PublicKeyView,
            _,
        >(type_error_view("unsupported key format: "@ + format)),
        typ != "pkcs1"@ && typ != "spki"@ ==> public_key_from(key, "der"@, typ) == Err::<
            PublicKeyView,
            _,
        >(type_error_view("unsupported key type: "@ + typ)),
        valid_utf8(key) && public_pem(decode_utf8(key)) is None ==> public_key_from(
            key,
            "pem"@,
            typ,
        ) == Err::<PublicKeyView, _>(type_error_view("invalid PEM public key"@)),
        valid_utf8(key) && public_pem(decode_utf8(key)) == Some((label, document)) ==> {
            let read = public_key_from(key, "pem"@, typ);
            &&& label == "PRIVATE KEY"@ ==> read == Err::<PublicKeyView, _>(
                type_error_view("public key cannot be a private key"@),
            )
            &&& label == "EC PRIVATE KEY"@ ==> read == Err::<PublicKeyView, _>(
                type_error_view("deriving public key from ec private key"@),
            )
            &&& label == "RSA PRIVATE KEY"@ ==> read == Err::<PublicKeyView, _>(
                type_error_view("deriving public key from rsa private key"@),
            )
            &&& label == "ENCRYPTED PRIVATE KEY"@ ==> read == Err::<PublicKeyView, _>(
                type_error_view("deriving public key from encrypted private key"@),
            )
        },
        !valid_utf8(key) ==> public_key_from(key, "pem"@, typ) == Err::<PublicKeyView, _>(
            not_utf8("invalid PEM public key: not valid utf8 starting at byte "@, key),
        ),
        public_document(key) is None ==> public_key_from(key, "der"@, "spki"@) == Err::<
            PublicKeyView,
            _,
        >(type_error_view("invalid SPKI public key"@)),
{
    lemma_labels_differ();
    assert("RSA PUBLIC KEY"@.len() == 14 && "RSA PUBLIC KEY"@[1] == 'S') by {
        reveal_strlit("RSA PUBLIC KEY");
    }
    assert("PUBLIC KEY"@.len() == 10) by {
        reveal_strlit("PUBLIC KEY");
    }
    assert("EC PRIVATE KEY"@.len() == 14 && "EC PRIVATE KEY"@[1] == 'C') by {
        reveal_strlit("EC PRIVATE KEY");
    }
    assert("PRIVATE KEY"@.len() == 11) by {
        reveal_strlit("PRIVATE KEY");
    }
    assert("RSA PRIVATE KEY"@.len() == 15) by {
        reveal_strlit("RSA PRIVATE KEY");
    }
    assert("ENCRYPTED PRIVATE KEY"@.len() == 21) by {
        reveal_strlit("ENCRYPTED PRIVATE KEY");
    }
    reveal_strlit("spki");
    reveal_strlit("pkcs1");
    assert("spki"@.len() == 4 && "pkcs1"@.len() == 5);
}

} // verus!
