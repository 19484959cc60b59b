//! Reading keys from the bytes that JavaScript hands over.
use vstd::pervasive::unreached;
use vstd::prelude::*;
use vstd::utf8::decode_utf8;
use vstd::utf8::valid_utf8;
use crate::error::generic_error;
use crate::error::generic_error_view;
use crate::error::result_view;
use crate::error::type_error;
use crate::error::type_error_view;
use crate::error::AnyError;
use crate::error::ErrorView;
use crate::keys::ec::ec_point;
use crate::keys::ec::ec_secret_key;
use crate::keys::ec::read_p224_point;
use crate::keys::ec::read_p256_point;
use crate::keys::ec::read_p384_point;
use crate::keys::ec::P224SecretKey;
use crate::keys::ec::P256SecretKey;
use crate::keys::ec::P384SecretKey;
use crate::keys::outside::any_to_oid;
use crate::keys::outside::decrypt_der;
use crate::keys::outside::decrypt_pem;
use crate::keys::outside::decrypted_der;
use crate::keys::outside::decrypted_pem;
use crate::keys::outside::dsa_private_key;
use crate::keys::outside::dsa_public_key;
use crate::keys::outside::ed25519_valid;
use crate::keys::outside::is_decryptable;
use crate::keys::outside::is_decryptable_pem;
use crate::keys::outside::is_ed25519_public;
use crate::keys::outside::oid_of_any;
use crate::keys::outside::pkcs1_private_document;
use crate::keys::outside::pkcs1_public_document;
use crate::keys::outside::pkcs8_document;
use crate::keys::outside::private_key_info;
use crate::keys::outside::public_document;
use crate::keys::outside::public_pem;
use crate::keys::outside::read_dsa_private_key;
use crate::keys::outside::read_dsa_public_key;
use crate::keys::outside::read_pkcs1_private;
use crate::keys::outside::read_pkcs1_public;
use crate::keys::outside::read_pkcs8;
use crate::keys::outside::read_private_key_info;
use crate::keys::outside::read_public_document;
use crate::keys::outside::read_public_pem;
use crate::keys::outside::read_rsa_private_key;
use crate::keys::outside::read_rsa_public_key;
use crate::keys::outside::read_scrypt_cost;
use crate::keys::outside::read_sec1;
use crate::keys::outside::read_secret_pem;
use crate::keys::outside::read_spki;
use crate::keys::outside::rsa_private_key;
use crate::keys::outside::rsa_public_key;
use crate::keys::outside::sec1_document;
use crate::keys::outside::secret_pem;
use crate::keys::outside::spki;
use crate::keys::pss::pss_hash;
use crate::keys::pss::pss_hash_algorithm;
use crate::keys::pss::pss_parameters;
use crate::keys::pss::RsaPssParameters;
use crate::keys::types::curve_of_oid;
use crate::keys::types::is_oid;
use crate::keys::types::lemma_key_oids_differ;
use crate::keys::types::opt_bytes;
use crate::keys::types::AlgorithmIdentifier;
use crate::keys::types::AlgorithmView;
use crate::keys::types::AnyView;
use crate::keys::types::AsymmetricPrivateKey;
use crate::keys::types::AsymmetricPublicKey;
use crate::keys::types::EcPrivateKey;
use crate::keys::types::EcPublicKey;
use crate::keys::types::EcView;
use crate::keys::types::KeyObjectHandle;
use crate::keys::types::KeyView;
use crate::keys::types::NamedCurve;
use crate::keys::types::PrivateKeyInfo;
use crate::keys::types::PrivateKeyInfoView;
use crate::keys::types::PrivateKeyView;
use crate::keys::types::PublicKeyView;
use crate::keys::types::RsaPssHashAlgorithm;
use crate::keys::types::RsaPssPrivateKey;
use crate::keys::types::RsaPssPrivateView;
use crate::keys::types::RsaPssPublicKey;
use crate::keys::types::RsaPssPublicView;
use crate::keys::types::RsaPublicKey;
use crate::keys::types::RsaPublicView;
use crate::keys::types::SpkiView;
use crate::keys::types::SubjectPublicKeyInfo;
use crate::keys::types::DH_KEY_AGREEMENT_OID;
use crate::keys::types::DSA_OID;
use crate::keys::types::ED25519_OID;
use crate::keys::types::EC_OID;
use crate::keys::types::ID_SECP224R1_OID;
use crate::keys::types::ID_SECP256R1_OID;
use crate::keys::types::ID_SECP384R1_OID;
use crate::keys::types::RSASSA_PSS_OID;
use crate::keys::types::RSA_ENCRYPTION_OID;
use crate::keys::types::X25519_OID;
use crate::text::bytes_clone;
use crate::text::concat2;
use crate::text::decimal;
use crate::text::decimal_string;
use crate::text::str_eq;
use crate::text::utf8_text;
use crate::text::valid_prefix_len;

verus! {

/// A document, or a `TypeError` with a message where there is none.
pub open spec fn document_or(document: Option<Seq<u8>>, message: Seq<char>) -> Result<
    Seq<u8>,
    ErrorView,
> {
    match document {
        Some(document) => Ok(document),
        None => Err(type_error_view(message)),
    }
}

/// A document, or a `TypeError` with a message where there is none.
fn or_type_error(document: Option<Vec<u8>>, message: &str) -> (r: Result<Vec<u8>, AnyError>)
    ensures
        result_view(r) == document_or(opt_bytes(document), message@),
{
    match document {
        Some(document) => Ok(document),
        None => Err(type_error(message)),
    }
}

/// What is said where the bytes of a PEM file are not UTF-8.
pub open spec fn not_utf8(kind: Seq<char>, key: Seq<u8>) -> ErrorView {
    type_error_view(kind + decimal(valid_prefix_len(key)))
}

/// The PKCS#8 document of a private key in a PEM file, which may be encrypted.
pub open spec fn private_pem_document(
    pem: Seq<char>,
    passphrase: Option<Seq<u8>>,
) -> Result<Seq<u8>, ErrorView> {
    match passphrase {
        Some(passphrase) => document_or(
            decrypted_pem(pem, passphrase),
            "invalid encrypted PEM private key"@,
        ),
        None => match secret_pem(pem) {
            None => Err(type_error_view("invalid PEM private key"@)),
            Some((label, document)) => if label == "ENCRYPTED PRIVATE KEY"@ {
                Err(type_error_view("encrypted private key requires a passphrase to decrypt"@))
            } else if label == "PRIVATE KEY"@ {
                Ok(document)
            } else if label == "RSA PRIVATE KEY"@ {
                document_or(pkcs1_private_document(document), "invalid PKCS#1 private key"@)
            } else if label == "EC PRIVATE KEY"@ {
                document_or(sec1_document(document), "invalid SEC1 private key"@)
            } else {
                Err(type_error_view("unsupported PEM label: "@ + label))
            },
        },
    }
}

/// The PKCS#8 document of a private key in DER of a given type.
pub open spec fn private_der_document(
    key: Seq<u8>,
    typ: Seq<char>,
    passphrase: Option<Seq<u8>>,
) -> Result<Seq<u8>, ErrorView> {
    if typ == "pkcs8"@ {
        match passphrase {
            Some(passphrase) => document_or(
                decrypted_der(key, passphrase),
                "invalid encrypted PKCS#8 private key"@,
            ),
            None => document_or(pkcs8_document(key), "invalid PKCS#8 private key"@),
        }
    } else if typ == "pkcs1"@ {
        if passphrase is Some {
            Err(
                type_error_view("PKCS#1 private key does not support encryption with passphrase"@),
            )
        } else {
            document_or(pkcs1_private_document(key), "invalid PKCS#1 private key"@)
        }
    } else if typ == "sec1"@ {
        if passphrase is Some {
            Err(type_error_view("SEC1 private key does not support encryption with passphrase"@))
        } else {
            document_or(sec1_document(key), "invalid SEC1 private key"@)
        }
    } else {
        Err(type_error_view("unsupported key type: "@ + typ))
    }
}

/// The PKCS#8 document of a private key in a given format.
pub open spec fn private_document(
    key: Seq<u8>,
    format: Seq<char>,
    typ: Seq<char>,
    passphrase: Option<Seq<u8>>,
) -> Result<Seq<u8>, ErrorView> {
    if format == "pem"@ {
        if valid_utf8(key) {
            private_pem_document(decode_utf8(key), passphrase)
        } else {
            Err(not_utf8("invalid PEM private key: not valid utf8 starting at byte "@, key))
        }
    } else if format == "der"@ {
        private_der_document(key, typ, passphrase)
    } else {
        Err(type_error_view("unsupported key format: "@ + format))
    }
}

/// The type of the structure that bytes without a passphrase hold, and the
/// structure: in DER it is named beside the bytes, in a PEM file by its label.
pub open spec fn structure_in(key: Seq<u8>, format: Seq<char>, typ: Seq<char>) -> Option<
    (Seq<char>, Seq<u8>),
> {
    if format == "der"@ {
        Some((typ, key))
    } else if format == "pem"@ && valid_utf8(key) {
        match secret_pem(decode_utf8(key)) {
            Some((label, document)) => if label == "PRIVATE KEY"@ {
                Some(("pkcs8"@, document))
            } else if label == "RSA PRIVATE KEY"@ {
                Some(("pkcs1"@, document))
            } else if label == "EC PRIVATE KEY"@ {
                Some(("sec1"@, document))
            } else {
                None
            },
            None => None,
        }
    } else {
        None
    }
}

/// A PKCS#8 structure holds another one as it is, under the object identifier of
/// its type.
pub open spec fn wraps(document: Seq<u8>, oid: Seq<u8>, structure: Seq<u8>) -> bool {
    &&& private_key_info(document) matches Some(info)
    &&& info.algorithm.oid == oid
    &&& info.private_key == structure
}

/// The hash and the salt length that RSASSA-PSS parameters ask for, or an error
/// with one of two messages where there are none or they are malformed.
pub open spec fn pss_of_parameters(
    parameters: Option<AnyView>,
    missing: Seq<char>,
    malformed: Seq<char>,
) -> Result<(RsaPssHashAlgorithm, u32), ErrorView> {
    match parameters {
        None => Err(type_error_view(missing)),
        Some(any) => match pss_parameters(any) {
            None => Err(type_error_view(malformed)),
            Some(pss) => match pss_hash(pss.hash_algorithm.oid) {
                None => Err(type_error_view("unsupported pss hash algorithm"@)),
                Some(hash) => Ok((hash, pss.salt_length)),
            },
        },
    }
}

/// The object identifier that the parameters of an algorithm hold.
pub open spec fn parameters_oid(algorithm: AlgorithmView) -> Option<Seq<u8>> {
    match algorithm.parameters {
        Some(any) => oid_of_any(any),
        None => None,
    }
}

/// The key that a PKCS#8 structure holds.
pub open spec fn private_key_of_info(info: PrivateKeyInfoView) -> Result<
    PrivateKeyView,
    ErrorView,
> {
    let oid = info.algorithm.oid;
    if oid == RSA_ENCRYPTION_OID@ {
        match rsa_private_key(info.private_key) {
            Some(key) => Ok(PrivateKeyView::Rsa(key)),
            None => Err(type_error_view("invalid PKCS#1 private key"@)),
        }
    } else if oid == RSASSA_PSS_OID@ {
        match pss_of_parameters(
            info.algorithm.parameters,
            "missing pss private key parameters"@,
            "malformed pss private key parameters"@,
        ) {
            Err(e) => Err(e),
            Ok((hash_algorithm, salt_length)) => match rsa_private_key(info.private_key) {
                Some(key) => Ok(
                    PrivateKeyView::RsaPss(RsaPssPrivateView { key, hash_algorithm, salt_length }),
                ),
                None => Err(type_error_view("invalid PKCS#1 private key"@)),
            },
        }
    } else if oid == DSA_OID@ {
        match dsa_private_key(info) {
            Some(key) => Ok(PrivateKeyView::Dsa(key)),
            None => Err(type_error_view("invalid DSA private key"@)),
        }
    } else if oid == EC_OID@ {
        match parameters_oid(info.algorithm) {
            None => Err(type_error_view("malformed or missing named curve in ec parameters"@)),
            Some(named) => match curve_of_oid(named) {
                None => Err(type_error_view("unsupported ec named curve"@)),
                Some(curve) => match ec_secret_key(curve, info.private_key) {
                    Some(scalar) => Ok(PrivateKeyView::Ec(EcView { curve, bytes: scalar })),
                    None => Err(type_error_view("invalid SEC1 private key"@)),
                },
            },
        }
    } else if oid == X25519_OID@ {
        if info.private_key.len() == 32 {
            Ok(PrivateKeyView::X25519(info.private_key))
        } else {
            Err(type_error_view("x25519 private key is the wrong length"@))
        }
    } else if oid == ED25519_OID@ {
        if info.private_key.len() == 32 {
            Ok(PrivateKeyView::Ed25519(info.private_key))
        } else {
            Err(type_error_view("x25519 private key is the wrong length"@))
        }
    } else if oid == DH_KEY_AGREEMENT_OID@ {
        Ok(PrivateKeyView::Dh(info.private_key))
    } else {
        Err(type_error_view("unsupported private key oid"@))
    }
}

/// The private key that bytes in a given format hold.
pub open spec fn private_key_from(
    key: Seq<u8>,
    format: Seq<char>,
    typ: Seq<char>,
    passphrase: Option<Seq<u8>>,
) -> Result<PrivateKeyView, ErrorView> {
    match private_document(key, format, typ, passphrase) {
        Err(e) => Err(e),
        Ok(document) => match private_key_info(document) {
            None => Err(type_error_view("invalid private key"@)),
            Some(info) => private_key_of_info(info),
        },
    }
}

/// The SubjectPublicKeyInfo document of a public key in a PEM file.
pub open spec fn public_pem_document(pem: Seq<char>) -> Result<Seq<u8>, ErrorView> {
    match public_pem(pem) {
        None => Err(type_error_view("invalid PEM public key"@)),
        Some((label, document)) => if label == "PUBLIC KEY"@ {
            Ok(document)
        } else if label == "RSA PUBLIC KEY"@ {
            document_or(pkcs1_public_document(document), "invalid PKCS#1 public key"@)
        } else if label == "ENCRYPTED PRIVATE KEY"@ {
            Err(type_error_view("deriving public key from encrypted private key"@))
        } else if label == "PRIVATE KEY"@ {
            Err(type_error_view("public key cannot be a private key"@))
        } else if label == "EC PRIVATE KEY"@ {
            Err(type_error_view("deriving public key from ec private key"@))
        } else if label == "RSA PRIVATE KEY"@ {
            Err(type_error_view("deriving public key from rsa private key"@))
        } else {
            Err(type_error_view("unsupported PEM label: "@ + label))
        },
    }
}

/// The SubjectPublicKeyInfo document of a public key in a given format.
pub open spec fn public_key_document(
    key: Seq<u8>,
    format: Seq<char>,
    typ: Seq<char>,
) -> Result<Seq<u8>, ErrorView> {
    if format == "pem"@ {
        if valid_utf8(key) {
            public_pem_document(decode_utf8(key))
        } else {
            Err(not_utf8("invalid PEM public key: not valid utf8 starting at byte "@, key))
        }
    } else if format == "der"@ {
        if typ == "pkcs1"@ {
            document_or(pkcs1_public_document(key), "invalid PKCS#1 public key"@)
        } else if typ == "spki"@ {
            document_or(public_document(key), "invalid SPKI public key"@)
        } else {
            Err(type_error_view("unsupported key type: "@ + typ))
        }
    } else {
        Err(type_error_view("unsupported key format: "@ + format))
    }
}

/// An RSA public key from PKCS#1 bytes.
pub open spec fn rsa_public_of(content: Seq<u8>) -> Result<
    RsaPublicView,
    ErrorView,
> {
    match rsa_public_key(content) {
        Ok(key) => Ok(key),
        Err(message) => Err(generic_error_view(message)),
    }
}

/// The public key that a SubjectPublicKeyInfo structure holds.
pub open spec fn public_key_of_spki(info: SpkiView) -> Result<PublicKeyView, ErrorView> {
    let oid = info.algorithm.oid;
    let content = info.subject_public_key;
    if oid == RSA_ENCRYPTION_OID@ {
        match rsa_public_of(content->0) {
            Ok(key) => Ok(PublicKeyView::Rsa(key)),
            Err(e) => Err(e),
        }
    } else if oid == RSASSA_PSS_OID@ {
        match pss_of_parameters(
            info.algorithm.parameters,
            "missing pss public key parameters"@,
            "malformed pss public key parameters"@,
        ) {
            Err(e) => Err(e),
            Ok((hash_algorithm, salt_length)) => match rsa_public_of(content->0) {
                Ok(key) => Ok(
                    PublicKeyView::RsaPss(RsaPssPublicView { key, hash_algorithm, salt_length }),
                ),
                Err(e) => Err(e),
            },
        }
    } else if oid == DSA_OID@ {
        match content {
            None => Err(type_error_view("malformed DSS public key"@)),
            Some(content) => match dsa_public_key(info.algorithm, content) {
                Some(key) => Ok(PublicKeyView::Dsa(key)),
                None => Err(type_error_view("malformed DSS public key"@)),
            },
        }
    } else if oid == EC_OID@ {
        match parameters_oid(info.algorithm) {
            None => Err(type_error_view("malformed or missing named curve in ec parameters"@)),
            Some(named) => match content {
                None => Err(type_error_view("malformed or missing public key in ec spki"@)),
                Some(content) => match curve_of_oid(named) {
                    None => Err(type_error_view("unsupported ec named curve"@)),
                    Some(curve) => match ec_point(curve, content) {
                        Some(point) => Ok(PublicKeyView::Ec(EcView { curve, bytes: point })),
                        None => Err(generic_error_view("crypto error"@)),
                    },
                },
            },
        }
    } else if oid == X25519_OID@ {
        match content {
            None => Err(type_error_view("malformed or missing public key in x25519 spki"@)),
            Some(content) => if content.len() == 32 {
                Ok(PublicKeyView::X25519(content))
            } else {
                Err(type_error_view("x25519 public key is the wrong length"@))
            },
        }
    } else if oid == ED25519_OID@ {
        match content {
            None => Err(type_error_view("malformed or missing public key in ed25519 spki"@)),
            Some(content) => if content.len() != 32 {
                Err(type_error_view("ed25519 public key is the wrong length"@))
            } else if ed25519_valid(content) {
                Ok(PublicKeyView::Ed25519(content))
            } else {
                Err(type_error_view("ed25519 public key is malformed"@))
            },
        }
    } else if oid == DH_KEY_AGREEMENT_OID@ {
        Ok(PublicKeyView::Dh(content->0))
    } else {
        Err(type_error_view("unsupported public key oid"@))
    }
}

/// The bit string of the key ends on a byte, where the key is read without
/// asking whether it does.
pub open spec fn has_whole_key(info: SpkiView) -> bool {
    let oid = info.algorithm.oid;
    let asked = if oid == RSASSA_PSS_OID@ {
        pss_of_parameters(
            info.algorithm.parameters,
            "missing pss public key parameters"@,
            "malformed pss public key parameters"@,
        ) is Ok
    } else {
        oid == RSA_ENCRYPTION_OID@ || oid == DH_KEY_AGREEMENT_OID@
    };
    asked ==> info.subject_public_key is Some
}

/// The public key that bytes in a given format hold.
pub open spec fn public_key_from(key: Seq<u8>, format: Seq<char>, typ: Seq<char>) -> Result<
    PublicKeyView,
    ErrorView,
> {
    match public_key_document(key, format, typ) {
        Err(e) => Err(e),
        Ok(document) => match spki(document) {
            Err(message) => Err(generic_error_view(message)),
            Ok(info) => public_key_of_spki(info),
        },
    }
}

/// The bytes hold no public key whose bit string breaks off inside a byte where
/// that is not asked.
pub open spec fn readable_public_key(key: Seq<u8>, format: Seq<char>, typ: Seq<char>) -> bool {
    match public_key_document(key, format, typ) {
        Err(_) => true,
        Ok(document) => match spki(document) {
            Err(_) => true,
            Ok(info) => has_whole_key(info),
        },
    }
}

/// The bytes of an optional passphrase.
pub open spec fn passphrase_view(passphrase: Option<&[u8]>) -> Option<Seq<u8>> {
    match passphrase {
        Some(p) => Some(p@),
        None => None,
    }
}

/// Reading the bytes as a private key comes to an end: where it is encrypted, the
/// derivation that it names does.
pub open spec fn readable_private_key(
    key: Seq<u8>,
    format: Seq<char>,
    typ: Seq<char>,
    passphrase: Option<Seq<u8>>,
) -> bool {
    passphrase is Some ==> {
        &&& format == "pem"@ && valid_utf8(key) ==> is_decryptable_pem(decode_utf8(key))
        &&& format == "der"@ && typ == "pkcs8"@ ==> is_decryptable(key)
    }
}

/// Whether decrypting the document with a passphrase comes to an end.
fn check_decryptable(der: &[u8]) -> (r: bool)
    ensures
        r == is_decryptable(der@),
{
    match read_scrypt_cost(der) {
        Some(cost) => cost.check_derivable(),
        None => true,
    }
}

/// Whether reading the bytes as a private key comes to an end.
pub fn is_readable_private_key(
    key: &[u8],
    format: &str,
    typ: &str,
    passphrase: Option<&[u8]>,
) -> (r: bool)
    ensures
        r == readable_private_key(key@, format@, typ@, passphrase_view(passphrase)),
{
    proof {
        reveal_strlit("pem");
        reveal_strlit("der");
        assert("pem"@[0] != "der"@[0]);
    }
    if passphrase.is_none() {
        true
    } else if str_eq(format, "pem") {
        match utf8_text(key) {
            Err(_) => true,
            Ok(pem) => match read_secret_pem(pem) {
                Some((label, document)) => !str_eq(label.as_str(), "ENCRYPTED PRIVATE KEY")
                    || check_decryptable(document.as_slice()),
                None => true,
            },
        }
    } else if str_eq(format, "der") && str_eq(typ, "pkcs8") {
        check_decryptable(key)
    } else {
        true
    }
}

/// The labels, formats and types of private keys have different names.
pub proof fn lemma_labels_differ()
    ensures
        "pem"@ != "der"@,
        "sec1"@ != "pkcs1"@,
        "sec1"@ != "pkcs8"@,
        "pkcs1"@ != "pkcs8"@,
        "EC PRIVATE KEY"@ != "RSA PRIVATE KEY"@,
        "EC PRIVATE KEY"@ != "PRIVATE KEY"@,
        "EC PRIVATE KEY"@ != "ENCRYPTED PRIVATE KEY"@,
        "RSA PRIVATE KEY"@ != "PRIVATE KEY"@,
        "RSA PRIVATE KEY"@ != "ENCRYPTED PRIVATE KEY"@,
        "PRIVATE KEY"@ != "ENCRYPTED PRIVATE KEY"@,
{
    reveal_strlit("pem");
    reveal_strlit("der");
    reveal_strlit("sec1");
    reveal_strlit("pkcs1");
    reveal_strlit("pkcs8");
    assert("pem"@[0] != "der"@[0]);
    assert("sec1"@.len() == 4 && "pkcs1"@.len() == 5 && "pkcs8"@.len() == 5);
    assert("pkcs1"@[4] != "pkcs8"@[4]);
    assert("EC PRIVATE KEY"@.len() == 14) by {
        reveal_strlit("EC PRIVATE KEY");
    }
    assert("RSA PRIVATE KEY"@.len() == 15) by {
        reveal_strlit("RSA PRIVATE KEY");
    }
    assert("PRIVATE KEY"@.len() == 11) by {
        reveal_strlit("PRIVATE KEY");
    }
    assert("ENCRYPTED PRIVATE KEY"@.len() == 21) by {
        reveal_strlit("ENCRYPTED PRIVATE KEY");
    }
}

/// The PKCS#8 document of a private key in a PEM file.
fn read_private_pem(pem: &str, passphrase: Option<&[u8]>) -> (r: Result<Vec<u8>, AnyError>)
    requires
        passphrase is Some ==> is_decryptable_pem(pem@),
    ensures
        result_view(r) == private_pem_document(pem@, passphrase_view(passphrase)),
        passphrase is None ==> (r matches Ok(document) ==> {
            &&& secret_pem(pem@) matches Some((label, inner))
            &&& label == "EC PRIVATE KEY"@ ==> wraps(document@, EC_OID@, inner)
            &&& label == "RSA PRIVATE KEY"@ ==> wraps(document@, RSA_ENCRYPTION_OID@, inner)
            &&& label == "PRIVATE KEY"@ ==> document@ == inner
        }),
{
    proof {
        lemma_labels_differ();
    }
    if let Some(passphrase) = passphrase {
        return or_type_error(decrypt_pem(pem, passphrase), "invalid encrypted PEM private key");
    }
    match read_secret_pem(pem) {
        None => Err(type_error("invalid PEM private key")),
        Some((label, document)) => {
            if str_eq(label.as_str(), "ENCRYPTED PRIVATE KEY") {
                Err(type_error("encrypted private key requires a passphrase to decrypt"))
            } else if str_eq(label.as_str(), "PRIVATE KEY") {
                Ok(document)
            } else if str_eq(label.as_str(), "RSA PRIVATE KEY") {
                or_type_error(
                    read_pkcs1_private(document.as_slice()),
                    "invalid PKCS#1 private key",
                )
            } else if str_eq(label.as_str(), "EC PRIVATE KEY") {
                or_type_error(read_sec1(document.as_slice()), "invalid SEC1 private key")
            } else {
                Err(type_error(concat2("unsupported PEM label: ", label.as_str()).as_str()))
            }
        },
    }
}

/// The PKCS#8 document of a private key in DER of a given type.
fn read_private_der(key: &[u8], typ: &str, passphrase: Option<&[u8]>) -> (r: Result<
    Vec<u8>,
    AnyError,
>)
    requires
        passphrase is Some && typ@ == "pkcs8"@ ==> is_decryptable(key@),
    ensures
        result_view(r) == private_der_document(key@, typ@, passphrase_view(passphrase)),
        typ@ == "sec1"@ ==> (r matches Ok(document) ==> wraps(document@, EC_OID@, key@)),
        typ@ == "pkcs1"@ ==> (r matches Ok(document) ==> wraps(
            document@,
            RSA_ENCRYPTION_OID@,
            key@,
        )),
{
    proof {
        lemma_labels_differ();
    }
    if str_eq(typ, "pkcs8") {
        match passphrase {
            Some(passphrase) => or_type_error(
                decrypt_der(key, passphrase),
                "invalid encrypted PKCS#8 private key",
            ),
            None => or_type_error(read_pkcs8(key), "invalid PKCS#8 private key"),
        }
    } else if str_eq(typ, "pkcs1") {
        if passphrase.is_some() {
            return Err(
                type_error("PKCS#1 private key does not support encryption with passphrase"),
            );
        }
        or_type_error(read_pkcs1_private(key), "invalid PKCS#1 private key")
    } else if str_eq(typ, "sec1") {
        if passphrase.is_some() {
            return Err(type_error("SEC1 private key does not support encryption with passphrase"));
        }
        or_type_error(read_sec1(key), "invalid SEC1 private key")
    } else {
        Err(type_error(concat2("unsupported key type: ", typ).as_str()))
    }
}

/// The text of a PEM file, or an error that says where the bytes stop being
/// UTF-8.
fn pem_of<'a>(key: &'a [u8], kind: &str) -> (r: Result<&'a str, AnyError>)
    ensures
        match r {
            Ok(pem) => valid_utf8(key@) && pem@ == decode_utf8(key@),
            Err(e) => !valid_utf8(key@) && e@ == not_utf8(kind@, key@),
        },
{
    match utf8_text(key) {
        Ok(pem) => Ok(pem),
        Err(n) => Err(type_error(concat2(kind, decimal_string(n as u64).as_str()).as_str())),
    }
}

/// The PKCS#8 document of a private key in a given format.
pub fn read_private_document(
    key: &[u8],
    format: &str,
    typ: &str,
    passphrase: Option<&[u8]>,
) -> (r: Result<Vec<u8>, AnyError>)
    requires
        readable_private_key(key@, format@, typ@, passphrase_view(passphrase)),
    ensures
        result_view(r) == private_document(key@, format@, typ@, passphrase_view(passphrase)),
        passphrase is None ==> (r matches Ok(document) ==> match structure_in(
            key@,
            format@,
            typ@,
        ) {
            Some((of, structure)) => {
                &&& of == "sec1"@ ==> wraps(document@, EC_OID@, structure)
                &&& of == "pkcs1"@ ==> wraps(document@, RSA_ENCRYPTION_OID@, structure)
            },
            None => false,
        }),
{
    proof {
        lemma_labels_differ();
    }
    if str_eq(format, "pem") {
        match pem_of(key, "invalid PEM private key: not valid utf8 starting at byte ") {
            Ok(pem) => read_private_pem(pem, passphrase),
            Err(e) => Err(e),
        }
    } else if str_eq(format, "der") {
        read_private_der(key, typ, passphrase)
    } else {
        Err(type_error(concat2("unsupported key format: ", format).as_str()))
    }
}

/// The hash and the salt length that RSASSA-PSS parameters ask for.
fn read_pss(algorithm: &AlgorithmIdentifier, missing: &str, malformed: &str) -> (r: Result<
    (RsaPssHashAlgorithm, u32),
    AnyError,
>)
    ensures
        match r {
            Ok(pss) => pss_of_parameters(algorithm@.parameters, missing@, malformed@) == Ok::<
                _,
                ErrorView,
            >(pss),
            Err(e) => pss_of_parameters(algorithm@.parameters, missing@, malformed@) == Err::<
                (RsaPssHashAlgorithm, u32),
                _,
            >(e@),
        },
{
    match &algorithm.parameters {
        None => Err(type_error(missing)),
        Some(any) => match RsaPssParameters::try_from(any) {
            None => Err(type_error(malformed)),
            Some(pss) => match pss_hash_algorithm(pss.hash_algorithm.oid.as_slice()) {
                None => Err(type_error("unsupported pss hash algorithm")),
                Some(hash) => Ok((hash, pss.salt_length)),
            },
        },
    }
}

/// The object identifier that the parameters of an algorithm hold.
fn read_parameters_oid(algorithm: &AlgorithmIdentifier) -> (r: Option<Vec<u8>>)
    ensures
        match r {
            Some(oid) => parameters_oid(algorithm@) == Some(oid@),
            None => parameters_oid(algorithm@) is None,
        },
{
    match &algorithm.parameters {
        Some(any) => any_to_oid(any),
        None => None,
    }
}

/// The curve that an object identifier names.
fn read_curve(oid: &[u8]) -> (r: Option<NamedCurve>)
    ensures
        r == curve_of_oid(oid@),
{
    if is_oid(oid, ID_SECP224R1_OID) {
        Some(NamedCurve::P224)
    } else if is_oid(oid, ID_SECP256R1_OID) {
        Some(NamedCurve::P256)
    } else if is_oid(oid, ID_SECP384R1_OID) {
        Some(NamedCurve::P384)
    } else {
        None
    }
}

/// Thirty-two bytes as an array.
fn array_of(bytes: &Vec<u8>) -> (r: Option<[u8; 32]>)
    ensures
        r is Some <==> bytes@.len() == 32,
        r matches Some(a) ==> a@ == bytes@,
{
    if bytes.len() != 32 {
        return None;
    }
    let mut out: [u8; 32] = [0; 32];
    let mut i: usize = 0;
    while i < 32
        invariant
            i <= 32,
            bytes@.len() == 32,
            forall|j: int| 0 <= j < i ==> out@[j] == bytes@[j],
        decreases 32 - i,
    {
        out[i] = bytes[i];
        i = i + 1;
    }
    assert(out@ =~= bytes@);
    Some(out)
}

/// The elliptic-curve secret key that a SEC1 structure holds.
fn read_ec_secret_key(curve: NamedCurve, sec1: &[u8]) -> (r: Option<EcPrivateKey>)
    ensures
        match r {
            Some(key) => ec_secret_key(curve, sec1@) == Some(key@.bytes) && key@.curve == curve,
            None => ec_secret_key(curve, sec1@) is None,
        },
{
    match curve {
        NamedCurve::P224 => match P224SecretKey::from_sec1_der(sec1) {
            Some(key) => Some(EcPrivateKey::P224(key)),
            None => None,
        },
        NamedCurve::P256 => match P256SecretKey::from_sec1_der(sec1) {
            Some(key) => Some(EcPrivateKey::P256(key)),
            None => None,
        },
        NamedCurve::P384 => match P384SecretKey::from_sec1_der(sec1) {
            Some(key) => Some(EcPrivateKey::P384(key)),
            None => None,
        },
    }
}

/// The elliptic-curve private key that a PKCS#8 structure holds.
fn ec_private_key_from_info(info: &PrivateKeyInfo) -> (r: Result<AsymmetricPrivateKey, AnyError>)
    requires
        info@.algorithm.oid == EC_OID@,
    ensures
        result_view(r) == private_key_of_info(info@),
        r matches Ok(key) ==> key@.wf(),
{
    proof {
        lemma_key_oids_differ();
    }
    match read_parameters_oid(&info.algorithm) {
        None => Err(type_error("malformed or missing named curve in ec parameters")),
        Some(named) => match read_curve(named.as_slice()) {
            None => Err(type_error("unsupported ec named curve")),
            Some(curve) => match read_ec_secret_key(curve, info.private_key.as_slice()) {
                Some(key) => Ok(AsymmetricPrivateKey::Ec(key)),
                None => Err(type_error("invalid SEC1 private key")),
            },
        },
    }
}

/// The key that a PKCS#8 structure holds.
pub fn private_key_from_info(info: &PrivateKeyInfo) -> (r: Result<AsymmetricPrivateKey, AnyError>)
    ensures
        result_view(r) == private_key_of_info(info@),
        r matches Ok(key) ==> key@.wf(),
{
    let oid = info.algorithm.oid.as_slice();
    if is_oid(oid, RSA_ENCRYPTION_OID) {
        match read_rsa_private_key(info.private_key.as_slice()) {
            Some(key) => Ok(AsymmetricPrivateKey::Rsa(key)),
            None => Err(type_error("invalid PKCS#1 private key")),
        }
    } else if is_oid(oid, RSASSA_PSS_OID) {
        match read_pss(
            &info.algorithm,
            "missing pss private key parameters",
            "malformed pss private key parameters",
        ) {
            Err(e) => Err(e),
            Ok((hash_algorithm, salt_length)) => match read_rsa_private_key(
                info.private_key.as_slice(),
            ) {
                Some(key) => Ok(
                    AsymmetricPrivateKey::RsaPss(
                        RsaPssPrivateKey { key, hash_algorithm, salt_length },
                    ),
                ),
                None => Err(type_error("invalid PKCS#1 private key")),
            },
        }
    } else if is_oid(oid, DSA_OID) {
        match read_dsa_private_key(info) {
            Some(key) => Ok(AsymmetricPrivateKey::Dsa(key)),
            None => Err(type_error("invalid DSA private key")),
        }
    } else if is_oid(oid, EC_OID) {
        ec_private_key_from_info(info)
    } else if is_oid(oid, X25519_OID) {
        match array_of(&info.private_key) {
            Some(bytes) => Ok(AsymmetricPrivateKey::X25519(bytes)),
            None => Err(type_error("x25519 private key is the wrong length")),
        }
    } else if is_oid(oid, ED25519_OID) {
        match array_of(&info.private_key) {
            Some(bytes) => Ok(AsymmetricPrivateKey::Ed25519(bytes)),
            None => Err(type_error("x25519 private key is the wrong length")),
        }
    } else if is_oid(oid, DH_KEY_AGREEMENT_OID) {
        Ok(AsymmetricPrivateKey::Dh(bytes_clone(&info.private_key)))
    } else {
        Err(type_error("unsupported private key oid"))
    }
}

/// The SubjectPublicKeyInfo document of a public key in a PEM file.
fn read_public_pem_document(pem: &str) -> (r: Result<Vec<u8>, AnyError>)
    ensures
        result_view(r) == public_pem_document(pem@),
{
    match read_public_pem(pem) {
        None => Err(type_error("invalid PEM public key")),
        Some((label, document)) => {
            if str_eq(label.as_str(), "PUBLIC KEY") {
                Ok(document)
            } else if str_eq(label.as_str(), "RSA PUBLIC KEY") {
                or_type_error(read_pkcs1_public(document.as_slice()), "invalid PKCS#1 public key")
            } else if str_eq(label.as_str(), "ENCRYPTED PRIVATE KEY") {
                Err(type_error("deriving public key from encrypted private key"))
            } else if str_eq(label.as_str(), "PRIVATE KEY") {
                Err(type_error("public key cannot be a private key"))
            } else if str_eq(label.as_str(), "EC PRIVATE KEY") {
                Err(type_error("deriving public key from ec private key"))
            } else if str_eq(label.as_str(), "RSA PRIVATE KEY") {
                Err(type_error("deriving public key from rsa private key"))
            } else {
                Err(type_error(concat2("unsupported PEM label: ", label.as_str()).as_str()))
            }
        },
    }
}

/// The SubjectPublicKeyInfo document of a public key in a given format.
pub fn read_public_key_document(key: &[u8], format: &str, typ: &str) -> (r: Result<
    Vec<u8>,
    AnyError,
>)
    ensures
        result_view(r) == public_key_document(key@, format@, typ@),
{
    if str_eq(format, "pem") {
        match pem_of(key, "invalid PEM public key: not valid utf8 starting at byte ") {
            Ok(pem) => read_public_pem_document(pem),
            Err(e) => Err(e),
        }
    } else if str_eq(format, "der") {
        if str_eq(typ, "pkcs1") {
            or_type_error(read_pkcs1_public(key), "invalid PKCS#1 public key")
        } else if str_eq(typ, "spki") {
            or_type_error(read_public_document(key), "invalid SPKI public key")
        } else {
            Err(type_error(concat2("unsupported key type: ", typ).as_str()))
        }
    } else {
        Err(type_error(concat2("unsupported key format: ", format).as_str()))
    }
}

/// The point on a curve that SEC1 bytes encode.
fn read_ec_point(curve: NamedCurve, sec1: &[u8]) -> (r: Option<EcPublicKey>)
    ensures
        match r {
            Some(key) => {
                &&& ec_point(curve, sec1@) == Some(key@.bytes)
                &&& ec_point(curve, key@.bytes) == Some(key@.bytes)
                &&& key@.curve == curve
            },
            None => ec_point(curve, sec1@) is None,
        },
{
    match curve {
        NamedCurve::P224 => match read_p224_point(sec1) {
            Some(point) => Some(EcPublicKey::P224(point)),
            None => None,
        },
        NamedCurve::P256 => match read_p256_point(sec1) {
            Some(point) => Some(EcPublicKey::P256(point)),
            None => None,
        },
        NamedCurve::P384 => match read_p384_point(sec1) {
            Some(point) => Some(EcPublicKey::P384(point)),
            None => None,
        },
    }
}

/// The elliptic-curve public key that a SubjectPublicKeyInfo structure holds.
fn ec_public_key_from_spki(info: &SubjectPublicKeyInfo) -> (r: Result<
    AsymmetricPublicKey,
    AnyError,
>)
    requires
        info@.algorithm.oid == EC_OID@,
    ensures
        result_view(r) == public_key_of_spki(info@),
        r matches Ok(key) ==> key@.wf(),
{
    proof {
        lemma_key_oids_differ();
    }
    match read_parameters_oid(&info.algorithm) {
        None => Err(type_error("malformed or missing named curve in ec parameters")),
        Some(named) => match &info.subject_public_key {
            None => Err(type_error("malformed or missing public key in ec spki")),
            Some(content) => match read_curve(named.as_slice()) {
                None => Err(type_error("unsupported ec named curve")),
                Some(curve) => match read_ec_point(curve, content.as_slice()) {
                    Some(key) => Ok(AsymmetricPublicKey::Ec(key)),
                    None => Err(generic_error("crypto error")),
                },
            },
        },
    }
}

/// The RSA public key in the contents of a SubjectPublicKeyInfo structure.
fn rsa_public_key_from(content: &Option<Vec<u8>>) -> (r: Result<
    RsaPublicKey,
    AnyError,
>)
    requires
        content is Some,
    ensures
        result_view(r) == rsa_public_of(content->0@),
        r matches Ok(key) ==> key@.wf(),
{
    match content {
        Some(content) => match read_rsa_public_key(content.as_slice()) {
            Ok(key) => Ok(key),
            Err(message) => Err(generic_error(message.as_str())),
        },
        None => unreached(),
    }
}

/// The X25519 or Ed25519 public key that a SubjectPublicKeyInfo structure holds.
fn curve25519_public_key_from_spki(info: &SubjectPublicKeyInfo) -> (r: Result<
    AsymmetricPublicKey,
    AnyError,
>)
    requires
        info@.algorithm.oid == X25519_OID@ || info@.algorithm.oid == ED25519_OID@,
    ensures
        result_view(r) == public_key_of_spki(info@),
        r matches Ok(key) ==> key@.wf(),
{
    proof {
        lemma_key_oids_differ();
    }
    if is_oid(info.algorithm.oid.as_slice(), X25519_OID) {
        match &info.subject_public_key {
            None => Err(type_error("malformed or missing public key in x25519 spki")),
            Some(content) => match array_of(content) {
                Some(bytes) => Ok(AsymmetricPublicKey::X25519(bytes)),
                None => Err(type_error("x25519 public key is the wrong length")),
            },
        }
    } else {
        match &info.subject_public_key {
            None => Err(type_error("malformed or missing public key in ed25519 spki")),
            Some(content) => match array_of(content) {
                None => Err(type_error("ed25519 public key is the wrong length")),
                Some(bytes) => if is_ed25519_public(&bytes) {
                    Ok(AsymmetricPublicKey::Ed25519(bytes))
                } else {
                    Err(type_error("ed25519 public key is malformed"))
                },
            },
        }
    }
}

/// The public key that a SubjectPublicKeyInfo structure holds.
pub fn public_key_from_spki(info: &SubjectPublicKeyInfo) -> (r: Result<
    AsymmetricPublicKey,
    AnyError,
>)
    requires
        has_whole_key(info@),
    ensures
        result_view(r) == public_key_of_spki(info@),
        r matches Ok(key) ==> key@.wf(),
{
    proof {
        lemma_key_oids_differ();
    }
    let oid = info.algorithm.oid.as_slice();
    if is_oid(oid, RSA_ENCRYPTION_OID) {
        match rsa_public_key_from(&info.subject_public_key) {
            Ok(key) => Ok(AsymmetricPublicKey::Rsa(key)),
            Err(e) => Err(e),
        }
    } else if is_oid(oid, RSASSA_PSS_OID) {
        match read_pss(
            &info.algorithm,
            "missing pss public key parameters",
            "malformed pss public key parameters",
        ) {
            Err(e) => Err(e),
            Ok((hash_algorithm, salt_length)) => match rsa_public_key_from(
                &info.subject_public_key,
            ) {
                Ok(key) => Ok(
                    AsymmetricPublicKey::RsaPss(
                        RsaPssPublicKey { key, hash_algorithm, salt_length },
                    ),
                ),
                Err(e) => Err(e),
            },
        }
    } else if is_oid(oid, DSA_OID) {
        match &info.subject_public_key {
            None => Err(type_error("malformed DSS public key")),
            Some(content) => match read_dsa_public_key(&info.algorithm, content.as_slice()) {
                Some(key) => Ok(AsymmetricPublicKey::Dsa(key)),
                None => Err(type_error("malformed DSS public key")),
            },
        }
    } else if is_oid(oid, EC_OID) {
        ec_public_key_from_spki(info)
    } else if is_oid(oid, X25519_OID) || is_oid(oid, ED25519_OID) {
        curve25519_public_key_from_spki(info)
    } else if is_oid(oid, DH_KEY_AGREEMENT_OID) {
        match &info.subject_public_key {
            Some(content) => Ok(AsymmetricPublicKey::Dh(bytes_clone(content))),
            None => unreached(),
        }
    } else {
        Err(type_error("unsupported public key oid"))
    }
}

/// Whether the bit string of the key ends on a byte, where the key is read
/// without asking whether it does.
fn is_whole_key(info: &SubjectPublicKeyInfo) -> (r: bool)
    ensures
        r == has_whole_key(info@),
{
    if info.subject_public_key.is_some() {
        return true;
    }
    let oid = info.algorithm.oid.as_slice();
    if is_oid(oid, RSASSA_PSS_OID) {
        read_pss(
            &info.algorithm,
            "missing pss public key parameters",
            "malformed pss public key parameters",
        ).is_err()
    } else {
        !is_oid(oid, RSA_ENCRYPTION_OID) && !is_oid(oid, DH_KEY_AGREEMENT_OID)
    }
}

/// Whether reading the bytes as a public key never meets a bit string that
/// breaks off inside a byte where that is not asked.
pub fn is_readable_public_key(key: &[u8], format: &str, typ: &str) -> (r: bool)
    ensures
        r == readable_public_key(key@, format@, typ@),
{
    match read_public_key_document(key, format, typ) {
        Err(_) => true,
        Ok(document) => match read_spki(document.as_slice()) {
            Err(_) => true,
            Ok(info) => is_whole_key(&info),
        },
    }
}

impl KeyObjectHandle {
    /// Reads a private key.
    pub fn new_asymmetric_private_key_from_js(
        key: &[u8],
        format: &str,
        typ: &str,
        passphrase: Option<&[u8]>,
    ) -> (r: Result<KeyObjectHandle, AnyError>)
        requires
            readable_private_key(key@, format@, typ@, passphrase_view(passphrase)),
        ensures
            match private_key_from(key@, format@, typ@, passphrase_view(passphrase)) {
                Ok(k) => r matches Ok(handle) && handle@ == KeyView::Private(k),
                Err(e) => r matches Err(error) && error@ == e,
            },
            r matches Ok(handle) ==> handle@.wf(),
            passphrase is None ==> (r matches Ok(handle) ==> {
                &&& structure_in(key@, format@, typ@) matches Some((of, structure))
                &&& handle@ matches KeyView::Private(k)
                &&& of == "sec1"@ ==> k is Ec
                &&& of == "pkcs1"@ ==> k is Rsa
            }),
    {
        proof {
            lemma_labels_differ();
            lemma_key_oids_differ();
        }
        let document = match read_private_document(key, format, typ, passphrase) {
            Ok(document) => document,
            Err(e) => {
                return Err(e);
            },
        };
        match read_private_key_info(document.as_slice()) {
            None => Err(type_error("invalid private key")),
            Some(info) => match private_key_from_info(&info) {
                Ok(private_key) => Ok(KeyObjectHandle::AsymmetricPrivateKey(private_key)),
                Err(e) => Err(e),
            },
        }
    }

    /// Reads a public key. The passphrase is not used.
    pub fn new_asymmetric_public_key_from_js(
        key: &[u8],
        format: &str,
        typ: &str,
        _passphrase: Option<&[u8]>,
    ) -> (r: Result<KeyObjectHandle, AnyError>)
        requires
            readable_public_key(key@, format@, typ@),
        ensures
            match public_key_from(key@, format@, typ@) {
                Ok(k) => r matches Ok(handle) && handle@ == KeyView::Public(k),
                Err(e) => r matches Err(error) && error@ == e,
            },
            r matches Ok(handle) ==> handle@.wf(),
    {
        let document = match read_public_key_document(key, format, typ) {
            Ok(document) => document,
            Err(e) => {
                return Err(e);
            },
        };
        match read_spki(document.as_slice()) {
            Err(message) => Err(generic_error(message.as_str())),
            Ok(info) => match public_key_from_spki(&info) {
                Ok(public_key) => Ok(KeyObjectHandle::AsymmetricPublicKey(public_key)),
                Err(e) => Err(e),
            },
        }
    }
}

} // verus!
