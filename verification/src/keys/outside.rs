//! The calls into the crates that read, write and compute with keys.
//!
//! Each function here makes one such call and converts between the crate's
//! types and the plain values of this library. What the crates compute is not
//! spelled out: it has a name, and beside the name stand the facts that the
//! rest of the library rests on.
use base64::Engine;
use const_oid::ObjectIdentifier;
use dsa::pkcs8::EncodePrivateKey;
use pkcs8::der::asn1::AnyRef;
use pkcs8::der::asn1::BitStringRef;
use pkcs8::der::Decode;
use pkcs8::der::Encode;
use pkcs8::der::Tag;
use pkcs8::der::Tagged;
use pkcs8::der::Writer;
use pkcs8::AlgorithmIdentifierRef;
use pkcs8::DecodePrivateKey;
use rand::RngCore;
use rsa::pkcs1::DecodeRsaPrivateKey;
use rsa::pkcs1::DecodeRsaPublicKey;
use rsa::pkcs1::EncodeRsaPrivateKey;
use rsa::pkcs1::EncodeRsaPublicKey;
use rsa::traits::PrivateKeyParts;
use rsa::traits::PublicKeyParts;
use sec1::DecodeEcPrivateKey;
use spki::DecodePublicKey;
use spki::EncodePublicKey;
use spki::SubjectPublicKeyInfoRef;
use vstd::prelude::*;
use crate::keys::primes::rsa_key_exists;
use crate::keys::scrypt::ScryptCost;
use crate::keys::types::be_value;
use crate::keys::types::bit_length;
use crate::keys::types::opt_bytes;
use crate::keys::types::AlgorithmIdentifier;
use crate::keys::types::AlgorithmView;
use crate::keys::types::Any;
use crate::keys::types::AnyView;
use crate::keys::types::DsaKeySize;
use crate::keys::types::DsaPrivateKey;
use crate::keys::types::DsaPrivateView;
use crate::keys::types::DsaPublicKey;
use crate::keys::types::DsaPublicView;
use crate::keys::types::PrivateKeyInfo;
use crate::keys::types::PrivateKeyInfoView;
use crate::keys::types::RsaPrivateKey;
use crate::keys::types::RsaPrivateView;
use crate::keys::types::RsaPublicKey;
use crate::keys::types::RsaPublicView;
use crate::keys::types::SpkiView;
use crate::keys::types::SubjectPublicKeyInfo;
use crate::keys::types::DSA_OID;
use crate::keys::types::EC_OID;
use crate::keys::types::RSA_ENCRYPTION_OID;

verus! {

// ---------------------------------------------------------------------------
// PEM
/// The label and the document that `SecretDocument::from_pem` reads.
pub uninterp spec fn secret_pem(pem: Seq<char>) -> Option<(Seq<char>, Seq<u8>)>;

/// The label and the document that `Document::from_pem` reads.
pub uninterp spec fn public_pem(pem: Seq<char>) -> Option<(Seq<char>, Seq<u8>)>;

/// What `PemWriter` writes into a buffer of `capacity` bytes, or the message of
/// its error.
pub uninterp spec fn pem_text(label: Seq<char>, data: Seq<u8>, capacity: nat) -> Result<
    Seq<char>,
    Seq<char>,
>;

/// The labels that the PEM files of this library carry.
pub open spec fn known_label(label: Seq<char>) -> bool {
    label == "RSA PUBLIC KEY"@ || label == "PUBLIC KEY"@ || label == "RSA PRIVATE KEY"@ || label
        == "PRIVATE KEY"@ || label == "EC PRIVATE KEY"@
}

/// Calls `SecretDocument::from_pem`.
#[verifier::external_body]
pub(crate) fn read_secret_pem(pem: &str) -> (r: Option<(String, Vec<u8>)>)
    ensures
        match r {
            Some((label, document)) => secret_pem(pem@) == Some((label@, document@)),
            None => secret_pem(pem@) is None,
        },
{
    let (label, document) = pkcs8::SecretDocument::from_pem(pem).ok()?;
    Some((label.to_string(), document.as_bytes().to_vec()))
}

/// Calls `Document::from_pem`.
#[verifier::external_body]
pub(crate) fn read_public_pem(pem: &str) -> (r: Option<(String, Vec<u8>)>)
    ensures
        match r {
            Some((label, document)) => public_pem(pem@) == Some((label@, document@)),
            None => public_pem(pem@) is None,
        },
{
    let (label, document) = pkcs8::Document::from_pem(pem).ok()?;
    Some((label.to_string(), document.into_vec()))
}

/// Calls `PemWriter::new`, `write` and `finish` on a buffer of `capacity` bytes,
/// with lines that end in a line feed. Where the label is one of this library's,
/// the text reads back as nothing but that label and that data, and it does read
/// back where the data is a document that the readers of keys accept.
#[verifier::external_body]
pub(crate) fn write_pem(label: &'static str, data: &[u8], capacity: usize) -> (r: Result<
    String,
    String,
>)
    ensures
        match r {
            Ok(text) => pem_text(label@, data@, capacity as nat) == Ok::<_, Seq<char>>(text@),
            Err(message) => pem_text(label@, data@, capacity as nat) == Err::<Seq<char>, _>(
                message@,
            ),
        },
        known_label(label@) && (private_key_info(data@) is Some || rsa_private_key(
            data@,
        ) is Some) ==> (r matches Ok(text) ==> secret_pem(text@) == Some((label@, data@))),
        known_label(label@) ==> (r matches Ok(text) ==> public_pem(text@) is None || public_pem(
            text@,
        ) == Some((label@, data@))),
        known_label(label@) && (spki(data@) is Ok || rsa_public_key(data@) is Ok) ==> (r matches Ok(
            text,
        ) ==> public_pem(text@) == Some((label@, data@))),
{
    let mut out = vec![0; capacity];
    let ending = sec1::LineEnding::LF;
    let mut writer = pkcs8::der::PemWriter::new(label, ending, &mut out).map_err(
        |e| e.to_string(),
    )?;
    writer.write(data).map_err(|e| e.to_string())?;
    let len = writer.finish().map_err(|e| e.to_string())?;
    out.truncate(len);
    Ok(String::from_utf8(out).expect("invalid pem is not possible"))
}

// ---------------------------------------------------------------------------
// Private key documents
/// The PKCS#8 document that `from_pkcs8_encrypted_der` of `SecretDocument`
/// decrypts.
pub uninterp spec fn decrypted_der(der: Seq<u8>, passphrase: Seq<u8>) -> Option<Seq<u8>>;

/// The PKCS#8 document that `from_pkcs8_der` of `SecretDocument` gives.
pub uninterp spec fn pkcs8_document(der: Seq<u8>) -> Option<Seq<u8>>;

/// The PKCS#8 document that `from_pkcs1_der` of `SecretDocument` wraps a PKCS#1
/// key in.
pub uninterp spec fn pkcs1_private_document(der: Seq<u8>) -> Option<Seq<u8>>;

/// The PKCS#8 document that `from_sec1_der` of `SecretDocument` wraps a SEC1 key
/// in.
pub uninterp spec fn sec1_document(der: Seq<u8>) -> Option<Seq<u8>>;

/// The structure that `PrivateKeyInfo::try_from` reads.
pub uninterp spec fn private_key_info(der: Seq<u8>) -> Option<PrivateKeyInfoView>;

/// Both readers of PKCS#8 take the bytes, and read the same from them.
pub open spec fn reads_as_pkcs8(der: Seq<u8>, info: PrivateKeyInfoView) -> bool {
    &&& private_key_info(der) == Some(info)
    &&& pkcs8_document(der) matches Some(document)
    &&& private_key_info(document) == Some(info)
}

/// What `EncryptedPrivateKeyInfo::try_from` reads of the parameters for scrypt;
/// nothing where the bytes are no such structure or name another derivation.
pub uninterp spec fn scrypt_cost(der: Seq<u8>) -> Option<ScryptCost>;

/// Calls `EncryptedPrivateKeyInfo::try_from` and takes the parameters for scrypt
/// out of the structure.
#[verifier::external_body]
pub(crate) fn read_scrypt_cost(der: &[u8]) -> (r: Option<ScryptCost>)
    ensures
        r == scrypt_cost(der@),
{
    let info = pkcs8::EncryptedPrivateKeyInfo::try_from(der).ok()?;
    let scheme = info.encryption_algorithm.pbes2()?;
    let scrypt = scheme.kdf.scrypt()?;
    Some(
        ScryptCost {
            cost: scrypt.cost_parameter,
            block_size: scrypt.block_size,
            parallelization: scrypt.parallelization,
            key_length: scrypt.key_length,
            key_size: scheme.encryption.key_size(),
        },
    )
}

/// Decrypting the document with a passphrase comes to an end.
pub open spec fn is_decryptable(der: Seq<u8>) -> bool {
    scrypt_cost(der) matches Some(cost) ==> cost.is_derivable()
}

/// Decrypting the document in a PEM file with a passphrase comes to an end.
pub open spec fn is_decryptable_pem(pem: Seq<char>) -> bool {
    secret_pem(pem) matches Some((label, document)) ==> (label == "ENCRYPTED PRIVATE KEY"@
        ==> is_decryptable(document))
}

/// The PKCS#8 document that an encrypted one in a PEM file holds, which has to
/// stand under the label for it.
pub open spec fn decrypted_pem(pem: Seq<char>, passphrase: Seq<u8>) -> Option<Seq<u8>> {
    match secret_pem(pem) {
        Some((label, document)) => if label == "ENCRYPTED PRIVATE KEY"@ {
            decrypted_der(document, passphrase)
        } else {
            None
        },
        None => None,
    }
}

/// Calls `from_pkcs8_encrypted_pem` of `SecretDocument`, which reads the PEM file
/// as `from_pem` does, asks for the label and goes on as
/// `from_pkcs8_encrypted_der` does. It panics where that does.
#[verifier::external_body]
pub(crate) fn decrypt_pem(pem: &str, passphrase: &[u8]) -> (r: Option<Vec<u8>>)
    requires
        is_decryptable_pem(pem@),
    ensures
        opt_bytes(r) == decrypted_pem(pem@, passphrase@),
{
    let document = pkcs8::SecretDocument::from_pkcs8_encrypted_pem(pem, passphrase).ok()?;
    Some(document.as_bytes().to_vec())
}

/// Calls `from_pkcs8_encrypted_der` of `SecretDocument`, which panics on some of
/// the costs that a document can ask of scrypt.
#[verifier::external_body]
pub(crate) fn decrypt_der(der: &[u8], passphrase: &[u8]) -> (r: Option<Vec<u8>>)
    requires
        is_decryptable(der@),
    ensures
        opt_bytes(r) == decrypted_der(der@, passphrase@),
{
    let document = pkcs8::SecretDocument::from_pkcs8_encrypted_der(der, passphrase).ok()?;
    Some(document.as_bytes().to_vec())
}

/// Calls `from_pkcs8_der` of `SecretDocument`: it reads the structure and writes
/// it again, so that the document says what the bytes say.
#[verifier::external_body]
pub(crate) fn read_pkcs8(der: &[u8]) -> (r: Option<Vec<u8>>)
    ensures
        opt_bytes(r) == pkcs8_document(der@),
        private_key_info(der@) is Some ==> r is Some,
        r matches Some(document) ==> private_key_info(document@) == private_key_info(der@),
{
    let document = pkcs8::SecretDocument::from_pkcs8_der(der).ok()?;
    Some(document.as_bytes().to_vec())
}

/// Calls `from_pkcs1_der` of `SecretDocument`: a PKCS#8 structure for RSA around
/// the bytes as they are.
#[verifier::external_body]
pub(crate) fn read_pkcs1_private(der: &[u8]) -> (r: Option<Vec<u8>>)
    ensures
        opt_bytes(r) == pkcs1_private_document(der@),
        r matches Some(document) ==> {
            &&& private_key_info(document@) matches Some(info)
            &&& info.algorithm.oid == RSA_ENCRYPTION_OID@
            &&& info.private_key == der@
        },
{
    let document = <pkcs8::SecretDocument as DecodeRsaPrivateKey>::from_pkcs1_der(der).ok()?;
    Some(document.as_bytes().to_vec())
}

/// Calls `from_sec1_der` of `SecretDocument`: a PKCS#8 structure for elliptic
/// curves around the bytes as they are. Its parameters are the object identifier
/// of the curve, where the bytes name one, and else absent.
#[verifier::external_body]
pub(crate) fn read_sec1(der: &[u8]) -> (r: Option<Vec<u8>>)
    ensures
        opt_bytes(r) == sec1_document(der@),
        r matches Some(document) ==> {
            &&& private_key_info(document@) matches Some(info)
            &&& info.algorithm.oid == EC_OID@
            &&& info.algorithm.parameters matches Some(any) ==> any.tag == 6
            &&& info.private_key == der@
        },
{
    let document = <pkcs8::SecretDocument as DecodeEcPrivateKey>::from_sec1_der(der).ok()?;
    Some(document.as_bytes().to_vec())
}

/// Calls `PrivateKeyInfo::try_from`.
#[verifier::external_body]
pub(crate) fn read_private_key_info(der: &[u8]) -> (r: Option<PrivateKeyInfo>)
    ensures
        match r {
            Some(info) => private_key_info(der@) == Some(info@),
            None => private_key_info(der@) is None,
        },
{
    let info = pkcs8::PrivateKeyInfo::try_from(der).ok()?;
    let parameters = info.algorithm.parameters.map(
        |any| Any { tag: any.tag().octet(), value: any.value().to_vec() },
    );
    Some(
        PrivateKeyInfo {
            algorithm: AlgorithmIdentifier { oid: info.algorithm.oid.as_bytes().to_vec(), parameters },
            private_key: info.private_key.to_vec(),
            public_key: info.public_key.map(|key| key.to_vec()),
        },
    )
}

/// What `PrivateKeyInfo::to_der` writes for an algorithm without parameters and
/// a private key.
pub uninterp spec fn pkcs8_der(oid: Seq<u8>, private_key: Seq<u8>) -> Option<Seq<u8>>;

/// Calls `to_der` on a `PrivateKeyInfo` without parameters and without a public
/// key. What it writes reads back as the same structure.
#[verifier::external_body]
pub(crate) fn write_pkcs8(oid: &[u8], private_key: &[u8]) -> (r: Option<Vec<u8>>)
    ensures
        opt_bytes(r) == pkcs8_der(oid@, private_key@),
        r matches Some(der) ==> reads_as_pkcs8(
            der@,
            (PrivateKeyInfoView {
                algorithm: (AlgorithmView { oid: oid@, parameters: None }),
                private_key: private_key@,
                public_key: None,
            }),
        ),
{
    let oid = ObjectIdentifier::from_bytes(oid).ok()?;
    let algorithm = AlgorithmIdentifierRef { oid, parameters: None };
    pkcs8::PrivateKeyInfo { algorithm, private_key, public_key: None }.to_der().ok()
}

// ---------------------------------------------------------------------------
// Public key documents
/// The document that `from_pkcs1_der` of `Document` wraps a PKCS#1 key in.
pub uninterp spec fn pkcs1_public_document(der: Seq<u8>) -> Option<Seq<u8>>;

/// The document that `from_public_key_der` of `Document` gives.
pub uninterp spec fn public_document(der: Seq<u8>) -> Option<Seq<u8>>;

/// The structure that `SubjectPublicKeyInfoRef::try_from` reads, or the message
/// of its error.
pub uninterp spec fn spki(der: Seq<u8>) -> Result<SpkiView, Seq<char>>;

/// What `SubjectPublicKeyInfoRef::to_der` writes for an algorithm, whose
/// parameters are an object identifier or absent, and a key.
pub uninterp spec fn spki_der(
    oid: Seq<u8>,
    parameters: Option<Seq<u8>>,
    key: Seq<u8>,
) -> Option<Seq<u8>>;

/// Both readers of SubjectPublicKeyInfo take the bytes, and read the same from
/// them.
pub open spec fn reads_as_spki(der: Seq<u8>, info: SpkiView) -> bool {
    &&& spki(der) == Ok::<_, Seq<char>>(info)
    &&& public_document(der) matches Some(document)
    &&& spki(document) == Ok::<_, Seq<char>>(info)
}

/// Calls `from_pkcs1_der` of `Document`: a SubjectPublicKeyInfo structure for
/// RSA around the bytes as they are.
#[verifier::external_body]
pub(crate) fn read_pkcs1_public(der: &[u8]) -> (r: Option<Vec<u8>>)
    ensures
        opt_bytes(r) == pkcs1_public_document(der@),
        r matches Some(document) ==> {
            &&& spki(document@) matches Ok(info)
            &&& info.algorithm.oid == RSA_ENCRYPTION_OID@
            &&& info.subject_public_key == Some(der@)
        },
{
    let document = <pkcs8::Document as DecodeRsaPublicKey>::from_pkcs1_der(der).ok()?;
    Some(document.into_vec())
}

/// Calls `from_public_key_der` of `Document`: it reads the structure and writes
/// it again, so that the document says what the bytes say.
#[verifier::external_body]
pub(crate) fn read_public_document(der: &[u8]) -> (r: Option<Vec<u8>>)
    ensures
        opt_bytes(r) == public_document(der@),
        spki(der@) is Ok ==> r is Some,
        r matches Some(document) ==> spki(document@) == spki(der@),
{
    Some(pkcs8::Document::from_public_key_der(der).ok()?.into_vec())
}

/// Calls `SubjectPublicKeyInfoRef::try_from`.
#[verifier::external_body]
pub(crate) fn read_spki(der: &[u8]) -> (r: Result<SubjectPublicKeyInfo, String>)
    ensures
        match r {
            Ok(info) => spki(der@) == Ok::<_, Seq<char>>(info@),
            Err(message) => spki(der@) == Err::<SpkiView, _>(message@),
        },
{
    let info = SubjectPublicKeyInfoRef::try_from(der).map_err(|e| e.to_string())?;
    let parameters = info.algorithm.parameters.map(
        |any| Any { tag: any.tag().octet(), value: any.value().to_vec() },
    );
    Ok(
        SubjectPublicKeyInfo {
            algorithm: AlgorithmIdentifier { oid: info.algorithm.oid.as_bytes().to_vec(), parameters },
            subject_public_key: info.subject_public_key.as_bytes().map(|key| key.to_vec()),
        },
    )
}

/// Calls `to_der` on a `SubjectPublicKeyInfoRef` whose key ends on a byte. What
/// it writes reads back as the same structure.
#[verifier::external_body]
pub(crate) fn write_spki(oid: &[u8], parameters: Option<&[u8]>, key: &[u8]) -> (r: Option<Vec<u8>>)
    ensures
        opt_bytes(r) == spki_der(
            oid@,
            match parameters {
                Some(p) => Some(p@),
                None => None,
            },
            key@,
        ),
        r matches Some(der) ==> {
            &&& spki(der@) matches Ok(info)
            &&& reads_as_spki(der@, info)
            &&& info.algorithm.oid == oid@
            &&& match (parameters, info.algorithm.parameters) {
                (Some(p), Some(any)) => oid_of_any(any) == Some(p@),
                (None, None) => true,
                _ => false,
            }
            &&& info.subject_public_key == Some(key@)
        },
{
    let oid = ObjectIdentifier::from_bytes(oid).ok()?;
    let named = parameters.map(ObjectIdentifier::from_bytes).transpose().ok()?;
    let parameters = named.as_ref().map(AnyRef::from);
    let algorithm = AlgorithmIdentifierRef { oid, parameters };
    let subject_public_key = BitStringRef::from_bytes(key).ok()?;
    SubjectPublicKeyInfoRef { algorithm, subject_public_key }.to_der().ok()
}

// ---------------------------------------------------------------------------
// ASN.1 values
/// The object identifier that an ASN.1 value holds.
pub uninterp spec fn oid_of_any(any: AnyView) -> Option<Seq<u8>>;

/// The value at the start of the bytes, as `AnyRef::decode` reads it, and the
/// number of bytes that it takes.
pub uninterp spec fn leading_value(bytes: Seq<u8>) -> Option<(AnyView, nat)>;

/// The algorithm identifier that `AlgorithmIdentifierRef::from_der` reads.
pub uninterp spec fn algorithm_identifier(der: Seq<u8>) -> Option<AlgorithmView>;

/// The integer that `u32::from_der` reads.
pub uninterp spec fn der_u32(der: Seq<u8>) -> Option<u32>;

/// Converts an ASN.1 value to an object identifier, as
/// `AlgorithmIdentifierRef::parameters_oid` does: the value has the tag of one,
/// and its contents are those of the identifier.
#[verifier::external_body]
pub(crate) fn any_to_oid(any: &Any) -> (r: Option<Vec<u8>>)
    ensures
        r matches Some(oid) ==> any.tag == 6 && oid@ == any.value@,
        match r {
            Some(oid) => oid_of_any(any@) == Some(oid@),
            None => oid_of_any(any@) is None,
        },
{
    let tag = Tag::try_from(any.tag).ok()?;
    let any = AnyRef::new(tag, &any.value).ok()?;
    Some(ObjectIdentifier::try_from(any).ok()?.as_bytes().to_vec())
}

/// Calls `AnyRef::decode` on a reader at the start of the bytes: the value, the
/// octet of whose tag is the first byte and whose contents are the last of the
/// bytes that were read, and how many bytes were read.
#[verifier::external_body]
pub(crate) fn read_leading_value(bytes: &[u8]) -> (r: Option<(Any, usize)>)
    ensures
        match r {
            Some((any, len)) => leading_value(bytes@) == Some((any@, len as nat)),
            None => leading_value(bytes@) is None,
        },
        r matches Some((any, len)) ==> {
            &&& 2 <= len <= bytes@.len()
            &&& any.tag == bytes@[0]
            &&& any.value@.len() + 2 <= len
            &&& any.value@ == bytes@.subrange(len - any.value@.len(), len as int)
        },
{
    let mut reader = pkcs8::der::SliceReader::new(bytes).ok()?;
    let any = AnyRef::decode(&mut reader).ok()?;
    let end = usize::try_from(pkcs8::der::Reader::position(&reader)).ok()?;
    Some((Any { tag: any.tag().octet(), value: any.value().to_vec() }, end))
}

/// Calls `AlgorithmIdentifierRef::from_der`.
#[verifier::external_body]
pub(crate) fn read_algorithm_identifier(der: &[u8]) -> (r: Option<AlgorithmIdentifier>)
    ensures
        match r {
            Some(algorithm) => algorithm_identifier(der@) == Some(algorithm@),
            None => algorithm_identifier(der@) is None,
        },
{
    let algorithm = AlgorithmIdentifierRef::from_der(der).ok()?;
    let parameters = algorithm.parameters.map(
        |any| Any { tag: any.tag().octet(), value: any.value().to_vec() },
    );
    Some(AlgorithmIdentifier { oid: algorithm.oid.as_bytes().to_vec(), parameters })
}

/// Calls `from_der` of `u32`.
#[verifier::external_body]
pub(crate) fn read_u32(der: &[u8]) -> (r: Option<u32>)
    ensures
        r == der_u32(der@),
{
    u32::from_der(der).ok()
}

// ---------------------------------------------------------------------------
// RSA
/// The key that `RsaPrivateKey::from_pkcs1_der` reads.
pub uninterp spec fn rsa_private_key(pkcs1: Seq<u8>) -> Option<RsaPrivateView>;

/// What `RsaPrivateKey::to_pkcs1_der` writes.
pub uninterp spec fn rsa_private_pkcs1(key: RsaPrivateView) -> Option<Seq<u8>>;

/// What `RsaPrivateKey::to_pkcs8_der` writes.
pub uninterp spec fn rsa_private_pkcs8(key: RsaPrivateView) -> Option<Seq<u8>>;

/// The key that `RsaPublicKey::from_pkcs1_der` reads, or the message of its
/// error.
pub uninterp spec fn rsa_public_key(pkcs1: Seq<u8>) -> Result<RsaPublicView, Seq<char>>;

/// What `RsaPublicKey::to_pkcs1_der` writes.
pub uninterp spec fn rsa_public_pkcs1(key: RsaPublicView) -> Option<Seq<u8>>;

/// What `RsaPublicKey::to_public_key_der` writes.
pub uninterp spec fn rsa_public_spki(key: RsaPublicView) -> Option<Seq<u8>>;

/// Calls `RsaPrivateKey::from_pkcs1_der`, which takes keys with two primes only.
#[verifier::external_body]
pub(crate) fn read_rsa_private_key(pkcs1: &[u8]) -> (r: Option<RsaPrivateKey>)
    ensures
        match r {
            Some(key) => rsa_private_key(pkcs1@) == Some(key@) && key@.wf(),
            None => rsa_private_key(pkcs1@) is None,
        },
{
    let key = rsa::RsaPrivateKey::from_pkcs1_der(pkcs1).ok()?;
    Some(
        RsaPrivateKey {
            n: key.n().to_bytes_be(),
            e: key.e().to_bytes_be(),
            d: key.d().to_bytes_be(),
            p: key.primes()[0].to_bytes_be(),
            q: key.primes()[1].to_bytes_be(),
        },
    )
}

/// Calls `RsaPrivateKey::from_components`, then `to_pkcs1_der`: nothing where
/// the numbers are no RSA key. What it writes reads back as the key, also when
/// wrapped in PKCS#8.
#[verifier::external_body]
pub(crate) fn write_rsa_private_pkcs1(key: &RsaPrivateKey) -> (r: Option<Vec<u8>>)
    ensures
        opt_bytes(r) == rsa_private_pkcs1(key@),
        key@.wf() ==> (r matches Some(der) ==> {
            &&& rsa_private_key(der@) == Some(key@)
            &&& pkcs1_private_document(der@) matches Some(document)
            &&& private_key_info(document) matches Some(info)
            &&& info.algorithm.oid == RSA_ENCRYPTION_OID@
            &&& info.private_key == der@
        }),
{
    let number = rsa::BigUint::from_bytes_be;
    let primes = vec![number(&key.p), number(&key.q)];
    let key = rsa::RsaPrivateKey::from_components(
        number(&key.n), number(&key.e), number(&key.d), primes,
    ).ok()?;
    Some(key.to_pkcs1_der().ok()?.as_bytes().to_vec())
}

/// Calls `RsaPrivateKey::from_components`, then `to_pkcs8_der`: a PKCS#8
/// structure for RSA whose content reads back as the key; nothing where the
/// numbers are no RSA key.
#[verifier::external_body]
pub(crate) fn write_rsa_private_pkcs8(key: &RsaPrivateKey) -> (r: Option<Vec<u8>>)
    ensures
        opt_bytes(r) == rsa_private_pkcs8(key@),
        key@.wf() ==> (r matches Some(der) ==> {
            &&& private_key_info(der@) matches Some(info)
            &&& reads_as_pkcs8(der@, info)
            &&& info.algorithm.oid == RSA_ENCRYPTION_OID@
            &&& rsa_private_key(info.private_key) == Some(key@)
        }),
{
    let number = rsa::BigUint::from_bytes_be;
    let primes = vec![number(&key.p), number(&key.q)];
    let key = rsa::RsaPrivateKey::from_components(
        number(&key.n), number(&key.e), number(&key.d), primes,
    ).ok()?;
    Some(key.to_pkcs8_der().ok()?.as_bytes().to_vec())
}

/// Calls `RsaPublicKey::from_pkcs1_der`, which checks the numbers of a key.
#[verifier::external_body]
pub(crate) fn read_rsa_public_key(pkcs1: &[u8]) -> (r: Result<RsaPublicKey, String>)
    ensures
        match r {
            Ok(key) => rsa_public_key(pkcs1@) == Ok::<_, Seq<char>>(key@) && key@.wf()
                && key@.is_readable(),
            Err(message) => rsa_public_key(pkcs1@) == Err::<RsaPublicView, _>(message@),
        },
{
    let key = rsa::RsaPublicKey::from_pkcs1_der(pkcs1).map_err(|e| e.to_string())?;
    Ok(RsaPublicKey { n: key.n().to_bytes_be(), e: key.e().to_bytes_be() })
}

/// Calls `RsaPublicKey::to_pkcs1_der`. What it writes reads back as the key where
/// the reader takes such numbers, and is refused where it does not, also when
/// wrapped in a SubjectPublicKeyInfo structure.
#[verifier::external_body]
pub(crate) fn write_rsa_public_pkcs1(key: &RsaPublicKey) -> (r: Option<Vec<u8>>)
    ensures
        opt_bytes(r) == rsa_public_pkcs1(key@),
        key@.wf() ==> (r matches Some(der) ==> {
            &&& match rsa_public_key(der@) {
                Ok(back) => key@.is_readable() && back == key@,
                Err(_) => !key@.is_readable(),
            }
            &&& pkcs1_public_document(der@) matches Some(document)
            &&& spki(document) matches Ok(info)
            &&& info.algorithm.oid == RSA_ENCRYPTION_OID@
            &&& info.subject_public_key == Some(der@)
        }),
{
    let n = rsa::BigUint::from_bytes_be(&key.n);
    let e = rsa::BigUint::from_bytes_be(&key.e);
    Some(rsa::RsaPublicKey::new_unchecked(n, e).to_pkcs1_der().ok()?.into_vec())
}

/// Calls `RsaPublicKey::to_public_key_der`: a SubjectPublicKeyInfo structure for
/// RSA whose content reads back as the key where the reader takes such numbers,
/// and is refused where it does not.
#[verifier::external_body]
pub(crate) fn write_rsa_public_spki(key: &RsaPublicKey) -> (r: Option<Vec<u8>>)
    ensures
        opt_bytes(r) == rsa_public_spki(key@),
        key@.wf() ==> (r matches Some(der) ==> {
            &&& spki(der@) matches Ok(info)
            &&& reads_as_spki(der@, info)
            &&& info.algorithm.oid == RSA_ENCRYPTION_OID@
            &&& info.subject_public_key matches Some(content)
            &&& match rsa_public_key(content) {
                Ok(back) => key@.is_readable() && back == key@,
                Err(_) => !key@.is_readable(),
            }
        }),
{
    let n = rsa::BigUint::from_bytes_be(&key.n);
    let e = rsa::BigUint::from_bytes_be(&key.e);
    Some(rsa::RsaPublicKey::new_unchecked(n, e).to_public_key_der().ok()?.into_vec())
}

/// Calls `RsaPrivateKey::new_with_exp` with the thread's random number
/// generator: a key whose modulus is odd, has the given number of bits and is above
/// the public exponent, which is the given one. Which primes it has is left to chance.
#[verifier::external_body]
pub(crate) fn random_rsa_key(modulus_length: usize, public_exponent: usize) -> (r: RsaPrivateKey)
    requires
        rsa_key_exists(modulus_length as int, public_exponent as int),
    ensures
        r@.wf(),
        bit_length(be_value(r@.n)) == modulus_length,
        be_value(r@.e) == public_exponent,
        be_value(r@.n) % 2 == 1,
        public_exponent < be_value(r@.n),
{
    let e = rsa::BigUint::from(public_exponent);
    let key = rsa::RsaPrivateKey::new_with_exp(&mut rand::thread_rng(), modulus_length, &e).expect(
        "a key of this size",
    );
    RsaPrivateKey {
        n: key.n().to_bytes_be(),
        e: key.e().to_bytes_be(),
        d: key.d().to_bytes_be(),
        p: key.primes()[0].to_bytes_be(),
        q: key.primes()[1].to_bytes_be(),
    }
}

/// Calls `BigUint::bits` on the integer with these big-endian bytes.
#[verifier::external_body]
pub(crate) fn bits_of(bytes: &[u8]) -> (r: usize)
    requires
        bytes@.len() * 8 <= usize::MAX,
    ensures
        r == bit_length(be_value(bytes@)),
{
    rsa::BigUint::from_bytes_be(bytes).bits()
}

// ---------------------------------------------------------------------------
// DSA
/// The key that `dsa::SigningKey::try_from` reads from a PKCS#8 structure.
pub uninterp spec fn dsa_private_key(info: PrivateKeyInfoView) -> Option<DsaPrivateView>;

/// What `to_pkcs8_der` of `dsa::SigningKey` writes.
pub uninterp spec fn dsa_private_pkcs8(key: DsaPrivateView) -> Option<Seq<u8>>;

/// The key that `dsa::VerifyingKey::try_from` reads from an algorithm and the
/// bytes of a key.
pub uninterp spec fn dsa_public_key(algorithm: AlgorithmView, key: Seq<u8>) -> Option<
    DsaPublicView,
>;

/// What `to_public_key_der` of `dsa::VerifyingKey` writes.
pub uninterp spec fn dsa_public_spki(key: DsaPublicView) -> Option<Seq<u8>>;

/// Calls `dsa::SigningKey::try_from` on a PKCS#8 structure for DSA. It fails
/// where the algorithm has no parameters. Where the structure has no public key,
/// the public component is computed from the secret exponent.
#[verifier::external_body]
pub(crate) fn read_dsa_private_key(info: &PrivateKeyInfo) -> (r: Option<DsaPrivateKey>)
    requires
        info@.algorithm.oid == DSA_OID@,
    ensures
        match r {
            Some(key) => dsa_private_key(info@) == Some(key@) && key@.wf() && (
            info@.public_key is None ==> key@.is_consistent()),
            None => dsa_private_key(info@) is None,
        },
{
    let a = info.algorithm.parameters.as_ref()?;
    let parameters = Some(AnyRef::new(Tag::try_from(a.tag).ok()?, &a.value).ok()?);
    let key = dsa::SigningKey::try_from(pkcs8::PrivateKeyInfo {
        algorithm: AlgorithmIdentifierRef { oid: dsa::OID, parameters },
        private_key: &info.private_key,
        public_key: info.public_key.as_deref(),
    }).ok()?;
    let v = key.verifying_key();
    let c = v.components();
    let [p, q, g, y, x] = [c.p(), c.q(), c.g(), v.y(), key.x()].map(|n| n.to_bytes_be());
    Some(DsaPrivateKey { verifying_key: DsaPublicKey { p, q, g, y }, x })
}

/// Calls `dsa::SigningKey::from_components`, then `to_pkcs8_der`: a PKCS#8
/// structure for DSA without a public key. Where its content reads as a key, that
/// key has the same parameters and secret exponent, and its public component is
/// computed anew; a key with the public component that belongs to its secret
/// exponent reads back as itself. There is nothing where the numbers are no DSA
/// key.
#[verifier::external_body]
pub(crate) fn write_dsa_private_pkcs8(key: &DsaPrivateKey) -> (r: Option<Vec<u8>>)
    ensures
        opt_bytes(r) == dsa_private_pkcs8(key@),
        key@.wf() ==> (r matches Some(der) ==> {
            &&& private_key_info(der@) matches Some(info)
            &&& reads_as_pkcs8(der@, info)
            &&& info.algorithm.oid == DSA_OID@
            &&& dsa_private_key(info) matches Some(back) ==> {
                &&& back.verifying_key.p == key@.verifying_key.p
                &&& back.verifying_key.q == key@.verifying_key.q
                &&& back.verifying_key.g == key@.verifying_key.g
                &&& back.x == key@.x
            }
            &&& key@.is_consistent() ==> dsa_private_key(info) == Some(key@)
        }),
{
    let number = dsa::BigUint::from_bytes_be;
    let k = &key.verifying_key;
    let c = dsa::Components::from_components(number(&k.p), number(&k.q), number(&k.g)).ok()?;
    let verifying_key = dsa::VerifyingKey::from_components(c, number(&k.y)).ok()?;
    let key = dsa::SigningKey::from_components(verifying_key, number(&key.x)).ok()?;
    Some(key.to_pkcs8_der().ok()?.as_bytes().to_vec())
}

/// Calls `dsa::VerifyingKey::try_from` on a SubjectPublicKeyInfo structure for
/// DSA with these parameters and this key. It fails where there are no
/// parameters.
#[verifier::external_body]
pub(crate) fn read_dsa_public_key(algorithm: &AlgorithmIdentifier, key: &[u8]) -> (r: Option<
    DsaPublicKey,
>)
    requires
        algorithm@.oid == DSA_OID@,
    ensures
        match r {
            Some(k) => dsa_public_key(algorithm@, key@) == Some(k@) && k@.wf(),
            None => dsa_public_key(algorithm@, key@) is None,
        },
{
    let a = algorithm.parameters.as_ref()?;
    let parameters = Some(AnyRef::new(Tag::try_from(a.tag).ok()?, &a.value).ok()?);
    let key = dsa::VerifyingKey::try_from(SubjectPublicKeyInfoRef {
        algorithm: AlgorithmIdentifierRef { oid: dsa::OID, parameters },
        subject_public_key: BitStringRef::from_bytes(key).ok()?,
    }).ok()?;
    let c = key.components();
    let [p, q, g, y] = [c.p(), c.q(), c.g(), key.y()].map(|n| n.to_bytes_be());
    Some(DsaPublicKey { p, q, g, y })
}

/// Calls `dsa::VerifyingKey::from_components`, then `to_public_key_der`: a
/// SubjectPublicKeyInfo structure for DSA whose content reads back as the key;
/// nothing where the numbers are no DSA key.
#[verifier::external_body]
pub(crate) fn write_dsa_public_spki(key: &DsaPublicKey) -> (r: Option<Vec<u8>>)
    ensures
        opt_bytes(r) == dsa_public_spki(key@),
        key@.wf() ==> (r matches Some(der) ==> {
            &&& spki(der@) matches Ok(info)
            &&& reads_as_spki(der@, info)
            &&& info.algorithm.oid == DSA_OID@
            &&& info.subject_public_key matches Some(content)
            &&& dsa_public_key(info.algorithm, content) == Some(key@)
        }),
{
    let number = dsa::BigUint::from_bytes_be;
    let c = dsa::Components::from_components(number(&key.p), number(&key.q), number(&key.g)).ok()?;
    let key = dsa::VerifyingKey::from_components(c, number(&key.y)).ok()?;
    Some(key.to_public_key_der().ok()?.into_vec())
}

/// Calls `dsa::Components::generate` and `dsa::SigningKey::generate` with the
/// thread's random number generator: a key whose divisor has the bits that the
/// size asks for, whose modulus has no more than it asks for and whose public
/// component belongs to its secret exponent. Which key it is is left to chance.
#[verifier::external_body]
pub(crate) fn random_dsa_key(size: DsaKeySize) -> (r: DsaPrivateKey)
    ensures
        r@.wf(),
        bit_length(be_value(r@.verifying_key.p)) <= size.modulus_length(),
        bit_length(be_value(r@.verifying_key.q)) == size.divisor_length(),
        r@.is_consistent(),
{
    #[allow(deprecated)]
    let size = match size {
        DsaKeySize::L1024N160 => dsa::KeySize::DSA_1024_160,
        DsaKeySize::L2048N224 => dsa::KeySize::DSA_2048_224,
        DsaKeySize::L2048N256 => dsa::KeySize::DSA_2048_256,
        DsaKeySize::L3072N256 => dsa::KeySize::DSA_3072_256,
    };
    let components = dsa::Components::generate(&mut rand::thread_rng(), size);
    let key = dsa::SigningKey::generate(&mut rand::thread_rng(), components);
    let v = key.verifying_key();
    let c = v.components();
    let [p, q, g, y, x] = [c.p(), c.q(), c.g(), v.y(), key.x()].map(|n| n.to_bytes_be());
    DsaPrivateKey { verifying_key: DsaPublicKey { p, q, g, y }, x }
}

// ---------------------------------------------------------------------------
// X25519 and Ed25519
/// The public key that `x25519_dalek::PublicKey::from` computes from a secret.
pub uninterp spec fn x25519_public(secret: Seq<u8>) -> Seq<u8>;

/// The public key that `ed25519_dalek::SigningKey::verifying_key` computes from
/// a secret.
pub uninterp spec fn ed25519_public(secret: Seq<u8>) -> Seq<u8>;

/// Whether `ed25519_dalek::VerifyingKey::from_bytes` takes the bytes.
pub uninterp spec fn ed25519_valid(bytes: Seq<u8>) -> bool;

/// Calls `x25519_dalek::PublicKey::from` on the secret with these bytes.
#[verifier::external_body]
pub(crate) fn derive_x25519_public(secret: &[u8; 32]) -> (r: [u8; 32])
    ensures
        r@ == x25519_public(secret@),
{
    x25519_dalek::PublicKey::from(&x25519_dalek::StaticSecret::from(*secret)).to_bytes()
}

/// Calls `ed25519_dalek::SigningKey::verifying_key` on the key with these bytes.
/// The public key is one that `VerifyingKey::from_bytes` takes.
#[verifier::external_body]
pub(crate) fn derive_ed25519_public(secret: &[u8; 32]) -> (r: [u8; 32])
    ensures
        r@ == ed25519_public(secret@),
        ed25519_valid(r@),
{
    ed25519_dalek::SigningKey::from(*secret).verifying_key().to_bytes()
}

/// Calls `ed25519_dalek::VerifyingKey::from_bytes`, which keeps the bytes where
/// it takes them.
#[verifier::external_body]
pub(crate) fn is_ed25519_public(bytes: &[u8; 32]) -> (r: bool)
    ensures
        r == ed25519_valid(bytes@),
{
    ed25519_dalek::VerifyingKey::from_bytes(bytes).is_ok()
}

/// Calls `x25519_dalek::StaticSecret::random_from_rng` with the thread's random
/// number generator. Which bytes come is left to chance.
#[verifier::external_body]
pub(crate) fn random_x25519_secret() -> (r: [u8; 32]) {
    x25519_dalek::StaticSecret::random_from_rng(&mut rand::thread_rng()).to_bytes()
}

/// Calls `ed25519_dalek::SigningKey::generate` with the thread's random number
/// generator. Which bytes come is left to chance.
#[verifier::external_body]
pub(crate) fn random_ed25519_secret() -> (r: [u8; 32]) {
    ed25519_dalek::SigningKey::generate(&mut rand::thread_rng()).to_bytes()
}

// ---------------------------------------------------------------------------
// Bytes
/// Calls `fill_bytes` of the thread's random number generator on a buffer of
/// `len` bytes. Which bytes come is left to chance.
#[verifier::external_body]
pub(crate) fn random_bytes(len: usize) -> (r: Vec<u8>)
    ensures
        r@.len() == len,
{
    let mut bytes = vec![0u8; len];
    rand::thread_rng().fill_bytes(&mut bytes);
    bytes
}

/// The character for six bits in the URL-safe alphabet of Base64.
pub open spec fn base64url_char(v: int) -> char {
    "ABCDEFGHIJKLMNOPQRSTUVWXYZabcdefghijklmnopqrstuvwxyz0123456789-_"@[v]
}

/// Base64 in the URL-safe alphabet, without padding: three bytes are four
/// characters, most significant bits first; one byte left over is two
/// characters, two bytes are three.
pub open spec fn base64url(bytes: Seq<u8>) -> Seq<char>
    decreases bytes.len(),
{
    if bytes.len() == 0 {
        Seq::empty()
    } else if bytes.len() == 1 {
        let v = bytes[0] as int * 16;
        seq![base64url_char(v / 64), base64url_char(v % 64)]
    } else if bytes.len() == 2 {
        let v = (bytes[0] as int * 256 + bytes[1] as int) * 4;
        seq![
            base64url_char(v / 4096),
            base64url_char(v / 64 % 64),
            base64url_char(v % 64),
        ]
    } else {
        let v = bytes[0] as int * 65536 + bytes[1] as int * 256 + bytes[2] as int;
        seq![
            base64url_char(v / 262144),
            base64url_char(v / 4096 % 64),
            base64url_char(v / 64 % 64),
            base64url_char(v % 64),
        ] + base64url(bytes.skip(3))
    }
}

/// Calls `encode` of the engine `URL_SAFE_NO_PAD`.
#[verifier::external_body]
pub(crate) fn base64url_encode(bytes: &[u8]) -> (r: String)
    ensures
        r@ == base64url(bytes@),
{
    base64::engine::general_purpose::URL_SAFE_NO_PAD.encode(bytes)
}

} // verus!
