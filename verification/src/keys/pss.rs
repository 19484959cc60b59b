//! The parameters of RSASSA-PSS keys.
//!
//! ```text
//! RSASSA-PSS-params ::= SEQUENCE {
//!   hashAlgorithm      [0] HashAlgorithm    DEFAULT sha1,
//!   maskGenAlgorithm   [1] MaskGenAlgorithm DEFAULT mgf1SHA1,
//!   saltLength         [2] INTEGER          DEFAULT 20,
//!   trailerField       [3] TrailerField     DEFAULT trailerFieldBC
//! }
//! ```
use vstd::prelude::*;
use vstd::slice::slice_subrange;
use vstd::slice::slice_to_vec;
use crate::keys::outside::algorithm_identifier;
use crate::keys::outside::der_u32;
use crate::keys::outside::leading_value;
use crate::keys::outside::read_algorithm_identifier;
use crate::keys::outside::read_leading_value;
use crate::keys::outside::read_u32;
use crate::keys::types::is_oid;
use crate::keys::types::opt_bytes;
use crate::keys::types::AlgorithmIdentifier;
use crate::keys::types::AlgorithmView;
use crate::keys::types::Any;
use crate::keys::types::AnyView;
use crate::keys::types::RsaPssHashAlgorithm;
use crate::keys::types::ID_MFG1;
use crate::keys::types::ID_SHA1_OID;
use crate::keys::types::ID_SHA256_OID;
use crate::keys::types::ID_SHA384_OID;
use crate::keys::types::ID_SHA512_OID;

verus! {

/// Context-specific tag number for hashAlgorithm.
pub const HASH_ALGORITHM_TAG: u8 = 0;

/// Context-specific tag number for maskGenAlgorithm.
pub const MASK_GEN_ALGORITHM_TAG: u8 = 1;

/// Context-specific tag number for saltLength.
pub const SALT_LENGTH_TAG: u8 = 2;

/// The octet of the tag of a sequence.
pub const SEQUENCE_TAG: u8 = 0x30;

/// The salt length where none is given.
pub const DEFAULT_SALT_LENGTH: u32 = 20;

/// RSASSA-PSS parameters.
pub struct RsaPssParameters {
    pub hash_algorithm: AlgorithmIdentifier,
    pub mask_gen_algorithm: AlgorithmIdentifier,
    pub salt_length: u32,
}

/// What RSASSA-PSS parameters say.
#[verifier::ext_equal]
pub struct PssView {
    pub hash_algorithm: AlgorithmView,
    pub mask_gen_algorithm: AlgorithmView,
    pub salt_length: u32,
}

impl View for RsaPssParameters {
    type V = PssView;

    open spec fn view(&self) -> PssView {
        PssView {
            hash_algorithm: self.hash_algorithm@,
            mask_gen_algorithm: self.mask_gen_algorithm@,
            salt_length: self.salt_length,
        }
    }
}

/// The default hash algorithm: SHA-1, with NULL for its parameters.
pub open spec fn sha1_hash_algorithm() -> AlgorithmView {
    AlgorithmView { oid: ID_SHA1_OID@, parameters: Some(AnyView { tag: 5, value: Seq::empty() }) }
}

/// The default mask generation algorithm: MGF1 with SHA-1, whose parameters are
/// the encoded algorithm identifier of SHA-1.
pub open spec fn mgf1_sha1_mask_algorithm() -> AlgorithmView {
    AlgorithmView {
        oid: ID_MFG1@,
        parameters: Some(
            AnyView {
                tag: SEQUENCE_TAG,
                value: seq![0x06u8, 0x05, 0x2b, 0x0e, 0x03, 0x02, 0x1a, 0x05, 0x00],
            },
        ),
    }
}

/// The default hash algorithm.
fn default_hash_algorithm() -> (r: AlgorithmIdentifier)
    ensures
        r@ == sha1_hash_algorithm(),
{
    let value: Vec<u8> = Vec::new();
    assert(value@ =~= Seq::empty());
    AlgorithmIdentifier { oid: slice_to_vec(ID_SHA1_OID.as_slice()), parameters: Some(Any { tag: 5, value }) }
}

/// The default mask generation algorithm.
fn default_mask_gen_algorithm() -> (r: AlgorithmIdentifier)
    ensures
        r@ == mgf1_sha1_mask_algorithm(),
{
    let value: Vec<u8> = vec![0x06, 0x05, 0x2b, 0x0e, 0x03, 0x02, 0x1a, 0x05, 0x00];
    assert(value@ =~= seq![0x06u8, 0x05, 0x2b, 0x0e, 0x03, 0x02, 0x1a, 0x05, 0x00]);
    AlgorithmIdentifier {
        oid: slice_to_vec(ID_MFG1.as_slice()),
        parameters: Some(Any { tag: SEQUENCE_TAG, value }),
    }
}

/// The octet is the tag of a context-specific value.
pub open spec fn is_context_specific(octet: u8) -> bool {
    0x80 <= octet <= 0xbe
}

/// The number of a tag.
pub open spec fn tag_number(octet: u8) -> int {
    octet as int % 32
}

/// The tag is that of a constructed value.
pub open spec fn is_constructed(octet: u8) -> bool {
    octet as int / 32 % 2 == 1
}

/// Looks for the explicitly tagged field with a number at the start of the
/// bytes, and gives the contents of the field, if it is there, and the bytes
/// behind it. Fields with lower numbers are passed over; a field with a higher
/// number, or anything else, stays where it is. Nothing at all comes where a
/// value on the way is malformed.
pub open spec fn explicit_field(bytes: Seq<u8>, number: int) -> Option<
    (Option<Seq<u8>>, Seq<u8>),
>
    decreases bytes.len(),
{
    if bytes.len() == 0 || !is_context_specific(bytes[0]) || tag_number(bytes[0]) > number {
        Some((None, bytes))
    } else {
        match leading_value(bytes) {
            None => None,
            Some((any, len)) => if tag_number(bytes[0]) == number {
                if is_constructed(bytes[0]) {
                    Some((Some(any.value), bytes.skip(len as int)))
                } else {
                    None
                }
            } else if 0 < len <= bytes.len() {
                explicit_field(bytes.skip(len as int), number)
            } else {
                None
            },
        }
    }
}

/// The algorithm identifier in an optional field, or a default.
pub open spec fn algorithm_or(field: Option<Seq<u8>>, default: AlgorithmView) -> Option<
    AlgorithmView,
> {
    match field {
        Some(der) => algorithm_identifier(der),
        None => Some(default),
    }
}

/// The integer in an optional field, or a default.
pub open spec fn u32_or(field: Option<Seq<u8>>, default: u32) -> Option<u32> {
    match field {
        Some(der) => der_u32(der),
        None => Some(default),
    }
}

/// The parameters that an ASN.1 value stands for: a sequence of the three fields
/// in order, each of which may be absent, and nothing behind them.
pub open spec fn pss_parameters(any: AnyView) -> Option<PssView> {
    if any.tag != SEQUENCE_TAG {
        None
    } else {
        match explicit_field(any.value, HASH_ALGORITHM_TAG as int) {
            None => None,
            Some((hash, rest)) => match algorithm_or(hash, sha1_hash_algorithm()) {
                None => None,
                Some(hash_algorithm) => match explicit_field(rest, MASK_GEN_ALGORITHM_TAG as int) {
                    None => None,
                    Some((mask, rest)) => match algorithm_or(mask, mgf1_sha1_mask_algorithm()) {
                        None => None,
                        Some(mask_gen_algorithm) => match explicit_field(
                            rest,
                            SALT_LENGTH_TAG as int,
                        ) {
                            None => None,
                            Some((salt, rest)) => match u32_or(salt, DEFAULT_SALT_LENGTH) {
                                None => None,
                                Some(salt_length) => if rest.len() == 0 {
                                    Some(
                                        PssView { hash_algorithm, mask_gen_algorithm, salt_length },
                                    )
                                } else {
                                    None
                                },
                            },
                        },
                    },
                },
            },
        }
    }
}

/// Looks for the explicitly tagged field with a number, from a position in the
/// bytes on: the contents of the field, if it is there, and the position behind
/// it.
fn find_explicit_field(bytes: &[u8], start: usize, number: u8) -> (r: Option<
    (Option<Vec<u8>>, usize),
>)
    requires
        start <= bytes@.len(),
    ensures
        match r {
            Some((field, end)) => {
                &&& start <= end <= bytes@.len()
                &&& explicit_field(bytes@.skip(start as int), number as int) == Some(
                    (opt_bytes(field), bytes@.skip(end as int)),
                )
            },
            None => explicit_field(bytes@.skip(start as int), number as int) is None,
        },
{
    let mut at: usize = start;
    while at < bytes.len()
        invariant
            start <= at <= bytes@.len(),
            explicit_field(bytes@.skip(start as int), number as int) == explicit_field(
                bytes@.skip(at as int),
                number as int,
            ),
        ensures
            start <= at <= bytes@.len(),
            explicit_field(bytes@.skip(start as int), number as int) == Some(
                (None::<Seq<u8>>, bytes@.skip(at as int)),
            ),
        decreases bytes@.len() - at,
    {
        let octet: u8 = bytes[at];
        assert(bytes@.skip(at as int)[0] == octet);
        if octet < 0x80 || octet > 0xbe || octet % 32 > number {
            break;
        }
        let rest = slice_subrange(bytes, at, bytes.len());
        assert(rest@ =~= bytes@.skip(at as int));
        match read_leading_value(rest) {
            None => {
                return None;
            },
            Some((any, len)) => {
                assert(bytes@.skip(at as int).skip(len as int) =~= bytes@.skip(at + len));
                if octet % 32 == number {
                    if octet / 32 % 2 == 1 {
                        return Some((Some(any.value), at + len));
                    }
                    return None;
                }
                at = at + len;
            },
        }
    }
    Some((None, at))
}

impl RsaPssParameters {
    /// Reads the parameters from an ASN.1 value.
    pub fn try_from(any: &Any) -> (r: Option<RsaPssParameters>)
        ensures
            match r {
                Some(parameters) => pss_parameters(any@) == Some(parameters@),
                None => pss_parameters(any@) is None,
            },
    {
        if any.tag != SEQUENCE_TAG {
            return None;
        }
        let bytes = any.value.as_slice();
        assert(bytes@.skip(0) =~= bytes@);
        let (hash, end) = match find_explicit_field(bytes, 0, HASH_ALGORITHM_TAG) {
            Some(found) => found,
            None => {
                return None;
            },
        };
        let hash_algorithm = match hash {
            Some(der) => match read_algorithm_identifier(der.as_slice()) {
                Some(algorithm) => algorithm,
                None => {
                    return None;
                },
            },
            None => default_hash_algorithm(),
        };
        let (mask, end) = match find_explicit_field(bytes, end, MASK_GEN_ALGORITHM_TAG) {
            Some(found) => found,
            None => {
                return None;
            },
        };
        let mask_gen_algorithm = match mask {
            Some(der) => match read_algorithm_identifier(der.as_slice()) {
                Some(algorithm) => algorithm,
                None => {
                    return None;
                },
            },
            None => default_mask_gen_algorithm(),
        };
        let (salt, end) = match find_explicit_field(bytes, end, SALT_LENGTH_TAG) {
            Some(found) => found,
            None => {
                return None;
            },
        };
        let salt_length: u32 = match salt {
            Some(der) => match read_u32(der.as_slice()) {
                Some(length) => length,
                None => {
                    return None;
                },
            },
            None => DEFAULT_SALT_LENGTH,
        };
        if end != bytes.len() {
            return None;
        }
        Some(RsaPssParameters { hash_algorithm, mask_gen_algorithm, salt_length })
    }
}

/// The hash that an object identifier names for RSASSA-PSS.
pub open spec fn pss_hash(oid: Seq<u8>) -> Option<RsaPssHashAlgorithm> {
    if oid == ID_SHA1_OID@ {
        Some(RsaPssHashAlgorithm::Sha1)
    } else if oid == ID_SHA256_OID@ {
        Some(RsaPssHashAlgorithm::Sha256)
    } else if oid == ID_SHA384_OID@ {
        Some(RsaPssHashAlgorithm::Sha384)
    } else if oid == ID_SHA512_OID@ {
        Some(RsaPssHashAlgorithm::Sha512)
    } else {
        None
    }
}

/// The hash that an object identifier names for RSASSA-PSS.
pub fn pss_hash_algorithm(oid: &[u8]) -> (r: Option<RsaPssHashAlgorithm>)
    ensures
        r == pss_hash(oid@),
{
    if is_oid(oid, ID_SHA1_OID) {
        Some(RsaPssHashAlgorithm::Sha1)
    } else if is_oid(oid, ID_SHA256_OID) {
        Some(RsaPssHashAlgorithm::Sha256)
    } else if is_oid(oid, ID_SHA384_OID) {
        Some(RsaPssHashAlgorithm::Sha384)
    } else if is_oid(oid, ID_SHA512_OID) {
        Some(RsaPssHashAlgorithm::Sha512)
    } else {
        None
    }
}

} // verus!
