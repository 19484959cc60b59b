//! Keys, values and versions as they are stored.
use vstd::pervasive::unreached;
use vstd::prelude::*;
use vstd::utf8::encode_utf8;
use vstd::utf8::valid_utf8;
use crate::kv::types::Key;
use crate::kv::types::KeyPart;
use crate::kv::types::KeyPartView;
use crate::kv::types::Value;
use crate::kv::types::ValueView;
use crate::text::bytes_clone;
use crate::text::utf8_text;

verus! {

/// The encoding of a serialized JavaScript value.
pub const VALUE_ENCODING_V8: i64 = 1;

/// The encoding of a truth value.
pub const VALUE_ENCODING_BOOL: i64 = 2;

/// The encoding of an integer.
pub const VALUE_ENCODING_INT: i64 = 3;

/// The encoding of a floating-point number.
pub const VALUE_ENCODING_FLOAT: i64 = 4;

/// The encoding of bytes.
pub const VALUE_ENCODING_BYTES: i64 = 5;

/// The keys that can be stored: a single text.
pub open spec fn storable_key(key: Seq<KeyPartView>) -> bool {
    key.len() == 1 && key[0] is String
}

/// Whether a key can be stored.
pub fn is_storable_key(key: &Key) -> (r: bool)
    ensures
        r == storable_key(key@),
{
    let parts: &Vec<KeyPart> = &key.0;
    if parts.len() != 1 {
        return false;
    }
    assert(key@[0] == parts@[0]@);
    match &parts[0] {
        KeyPart::String(_) => true,
        _ => false,
    }
}

/// A key as it is stored: the bytes of its text.
pub open spec fn key_bytes(key: Seq<KeyPartView>) -> Seq<u8> {
    encode_utf8(key[0]->String_0)
}

/// A key as it is stored.
pub fn encode_key(key: &Key) -> (r: &[u8])
    requires
        storable_key(key@),
    ensures
        r@ == key_bytes(key@),
{
    let parts: &Vec<KeyPart> = &key.0;
    assert(key@[0] == parts@[0]@);
    match &parts[0] {
        KeyPart::String(text) => text.as_str().as_bytes(),
        _ => unreached(),
    }
}

/// The key that is stored as the bytes of a text.
pub fn decode_key(key: Vec<u8>) -> (r: Key)
    requires
        valid_utf8(key@),
    ensures
        storable_key(r@),
        key_bytes(r@) == key@,
{
    let mut parts: Vec<KeyPart> = Vec::new();
    match utf8_text(key.as_slice()) {
        Ok(text) => {
            proof {
                vstd::utf8::decode_utf8_encode_utf8(key@);
            }
            parts.push(KeyPart::String(text.to_owned()));
        },
        Err(_) => unreached(),
    }
    let r: Key = Key(parts);
    assert(r@[0] == r.0@[0]@);
    r
}

/// Keys that are stored as the same bytes are the same key.
pub proof fn law_stored_keys_differ(a: Seq<KeyPartView>, b: Seq<KeyPartView>)
    requires
        storable_key(a),
        storable_key(b),
        key_bytes(a) == key_bytes(b),
    ensures
        a == b,
{
    vstd::utf8::encode_utf8_decode_utf8(a[0]->String_0);
    vstd::utf8::encode_utf8_decode_utf8(b[0]->String_0);
    assert(a =~= b);
}

/// The eight bytes of a version, least significant first, as a stamp of twelve.
pub open spec fn stamp_of(version: i64) -> Seq<u8> {
    let bits = if version < 0 {
        version + 0x1_0000_0000_0000_0000
    } else {
        version as int
    };
    seq![
        (bits % 256) as u8,
        (bits / 0x100 % 256) as u8,
        (bits / 0x1_0000 % 256) as u8,
        (bits / 0x100_0000 % 256) as u8,
        (bits / 0x1_0000_0000 % 256) as u8,
        (bits / 0x100_0000_0000 % 256) as u8,
        (bits / 0x1_0000_0000_0000 % 256) as u8,
        (bits / 0x100_0000_0000_0000 % 256) as u8,
        0,
        0,
        0,
        0,
    ]
}

/// A power of 256.
spec fn pow256(n: nat) -> int
    decreases n,
{
    if n == 0 {
        1
    } else {
        256 * pow256((n - 1) as nat)
    }
}

/// The digits of a number that make up a stamp.
proof fn lemma_stamp_digits(bits: int)
    ensures
        digit(bits, 0) == bits % 256,
        digit(bits, 1) == bits / 0x100 % 256,
        digit(bits, 2) == bits / 0x1_0000 % 256,
        digit(bits, 3) == bits / 0x100_0000 % 256,
        digit(bits, 4) == bits / 0x1_0000_0000 % 256,
        digit(bits, 5) == bits / 0x100_0000_0000 % 256,
        digit(bits, 6) == bits / 0x1_0000_0000_0000 % 256,
        digit(bits, 7) == bits / 0x100_0000_0000_0000 % 256,
        pow256(8) == 0x1_0000_0000_0000_0000,
{
    assert(pow256(0) == 1);
    assert(pow256(1) == 0x100);
    assert(pow256(2) == 0x1_0000);
    assert(pow256(3) == 0x100_0000);
    assert(pow256(4) == 0x1_0000_0000);
    assert(pow256(5) == 0x100_0000_0000);
    assert(pow256(6) == 0x1_0000_0000_0000);
    assert(pow256(7) == 0x100_0000_0000_0000);
    assert(pow256(8) == 0x1_0000_0000_0000_0000);
    assert(bits / 1 == bits);
}

/// The stamp of a version.
pub fn version_to_versionstamp(version: i64) -> (r: [u8; 12])
    ensures
        r@ == stamp_of(version),
{
    let bits: u64 = if version < 0 {
        (version + i64::MAX + 1) as u64 + 0x8000_0000_0000_0000
    } else {
        version as u64
    };
    let ghost full = if version < 0 {
        version + 0x1_0000_0000_0000_0000
    } else {
        version as int
    };
    let mut versionstamp: [u8; 12] = [0; 12];
    let mut rest: u64 = bits;
    let mut i: usize = 0;
    assert(pow256(0) == 1);
    while i < 8
        invariant
            i <= 8,
            0 <= full,
            rest == full / pow256(i as nat),
            pow256(i as nat) > 0,
            forall|j: int|
                0 <= j < i ==> versionstamp@[j] == #[trigger] digit(full, j as nat) as u8,
            forall|j: int| i <= j < 12 ==> versionstamp@[j] == 0,
        decreases 8 - i,
    {
        versionstamp[i] = (rest % 256) as u8;
        proof {
            vstd::arithmetic::div_mod::lemma_div_denominator(full, pow256(i as nat), 256);
            assert(pow256((i + 1) as nat) == 256 * pow256(i as nat));
            assert(pow256(i as nat) * 256 == 256 * pow256(i as nat)) by (nonlinear_arith);
        }
        rest = rest / 256;
        i = i + 1;
    }
    proof {
        lemma_stamp_digits(full);
        assert(versionstamp@[0] == digit(full, 0) as u8);
        assert(versionstamp@[1] == digit(full, 1) as u8);
        assert(versionstamp@[2] == digit(full, 2) as u8);
        assert(versionstamp@[3] == digit(full, 3) as u8);
        assert(versionstamp@[4] == digit(full, 4) as u8);
        assert(versionstamp@[5] == digit(full, 5) as u8);
        assert(versionstamp@[6] == digit(full, 6) as u8);
        assert(versionstamp@[7] == digit(full, 7) as u8);
        assert(versionstamp@ =~= stamp_of(version));
    }
    versionstamp
}

/// A digit of a number in base 256.
spec fn digit(x: int, i: nat) -> int {
    x / pow256(i) % 256
}

/// Powers of 256 are positive.
proof fn lemma_pow256_positive(n: nat)
    ensures
        pow256(n) > 0,
    decreases n,
{
    if n > 0 {
        lemma_pow256_positive((n - 1) as nat);
    }
}

/// Numbers with the same digits are the same.
proof fn lemma_same_digits(x: int, y: int, n: nat)
    requires
        0 <= x < pow256(n),
        0 <= y < pow256(n),
        forall|i: nat| i < n ==> #[trigger] digit(x, i) == digit(y, i),
    ensures
        x == y,
    decreases n,
{
    if n > 0 {
        let m = (n - 1) as nat;
        assert(pow256(0) == 1);
        assert(digit(x, 0) == digit(y, 0));
        assert(x % 256 == y % 256);
        assert forall|i: nat| i < m implies #[trigger] digit(x / 256, i) == digit(y / 256, i) by {
            lemma_pow256_positive(i);
            vstd::arithmetic::div_mod::lemma_div_denominator(x, 256, pow256(i));
            vstd::arithmetic::div_mod::lemma_div_denominator(y, 256, pow256(i));
            assert(pow256((i + 1) as nat) == 256 * pow256(i));
            assert(digit(x, (i + 1) as nat) == digit(y, (i + 1) as nat));
        }
        assert(x / 256 < pow256(m) && y / 256 < pow256(m)) by {
            assert(pow256(n) == 256 * pow256(m));
        }
        lemma_same_digits(x / 256, y / 256, m);
    }
}

/// Different versions have different stamps.
pub proof fn law_versions_have_their_own_stamps(a: i64, b: i64)
    requires
        stamp_of(a) == stamp_of(b),
    ensures
        a == b,
{
    let x = if a < 0 {
        a + 0x1_0000_0000_0000_0000
    } else {
        a as int
    };
    let y = if b < 0 {
        b + 0x1_0000_0000_0000_0000
    } else {
        b as int
    };
    lemma_stamp_digits(x);
    lemma_stamp_digits(y);
    assert forall|i: nat| i < 8 implies #[trigger] digit(x, i) == digit(y, i) by {
        assert(stamp_of(a)[i as int] == stamp_of(b)[i as int]);
    }
    lemma_same_digits(x, y, 8);
}

/// The values that can be stored.
pub open spec fn storable_value(value: ValueView) -> bool {
    value is V8 || value is Bool || value is Bytes
}

/// Whether a value can be stored.
pub fn is_storable_value(value: &Value) -> (r: bool)
    ensures
        r == storable_value(value@),
{
    match value {
        Value::V8(_) | Value::Bool(_) | Value::Bytes(_) => true,
        _ => false,
    }
}

/// A value as it is stored: its bytes and their encoding.
pub open spec fn value_bytes(value: ValueView) -> (Seq<u8>, i64) {
    match value {
        ValueView::V8(bytes) => (bytes, VALUE_ENCODING_V8),
        ValueView::Bool(b) => (
            seq![
                if b {
                    1u8
                } else {
                    0
                },
            ],
            VALUE_ENCODING_BOOL,
        ),
        ValueView::Bytes(bytes) => (bytes, VALUE_ENCODING_BYTES),
        _ => (Seq::empty(), 0),
    }
}

/// Bytes in an encoding that can be read.
pub open spec fn readable_value(bytes: Seq<u8>, encoding: i64) -> bool {
    ||| encoding == VALUE_ENCODING_V8
    ||| encoding == VALUE_ENCODING_BOOL && bytes.len() > 0
    ||| encoding == VALUE_ENCODING_BYTES
}

/// The value that bytes in an encoding stand for.
pub open spec fn value_of(bytes: Seq<u8>, encoding: i64) -> ValueView {
    if encoding == VALUE_ENCODING_V8 {
        ValueView::V8(bytes)
    } else if encoding == VALUE_ENCODING_BOOL {
        ValueView::Bool(bytes[0] != 0)
    } else {
        ValueView::Bytes(bytes)
    }
}

/// The value that bytes in an encoding stand for.
pub fn decode_value(value: Vec<u8>, encoding: i64) -> (r: Value)
    requires
        readable_value(value@, encoding),
    ensures
        r@ == value_of(value@, encoding),
{
    if encoding == VALUE_ENCODING_V8 {
        Value::V8(value)
    } else if encoding == VALUE_ENCODING_BOOL {
        Value::Bool(value[0] != 0)
    } else {
        Value::Bytes(value)
    }
}

/// A value as it is stored.
pub fn encode_value(value: &Value) -> (r: (Vec<u8>, i64))
    requires
        storable_value(value@),
    ensures
        (r.0@, r.1) == value_bytes(value@),
{
    match value {
        Value::V8(bytes) => (bytes_clone(bytes), VALUE_ENCODING_V8),
        Value::Bool(b) => {
            let byte: u8 = if *b {
                1
            } else {
                0
            };
            let mut bytes: Vec<u8> = Vec::new();
            bytes.push(byte);
            assert(bytes@ =~= seq![byte]);
            (bytes, VALUE_ENCODING_BOOL)
        },
        Value::Bytes(bytes) => (bytes_clone(bytes), VALUE_ENCODING_BYTES),
        _ => unreached(),
    }
}

/// A value that is stored is read back as it was.
pub proof fn law_stored_value_reads_back(value: ValueView)
    requires
        storable_value(value),
    ensures
        readable_value(value_bytes(value).0, value_bytes(value).1),
        value_of(value_bytes(value).0, value_bytes(value).1) == value,
{
}

} // verus!
