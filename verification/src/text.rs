//! Small operations on text that the other modules share.
use vstd::prelude::*;
use vstd::utf8::decode_utf8;
use vstd::utf8::valid_utf8;
use vstd::utf8::{encode_utf8, encode_utf8_decode_utf8};

verus! {

/// Two byte strings are equal.
pub fn bytes_eq(a: &[u8], b: &[u8]) -> (r: bool)
    ensures
        r == (a@ == b@),
{
    if a.len() != b.len() {
        return false;
    }
    let mut i: usize = 0;
    while i < a.len()
        invariant
            i <= a@.len(),
            a@.len() == b@.len(),
            forall|j: int| 0 <= j < i ==> a@[j] == b@[j],
        decreases a@.len() - i,
    {
        if a[i] != b[i] {
            return false;
        }
        i = i + 1;
    }
    assert(a@ =~= b@);
    true
}

/// Two texts are equal exactly when their characters are.
pub fn str_eq(a: &str, b: &str) -> (r: bool)
    ensures
        r == (a@ == b@),
{
    let x: &[u8] = a.as_bytes();
    let y: &[u8] = b.as_bytes();
    proof {
        encode_utf8_decode_utf8(a@);
        encode_utf8_decode_utf8(b@);
    }
    if x.len() != y.len() {
        return false;
    }
    let n: usize = x.len();
    let mut i: usize = 0;
    while i < n
        invariant
            i <= n,
            n == x@.len(),
            n == y@.len(),
            x@ == encode_utf8(a@),
            y@ == encode_utf8(b@),
            forall|j: int| 0 <= j < i ==> x@[j] == y@[j],
        decreases n - i,
    {
        if x[i] != y[i] {
            return false;
        }
        i = i + 1;
    }
    assert(x@ =~= y@);
    true
}

/// The characters of an optional text.
pub open spec fn opt_text(t: Option<String>) -> Option<Seq<char>> {
    match t {
        Some(s) => Some(s@),
        None => None,
    }
}

/// The characters of an optional text that is borrowed.
pub open spec fn opt_str(t: Option<&str>) -> Option<Seq<char>> {
    match t {
        Some(s) => Some(s@),
        None => None,
    }
}

/// Joins two texts.
pub fn concat2(a: &str, b: &str) -> (r: String)
    ensures
        r@ == a@ + b@,
{
    let mut s: String = a.to_owned();
    s.append(b);
    s
}

/// Joins three texts.
pub fn concat3(a: &str, b: &str, c: &str) -> (r: String)
    ensures
        r@ == a@ + b@ + c@,
{
    let mut s: String = a.to_owned();
    s.append(b);
    s.append(c);
    s
}

/// Joins four texts.
pub fn concat4(a: &str, b: &str, c: &str, d: &str) -> (r: String)
    ensures
        r@ == a@ + b@ + c@ + d@,
{
    let mut s: String = a.to_owned();
    s.append(b);
    s.append(c);
    s.append(d);
    s
}

/// The character that stands for one digit, in lower case.
pub open spec fn digit_char(d: nat) -> char {
    if d < 10 {
        (d + '0' as nat) as char
    } else {
        ((d - 10) + 'a' as nat) as char
    }
}

/// The digits of `n` in the given radix, most significant first, without
/// leading zeros (zero itself is one digit).
pub open spec fn digits(n: nat, radix: nat) -> Seq<char>
    decreases n,
{
    if n < radix || radix < 2 {
        seq![digit_char(n)]
    } else {
        proof {
            vstd::arithmetic::div_mod::lemma_div_decreases(n as int, radix as int);
        }
        digits(n / radix, radix).push(digit_char(n % radix))
    }
}

/// The decimal digits of `n`.
pub open spec fn decimal(n: nat) -> Seq<char> {
    digits(n, 10)
}

/// The hexadecimal digits of `n`, in lower case.
pub open spec fn hexadecimal(n: nat) -> Seq<char> {
    digits(n, 16)
}

fn digit_str(d: u64) -> (r: &'static str)
    requires
        d < 16,
    ensures
        r@ == seq![digit_char(d as nat)],
{
    proof {
        reveal_strlit("0");
        reveal_strlit("1");
        reveal_strlit("2");
        reveal_strlit("3");
        reveal_strlit("4");
        reveal_strlit("5");
        reveal_strlit("6");
        reveal_strlit("7");
        reveal_strlit("8");
        reveal_strlit("9");
        reveal_strlit("a");
        reveal_strlit("b");
        reveal_strlit("c");
        reveal_strlit("d");
        reveal_strlit("e");
        reveal_strlit("f");
    }
    match d {
        0 => "0",
        1 => "1",
        2 => "2",
        3 => "3",
        4 => "4",
        5 => "5",
        6 => "6",
        7 => "7",
        8 => "8",
        9 => "9",
        10 => "a",
        11 => "b",
        12 => "c",
        13 => "d",
        14 => "e",
        _ => "f",
    }
}

fn digits_string(n: u64, radix: u64) -> (r: String)
    requires
        2 <= radix <= 16,
    ensures
        r@ == digits(n as nat, radix as nat),
    decreases n,
{
    if n < radix {
        digit_str(n).to_owned()
    } else {
        proof {
            vstd::arithmetic::div_mod::lemma_div_decreases(n as int, radix as int);
        }
        let mut s: String = digits_string(n / radix, radix);
        s.append(digit_str(n % radix));
        assert(s@ =~= digits(n as nat, radix as nat));
        s
    }
}

/// Writes an integer in decimal.
pub fn decimal_string(n: u64) -> (r: String)
    ensures
        r@ == decimal(n as nat),
{
    digits_string(n, 10)
}

/// Writes an integer in lower-case hexadecimal.
pub fn hexadecimal_string(n: u64) -> (r: String)
    ensures
        r@ == hexadecimal(n as nat),
{
    digits_string(n, 16)
}

/// The decimal digits of a signed integer, with a minus sign where it is
/// negative.
pub open spec fn signed_decimal(n: int) -> Seq<char> {
    if n < 0 {
        seq!['-'] + decimal((-n) as nat)
    } else {
        decimal(n as nat)
    }
}

/// Writes a signed integer in decimal.
pub fn signed_decimal_string(n: i32) -> (r: String)
    ensures
        r@ == signed_decimal(n as int),
{
    if n < 0 {
        let m: u64 = (-(n as i64)) as u64;
        let d: String = decimal_string(m);
        proof {
            reveal_strlit("-");
        }
        let r: String = concat2("-", d.as_str());
        assert(r@ =~= signed_decimal(n as int));
        r
    } else {
        decimal_string(n as u64)
    }
}

/// A byte vector with the bytes of a slice.
pub fn bytes_clone(b: &Vec<u8>) -> (r: Vec<u8>)
    ensures
        r@ == b@,
{
    vstd::slice::slice_to_vec(b.as_slice())
}

/// The characters of each text of a list.
pub open spec fn texts(list: Seq<String>) -> Seq<Seq<char>> {
    Seq::new(list.len(), |i: int| list[i]@)
}

/// The texts of a list one after the other, with `sep` between two of them.
pub open spec fn joined(list: Seq<Seq<char>>, sep: Seq<char>) -> Seq<char>
    decreases list.len(),
{
    if list.len() == 0 {
        Seq::empty()
    } else if list.len() == 1 {
        list[0]
    } else {
        joined(list.drop_last(), sep) + sep + list.last()
    }
}

/// Joins a list of texts with a separator.
pub fn join(list: &Vec<String>, sep: &str) -> (r: String)
    ensures
        r@ == joined(texts(list@), sep@),
{
    let mut out: String = String::new();
    let n: usize = list.len();
    let ghost all = texts(list@);
    let mut i: usize = 0;
    while i < n
        invariant
            i <= n,
            n == list@.len(),
            all == texts(list@),
            out@ == joined(all.take(i as int), sep@),
        decreases n - i,
    {
        assert(all.take(i + 1).drop_last() =~= all.take(i as int));
        assert(all.take(i + 1).last() == list@[i as int]@);
        if i > 0 {
            out.append(sep);
        }
        out.append(list[i].as_str());
        proof {
            if i == 0 {
                assert(all.take(0) =~= Seq::empty());
                assert(out@ =~= all.take(1)[0]);
            }
        }
        i = i + 1;
    }
    assert(all.take(n as int) =~= all);
    out
}

/// `needle` occurs in `hay` at index `i`.
pub open spec fn occurs_at(hay: Seq<char>, needle: Seq<char>, i: int) -> bool {
    0 <= i <= hay.len() - needle.len() && hay.subrange(i, i + needle.len()) == needle
}

/// `hay` begins with `prefix`.
pub open spec fn starts_with(hay: Seq<char>, prefix: Seq<char>) -> bool {
    occurs_at(hay, prefix, 0)
}

/// `needle` occurs somewhere in `hay`.
pub open spec fn contains_text(hay: Seq<char>, needle: Seq<char>) -> bool {
    exists|i: int| occurs_at(hay, needle, i)
}

/// The characters of a text, one by one.
pub fn chars_of(s: &str) -> (r: Vec<char>)
    ensures
        r@ == s@,
{
    let mut out: Vec<char> = Vec::new();
    for c in iter: s.chars()
        invariant
            iter.seq() == s@,
            out@ == s@.take(iter.index()),
    {
        out.push(c);
        assert(out@ =~= s@.take(iter.index() + 1));
    }
    assert(out@ =~= s@);
    out
}

fn occurs_here(hay: &Vec<char>, needle: &Vec<char>, at: usize) -> (r: bool)
    requires
        at <= hay@.len(),
    ensures
        r == occurs_at(hay@, needle@, at as int),
{
    if hay.len() - at < needle.len() {
        return false;
    }
    let n: usize = needle.len();
    let mut j: usize = 0;
    while j < n
        invariant
            j <= n,
            n == needle@.len(),
            at + n <= hay.len(),
            forall|k: int| 0 <= k < j ==> hay@[at + k] == needle@[k],
        decreases n - j,
    {
        if hay[at + j] != needle[j] {
            proof {
                assert(hay@.subrange(at as int, at + n)[j as int] == hay@[at + j]);
            }
            return false;
        }
        j = j + 1;
    }
    assert(hay@.subrange(at as int, at + n) =~= needle@);
    true
}

/// Tells whether a text begins with a prefix.
pub fn str_starts_with(hay: &str, prefix: &str) -> (r: bool)
    ensures
        r == starts_with(hay@, prefix@),
{
    let h: Vec<char> = chars_of(hay);
    let p: Vec<char> = chars_of(prefix);
    occurs_here(&h, &p, 0)
}

/// Tells whether a text occurs in another.
pub fn str_contains(hay: &str, needle: &str) -> (r: bool)
    ensures
        r == contains_text(hay@, needle@),
{
    let h: Vec<char> = chars_of(hay);
    let p: Vec<char> = chars_of(needle);
    let n: usize = h.len();
    let mut i: usize = 0;
    loop
        invariant
            i <= n,
            n == h@.len(),
            h@ == hay@,
            p@ == needle@,
            forall|k: int| 0 <= k < i ==> !occurs_at(hay@, needle@, k),
        decreases n - i,
    {
        if occurs_here(&h, &p, i) {
            assert(occurs_at(hay@, needle@, i as int));
            return true;
        }
        if i == n {
            return false;
        }
        i = i + 1;
    }
}

/// `hay` without the occurrences of `needle`, found from the left and not
/// overlapping.
pub open spec fn without(hay: Seq<char>, needle: Seq<char>) -> Seq<char>
    decreases hay.len(),
{
    if hay.len() == 0 || needle.len() == 0 {
        hay
    } else if starts_with(hay, needle) {
        without(hay.skip(needle.len() as int), needle)
    } else {
        seq![hay[0]] + without(hay.skip(1), needle)
    }
}

/// Removes every occurrence of a text from another.
pub fn str_without(hay: &str, needle: &str) -> (r: String)
    ensures
        r@ == without(hay@, needle@),
{
    let h: Vec<char> = chars_of(hay);
    let p: Vec<char> = chars_of(needle);
    if p.len() == 0 {
        return hay.to_owned();
    }
    let n: usize = h.len();
    let mut out: String = String::new();
    let mut i: usize = 0;
    assert(hay@.skip(0) =~= hay@);
    while i < n
        invariant
            i <= n,
            n == h@.len(),
            h@ == hay@,
            p@ == needle@,
            p@.len() > 0,
            without(hay@, needle@) == out@ + without(hay@.skip(i as int), needle@),
        decreases n - i,
    {
        let ghost rest = hay@.skip(i as int);
        let hit: bool = occurs_here(&h, &p, i);
        proof {
            if occurs_at(hay@, needle@, i as int) {
                assert(rest.subrange(0, needle@.len() as int) =~= hay@.subrange(
                    i as int,
                    i + needle@.len(),
                ));
            }
            if starts_with(rest, needle@) {
                assert(rest.subrange(0, needle@.len() as int) =~= hay@.subrange(
                    i as int,
                    i + needle@.len(),
                ));
            }
            assert(hit == starts_with(rest, needle@));
        }
        if hit {
            assert(rest.skip(needle@.len() as int) =~= hay@.skip(i + needle@.len()));
            i = i + p.len();
        } else {
            let one: &str = hay.substring_char(i, i + 1);
            let ghost before = out@;
            out.append(one);
            assert(one@ =~= seq![rest[0]]);
            assert(rest.skip(1) =~= hay@.skip(i + 1));
            assert(out@ + without(rest.skip(1), needle@) =~= before + (seq![rest[0]] + without(
                rest.skip(1),
                needle@,
            )));
            i = i + 1;
        }
    }
    assert(hay@.skip(n as int) =~= Seq::empty());
    assert(out@ + without(hay@.skip(n as int), needle@) =~= out@);
    out
}

/// The first `n` bytes are the longest start of the bytes that is UTF-8.
pub open spec fn valid_up_to(bytes: Seq<u8>, n: int) -> bool {
    &&& 0 <= n <= bytes.len()
    &&& valid_utf8(bytes.take(n))
    &&& forall|m: int| n < m <= bytes.len() ==> !valid_utf8(#[trigger] bytes.take(m))
}

/// How many bytes the longest start of the bytes that is UTF-8 has.
pub open spec fn valid_prefix_len(bytes: Seq<u8>) -> nat {
    choose|n: nat| valid_up_to(bytes, n as int)
}

/// There is only one such number.
pub proof fn lemma_valid_prefix_len(bytes: Seq<u8>, n: nat)
    requires
        valid_up_to(bytes, n as int),
    ensures
        valid_prefix_len(bytes) == n,
{
    let m = valid_prefix_len(bytes);
    assert(valid_up_to(bytes, m as int));
    if m < n {
        assert(!valid_utf8(bytes.take(n as int)));
    } else if n < m {
        assert(!valid_utf8(bytes.take(m as int)));
    }
}

/// Calls `std::str::from_utf8`: the text that the bytes encode, or, where they
/// are not UTF-8, the `valid_up_to` of the error, which is the index up to which
/// they are.
#[verifier::external_body]
fn from_utf8(bytes: &[u8]) -> (r: Result<&str, usize>)
    ensures
        match r {
            Ok(text) => valid_utf8(bytes@) && text@ == decode_utf8(bytes@),
            Err(n) => !valid_utf8(bytes@) && valid_up_to(bytes@, n as int),
        },
{
    std::str::from_utf8(bytes).map_err(|error| error.valid_up_to())
}

/// The text that bytes encode, or how many of them are UTF-8.
pub fn utf8_text(bytes: &[u8]) -> (r: Result<&str, usize>)
    ensures
        match r {
            Ok(text) => valid_utf8(bytes@) && text@ == decode_utf8(bytes@),
            Err(n) => !valid_utf8(bytes@) && n == valid_prefix_len(bytes@),
        },
{
    match from_utf8(bytes) {
        Ok(text) => Ok(text),
        Err(n) => {
            proof {
                lemma_valid_prefix_len(bytes@, n as nat);
            }
            Err(n)
        },
    }
}

/// The value of a digit in lower case.
pub open spec fn digit_value(c: char) -> nat {
    if '0' <= c <= '9' {
        (c as u32 - '0' as u32) as nat
    } else {
        (c as u32 - 'a' as u32 + 10) as nat
    }
}

/// The number that digits stand for: each digit counts as many as the one before
/// it times the radix.
pub open spec fn number_of(text: Seq<char>, radix: nat) -> nat
    decreases text.len(),
{
    if text.len() == 0 {
        0
    } else {
        number_of(text.drop_last(), radix) * radix + digit_value(text.last())
    }
}

/// A digit is worth the number it was made of.
pub proof fn lemma_digit(d: nat)
    requires
        d < 16,
    ensures
        ({
            let c = digit_char(d);
            &&& '0' <= c <= '9' || 'a' <= c <= 'f'
            &&& digit_value(c) == d
            &&& c == '0' <==> d == 0
        }),
{
}

/// Digits stand for the number they were made of: each is one of the radix, in
/// lower case, the first is zero only where it is alone, and together they are
/// worth the number.
pub proof fn law_digits_stand_for_number(n: nat, radix: nat)
    requires
        2 <= radix <= 16,
    ensures
        digits(n, radix).len() >= 1,
        digits(n, radix)[0] == '0' ==> digits(n, radix).len() == 1,
        forall|i: int|
            0 <= i < digits(n, radix).len() ==> {
                let c = #[trigger] digits(n, radix)[i];
                ('0' <= c <= '9' || 'a' <= c <= 'f') && digit_value(c) < radix
            },
        number_of(digits(n, radix), radix) == n,
    decreases n,
{
    if n < radix {
        lemma_digit(n);
        let one = seq![digit_char(n)];
        assert(digits(n, radix) == one);
        assert(one.drop_last() =~= Seq::empty());
        assert(number_of(one.drop_last(), radix) == 0);
        assert(number_of(one, radix) == 0 * radix + n);
        assert(0 * radix == 0) by (nonlinear_arith);
    } else {
        vstd::arithmetic::div_mod::lemma_div_decreases(n as int, radix as int);
        vstd::arithmetic::div_mod::lemma_fundamental_div_mod(n as int, radix as int);
        vstd::arithmetic::div_mod::lemma_mod_bound(n as int, radix as int);
        vstd::arithmetic::div_mod::lemma_div_non_zero(n as int, radix as int);
        law_digits_stand_for_number(n / radix, radix);
        lemma_digit(n % radix);
        let front = digits(n / radix, radix);
        let last = digit_char(n % radix);
        let all = front.push(last);
        assert(digits(n, radix) == all);
        assert(all.drop_last() =~= front);
        assert(number_of(all, radix) == (n / radix) * radix + n % radix);
        assert(radix * (n / radix) == (n / radix) * radix) by (nonlinear_arith);
        if front[0] == '0' {
            assert(front.drop_last() =~= Seq::empty());
            assert(number_of(front.drop_last(), radix) == 0);
            assert(0 * radix == 0) by (nonlinear_arith);
            assert(number_of(front, radix) == 0);
        }
        assert(all[0] == front[0]);
    }
}

/// A signed number is written as what it is worth without its sign, behind a minus
/// exactly where it is negative.
pub proof fn law_signed_number(n: int)
    ensures
        n >= 0 ==> number_of(signed_decimal(n), 10) == n && signed_decimal(n)[0] != '-',
        n < 0 ==> signed_decimal(n)[0] == '-' && number_of(signed_decimal(n).skip(1), 10) == -n,
{
    let m = if n < 0 {
        -n
    } else {
        n
    } as nat;
    law_digits_stand_for_number(m, 10);
    if n < 0 {
        assert(signed_decimal(n).skip(1) =~= decimal(m));
    }
}

/// A text in front of others that are joined stands before them and one
/// separator.
pub proof fn law_joined_from_the_front(first: Seq<char>, list: Seq<Seq<char>>, sep: Seq<char>)
    ensures
        joined(seq![first], sep) == first,
        list.len() > 0 ==> joined(seq![first] + list, sep) == first + sep + joined(list, sep),
    decreases list.len(),
{
    let all = seq![first] + list;
    if list.len() == 1 {
        assert(all.drop_last() =~= seq![first]);
        assert(all.last() == list[0]);
    } else if list.len() > 1 {
        law_joined_from_the_front(first, list.drop_last(), sep);
        assert(all.drop_last() =~= seq![first] + list.drop_last());
        assert(all.last() == list.last());
        assert(joined(all, sep) =~= first + sep + (joined(list.drop_last(), sep) + sep
            + list.last()));
    }
}

/// A text in which another does not occur stays as it is when that is removed, and
/// where the other stands before it nothing else is left.
pub proof fn law_removed_text(needle: Seq<char>, rest: Seq<char>)
    requires
        needle.len() > 0,
        !contains_text(rest, needle),
    ensures
        without(rest, needle) == rest,
        without(needle + rest, needle) == rest,
{
    lemma_nothing_removed(rest, needle);
    let all = needle + rest;
    assert(all.subrange(0, needle.len() as int) =~= needle);
    assert(occurs_at(all, needle, 0));
    assert(all.skip(needle.len() as int) =~= rest);
}

/// A text in which another does not occur stays as it is.
proof fn lemma_nothing_removed(hay: Seq<char>, needle: Seq<char>)
    requires
        needle.len() > 0,
        !contains_text(hay, needle),
    ensures
        without(hay, needle) == hay,
    decreases hay.len(),
{
    if hay.len() > 0 {
        assert(!occurs_at(hay, needle, 0));
        let rest = hay.skip(1);
        assert(!contains_text(rest, needle)) by {
            if contains_text(rest, needle) {
                let i = choose|i: int| occurs_at(rest, needle, i);
                assert(hay.subrange(i + 1, i + 1 + needle.len()) =~= rest.subrange(
                    i,
                    i + needle.len(),
                ));
                assert(occurs_at(hay, needle, i + 1));
            }
        }
        lemma_nothing_removed(rest, needle);
        assert(seq![hay[0]] + rest =~= hay);
    }
}

/// Where a text of a list begins among them all: behind the texts before it, each
/// with a separator.
pub open spec fn joined_start(list: Seq<Seq<char>>, sep: Seq<char>, i: nat) -> nat
    decreases i,
{
    if i == 0 {
        0
    } else {
        joined_start(list, sep, (i - 1) as nat) + list[i - 1].len() + sep.len()
    }
}

/// Texts that are joined hold each of them in its place, the separator behind each
/// but the last, and nothing else.
pub proof fn law_joined_holds_each(list: Seq<Seq<char>>, sep: Seq<char>, i: nat)
    requires
        i < list.len(),
    ensures
        ({
            let all = joined(list, sep);
            let start = joined_start(list, sep, i) as int;
            let end = start + list[i as int].len();
            let last = (list.len() - 1) as nat;
            &&& all.len() == joined_start(list, sep, last) + list.last().len()
            &&& end <= all.len()
            &&& all.subrange(start, end) == list[i as int]
            &&& i < last ==> end + sep.len() <= all.len() && all.subrange(end, end + sep.len())
                == sep
        }),
    decreases list.len(),
{
    let all = joined(list, sep);
    let start = joined_start(list, sep, i) as int;
    let end = start + list[i as int].len();
    if list.len() == 1 {
        assert(all.subrange(0, end) =~= list[0]);
    } else {
        let shorter = list.drop_last();
        let last = (list.len() - 1) as nat;
        lemma_joined_start(shorter, list, sep, i);
        lemma_joined_start(shorter, list, sep, last);
        lemma_joined_start(shorter, list, sep, (last - 1) as nat);
        law_joined_holds_each(shorter, sep, (last - 1) as nat);
        let front = joined(shorter, sep);
        assert(all == front + sep + list.last());
        assert(joined_start(list, sep, last) == front.len() + sep.len());
        if i == last {
            assert(all.subrange(start, end) =~= list.last());
        } else {
            law_joined_holds_each(shorter, sep, i);
            assert(all.subrange(start, end) =~= front.subrange(start, end));
            if i == last - 1 {
                assert(end == front.len());
                assert(all.subrange(end, end + sep.len()) =~= sep);
            } else {
                assert(all.subrange(end, end + sep.len()) =~= front.subrange(end, end + sep.len()));
            }
        }
    }
}

/// Where a text begins depends only on the texts before it.
proof fn lemma_joined_start(a: Seq<Seq<char>>, b: Seq<Seq<char>>, sep: Seq<char>, i: nat)
    requires
        i <= a.len(),
        a.len() <= b.len(),
        forall|j: int| 0 <= j < a.len() ==> a[j] == b[j],
    ensures
        joined_start(a, sep, i) == joined_start(b, sep, i),
    decreases i,
{
    if i > 0 {
        lemma_joined_start(a, b, sep, (i - 1) as nat);
    }
}

/// What an optional text and a list of texts say is what they hold.
pub proof fn law_texts_say_what_they_hold(text: String, list: Seq<String>, i: int)
    requires
        0 <= i < list.len(),
    ensures
        opt_text(Some(text)) == Some(text@) && opt_text(None) is None,
        texts(list).len() == list.len() && texts(list)[i] == list[i]@,
{
}

/// A text begins with another where its first characters are that, and holds it where
/// some characters in it are.
pub proof fn law_occurrences(hay: Seq<char>, needle: Seq<char>)
    ensures
        starts_with(hay, needle) <==> needle.len() <= hay.len() && forall|i: int|
            0 <= i < needle.len() ==> hay[i] == #[trigger] needle[i],
        contains_text(hay, needle) <==> exists|i: int|
            0 <= i && i + needle.len() <= hay.len() && #[trigger] hay.subrange(
                i,
                i + needle.len(),
            ) == needle,
{
    if starts_with(hay, needle) {
        assert forall|i: int| 0 <= i < needle.len() implies hay[i] == #[trigger] needle[i] by {
            assert(hay.subrange(0, needle.len() as int)[i] == hay[i]);
        }
    }
    if needle.len() <= hay.len() && forall|i: int|
        0 <= i < needle.len() ==> hay[i] == #[trigger] needle[i] {
        assert(hay.subrange(0, needle.len() as int) =~= needle);
    }
    if contains_text(hay, needle) {
        let i = choose|i: int| occurs_at(hay, needle, i);
        assert(hay.subrange(i, i + needle.len()) == needle);
    }
    if exists|i: int|
        0 <= i && i + needle.len() <= hay.len() && #[trigger] hay.subrange(i, i + needle.len())
            == needle {
        let i = choose|i: int|
            0 <= i && i + needle.len() <= hay.len() && #[trigger] hay.subrange(
                i,
                i + needle.len(),
            ) == needle;
        assert(occurs_at(hay, needle, i));
    }
}

/// What a borrowed text that may be missing says is the text.
pub proof fn law_borrowed_text(text: &str)
    ensures
        opt_str(Some(text)) == Some(text@),
        opt_str(None) is None,
{
}

/// The start of bytes that is UTF-8 is as long as can be: no longer one is.
pub proof fn law_longest_utf8_start(bytes: Seq<u8>, n: nat)
    requires
        n <= bytes.len(),
        valid_utf8(bytes.take(n as int)),
        forall|m: int| n < m <= bytes.len() ==> !valid_utf8(#[trigger] bytes.take(m)),
    ensures
        valid_prefix_len(bytes) == n,
{
    lemma_valid_prefix_len(bytes, n);
}

} // verus!
