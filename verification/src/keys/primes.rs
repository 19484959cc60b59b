//! The sizes and exponents for which there are RSA keys.
use vstd::arithmetic::power2::lemma2_to64;
use vstd::arithmetic::power2::lemma_pow2_strictly_increases;
use vstd::arithmetic::power2::lemma_pow2_unfold;
use vstd::arithmetic::power2::pow2;
use vstd::prelude::*;

verus! {

/// A prime number.
pub open spec fn is_prime(n: int) -> bool {
    n >= 2 && forall|d: int| 2 <= d < n ==> #[trigger] (n % d) != 0
}

/// Two numbers have no divisor in common but one.
pub open spec fn is_coprime(a: int, b: int) -> bool {
    forall|d: int| d >= 2 ==> (#[trigger] (a % d) != 0 || b % d != 0)
}

/// A prime of a key: it has the given number of bits, the two highest of which are
/// set, and the exponent is invertible beside it.
pub open spec fn is_key_prime(p: int, bits: nat, public_exponent: int) -> bool {
    &&& bits >= 2
    &&& 3 * pow2((bits - 2) as nat) <= p < pow2(bits)
    &&& is_prime(p)
    &&& is_coprime(public_exponent, p - 1)
}

/// Two different primes make up a key of a given size.
pub open spec fn is_key_pair(p: int, q: int, modulus_length: nat, public_exponent: int) -> bool {
    &&& p != q
    &&& is_key_prime(p, modulus_length / 2, public_exponent)
    &&& is_key_prime(q, (modulus_length - modulus_length / 2) as nat, public_exponent)
}

/// The sizes and exponents for which RSA keys are generated: the exponent is odd,
/// no larger than the reader of keys takes and smaller than every modulus, and
/// there are two primes to choose. From 32 bits on there always are.
pub open spec fn rsa_key_exists(modulus_length: int, public_exponent: int) -> bool {
    &&& modulus_length >= 12
    &&& 3 <= public_exponent < 0x2_0000_0000
    &&& public_exponent % 2 == 1
    &&& public_exponent < pow2((modulus_length - 1) as nat)
    &&& modulus_length >= 32 || some_key_pair(modulus_length as nat, public_exponent)
}

/// Some two primes make up a key of a given size.
pub open spec fn some_key_pair(modulus_length: nat, public_exponent: int) -> bool {
    exists|p: int, q: int| #[trigger] is_key_pair(p, q, modulus_length, public_exponent)
}

/// Two to the power of `n`.
fn power_of_two(n: usize) -> (r: u64)
    requires
        n < 64,
    ensures
        r == pow2(n as nat),
{
    proof {
        lemma2_to64();
    }
    let mut r: u64 = 1;
    let mut i: usize = 0;
    while i < n
        invariant
            i <= n < 64,
            r == pow2(i as nat),
        decreases n - i,
    {
        proof {
            lemma2_to64();
            lemma_pow2_unfold((i + 1) as nat);
            lemma_pow2_strictly_increases((i + 1) as nat, 64);
        }
        r = r * 2;
        i = i + 1;
    }
    r
}

/// Whether a number is prime.
fn check_prime(n: u64) -> (r: bool)
    ensures
        r == is_prime(n as int),
{
    if n < 2 {
        return false;
    }
    let mut d: u64 = 2;
    while d < n
        invariant
            2 <= d <= n,
            forall|k: int| 2 <= k < d ==> #[trigger] (n as int % k) != 0,
        decreases n - d,
    {
        if n % d == 0 {
            assert(n as int % d as int == 0);
            return false;
        }
        d = d + 1;
    }
    true
}

/// Whether two numbers have no divisor in common but one.
fn check_coprime(a: u64, b: u64) -> (r: bool)
    requires
        0 < b < u64::MAX,
    ensures
        r == is_coprime(a as int, b as int),
{
    let mut d: u64 = 2;
    while d <= b
        invariant
            2 <= d,
            d <= b + 1 || d == 2,
            b < u64::MAX,
            forall|k: int| 2 <= k < d ==> (#[trigger] (a as int % k) != 0 || b as int % k != 0),
        decreases b + 1 - d,
    {
        if a % d == 0 && b % d == 0 {
            assert(a as int % d as int == 0);
            return false;
        }
        d = d + 1;
    }
    assert forall|k: int| k >= 2 implies (#[trigger] (a as int % k) != 0 || b as int % k != 0) by {
        if k > b {
            assert(b as int % k == b) by {
                vstd::arithmetic::div_mod::lemma_small_mod(b as nat, k as nat);
            }
        }
    }
    true
}

/// Looks for a prime of a key other than `not`.
fn find_key_prime(bits: usize, public_exponent: u64, not: u64) -> (r: Option<u64>)
    requires
        2 <= bits < 64,
    ensures
        match r {
            Some(p) => p != not && is_key_prime(p as int, bits as nat, public_exponent as int),
            None => forall|p: int|
                p != not ==> !#[trigger] is_key_prime(p, bits as nat, public_exponent as int),
        },
{
    proof {
        lemma_pow2_unfold(bits as nat);
        lemma_pow2_unfold((bits - 1) as nat);
        vstd::arithmetic::power2::lemma_pow2_pos((bits - 2) as nat);
    }
    let end: u64 = power_of_two(bits);
    let start: u64 = 3 * power_of_two(bits - 2);
    let mut p: u64 = start;
    while p < end
        invariant
            3 <= start <= p <= end,
            start == 3 * pow2((bits - 2) as nat),
            end == pow2(bits as nat),
            2 <= bits,
            forall|k: int|
                k < p && k != not ==> !#[trigger] is_key_prime(
                    k,
                    bits as nat,
                    public_exponent as int,
                ),
        decreases end - p,
    {
        if p != not && check_prime(p) && check_coprime(public_exponent, p - 1) {
            return Some(p);
        }
        p = p + 1;
    }
    None
}

/// Whether there are two primes for a key of a small size.
fn has_key_pair(modulus_length: usize, public_exponent: u64) -> (r: bool)
    requires
        12 <= modulus_length < 32,
    ensures
        r == some_key_pair(modulus_length as nat, public_exponent as int),
{
    let half: usize = modulus_length / 2;
    let rest: usize = modulus_length - half;
    match find_key_prime(half, public_exponent, 0) {
        None => {
            proof {
                assert(!is_key_prime(0, half as nat, public_exponent as int));
            }
            false
        },
        Some(p) => match find_key_prime(rest, public_exponent, p) {
            Some(q) => {
                assert(is_key_pair(
                    p as int,
                    q as int,
                    modulus_length as nat,
                    public_exponent as int,
                ));
                true
            },
            None => match find_key_prime(half, public_exponent, p) {
                None => {
                    assert forall|a: int, b: int| !#[trigger] is_key_pair(
                        a,
                        b,
                        modulus_length as nat,
                        public_exponent as int,
                    ) by {
                        if is_key_pair(a, b, modulus_length as nat, public_exponent as int) {
                            assert(is_key_prime(b, rest as nat, public_exponent as int));
                            assert(is_key_prime(a, half as nat, public_exponent as int));
                            assert(b == p);
                            assert(a == p);
                        }
                    }
                    false
                },
                Some(other) => {
                    let found: bool = match find_key_prime(rest, public_exponent, other) {
                        Some(q) => {
                            assert(is_key_pair(
                                other as int,
                                q as int,
                                modulus_length as nat,
                                public_exponent as int,
                            ));
                            true
                        },
                        None => {
                            assert forall|a: int, b: int| !#[trigger] is_key_pair(
                                a,
                                b,
                                modulus_length as nat,
                                public_exponent as int,
                            ) by {
                                if is_key_pair(
                                    a,
                                    b,
                                    modulus_length as nat,
                                    public_exponent as int,
                                ) {
                                    assert(is_key_prime(b, rest as nat, public_exponent as int));
                                    assert(b == p);
                                    assert(b == other);
                                }
                            }
                            false
                        },
                    };
                    found
                },
            },
        },
    }
}

/// Whether RSA keys of this size and with this exponent can be generated.
pub fn can_generate_rsa_key(modulus_length: usize, public_exponent: usize) -> (r: bool)
    ensures
        r == rsa_key_exists(modulus_length as int, public_exponent as int),
{
    let e: u64 = public_exponent as u64;
    if modulus_length < 12 || e < 3 || e >= 0x2_0000_0000 || e % 2 == 0 {
        return false;
    }
    if modulus_length >= 34 {
        proof {
            lemma2_to64();
            lemma_pow2_strictly_increases(32, (modulus_length - 1) as nat);
            if modulus_length > 34 {
                lemma_pow2_strictly_increases(33, (modulus_length - 1) as nat);
            }
            assert(pow2(33) == 0x2_0000_0000) by {
                lemma_pow2_unfold(33);
            }
        }
        return true;
    }
    let limit: u64 = power_of_two(modulus_length - 1);
    if e >= limit {
        return false;
    }
    if modulus_length >= 32 {
        return true;
    }
    has_key_pair(modulus_length, e)
}

} // verus!
