//! The costs that a key derivation with scrypt asks for.
use vstd::arithmetic::power2::lemma2_to64;
use vstd::arithmetic::power2::lemma_pow2_unfold;
use vstd::arithmetic::power2::pow2;
use vstd::prelude::*;
use crate::keys::types::bit_length;

verus! {

/// What scrypt is asked for where a PKCS#8 document is encrypted with a key from
/// it: its three costs, the length that it says the key has, where it says one,
/// and the length that the cipher needs.
#[derive(Clone, Copy)]
pub struct ScryptCost {
    pub cost: u64,
    pub block_size: u16,
    pub parallelization: u16,
    pub key_length: Option<u16>,
    pub key_size: usize,
}

/// A power of two.
pub open spec fn is_power_of_two(n: nat) -> bool
    decreases n,
{
    n == 1 || (n > 1 && n % 2 == 0 && is_power_of_two(n / 2))
}

impl ScryptCost {
    /// The length of the key is the one that the cipher needs, or is not given.
    pub open spec fn is_matching(self) -> bool {
        self.key_length matches Some(len) ==> len == self.key_size
    }

    /// The bytes of the larger of the tables that scrypt makes for each step.
    pub open spec fn table(self) -> int {
        self.cost * self.block_size * 128
    }

    /// The bytes of the table that scrypt makes for all blocks.
    pub open spec fn blocks(self) -> int {
        self.parallelization * self.block_size * 128
    }

    /// Scrypt takes the costs.
    pub open spec fn is_accepted(self) -> bool {
        &&& is_power_of_two(self.cost as nat)
        &&& self.block_size > 0
        &&& self.parallelization > 0
        &&& bit_length(self.cost as nat) <= self.block_size * 16
        &&& self.block_size * self.parallelization < 0x4000_0000
        &&& self.table() <= usize::MAX
        &&& self.blocks() <= usize::MAX
    }

    /// The key can be derived, or is refused: the cost is not zero, whose
    /// logarithm is asked for, and the tables of costs that are accepted are
    /// no larger than a `Vec` can be.
    pub open spec fn is_derivable(self) -> bool {
        self.is_matching() ==> {
            &&& self.cost != 0
            &&& self.is_accepted() ==> self.table() <= isize::MAX && self.blocks() <= isize::MAX
        }
    }

    /// Whether the cost is a power of two, and how many bits it has.
    fn power_and_bits(&self) -> (r: (bool, u64))
        ensures
            r.0 == is_power_of_two(self.cost as nat),
            r.1 == bit_length(self.cost as nat),
            r.1 <= 64,
    {
        let mut n: u64 = self.cost;
        let mut bits: u64 = 0;
        let mut power: bool = n != 0;
        let ghost mut limit: nat = 64;
        proof {
            lemma2_to64();
        }
        while n != 0
            invariant
                bits + bit_length(n as nat) == bit_length(self.cost as nat),
                n != 0 ==> (is_power_of_two(self.cost as nat) == (power && is_power_of_two(
                    n as nat,
                ))),
                n == 0 ==> power == is_power_of_two(self.cost as nat),
                bits + limit == 64,
                n < pow2(limit),
            decreases n,
        {
            if n > 1 && n % 2 != 0 {
                power = false;
            }
            proof {
                lemma2_to64();
                if limit > 0 {
                    lemma_pow2_unfold(limit);
                    limit = (limit - 1) as nat;
                }
            }
            n = n / 2;
            bits = bits + 1;
        }
        (power, bits)
    }

    /// Whether the key can be derived, or is refused.
    pub fn check_derivable(&self) -> (r: bool)
        ensures
            r == self.is_derivable(),
    {
        if let Some(len) = self.key_length {
            if len as usize != self.key_size {
                return true;
            }
        }
        if self.cost == 0 {
            return false;
        }
        let (power, bits) = self.power_and_bits();
        let cost: u128 = self.cost as u128;
        let block: u128 = self.block_size as u128;
        let lanes: u128 = self.parallelization as u128;
        assert(cost * block <= 0xffff_ffff_ffff_ffff * 0xffff) by (nonlinear_arith)
            requires
                cost <= 0xffff_ffff_ffff_ffff,
                block <= 0xffff,
        ;
        assert(lanes * block <= 0xffff * 0xffff) by (nonlinear_arith)
            requires
                lanes <= 0xffff,
                block <= 0xffff,
        ;
        assert(block * lanes == lanes * block) by (nonlinear_arith);
        let table: u128 = cost * block * 128;
        let blocks: u128 = lanes * block * 128;
        let accepted: bool = power && block > 0 && lanes > 0 && bits as u128 <= block * 16 && block
            * lanes < 0x4000_0000 && table <= usize::MAX as u128 && blocks <= usize::MAX as u128;
        !accepted || (table <= isize::MAX as u128 && blocks <= isize::MAX as u128)
    }
}

} // verus!
