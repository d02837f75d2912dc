//! The miner-facing threshold: the largest digest value that satisfies a
//! given difficulty. A candidate seal wins when `pow_hash <= target`.

use crate::u256::{pow2_256, U256};
use vstd::arithmetic::div_mod::lemma_fundamental_div_mod_converse;
use vstd::arithmetic::power2::{
    lemma2_to64, lemma_pow2_adds, lemma_pow2_strictly_increases, lemma_pow2_unfold, pow2,
};
use vstd::prelude::*;

verus! {

/// The threshold for `difficulty`: the largest 256-bit value at or below
/// `(2^256 - 1) / difficulty`, by restoring binary long division of the
/// all-ones dividend. Zero difficulty has no threshold.
#[verifier::rlimit(100)]
pub fn target_for(difficulty: &U256) -> (r: Option<U256>)
    ensures
        (r is Some) == (difficulty.val() > 0),
        (r matches Some(t) ==> t.val() == (pow2_256() - 1) / (difficulty.val() as int)),
{
    if difficulty.is_zero() {
        return None;
    }
    let mut quotient = U256::zero();
    let mut rem = U256::zero();
    let mut j: usize = 0;
    proof {
        lemma2_to64();
        assert(pow2(64) == 0x10000000000000000);
        lemma_pow2_adds(64, 64);
        assert(pow2(128) == 0x100000000000000000000000000000000);
        lemma_pow2_adds(128, 128);
        assert(pow2(256) == pow2_256());
    }
    while j < 256
        invariant
            0 < difficulty.val(),
            j <= 256,
            rem.val() < difficulty.val(),
            pow2(j as nat) - 1 == quotient.val() * difficulty.val() + rem.val(),
            pow2(256) == pow2_256(),
        decreases 256 - j,
    {
        let ghost old_q = quotient.val();
        let ghost old_rem = rem.val();
        let ghost d = difficulty.val();
        proof {
            lemma_pow2_unfold(256);
            lemma_pow2_unfold((j + 1) as nat);
            if j < 255 {
                lemma_pow2_strictly_increases(j as nat, 255);
            }
            assert(old_q <= old_q * d) by (nonlinear_arith)
                requires
                    d >= 1,
                    old_q >= 0,
            ;
            crate::u256::lemma_u256_val_bound(*difficulty);
            crate::u256::lemma_u256_val_bound(rem);
            assert(2 * old_q < pow2_256());
        }
        let (rem2, rem_carry) = rem.shl1();
        let (q2, q_carry) = quotient.shl1();
        proof {
            assert(!q_carry);
            assert(q2.val() == 2 * old_q);
            crate::u256::lemma_u256_val_bound(rem2);
            assert(rem2.val() + 1 < pow2_256());
        }
        // The next dividend bit is always one: the dividend is all ones.
        let cur_low = rem2.add(&U256::from_u64(1));
        if rem_carry {
            // cur is 2 * old_rem + 1, at least 2^256, so above the divisor:
            // subtract it, the quotient bit is one.
            let (diff, borrow) = cur_low.sub_borrow(difficulty);
            proof {
                assert(borrow);
                assert(diff.val() == 2 * old_rem + 1 - d);
            }
            rem = diff;
            quotient = q2.add(&U256::from_u64(1));
            proof {
                assert((2 * old_q + 1) * d == 2 * (old_q * d) + d) by (nonlinear_arith);
            }
        } else {
            let (diff, borrow) = cur_low.sub_borrow(difficulty);
            if !borrow {
                // The divisor fits once more: quotient bit one.
                rem = diff;
                quotient = q2.add(&U256::from_u64(1));
                proof {
                    assert((2 * old_q + 1) * d == 2 * (old_q * d) + d) by (nonlinear_arith);
                }
            } else {
                // The divisor does not fit: quotient bit zero.
                rem = cur_low;
                quotient = q2;
                proof {
                    assert((2 * old_q) * d == 2 * (old_q * d)) by (nonlinear_arith);
                }
            }
        }
        j = j + 1;
        proof {
            assert(pow2(j as nat) - 1 == quotient.val() * d + rem.val());
        }
    }
    proof {
        lemma_fundamental_div_mod_converse(
            (pow2_256() - 1) as int,
            difficulty.val() as int,
            quotient.val() as int,
            rem.val() as int,
        );
    }
    Some(quotient)
}

} // verus!
