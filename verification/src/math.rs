//! Powers of ten and the change of a fixed-point quantity from one exponent
//! to another, on integers that may not overflow.

use vstd::prelude::*;

verus! {

/// Ten to the power of `e`.
pub open spec fn pow10(e: nat) -> nat
    decreases e,
{
    if e == 0 {
        1
    } else {
        10 * pow10((e - 1) as nat)
    }
}

/// A power of ten is at least one, and a larger exponent gives no smaller
/// power.
pub proof fn lemma_pow10_monotonic(a: nat, b: nat)
    requires
        a <= b,
    ensures
        1 <= pow10(a) <= pow10(b),
    decreases b,
{
    if b == 0 {
    } else if a == b {
        lemma_pow10_monotonic((a - 1) as nat, (b - 1) as nat);
    } else {
        lemma_pow10_monotonic(a, (b - 1) as nat);
    }
}

/// `value`, counted in units of ten to the minus `from_exp`, counted instead
/// in units of ten to the minus `to_exp`. Towards a smaller exponent the
/// result is rounded down.
pub open spec fn rescaled(value: nat, from_exp: nat, to_exp: nat) -> nat {
    if to_exp >= from_exp {
        value * pow10((to_exp - from_exp) as nat)
    } else {
        value / pow10((from_exp - to_exp) as nat)
    }
}

/// Ten to the power of `e`, or `None` where that is more than a `u128` holds.
pub fn checked_pow10(e: u128) -> (r: Option<u128>)
    ensures
        r == (if pow10(e as nat) <= u128::MAX {
            Some(pow10(e as nat) as u128)
        } else {
            None
        }),
{
    let mut acc: u128 = 1;
    let mut i: u128 = 0;
    while i < e
        invariant
            i <= e,
            acc == pow10(i as nat),
        decreases e - i,
    {
        if acc > u128::MAX / 10 {
            proof {
                lemma_pow10_monotonic((i + 1) as nat, e as nat);
            }
            return None;
        }
        acc = acc * 10;
        i = i + 1;
    }
    Some(acc)
}

/// `value` moved from exponent `from_exp` to exponent `to_exp`, or `None`
/// where the result is more than a `u128` holds.
pub fn checked_rescale(value: u128, from_exp: u128, to_exp: u128) -> (r: Option<u128>)
    ensures
        r == (if rescaled(value as nat, from_exp as nat, to_exp as nat) <= u128::MAX {
            Some(rescaled(value as nat, from_exp as nat, to_exp as nat) as u128)
        } else {
            None
        }),
{
    if to_exp >= from_exp {
        if value == 0 {
            assert(0 * pow10((to_exp - from_exp) as nat) == 0);
            return Some(0);
        }
        match checked_pow10(to_exp - from_exp) {
            Some(p) => value.checked_mul(p),
            None => {
                assert(value * pow10((to_exp - from_exp) as nat) > u128::MAX) by (nonlinear_arith)
                    requires
                        value >= 1,
                        pow10((to_exp - from_exp) as nat) > u128::MAX,
                ;
                None
            },
        }
    } else {
        proof {
            lemma_pow10_monotonic(0, (from_exp - to_exp) as nat);
        }
        match checked_pow10(from_exp - to_exp) {
            Some(p) => {
                assert(value as nat / p as nat <= value) by (nonlinear_arith)
                    requires
                        p >= 1,
                ;
                Some(value / p)
            },
            None => {
                assert(value as nat / pow10((from_exp - to_exp) as nat) == 0) by (nonlinear_arith)
                    requires
                        value < pow10((from_exp - to_exp) as nat),
                ;
                Some(0)
            },
        }
    }
}

} // verus!
