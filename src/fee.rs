use vstd::prelude::*;

verus! {

/// Fees are expressed in parts of this denominator.
pub const FEE_DENOMINATOR: u16 = 10000;

/// The fee taken from `amount` at rate `fee_numerator / FEE_DENOMINATOR`, rounded down.
pub open spec fn fee_of(amount: u128, fee_numerator: u16) -> int {
    (amount as int * fee_numerator as int) / (FEE_DENOMINATOR as int)
}

/// Splits `amount` into `(fee, dispense)`: the fee is the exact floor of
/// `amount * fee_numerator / FEE_DENOMINATOR`, the dispense is the rest.
/// The product is never formed, so no amount overflows.
pub fn split_fee(amount: u128, fee_numerator: u16) -> (r: (u128, u128))
    requires
        fee_numerator < FEE_DENOMINATOR,
    ensures
        r.0 == fee_of(amount, fee_numerator),
        r.1 == amount - fee_of(amount, fee_numerator),
        r.0 + r.1 == amount,
{
    let d: u128 = FEE_DENOMINATOR as u128;
    let n: u128 = fee_numerator as u128;
    let q: u128 = amount / d;
    let m: u128 = amount % d;
    proof {
        let a = amount as int;
        let qi = q as int;
        let mi = m as int;
        let ni = n as int;
        assert(a == qi * 10000 + mi && 0 <= mi < 10000) by (nonlinear_arith)
            requires q == amount / 10000, m == amount % 10000, a == amount as int, qi == q as int, mi == m as int;
        assert(qi * ni <= a) by (nonlinear_arith)
            requires a == qi * 10000 + mi, 0 <= mi, 0 <= ni < 10000, qi >= 0;
        assert(mi * ni < 100000000) by (nonlinear_arith)
            requires 0 <= mi < 10000, 0 <= ni < 10000;
        assert((a * ni) / 10000 == qi * ni + (mi * ni) / 10000) by (nonlinear_arith)
            requires a == qi * 10000 + mi, 0 <= mi, 0 <= ni;
        assert((mi * ni) / 10000 <= mi) by (nonlinear_arith)
            requires 0 <= mi < 10000, 0 <= ni < 10000;
        assert(qi * ni + (mi * ni) / 10000 <= a) by (nonlinear_arith)
            requires a == qi * 10000 + mi, 0 <= mi < 10000, 0 <= ni < 10000, qi >= 0,
                (mi * ni) / 10000 <= mi;
    }
    let fee: u128 = q * n + (m * n) / d;
    (fee, amount - fee)
}

} // verus!
