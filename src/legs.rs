//! The legs of a transaction: pairs of an account and a debit or credit.

use crate::account::Number;
use crate::balance::Balance;
use vstd::prelude::*;

verus! {

/// Sum of the debit amounts of the legs.
pub open spec fn debit_total(legs: Seq<(Number, Balance)>) -> nat
    decreases legs.len(),
{
    if legs.len() == 0 {
        0
    } else {
        debit_total(legs.drop_last()) + match legs.last().1 {
            Balance::Debit(t) => t.spec_amount() as nat,
            Balance::Credit(_) => 0nat,
        }
    }
}

/// Sum of the credit amounts of the legs.
pub open spec fn credit_total(legs: Seq<(Number, Balance)>) -> nat
    decreases legs.len(),
{
    if legs.len() == 0 {
        0
    } else {
        credit_total(legs.drop_last()) + match legs.last().1 {
            Balance::Credit(t) => t.spec_amount() as nat,
            Balance::Debit(_) => 0nat,
        }
    }
}

/// The legs balance: debits minus credits is zero.
pub open spec fn is_balanced(legs: Seq<(Number, Balance)>) -> bool {
    debit_total(legs) == credit_total(legs)
}

/// Every leg refers to an account in `open`.
pub open spec fn all_open(legs: Seq<(Number, Balance)>, open: Set<u32>) -> bool {
    forall|i: int| 0 <= i < legs.len() ==> open.contains(#[trigger] legs[i].0.value())
}

/// Whether the debits and the credits of the legs are equal.
pub fn balanced(legs: &[(Number, Balance)]) -> (r: bool)
    ensures
        r == is_balanced(legs@),
{
    let (debit, credit) = totals(legs);
    debit == credit
}

/// The debit and the credit totals of the legs. The sums are taken in 128
/// bits, where they cannot overflow.
pub fn totals(legs: &[(Number, Balance)]) -> (r: (u128, u128))
    ensures
        r.0 == debit_total(legs@),
        r.1 == credit_total(legs@),
{
    let mut debit: u128 = 0;
    let mut credit: u128 = 0;
    let mut i: usize = 0;
    while i < legs.len()
        invariant
            i <= legs@.len(),
            debit == debit_total(legs@.subrange(0, i as int)),
            credit == credit_total(legs@.subrange(0, i as int)),
            debit <= i * 0xffff_ffff,
            credit <= i * 0xffff_ffff,
        decreases legs@.len() - i,
    {
        assert(legs@.subrange(0, i + 1).drop_last() =~= legs@.subrange(0, i as int));
        assert((i + 1) * 0xffff_ffff <= 0x1_0000_0000_0000_0000 * 0xffff_ffff) by (nonlinear_arith)
            requires
                i < 0x1_0000_0000_0000_0000,
        ;
        match legs[i].1 {
            Balance::Debit(t) => {
                debit = debit + t.amount() as u128;
            },
            Balance::Credit(t) => {
                credit = credit + t.amount() as u128;
            },
        }
        i = i + 1;
    }
    assert(legs@.subrange(0, i as int) =~= legs@);
    (debit, credit)
}

} // verus!
