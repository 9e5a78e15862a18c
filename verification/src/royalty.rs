//! Royalty terms and the split of a payment between the royalty payee and the
//! seller.

use vstd::prelude::*;
use vstd::arithmetic::div_mod::{lemma_div_is_ordered, lemma_div_multiples_vanish};
use vstd::arithmetic::mul::{lemma_mul_inequality, lemma_mul_is_commutative};

verus! {

/// The atomic units in a share of one: shares have 18 decimal places.
pub const SHARE_ONE: u128 = 1_000_000_000_000_000_000u128;

/// The part of `amount` that a share of `atomics / SHARE_ONE` takes, rounded
/// down.
pub open spec fn share_of(amount: nat, atomics: nat) -> nat {
    amount * atomics / (SHARE_ONE as nat)
}

/// A share of at most one takes at most the whole amount.
pub proof fn lemma_share_of_bounded(amount: nat, atomics: nat)
    requires
        atomics <= SHARE_ONE,
    ensures
        share_of(amount, atomics) <= amount,
{
    let one = SHARE_ONE as int;
    let a = amount as int;
    let s = atomics as int;
    lemma_mul_inequality(s, one, a);
    lemma_mul_is_commutative(s, a);
    lemma_mul_is_commutative(one, a);
    lemma_div_is_ordered(a * s, a * one, one);
    lemma_div_multiples_vanish(a, one);
}

/// A fraction between zero and one, in steps of `1 / SHARE_ONE`.
#[derive(Debug, Clone, Copy, PartialEq, Eq)]
pub struct Share {
    atomics: u128,
}

impl View for Share {
    type V = nat;

    /// The share in atomic units: `SHARE_ONE` of them make one.
    closed spec fn view(&self) -> nat {
        self.atomics as nat
    }
}

impl Share {
    /// Every share is at most one.
    #[verifier::type_invariant]
    pub open spec fn at_most_one(self) -> bool {
        self@ <= SHARE_ONE
    }

    /// The share of `atomics / SHARE_ONE`, if that is at most one.
    pub fn from_atomics(atomics: u128) -> (r: Option<Share>)
        ensures
            atomics <= SHARE_ONE ==> (r matches Some(s) && s@ == atomics),
            atomics > SHARE_ONE ==> r is None,
    {
        if atomics <= SHARE_ONE {
            Some(Share { atomics })
        } else {
            None
        }
    }

    /// The share in atomic units.
    pub fn atomics(&self) -> (a: u128)
        ensures
            a == self@,
            a <= SHARE_ONE,
    {
        proof {
            use_type_invariant(self);
        }
        self.atomics
    }

    /// The part of `amount` that this share takes, rounded down.
    pub fn of(&self, amount: u128) -> (part: u128)
        ensures
            part == share_of(amount as nat, self@),
            part <= amount,
    {
        proof {
            use_type_invariant(self);
            lemma_share_of_bounded(amount as nat, self.atomics as nat);
        }
        uint128_mul_decimal(amount, self.atomics)
    }
}

/// Multiplies through `cosmwasm_std`: `Uint128 * Decimal`, with the decimal
/// given by its atomic units. The product is the exact one, rounded down to a
/// whole number; the call is only made where that fits in `u128`, because
/// `cosmwasm_std` panics where it does not.
#[verifier::external_body]
fn uint128_mul_decimal(amount: u128, atomics: u128) -> (product: u128)
    requires
        share_of(amount as nat, atomics as nat) <= u128::MAX,
    ensures
        product == share_of(amount as nat, atomics as nat),
{
    (cosmwasm_std::Uint128::new(amount) * cosmwasm_std::Decimal::raw(atomics)).u128()
}

/// The royalty terms of a collection: who is paid and which share of the
/// price.
#[derive(Debug, Clone, PartialEq, Eq)]
pub struct RoyaltyInfoResponse {
    pub payment_address: String,
    pub share: Share,
}

pub struct RoyaltyView {
    pub payment_address: Seq<char>,
    /// In atomic units.
    pub share: nat,
}

impl View for RoyaltyInfoResponse {
    type V = RoyaltyView;

    open spec fn view(&self) -> RoyaltyView {
        RoyaltyView { payment_address: self.payment_address@, share: self.share@ }
    }
}

/// The royalty terms of a listing, if it has any.
pub open spec fn royalty_view(royalty: Option<RoyaltyInfoResponse>) -> Option<RoyaltyView> {
    match royalty {
        Some(r) => Some(r@),
        None => None,
    }
}

/// The royalty owed on a payment of `amount`.
pub open spec fn royalty_fee(amount: u128, royalty: Option<RoyaltyView>) -> nat {
    match royalty {
        Some(r) => share_of(amount as nat, r.share),
        None => 0,
    }
}

/// What is left of a payment of `amount` for the seller.
pub open spec fn net_price(amount: u128, royalty: Option<RoyaltyView>) -> int {
    amount - royalty_fee(amount, royalty)
}

} // verus!
