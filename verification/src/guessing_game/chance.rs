use vstd::prelude::*;

verus! {

/// The number that a raw draw selects between `low` inclusive and `high`
/// exclusive.
pub open spec fn hidden_for(low: nat, high: nat, draw: nat) -> nat
    recommends
        low < high,
{
    ((draw as int) % (high - low) + low) as nat
}

/// `rand::random::<u32>`: a number from the thread-local generator. Any
/// `u32` may come back, so nothing is claimed about it.
#[verifier::external_body]
pub(crate) fn random_u32() -> u32 {
    rand::random::<u32>()
}

/// Folds a raw draw into the half-open range from `low` to `high`.
pub fn pick(low: u32, high: u32, draw: u32) -> (hidden: u32)
    requires
        low < high,
    ensures
        hidden == hidden_for(low as nat, high as nat, draw as nat),
        low <= hidden < high,
{
    (draw % (high - low)) + low
}

} // verus!
