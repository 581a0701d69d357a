//! What holds of affordability and accumulation, whatever the vectors.

use crate::resources::{Amounts, Resources};
use vstd::prelude::*;

verus! {

/// Nothing costs nothing: the empty vector affords the empty cost, and so
/// does every other vector.
pub proof fn lemma_free_is_always_affordable(x: Resources)
    ensures
        Amounts::zero().covers(Amounts::zero()),
        x@.covers(Amounts::zero()),
{
}

/// Adding resources never takes affordability away: a vector that affords a
/// cost still affords it after anything was accumulated into it.
pub proof fn lemma_accumulation_keeps_affordability(a: Resources, b: Resources, c: Resources)
    requires
        a@.covers(b@),
    ensures
        a@.plus(c@).covers(b@),
{
}

/// A cost is out of reach exactly when it asks for more of at least one
/// kind than is available.
pub proof fn lemma_unaffordable_iff_short_of_some_kind(available: Resources, cost: Resources)
    ensures
        !available@.covers(cost@) <==> {
            ||| cost.coins > available.coins
            ||| cost.wood > available.wood
            ||| cost.stone > available.stone
            ||| cost.ore > available.ore
            ||| cost.clay > available.clay
            ||| cost.glass > available.glass
            ||| cost.loom > available.loom
            ||| cost.papyrus > available.papyrus
        },
{
}

/// The order of the two operands does not matter to a sum, nor to whether
/// it can be held.
pub proof fn lemma_plus_is_commutative(a: Resources, b: Resources)
    ensures
        a@.plus(b@) == b@.plus(a@),
        a@.plus(b@).representable() <==> b@.plus(a@).representable(),
{
}

/// The grouping of three operands does not matter to their sum, nor to
/// whether both steps on the way to it can be held.
pub proof fn lemma_plus_is_associative(a: Resources, b: Resources, c: Resources)
    ensures
        a@.plus(b@).plus(c@) == a@.plus(b@.plus(c@)),
        (a@.plus(b@).representable() && a@.plus(b@).plus(c@).representable())
            <==> (b@.plus(c@).representable() && a@.plus(b@.plus(c@)).representable()),
{
}

/// Accumulating the empty vector changes nothing, and can always be done.
pub proof fn lemma_plus_zero_is_identity(a: Resources)
    ensures
        a@.plus(Amounts::zero()) == a@,
        Amounts::zero().plus(a@) == a@,
        a@.plus(Amounts::zero()).representable(),
{
}

/// A sum of coins beyond what a `u32` holds cannot be held, whatever the
/// other kinds are.
pub proof fn lemma_coin_overflow_is_not_representable(a: Resources, b: Resources)
    requires
        a.coins + b.coins > u32::MAX,
    ensures
        !a@.plus(b@).representable(),
{
}

} // verus!
