//! Effects: mutations of the world context.
//!
//! An effect is a tree built from a closed set of variants; applying one may
//! change the context and returns nothing. Application is total: there are no
//! error conditions, and the additive mock wraps around on overflow.

use vstd::prelude::*;

use crate::Context;

verus! {

/// An effect that can modify the context.
pub enum Effect {
    /// An effect that leaves the context unchanged.
    DoNothing(DoNothing),
    /// An additive effect, mainly for tests.
    Mock(MockEffect),
    /// A sequence of sub-effects, applied in order.
    Vector(EffectVector),
}

/// An effect that does nothing.
pub struct DoNothing;

/// A mock effect for testing: it adds a fixed amount to the context,
/// wrapping around on overflow.
pub struct MockEffect {
    pub value: u32,
}

/// An effect that consists of multiple sub-effects.
pub struct EffectVector {
    pub effects: Vec<Effect>,
}

impl Effect {
    /// The context this effect leaves behind, starting from a given one.
    pub open spec fn apply_spec(self, context: Context) -> Context
        decreases self,
    {
        match self {
            Effect::DoNothing(_) => context,
            Effect::Mock(mock) => vstd::wrapping::u32_specs::wrapping_add(context, mock.value),
            Effect::Vector(vector) => apply_all(vector.effects@, context),
        }
    }

    /// Applies the effect to the context; the new context is exactly what
    /// `apply_spec` denotes.
    pub fn apply(&self, context: &mut Context)
        ensures
            *final(context) == self.apply_spec(*old(context)),
        decreases self,
    {
        match self {
            Effect::DoNothing(nothing) => nothing.apply(context),
            Effect::Mock(mock) => mock.apply(context),
            Effect::Vector(vector) => vector.apply(context),
        }
    }
}

/// The context left behind by applying a sequence of effects in order,
/// left to right; later effects see the mutations made by earlier ones.
pub open spec fn apply_all(effects: Seq<Effect>, context: Context) -> Context
    decreases effects,
{
    if effects.len() == 0 {
        context
    } else {
        apply_all(effects.subrange(1, effects.len() as int), effects[0].apply_spec(context))
    }
}

impl DoNothing {
    /// Does nothing.
    pub fn apply(&self, context: &mut Context)
        ensures
            *final(context) == *old(context),
    {
    }
}

impl MockEffect {
    pub fn new(value: u32) -> (result: MockEffect)
        ensures
            result.value == value,
    {
        MockEffect { value }
    }

    /// Adds the fixed amount to the context, wrapping around on overflow.
    pub fn apply(&self, context: &mut Context)
        ensures
            *final(context) == vstd::wrapping::u32_specs::wrapping_add(*old(context), self.value),
    {
        let current: u32 = *context;
        *context = current.wrapping_add(self.value);
    }
}

impl EffectVector {
    pub fn new(effects: Vec<Effect>) -> (result: EffectVector)
        ensures
            result.effects == effects,
    {
        EffectVector { effects }
    }

    /// Applies the sub-effects in list order, left to right, so that later
    /// effects see the mutations made by earlier ones.
    pub fn apply(&self, context: &mut Context)
        ensures
            *final(context) == apply_all(self.effects@, *old(context)),
        decreases self,
    {
        let count = self.effects.len();
        proof {
            assert(self.effects@.subrange(0, count as int) =~= self.effects@);
        }
        let mut i: usize = 0;
        while i < count
            invariant
                count == self.effects@.len(),
                i <= count,
                apply_all(self.effects@, *old(context)) == apply_all(
                    self.effects@.subrange(i as int, count as int),
                    *context,
                ),
            decreases count - i,
        {
            proof {
                assert(self.effects@.subrange(i as int, count as int).subrange(
                    1,
                    (count - i) as int,
                ) =~= self.effects@.subrange(i as int + 1, count as int));
            }
            self.effects[i].apply(context);
            i += 1;
        }
        proof {
            assert(self.effects@.subrange(count as int, count as int)
                =~= Seq::<Effect>::empty());
        }
    }
}

} // verus!
