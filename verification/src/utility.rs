//! Utility rules: pure integer scorers over the world context.
//!
//! A utility rule is a tree built from a closed set of variants. Scoring is
//! pure and never changes the context; a sum that would leave the signed
//! 32-bit range is reported as an overflow error rather than wrapped.

use vstd::prelude::*;

use crate::condition::Condition;
use crate::error::SocialError;
use crate::Context;

verus! {

/// The signed whole-number scale on which desirability is scored.
pub type Utility = i32;

/// A utility rule can be used to calculate the utility of something
/// (e.g. an action) for a given context.
pub enum UtilityRule {
    /// A fixed utility.
    Fixed(FixedUtility),
    /// A fixed utility gated behind a condition, zero otherwise.
    Conditional(ConditionalUtility),
    /// The sum of several sub-rules.
    Total(TotalUtility),
    /// The maximum of several sub-rules.
    Max(MaxUtility),
}

/// An utility rule that has a fixed utility.
pub struct FixedUtility {
    pub utility: Utility,
}

/// An utility rule with an utility based on a condition: the fixed value if
/// the condition holds, and zero otherwise.
pub struct ConditionalUtility {
    pub condition: Box<Condition>,
    pub utility: Utility,
}

/// The sum of multiple utility rules.
pub struct TotalUtility {
    pub rules: Vec<UtilityRule>,
}

/// The maximum of multiple utility rules.
pub struct MaxUtility {
    pub rules: Vec<UtilityRule>,
}

impl UtilityRule {
    /// The mathematical utility this rule denotes for a given context,
    /// free of any machine range limits.
    pub open spec fn utility(self, context: Context) -> int
        decreases self,
    {
        match self {
            UtilityRule::Fixed(fixed) => fixed.utility as int,
            UtilityRule::Conditional(conditional) => if (*conditional.condition).eval(context) {
                conditional.utility as int
            } else {
                0
            },
            UtilityRule::Total(total) => sum_utilities(total.rules@, context),
            UtilityRule::Max(max) => max_utilities(max.rules@, context),
        }
    }

    /// Whether calculating this rule stays within the representable range at
    /// every step: every sub-rule does, and for a sum every partial sum,
    /// taken left to right, fits the utility type.
    pub open spec fn in_bounds(self, context: Context) -> bool
        decreases self,
    {
        match self {
            UtilityRule::Fixed(_) => true,
            UtilityRule::Conditional(_) => true,
            UtilityRule::Total(total) => total_in_bounds(total.rules@, 0, context),
            UtilityRule::Max(max) => all_in_bounds(max.rules@, context),
        }
    }

    /// Calculates the utility of this rule: exactly the value that `utility`
    /// denotes when the computation stays in range, and an overflow error
    /// exactly when it does not.
    pub fn calculate_utility(&self, context: &Context) -> (result: Result<Utility, SocialError>)
        ensures
            match result {
                Ok(value) => self.in_bounds(*context) && value as int == self.utility(*context),
                Err(error) => !self.in_bounds(*context) && error == SocialError::UtilityOverflow,
            },
        decreases self,
    {
        match self {
            UtilityRule::Fixed(fixed) => fixed.calculate_utility(context),
            UtilityRule::Conditional(conditional) => conditional.calculate_utility(context),
            UtilityRule::Total(total) => total.calculate_utility(context),
            UtilityRule::Max(max) => max.calculate_utility(context),
        }
    }
}

/// The mathematical sum of the utilities of a sequence of rules;
/// zero for the empty sequence.
pub open spec fn sum_utilities(rules: Seq<UtilityRule>, context: Context) -> int
    decreases rules,
{
    if rules.len() == 0 {
        0
    } else {
        rules[0].utility(context) + sum_utilities(rules.subrange(1, rules.len() as int), context)
    }
}

/// The mathematical maximum of the utilities of a sequence of rules, folded
/// from the right; zero for the empty sequence by definition, not as a
/// clamp — a negative maximum stays negative.
pub open spec fn max_utilities(rules: Seq<UtilityRule>, context: Context) -> int
    decreases rules,
{
    if rules.len() == 0 {
        0
    } else if rules.len() == 1 {
        rules[0].utility(context)
    } else {
        let prior: int = max_utilities(rules.subrange(0, rules.len() - 1), context);
        let last: int = rules[rules.len() - 1].utility(context);
        if last >= prior {
            last
        } else {
            prior
        }
    }
}

/// Whether summing a sequence of rules on top of a running total stays in
/// range: each rule does, and each partial sum, taken left to right, fits
/// the utility type.
pub open spec fn total_in_bounds(rules: Seq<UtilityRule>, acc: int, context: Context) -> bool
    decreases rules,
{
    if rules.len() == 0 {
        true
    } else {
        let next: int = acc + rules[0].utility(context);
        rules[0].in_bounds(context) && i32::MIN <= next <= i32::MAX && total_in_bounds(
            rules.subrange(1, rules.len() as int),
            next,
            context,
        )
    }
}

/// Whether every rule of a sequence stays in range by itself.
pub open spec fn all_in_bounds(rules: Seq<UtilityRule>, context: Context) -> bool
    decreases rules,
{
    rules.len() == 0 || (rules[0].in_bounds(context) && all_in_bounds(
        rules.subrange(1, rules.len() as int),
        context,
    ))
}

/// A sequence of rules stays in range exactly when each element does.
pub proof fn lemma_all_in_bounds_is_forall(rules: Seq<UtilityRule>, context: Context)
    ensures
        all_in_bounds(rules, context) <==> (forall|i: int|
            0 <= i < rules.len() ==> rules[i].in_bounds(context)),
    decreases rules,
{
    if rules.len() > 0 {
        lemma_all_in_bounds_is_forall(rules.subrange(1, rules.len() as int), context);
        assert forall|i: int| 1 <= i < rules.len() implies rules.subrange(
            1,
            rules.len() as int,
        )[i - 1] == rules[i] by {}
    }
}

impl FixedUtility {
    pub fn new(utility: Utility) -> (result: FixedUtility)
        ensures
            result.utility == utility,
    {
        FixedUtility { utility }
    }

    /// Always returns the fixed utility.
    pub fn calculate_utility(&self, context: &Context) -> (result: Result<Utility, SocialError>)
        ensures
            result == Ok::<Utility, SocialError>(self.utility),
    {
        Ok(self.utility)
    }
}

impl ConditionalUtility {
    pub fn new(condition: Box<Condition>, utility: Utility) -> (result: ConditionalUtility)
        ensures
            result.condition == condition,
            result.utility == utility,
    {
        ConditionalUtility { condition, utility }
    }

    /// Returns the fixed utility if the condition holds for the context,
    /// and zero otherwise; the fallback is hard-coded to zero.
    pub fn calculate_utility(&self, context: &Context) -> (result: Result<Utility, SocialError>)
        ensures
            (result matches Ok(value) && value as int == (if (*self.condition).eval(*context) {
                self.utility as int
            } else {
                0
            })),
    {
        if self.condition.evaluate(context) {
            Ok(self.utility)
        } else {
            Ok(0)
        }
    }
}

impl TotalUtility {
    pub fn new(rules: Vec<UtilityRule>) -> (result: TotalUtility)
        ensures
            result.rules == rules,
    {
        TotalUtility { rules }
    }

    /// Returns the sum of the sub-rules' utilities, zero for an empty child
    /// list, and an overflow error exactly when a sub-rule overflows or some
    /// partial sum, taken left to right, leaves the utility range.
    pub fn calculate_utility(&self, context: &Context) -> (result: Result<Utility, SocialError>)
        ensures
            match result {
                Ok(value) => total_in_bounds(self.rules@, 0, *context) && value as int
                    == sum_utilities(self.rules@, *context),
                Err(error) => !total_in_bounds(self.rules@, 0, *context) && error
                    == SocialError::UtilityOverflow,
            },
        decreases self,
    {
        let count = self.rules.len();
        proof {
            assert(self.rules@.subrange(0, count as int) =~= self.rules@);
        }
        let mut acc: Utility = 0;
        let mut i: usize = 0;
        while i < count
            invariant
                count == self.rules@.len(),
                i <= count,
                total_in_bounds(self.rules@, 0, *context) == total_in_bounds(
                    self.rules@.subrange(i as int, count as int),
                    acc as int,
                    *context,
                ),
                sum_utilities(self.rules@, *context) == acc + sum_utilities(
                    self.rules@.subrange(i as int, count as int),
                    *context,
                ),
            decreases count - i,
        {
            proof {
                assert(self.rules@.subrange(i as int, count as int).subrange(
                    1,
                    (count - i) as int,
                ) =~= self.rules@.subrange(i as int + 1, count as int));
            }
            let value = match self.rules[i].calculate_utility(context) {
                Ok(value) => value,
                Err(error) => {
                    return Err(error);
                },
            };
            acc = match acc.checked_add(value) {
                Some(next) => next,
                None => {
                    return Err(SocialError::UtilityOverflow);
                },
            };
            i += 1;
        }
        proof {
            assert(self.rules@.subrange(count as int, count as int)
                =~= Seq::<UtilityRule>::empty());
        }
        Ok(acc)
    }
}

impl MaxUtility {
    pub fn new(rules: Vec<UtilityRule>) -> (result: MaxUtility)
        ensures
            result.rules == rules,
    {
        MaxUtility { rules }
    }

    /// Returns the maximum of the sub-rules' utilities, and zero — not an
    /// error — for an empty child list; callers that must tell "no rules
    /// configured" from "utility is zero" check the child list themselves.
    /// Overflow of a sub-rule is propagated; taking the maximum itself
    /// cannot overflow.
    pub fn calculate_utility(&self, context: &Context) -> (result: Result<Utility, SocialError>)
        ensures
            match result {
                Ok(value) => all_in_bounds(self.rules@, *context) && value as int
                    == max_utilities(self.rules@, *context),
                Err(error) => !all_in_bounds(self.rules@, *context) && error
                    == SocialError::UtilityOverflow,
            },
        decreases self,
    {
        proof {
            lemma_all_in_bounds_is_forall(self.rules@, *context);
        }
        let count = self.rules.len();
        if count == 0 {
            return Ok(0);
        }
        let mut best: Utility = match self.rules[0].calculate_utility(context) {
            Ok(value) => value,
            Err(error) => {
                return Err(error);
            },
        };
        let mut i: usize = 1;
        while i < count
            invariant
                count == self.rules@.len(),
                1 <= i <= count,
                forall|j: int| 0 <= j < i ==> self.rules@[j].in_bounds(*context),
                best as int == max_utilities(self.rules@.subrange(0, i as int), *context),
                all_in_bounds(self.rules@, *context) <==> (forall|j: int|
                    0 <= j < count ==> self.rules@[j].in_bounds(*context)),
            decreases count - i,
        {
            let value = match self.rules[i].calculate_utility(context) {
                Ok(value) => value,
                Err(error) => {
                    return Err(error);
                },
            };
            proof {
                assert(self.rules@.subrange(0, i as int + 1).subrange(0, i as int)
                    =~= self.rules@.subrange(0, i as int));
            }
            if value > best {
                best = value;
            }
            i += 1;
        }
        proof {
            assert(self.rules@.subrange(0, count as int) =~= self.rules@);
        }
        Ok(best)
    }
}

} // verus!
