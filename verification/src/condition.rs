//! Conditions: pure predicates over the world context.
//!
//! A condition is a tree built from a closed set of variants; each composite
//! owns its children outright, so the tree is acyclic and trivially droppable.
//! Evaluation is total: it never fails and never changes the context.

use vstd::prelude::*;

use crate::Context;

verus! {

/// A condition that can evaluate to true or false given a context.
pub enum Condition {
    /// Always true.
    True,
    /// Always false.
    False,
    /// A fixed-value condition, mainly for tests.
    Mock(MockCondition),
    /// The negation of a sub-condition.
    Not(NotCondition),
    /// True exactly when every sub-condition is true.
    And(AndCondition),
    /// True exactly when some sub-condition is true.
    Or(OrCondition),
}

/// A condition that always evaluates to a fixed value.
pub struct MockCondition {
    pub value: bool,
}

/// A condition that negates the evaluation of another condition.
pub struct NotCondition {
    pub condition: Box<Condition>,
}

/// A condition that evaluates to true, if all sub-conditions are true.
pub struct AndCondition {
    pub conditions: Vec<Condition>,
}

/// A condition that evaluates to true, if any sub-condition is true.
pub struct OrCondition {
    pub conditions: Vec<Condition>,
}

impl Condition {
    /// The truth value this condition denotes for a given context.
    pub open spec fn eval(self, context: Context) -> bool
        decreases self,
    {
        match self {
            Condition::True => true,
            Condition::False => false,
            Condition::Mock(mock) => mock.value,
            Condition::Not(not) => !(*not.condition).eval(context),
            Condition::And(and) => all_eval(and.conditions@, context),
            Condition::Or(or) => any_eval(or.conditions@, context),
        }
    }

    /// Evaluates the condition; the result is exactly what `eval` denotes.
    pub fn evaluate(&self, context: &Context) -> (result: bool)
        ensures
            result == self.eval(*context),
        decreases self,
    {
        match self {
            Condition::True => true,
            Condition::False => false,
            Condition::Mock(mock) => mock.evaluate(context),
            Condition::Not(not) => not.evaluate(context),
            Condition::And(and) => and.evaluate(context),
            Condition::Or(or) => or.evaluate(context),
        }
    }
}

/// The conjunction of the evaluations of a sequence of conditions;
/// true for the empty sequence.
pub open spec fn all_eval(conditions: Seq<Condition>, context: Context) -> bool
    decreases conditions,
{
    if conditions.len() == 0 {
        true
    } else {
        conditions[0].eval(context) && all_eval(
            conditions.subrange(1, conditions.len() as int),
            context,
        )
    }
}

/// The disjunction of the evaluations of a sequence of conditions;
/// false for the empty sequence.
pub open spec fn any_eval(conditions: Seq<Condition>, context: Context) -> bool
    decreases conditions,
{
    if conditions.len() == 0 {
        false
    } else {
        conditions[0].eval(context) || any_eval(
            conditions.subrange(1, conditions.len() as int),
            context,
        )
    }
}

/// Law: a conjunction holds exactly when every element evaluates to true,
/// so it is vacuously true for the empty sequence.
pub proof fn lemma_all_eval_is_forall(conditions: Seq<Condition>, context: Context)
    ensures
        all_eval(conditions, context) <==> (forall|i: int|
            0 <= i < conditions.len() ==> conditions[i].eval(context)),
    decreases conditions,
{
    if conditions.len() > 0 {
        lemma_all_eval_is_forall(conditions.subrange(1, conditions.len() as int), context);
        assert forall|i: int| 1 <= i < conditions.len() implies conditions.subrange(
            1,
            conditions.len() as int,
        )[i - 1] == conditions[i] by {}
    }
}

/// Law: a disjunction holds exactly when some element evaluates to true,
/// so it is false for the empty sequence.
pub proof fn lemma_any_eval_is_exists(conditions: Seq<Condition>, context: Context)
    ensures
        any_eval(conditions, context) <==> (exists|i: int|
            0 <= i < conditions.len() && conditions[i].eval(context)),
    decreases conditions,
{
    if conditions.len() > 0 {
        lemma_any_eval_is_exists(conditions.subrange(1, conditions.len() as int), context);
        assert forall|i: int| 1 <= i < conditions.len() implies conditions.subrange(
            1,
            conditions.len() as int,
        )[i - 1] == conditions[i] by {}
    }
}

/// Law: an `And` condition evaluates to the logical AND of all its children,
/// and to true when it has no children.
pub proof fn lemma_and_is_conjunction(and: AndCondition, context: Context)
    ensures
        Condition::And(and).eval(context) <==> (forall|i: int|
            0 <= i < and.conditions@.len() ==> and.conditions@[i].eval(context)),
{
    lemma_all_eval_is_forall(and.conditions@, context);
}

/// Law: an `Or` condition evaluates to the logical OR of all its children,
/// and to false when it has no children.
pub proof fn lemma_or_is_disjunction(or: OrCondition, context: Context)
    ensures
        Condition::Or(or).eval(context) <==> (exists|i: int|
            0 <= i < or.conditions@.len() && or.conditions@[i].eval(context)),
{
    lemma_any_eval_is_exists(or.conditions@, context);
}

/// Law: double negation — `Not(Not(c))` evaluates identically to `c`,
/// for any context.
pub proof fn lemma_double_negation(outer: NotCondition, inner: NotCondition, context: Context)
    requires
        *outer.condition == Condition::Not(inner),
    ensures
        Condition::Not(outer).eval(context) == (*inner.condition).eval(context),
{
    assert(Condition::Not(outer).eval(context) == !(*outer.condition).eval(context));
    assert((*outer.condition).eval(context) == !(*inner.condition).eval(context));
}

impl MockCondition {
    pub fn new(value: bool) -> (result: MockCondition)
        ensures
            result.value == value,
    {
        MockCondition { value }
    }

    /// Always returns the fixed value.
    pub fn evaluate(&self, context: &Context) -> (result: bool)
        ensures
            result == self.value,
    {
        self.value
    }
}

impl NotCondition {
    pub fn new(condition: Box<Condition>) -> (result: NotCondition)
        ensures
            result.condition == condition,
    {
        NotCondition { condition }
    }

    /// Returns the negated evaluation of the sub-condition.
    pub fn evaluate(&self, context: &Context) -> (result: bool)
        ensures
            result == !(*self.condition).eval(*context),
        decreases self,
    {
        !self.condition.evaluate(context)
    }
}

impl AndCondition {
    pub fn new(conditions: Vec<Condition>) -> (result: AndCondition)
        ensures
            result.conditions == conditions,
    {
        AndCondition { conditions }
    }

    /// Returns true, if all sub-conditions are true; short-circuits on the
    /// first false one. True for an empty child list.
    pub fn evaluate(&self, context: &Context) -> (result: bool)
        ensures
            result == all_eval(self.conditions@, *context),
        decreases self,
    {
        proof {
            lemma_all_eval_is_forall(self.conditions@, *context);
        }
        let count = self.conditions.len();
        let mut i: usize = 0;
        while i < count
            invariant
                count == self.conditions@.len(),
                i <= count,
                forall|j: int| 0 <= j < i ==> self.conditions@[j].eval(*context),
                all_eval(self.conditions@, *context) <==> (forall|j: int|
                    0 <= j < count ==> self.conditions@[j].eval(*context)),
            decreases count - i,
        {
            if !self.conditions[i].evaluate(context) {
                return false;
            }
            i += 1;
        }
        true
    }
}

impl OrCondition {
    pub fn new(conditions: Vec<Condition>) -> (result: OrCondition)
        ensures
            result.conditions == conditions,
    {
        OrCondition { conditions }
    }

    /// Returns true, if any sub-condition is true; short-circuits on the
    /// first true one. False for an empty child list.
    pub fn evaluate(&self, context: &Context) -> (result: bool)
        ensures
            result == any_eval(self.conditions@, *context),
        decreases self,
    {
        proof {
            lemma_any_eval_is_exists(self.conditions@, *context);
        }
        let count = self.conditions.len();
        let mut i: usize = 0;
        while i < count
            invariant
                count == self.conditions@.len(),
                i <= count,
                forall|j: int| 0 <= j < i ==> !self.conditions@[j].eval(*context),
                any_eval(self.conditions@, *context) <==> (exists|j: int|
                    0 <= j < count && self.conditions@[j].eval(*context)),
            decreases count - i,
        {
            if self.conditions[i].evaluate(context) {
                return true;
            }
            i += 1;
        }
        false
    }
}

} // verus!
