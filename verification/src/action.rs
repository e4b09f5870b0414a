//! Actions: named bundles of one condition, one utility rule and one effect.
//!
//! An action keeps no logic of its own beyond delegation, so availability,
//! scoring and mutation can vary independently. Executing an action whose
//! condition does not hold is not an error at this layer: enforcing "only
//! execute available actions" is the simulation loop's responsibility.

use vstd::prelude::*;

use crate::condition::Condition;
use crate::effect::Effect;
use crate::error::SocialError;
use crate::utility::{Utility, UtilityRule};
use crate::Context;

verus! {

/// An action that can be executed in a social simulation.
pub enum Action {
    /// An action composed of a condition, a utility rule and an effect.
    Simple(SimpleAction),
    /// An always-available action that scores zero and does nothing,
    /// mainly for tests.
    Mock(MockAction),
}

/// A simple implementation of an action: pure composition of one condition
/// (availability gate), one utility rule (desirability score) and one
/// effect (world mutation on execution), under a name.
pub struct SimpleAction {
    pub name: String,
    pub condition: Condition,
    pub utility_rule: UtilityRule,
    pub effect: Effect,
}

/// A mock action for testing: always available, utility zero, no effect.
pub struct MockAction {
    pub name: String,
}

impl Action {
    /// The name of the action.
    pub open spec fn spec_name(self) -> Seq<char> {
        match self {
            Action::Simple(action) => action.name@,
            Action::Mock(action) => action.name@,
        }
    }

    /// Whether the action is available for a given context.
    pub open spec fn spec_available(self, context: Context) -> bool {
        match self {
            Action::Simple(action) => action.condition.eval(context),
            Action::Mock(_) => true,
        }
    }

    /// The mathematical utility of the action for a given context.
    pub open spec fn spec_utility(self, context: Context) -> int {
        match self {
            Action::Simple(action) => action.utility_rule.utility(context),
            Action::Mock(_) => 0,
        }
    }

    /// Whether scoring the action stays within the representable range.
    pub open spec fn utility_in_bounds(self, context: Context) -> bool {
        match self {
            Action::Simple(action) => action.utility_rule.in_bounds(context),
            Action::Mock(_) => true,
        }
    }

    /// The context left behind by executing the action.
    pub open spec fn spec_execute(self, context: Context) -> Context {
        match self {
            Action::Simple(action) => action.effect.apply_spec(context),
            Action::Mock(_) => context,
        }
    }

    /// Gets the name of the action.
    pub fn get_name(&self) -> (result: &str)
        ensures
            result@ == self.spec_name(),
    {
        match self {
            Action::Simple(action) => action.get_name(),
            Action::Mock(action) => action.get_name(),
        }
    }

    /// Can the action be executed with the current context?
    pub fn is_available(&self, context: &Context) -> (result: bool)
        ensures
            result == self.spec_available(*context),
    {
        match self {
            Action::Simple(action) => action.is_available(context),
            Action::Mock(action) => action.is_available(context),
        }
    }

    /// What is the utility of the action with the current context?
    pub fn get_utility(&self, context: &Context) -> (result: Result<Utility, SocialError>)
        ensures
            match result {
                Ok(value) => self.utility_in_bounds(*context) && value as int == self.spec_utility(
                    *context,
                ),
                Err(error) => !self.utility_in_bounds(*context) && error
                    == SocialError::UtilityOverflow,
            },
    {
        match self {
            Action::Simple(action) => action.get_utility(context),
            Action::Mock(action) => action.get_utility(context),
        }
    }

    /// Execute the action and change the current context.
    pub fn execute(&self, context: &mut Context)
        ensures
            *final(context) == self.spec_execute(*old(context)),
    {
        match self {
            Action::Simple(action) => action.execute(context),
            Action::Mock(action) => action.execute(context),
        }
    }
}

impl SimpleAction {
    pub fn new(
        name: String,
        condition: Condition,
        utility_rule: UtilityRule,
        effect: Effect,
    ) -> (result: SimpleAction)
        ensures
            result.name == name,
            result.condition == condition,
            result.utility_rule == utility_rule,
            result.effect == effect,
    {
        SimpleAction { name, condition, utility_rule, effect }
    }

    /// Gets the name of the action.
    pub fn get_name(&self) -> (result: &str)
        ensures
            result@ == self.name@,
    {
        self.name.as_str()
    }

    /// Evaluates the condition to check, if the action is available.
    pub fn is_available(&self, context: &Context) -> (result: bool)
        ensures
            result == self.condition.eval(*context),
    {
        self.condition.evaluate(context)
    }

    /// Uses the utility rule to calculate the action's utility.
    pub fn get_utility(&self, context: &Context) -> (result: Result<Utility, SocialError>)
        ensures
            match result {
                Ok(value) => self.utility_rule.in_bounds(*context) && value as int
                    == self.utility_rule.utility(*context),
                Err(error) => !self.utility_rule.in_bounds(*context) && error
                    == SocialError::UtilityOverflow,
            },
    {
        self.utility_rule.calculate_utility(context)
    }

    /// Applies the effect onto the context to execute the action.
    pub fn execute(&self, context: &mut Context)
        ensures
            *final(context) == self.effect.apply_spec(*old(context)),
    {
        self.effect.apply(context)
    }
}

impl MockAction {
    pub fn new(name: String) -> (result: MockAction)
        ensures
            result.name == name,
    {
        MockAction { name }
    }

    /// Gets the name of the action.
    pub fn get_name(&self) -> (result: &str)
        ensures
            result@ == self.name@,
    {
        self.name.as_str()
    }

    /// Always available.
    pub fn is_available(&self, context: &Context) -> (result: bool)
        ensures
            result == true,
    {
        true
    }

    /// Always scores zero.
    pub fn get_utility(&self, context: &Context) -> (result: Result<Utility, SocialError>)
        ensures
            result == Ok::<Utility, SocialError>(0),
    {
        Ok(0)
    }

    /// Does nothing.
    pub fn execute(&self, context: &mut Context)
        ensures
            *final(context) == *old(context),
    {
    }
}

} // verus!
