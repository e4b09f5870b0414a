use rusted_social_simulation::action::{Action, MockAction, SimpleAction};
use rusted_social_simulation::condition::{Condition, MockCondition};
use rusted_social_simulation::effect::{DoNothing, Effect, MockEffect};
use rusted_social_simulation::utility::{FixedUtility, UtilityRule};

fn simple_action(name: &str, available: bool, utility: i32, added: u32) -> SimpleAction {
    SimpleAction::new(
        name.to_string(),
        Condition::Mock(MockCondition::new(available)),
        UtilityRule::Fixed(FixedUtility::new(utility)),
        Effect::Mock(MockEffect::new(added)),
    )
}

#[test]
fn test_simple_action_get_name() {
    let action = SimpleAction::new(
        "action0".to_string(),
        Condition::Mock(MockCondition::new(true)),
        UtilityRule::Fixed(FixedUtility::new(0)),
        Effect::DoNothing(DoNothing),
    );

    assert_eq!(action.get_name(), "action0");
}

#[test]
fn test_simple_action_is_available() {
    let context: u32 = 42;
    assert!(simple_action("a", true, 0, 0).is_available(&context));
    assert!(!simple_action("a", false, 0, 0).is_available(&context));
}

#[test]
fn test_simple_action_get_utility() {
    let context: u32 = 42;
    let action = simple_action("a", false, 13, 0);

    assert_eq!(action.get_utility(&context), Ok(13));
}

#[test]
fn test_simple_action_execute() {
    let mut context: u32 = 42;
    let action = simple_action("a", false, 0, 3);

    action.execute(&mut context);

    assert_eq!(context, 45);
}

#[test]
fn test_mock_action() {
    let mut context: u32 = 42;
    let action = MockAction::new("action0".to_string());

    assert_eq!(action.get_name(), "action0");
    assert!(action.is_available(&context));
    assert_eq!(action.get_utility(&context), Ok(0));

    action.execute(&mut context);
    assert_eq!(context, 42);
}

#[test]
fn test_action_delegation() {
    let mut context: u32 = 42;
    let action = Action::Simple(simple_action("chosen", true, 7, 8));

    assert_eq!(action.get_name(), "chosen");
    assert!(action.is_available(&context));
    assert_eq!(action.get_utility(&context), Ok(7));

    action.execute(&mut context);
    assert_eq!(context, 50);
}
