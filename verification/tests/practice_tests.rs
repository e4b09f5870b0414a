use rusted_social_simulation::action::{Action, SimpleAction};
use rusted_social_simulation::condition::{Condition, MockCondition};
use rusted_social_simulation::effect::{Effect, MockEffect};
use rusted_social_simulation::error::SocialError;
use rusted_social_simulation::practice::{
    create_test_practice, create_test_template, Practice, PracticeTemplate, SimplePractice,
    SimplePracticeTemplate,
};
use rusted_social_simulation::role::Role;
use rusted_social_simulation::utility::{FixedUtility, UtilityRule};

#[test]
fn test_template_get_actions_for_passive_role() {
    let listener = Role::Character { id: 1 };
    let template = create_test_template();

    assert!(template.get_actions(listener).is_empty());
}

#[test]
fn test_template_get_actions_for_unknown_role() {
    let unknown_role = Role::Character { id: 99 };
    let template = create_test_template();

    assert!(template.get_actions(unknown_role).is_empty());
}

#[test]
fn test_template_get_actions_preserves_order() {
    let speaker = Role::Character { id: 0 };
    let template = create_test_template();

    let actions = template.get_actions(speaker);

    assert_eq!(actions.len(), 2);
    assert_eq!(actions[0].get_name(), "action0");
    assert_eq!(actions[1].get_name(), "action1");
}

#[test]
fn test_template_accessors() {
    let template = create_test_template();

    assert_eq!(template.get_id(), 42);
    assert_eq!(template.get_name(), "template0");
}

#[test]
fn test_template_get_roles() {
    let speaker = Role::Character { id: 0 };
    let listener = Role::Character { id: 1 };
    let template = create_test_template();

    let roles = template.get_roles();

    assert_eq!(roles.len(), 2);
    assert!(roles.contains(&speaker));
    assert!(roles.contains(&listener));
}

#[test]
fn test_template_get_role_name() {
    let speaker = Role::Character { id: 0 };
    let template = create_test_template();

    assert_eq!(template.get_role_name(speaker).unwrap().as_str(), "Speaker");
}

#[test]
fn test_template_get_role_name_for_unknown_role() {
    let unknown_role = Role::Character { id: 99 };
    let template = create_test_template();

    assert_eq!(
        template.get_role_name(unknown_role),
        Err(SocialError::RoleNotFound { role: unknown_role })
    );
}

#[test]
fn test_practice_get_role() {
    let template = create_test_template();
    let practice = create_test_practice(&template);

    assert_eq!(practice.get_role(10), Ok(Role::Character { id: 0 }));
    assert_eq!(practice.get_role(11), Ok(Role::Character { id: 1 }));
}

#[test]
fn test_practice_get_role_for_unknown_entity() {
    let template = create_test_template();
    let practice = create_test_practice(&template);

    assert_eq!(
        practice.get_role(99),
        Err(SocialError::EntityNotFound { entity: 99 })
    );
}

#[test]
fn test_practice_get_actions() {
    let template = create_test_template();
    let practice = create_test_practice(&template);

    let actions = practice.get_actions(10).unwrap();

    assert_eq!(actions.len(), 2);
    assert_eq!(actions[0].get_name(), "action0");
    assert_eq!(actions[1].get_name(), "action1");
}

#[test]
fn test_practice_get_actions_for_passive_entity() {
    let template = create_test_template();
    let practice = create_test_practice(&template);

    assert!(practice.get_actions(11).unwrap().is_empty());
}

#[test]
fn test_practice_get_actions_for_unknown_entity() {
    let template = create_test_template();
    let practice = create_test_practice(&template);

    match practice.get_actions(99) {
        Ok(_) => panic!("an unbound entity must be reported as not found"),
        Err(error) => assert_eq!(error, SocialError::EntityNotFound { entity: 99 }),
    }
}

#[test]
fn test_practice_accessors() {
    let template = create_test_template();
    let practice = create_test_practice(&template);

    assert_eq!(practice.get_id(), 5);
    assert_eq!(practice.get_template().get_name(), "template0");
}

#[test]
fn test_simulation_flow_ranks_and_executes() {
    let hero = Role::Character { id: 0 };

    let greet = Action::Simple(SimpleAction::new(
        "greet".to_string(),
        Condition::Mock(MockCondition::new(true)),
        UtilityRule::Fixed(FixedUtility::new(3)),
        Effect::Mock(MockEffect::new(1)),
    ));
    let trade = Action::Simple(SimpleAction::new(
        "trade".to_string(),
        Condition::Mock(MockCondition::new(true)),
        UtilityRule::Fixed(FixedUtility::new(9)),
        Effect::Mock(MockEffect::new(100)),
    ));
    let steal = Action::Simple(SimpleAction::new(
        "steal".to_string(),
        Condition::Mock(MockCondition::new(false)),
        UtilityRule::Fixed(FixedUtility::new(50)),
        Effect::Mock(MockEffect::new(1000)),
    ));

    let role_names: Vec<(Role, String)> = vec![(hero, "Hero".to_string())];
    let actions: Vec<(Role, Vec<Action>)> = vec![(hero, vec![greet, trade, steal])];
    let template = SimplePracticeTemplate::new(1, "market".to_string(), role_names, actions);

    let practice = SimplePractice::new(2, vec![(hero, 77)], &template);

    let mut context: u32 = 42;
    let mut best_utility: i32 = i32::MIN;
    let mut best: Option<&Action> = None;
    for action in practice.get_actions(77).unwrap() {
        if action.is_available(&context) {
            let utility: i32 = action.get_utility(&context).unwrap();
            if utility > best_utility {
                best_utility = utility;
                best = Some(action);
            }
        }
    }

    let chosen = best.unwrap();
    assert_eq!(chosen.get_name(), "trade");
    chosen.execute(&mut context);
    assert_eq!(context, 142);
}

#[test]
fn test_first_binding_wins_on_duplicate_entity() {
    let template = create_test_template();
    let speaker = Role::Character { id: 0 };
    let listener = Role::Character { id: 1 };
    let bindings: Vec<(Role, u32)> = vec![(speaker, 10), (listener, 10)];
    let practice = SimplePractice::new(7, bindings, &template);

    assert_eq!(practice.get_role(10), Ok(speaker));
}
