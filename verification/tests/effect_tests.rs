use rusted_social_simulation::effect::{DoNothing, Effect, EffectVector, MockEffect};

#[test]
fn test_do_nothing() {
    let mut context: u32 = 42;
    DoNothing.apply(&mut context);
    assert_eq!(context, 42);
}

#[test]
fn test_mock_effect_adds() {
    let mut context: u32 = 42;
    MockEffect::new(11).apply(&mut context);
    assert_eq!(context, 53);
}

#[test]
fn test_mock_effect_wraps_on_overflow() {
    let mut context: u32 = u32::MAX;
    MockEffect::new(1).apply(&mut context);
    assert_eq!(context, 0);
}

#[test]
fn test_vector() {
    let mut context: u32 = 42;
    let vector = EffectVector::new(vec![
        Effect::Mock(MockEffect::new(2)),
        Effect::Mock(MockEffect::new(34)),
    ]);

    vector.apply(&mut context);

    assert_eq!(context, 78);
}

#[test]
fn test_vector_reversed_additive_mocks() {
    let mut context: u32 = 42;
    let vector = EffectVector::new(vec![
        Effect::Mock(MockEffect::new(34)),
        Effect::Mock(MockEffect::new(2)),
    ]);

    vector.apply(&mut context);

    assert_eq!(context, 78);
}

#[test]
fn test_empty_vector() {
    let mut context: u32 = 42;
    EffectVector::new(Vec::new()).apply(&mut context);
    assert_eq!(context, 42);
}

#[test]
fn test_nested_vector_applies_in_order() {
    let mut context: u32 = 0;
    let inner = Effect::Vector(EffectVector::new(vec![
        Effect::Mock(MockEffect::new(1)),
        Effect::DoNothing(DoNothing),
    ]));
    let outer = EffectVector::new(vec![inner, Effect::Mock(MockEffect::new(10))]);

    outer.apply(&mut context);

    assert_eq!(context, 11);
}
