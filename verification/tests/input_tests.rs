use flow::input::{ConstantInputInitializer, Input, InputInitializer, OneTimeInputInitializer};
use flow::json::{JsonNumber, JsonValue};

fn num(n: u64) -> JsonValue {
    JsonValue::Number(JsonNumber::PosInt(n))
}

#[test]
fn no_inputs_initially() {
    let input = Input::new(1, &None);
    assert!(input.is_empty());
}

#[test]
fn accepts_value() {
    let mut input = Input::new(1, &None);
    input.push(JsonValue::Null);
    assert!(!input.is_empty());
}

#[test]
fn gets_full() {
    let mut input = Input::new(1, &None);
    input.push(JsonValue::Null);
    assert!(input.full());
}

#[test]
fn take_empties() {
    let mut input = Input::new(1, &None);
    input.push(num(10));
    assert!(!input.is_empty());
    input.take();
    assert!(input.is_empty());
}

#[test]
fn reset_empties() {
    let mut input = Input::new(1, &None);
    input.push(num(10));
    assert!(!input.is_empty());
    input.reset();
    assert!(input.is_empty());
}

#[test]
fn depth_works() {
    let mut input = Input::new(2, &None);
    input.push(num(5));
    assert!(!input.full());
    input.push(num(10));
    assert!(input.full());
    assert_eq!(input.take().len(), 2);
}

#[test]
fn can_hold_more_than_depth() {
    let mut input = Input::new(2, &None);
    input.push(num(5));
    input.push(num(10));
    input.push(num(15));
    input.push(num(20));
    input.push(num(25));
    assert!(input.full());
}

#[test]
fn can_take_from_more_than_depth() {
    let mut input = Input::new(2, &None);
    input.push(num(5));
    input.push(num(10));
    input.push(num(15));
    input.push(num(20));
    input.push(num(25));
    assert!(input.full());
    let mut next_set = input.take();
    assert_eq!(vec!(num(5), num(10)), next_set);
    assert!(input.full());
    next_set = input.take();
    assert_eq!(vec!(num(15), num(20)), next_set);
    assert!(!input.full());
}

#[test]
fn one_time_initializer_only_at_start() {
    let init = Some(InputInitializer::OneTime(OneTimeInputInitializer { once: num(1) }));
    let mut input = Input::new(1, &init);
    assert!(!input.init(false));
    assert!(input.is_empty());
    assert!(input.init(true));
    assert_eq!(input.take(), vec!(num(1)));
}

#[test]
fn constant_initializer_every_time() {
    let init = Some(InputInitializer::Constant(ConstantInputInitializer { constant: num(7) }));
    let mut input = Input::new(1, &init);
    assert!(input.init(true));
    assert_eq!(input.take(), vec!(num(7)));
    assert!(input.init(false));
    assert_eq!(input.take(), vec!(num(7)));
}

#[test]
fn no_initializer_gives_nothing() {
    let mut input = Input::new(1, &None);
    assert!(!input.init(true));
    assert!(!input.init(false));
    assert!(input.is_empty());
}

#[test]
fn take_returns_what_was_pushed_in_order() {
    let mut input = Input::new(3, &None);
    input.push(num(1));
    input.push(JsonValue::String("two".to_string()));
    input.push(JsonValue::Bool(true));
    assert_eq!(
        input.take(),
        vec!(num(1), JsonValue::String("two".to_string()), JsonValue::Bool(true))
    );
    assert!(input.is_empty());
}

#[test]
fn zero_depth_is_always_full() {
    let mut input = Input::new(0, &None);
    assert!(input.full());
    assert_eq!(input.take().len(), 0);
}
