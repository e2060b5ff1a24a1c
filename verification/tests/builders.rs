use informal::validator::AcceptAny;
use informal::validator::LessThan;
use informal::Input;

#[test]
fn new_has_nothing_configured() {
    let i: Input<u32, AcceptAny> = Input::new();
    assert!(i.prompt.is_none());
    assert!(i.prefix.is_none());
    assert!(i.suffix.is_none());
    assert!(i.default.is_none());
    assert!(i.validator.is_none());
    assert!(i.type_message.is_none());
    assert!(i.validator_message.is_none());
}

#[test]
fn input_is_a_new_builder() {
    let i = informal::input::<u32>();
    assert!(i.prompt.is_none());
    assert!(i.default.is_none());
    assert!(i.validator.is_none());
}

#[test]
fn prompt_sets_the_display_text() {
    let i = informal::prompt::<u32>(String::from("Enter a number: "));
    assert_eq!(i.prompt.as_deref(), Some("Enter a number: "));
    assert!(i.prefix.is_none());
    assert!(i.suffix.is_none());
}

#[test]
fn setters_each_set_their_field() {
    let i: Input<u32, AcceptAny> = Input::new()
        .prompt(String::from("p"))
        .prefix(String::from("< "))
        .suffix(String::from(" >"))
        .default(3)
        .type_error_message(String::from("bad type"))
        .validator_error_message(String::from("bad value"));
    assert_eq!(i.prompt.as_deref(), Some("p"));
    assert_eq!(i.prefix.as_deref(), Some("< "));
    assert_eq!(i.suffix.as_deref(), Some(" >"));
    assert_eq!(i.default, Some(3));
    assert_eq!(i.type_message.as_deref(), Some("bad type"));
    assert_eq!(i.validator_message.as_deref(), Some("bad value"));
}

#[test]
fn matches_stores_the_validator_and_keeps_the_rest() {
    let i = informal::prompt::<u32>(String::from("age"))
        .default(7)
        .matches(LessThan { bound: 120 });
    assert_eq!(i.prompt.as_deref(), Some("age"));
    assert_eq!(i.default, Some(7));
    assert!(i.validator.is_some());
    let v = i.validator.unwrap();
    assert_eq!(v.bound, 120);
}
