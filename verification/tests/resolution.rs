use informal::resolve::Event;
use informal::resolve::Outcome;
use informal::resolve::Transform;
use informal::validator::LessThan;
use informal::Input;

fn lines(xs: &[&str]) -> Vec<String> {
    xs.iter().map(|s| s.to_string()).collect()
}

#[test]
fn scenario_age_bad_then_rejected_then_accepted() {
    let spec = informal::prompt::<u32>(String::from("Enter age: "))
        .matches(LessThan { bound: 120 })
        .validator_error_message(String::from("Error: too old"));
    let (o, ev) = spec.try_get(&lines(&["abc", "200", "45"]));
    assert_eq!(o, Outcome::Value(45));
    assert_eq!(
        ev,
        vec![
            Event::Prompt(String::from("Enter age: ")),
            Event::Message(String::from("Error: invalid input")),
            Event::Prompt(String::from("Enter age: ")),
            Event::Message(String::from("Error: too old")),
            Event::Prompt(String::from("Enter age: ")),
        ]
    );
}

#[test]
fn scenario_default_on_empty_line() {
    let spec = informal::input::<u32>().default(0);
    let (o, ev) = spec.try_get(&lines(&[""]));
    assert_eq!(o, Outcome::Value(0));
    assert_eq!(ev, vec![]);
}

#[test]
fn default_bypasses_parser_and_validator() {
    // the default is returned verbatim even though the validator rejects it
    let spec = informal::prompt::<u32>(String::from("n: "))
        .default(7)
        .matches(LessThan { bound: 5 });
    let (o, ev) = spec.try_get(&lines(&["   ", "1"]));
    assert_eq!(o, Outcome::Value(7));
    assert_eq!(ev, vec![Event::Prompt(String::from("n: "))]);
}

#[test]
fn empty_lines_without_default_reprompt_silently() {
    let spec = informal::prompt::<u32>(String::from("n: "));
    let (o, ev) = spec.try_get(&lines(&["", "  \t", "5"]));
    assert_eq!(o, Outcome::Value(5));
    assert_eq!(
        ev,
        vec![
            Event::Prompt(String::from("n: ")),
            Event::Prompt(String::from("n: ")),
            Event::Prompt(String::from("n: ")),
        ]
    );
}

#[test]
fn rejected_value_retries_silently_without_message() {
    let spec = informal::prompt::<u32>(String::from("n: ")).matches(LessThan { bound: 10 });
    let (o, ev) = spec.try_get(&lines(&["20", "3"]));
    assert_eq!(o, Outcome::Value(3));
    assert_eq!(
        ev,
        vec![
            Event::Prompt(String::from("n: ")),
            Event::Prompt(String::from("n: ")),
        ]
    );
}

#[test]
fn configured_type_error_message_is_printed_verbatim() {
    let spec = informal::prompt::<u32>(String::from("n: "))
        .type_error_message(String::from("Error: What kind of age is that?!"));
    let (o, ev) = spec.try_get(&lines(&["x", "1"]));
    assert_eq!(o, Outcome::Value(1));
    assert_eq!(
        ev,
        vec![
            Event::Prompt(String::from("n: ")),
            Event::Message(String::from("Error: What kind of age is that?!")),
            Event::Prompt(String::from("n: ")),
        ]
    );
}

#[test]
fn source_failure_when_the_script_runs_dry() {
    let spec = informal::prompt::<u32>(String::from("n: "));
    let (o, ev) = spec.try_get(&lines(&["abc"]));
    assert_eq!(o, Outcome::SourceFailed);
    assert_eq!(
        ev,
        vec![
            Event::Prompt(String::from("n: ")),
            Event::Message(String::from("Error: invalid input")),
            Event::Prompt(String::from("n: ")),
        ]
    );
}

#[test]
fn source_failure_on_an_empty_script() {
    let spec: Input<u32, informal::validator::AcceptAny> = Input::new();
    let (o, ev) = spec.try_get(&lines(&[]));
    assert_eq!(o, Outcome::SourceFailed);
    assert_eq!(ev, vec![]);
}

#[test]
fn prompt_is_rendered_with_prefix_and_suffix_once_per_attempt() {
    let spec = informal::prompt::<u32>(String::from("Quit"))
        .prefix(String::from("> "))
        .suffix(String::from("? "));
    let (o, ev) = spec.try_get(&lines(&["oops", "2"]));
    assert_eq!(o, Outcome::Value(2));
    assert_eq!(
        ev,
        vec![
            Event::Prompt(String::from("> Quit? ")),
            Event::Message(String::from("Error: invalid input")),
            Event::Prompt(String::from("> Quit? ")),
        ]
    );
}

#[test]
fn prefix_and_suffix_render_without_display_text() {
    // every configured piece is rendered, display text or not
    let spec = informal::input::<u32>()
        .prefix(String::from("> "))
        .suffix(String::from(": "));
    let (o, ev) = spec.try_get(&lines(&["3"]));
    assert_eq!(o, Outcome::Value(3));
    assert_eq!(ev, vec![Event::Prompt(String::from("> : "))]);
}

#[test]
fn an_empty_rendering_writes_nothing() {
    let spec = informal::prompt::<u32>(String::new());
    let (o, ev) = spec.try_get(&lines(&["3"]));
    assert_eq!(o, Outcome::Value(3));
    assert_eq!(ev, vec![]);
}

#[test]
fn surrounding_whitespace_is_trimmed_before_parsing() {
    let spec = informal::input::<u32>();
    let (o, _) = spec.try_get(&lines(&["  42\n"]));
    assert_eq!(o, Outcome::Value(42));
}

#[test]
fn a_line_of_unicode_whitespace_is_empty_and_takes_the_default() {
    let spec = informal::input::<u32>().default(9);
    let (o, ev) = spec.try_get(&lines(&["\u{a0}\u{2002}\u{a0}"]));
    assert_eq!(o, Outcome::Value(9));
    assert_eq!(ev, vec![]);
}

#[test]
fn get_returns_the_terminal_value() {
    let spec = informal::prompt::<u32>(String::from("n: "));
    let (v, ev) = spec.get(&lines(&["7"]));
    assert_eq!(v, 7);
    assert_eq!(ev, vec![Event::Prompt(String::from("n: "))]);
}

#[test]
fn map_transforms_the_terminal_value() {
    let spec = informal::input::<String>();
    let (b, _) = spec.map(&lines(&["YES"]), informal::confirm::IsYes);
    assert!(b);
    let spec = informal::input::<String>();
    let (b, _) = spec.map(&lines(&["sure"]), informal::confirm::IsYes);
    assert!(!b);
}

#[test]
fn string_resolution_keeps_the_trimmed_line() {
    let spec = informal::input::<String>();
    let (o, _) = spec.try_get(&lines(&["  hello world  "]));
    assert_eq!(o, Outcome::Value(String::from("hello world")));
}

#[test]
fn transform_trait_is_usable_directly() {
    assert!(informal::confirm::IsYes.apply(String::from("yEs")));
    assert!(!informal::confirm::IsYes.apply(String::from("no")));
}
