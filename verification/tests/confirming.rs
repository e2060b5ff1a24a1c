use informal::confirm;
use informal::confirm_with_message;
use informal::resolve::Event;
use informal::resolve::Outcome;
use informal::validator::Validate;

fn lines(xs: &[&str]) -> Vec<String> {
    xs.iter().map(|s| s.to_string()).collect()
}

#[test]
fn plain_yes_answers_mean_yes() {
    for answer in ["y", "Y", "yes", "YES", "Yes", "yEs"] {
        let (o, _) = confirm(String::from("Continue?"), &lines(&[answer]));
        assert_eq!(o, Outcome::Value(true), "answer {:?}", answer);
    }
}

#[test]
fn no_answers_and_the_default_mean_no() {
    for answer in ["n", "N", "no", "NO", ""] {
        let (o, _) = confirm(String::from("Continue?"), &lines(&[answer]));
        assert_eq!(o, Outcome::Value(false), "answer {:?}", answer);
    }
}

#[test]
fn other_answers_are_rejected_and_reprompted_silently() {
    let (o, ev) = confirm(String::from("Continue?"), &lines(&["maybe", "y"]));
    assert_eq!(o, Outcome::Value(true));
    assert_eq!(
        ev,
        vec![
            Event::Prompt(String::from("Continue? [y/N] ")),
            Event::Prompt(String::from("Continue? [y/N] ")),
        ]
    );
}

#[test]
fn confirm_prompt_carries_the_yes_no_suffix() {
    let (_, ev) = confirm(String::from("Sure?"), &lines(&["y"]));
    assert_eq!(ev, vec![Event::Prompt(String::from("Sure? [y/N] "))]);
}

#[test]
fn confirm_with_message_prints_it_on_rejection() {
    let (o, ev) = confirm_with_message(
        String::from("Sure?"),
        String::from("Please answer yes or no"),
        &lines(&["maybe", "no"]),
    );
    assert_eq!(o, Outcome::Value(false));
    assert_eq!(
        ev,
        vec![
            Event::Prompt(String::from("Sure? [y/N] ")),
            Event::Message(String::from("Please answer yes or no")),
            Event::Prompt(String::from("Sure? [y/N] ")),
        ]
    );
}

#[test]
fn confirm_fails_when_the_script_runs_dry() {
    let (o, _) = confirm(String::from("Sure?"), &lines(&["hmm"]));
    assert_eq!(o, Outcome::SourceFailed);
}

#[test]
fn answers_are_trimmed_before_the_yes_no_check() {
    let (o, _) = confirm(String::from("Sure?"), &lines(&["  yes  "]));
    assert_eq!(o, Outcome::Value(true));
}

#[test]
fn the_yes_no_validator_accepts_exactly_the_four_answers() {
    let v = informal::confirm::YesNo;
    for good in ["n", "no", "y", "yes", "No", "YES", " y "] {
        assert!(v.accepts(&String::from(good)), "answer {:?}", good);
    }
    for bad in ["", "nope", "yess", "ja", "0", "true"] {
        assert!(!v.accepts(&String::from(bad)), "answer {:?}", bad);
    }
}
