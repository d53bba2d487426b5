use process_monitor::cli::{parse_arguments, ArgumentError};

fn args(items: &[&str]) -> Vec<String> {
    items.iter().map(|s| s.to_string()).collect()
}

#[test]
fn two_arguments_are_an_argument_error() {
    let r = parse_arguments(&args(&["process_monitor", "-monitorFile"]));
    assert_eq!(r, Err(ArgumentError::WrongCount));
    assert_eq!(
        ArgumentError::WrongCount.message(),
        "Arguments parsed, but expected 3 arguments"
    );
}

#[test]
fn no_arguments_are_an_argument_error() {
    assert_eq!(parse_arguments(&args(&["process_monitor"])), Err(ArgumentError::WrongCount));
    assert_eq!(parse_arguments(&args(&[])), Err(ArgumentError::WrongCount));
}

#[test]
fn four_arguments_are_an_argument_error() {
    let r = parse_arguments(&args(&["p", "-monitorFile", "a.json", "extra"]));
    assert_eq!(r, Err(ArgumentError::WrongCount));
}

#[test]
fn wrong_flag_is_an_argument_error() {
    let r = parse_arguments(&args(&["p", "-config", "monitors.json"]));
    assert_eq!(r, Err(ArgumentError::MissingFlag));
    assert_eq!(ArgumentError::MissingFlag.message(), "First argument must be -monitorFile");
}

#[test]
fn flag_and_path_give_the_path() {
    let r = parse_arguments(&args(&["p", "-monitorFile", "assets/monitors.json"]));
    assert_eq!(r, Ok("assets/monitors.json".to_string()));
}
