use gc::entry::{dispatch, evaluate, forward, testcase, Action};

#[test]
fn dispatch_knows_the_two_actions() {
    assert_eq!(dispatch(b"evaluate"), Some(Action::Evaluate));
    assert_eq!(dispatch(b"testcase"), Some(Action::Testcase));
}

#[test]
fn dispatch_knows_no_other_action() {
    assert_eq!(dispatch(b""), None);
    assert_eq!(dispatch(b"evaluat"), None);
    assert_eq!(dispatch(b"evaluate "), None);
    assert_eq!(dispatch(b"Evaluate"), None);
    assert_eq!(dispatch(b"evaluatf"), None);
    assert_eq!(dispatch(b"testcasf"), None);
    assert_eq!(dispatch(b"uestcase"), None);
    assert_eq!(dispatch(b"testcase\0"), None);
    assert_eq!(dispatch(b"invoke"), None);
}

#[test]
fn forward_hands_a_value_on_as_it_is() {
    assert_eq!(forward(Ok(String::from("3"))), "3");
    assert_eq!(forward(Ok(String::new())), "");
    assert_eq!(forward(Ok(String::from("Error: x"))), "Error: x");
}

#[test]
fn forward_labels_an_error() {
    assert_eq!(forward(Err(String::from("undefined is not a function"))), "Error: undefined is not a function");
    assert_eq!(forward(Err(String::new())), "Error: ");
}

#[test]
fn evaluate_says_when_parsing_failed() {
    assert_eq!(evaluate(None), "parsing failed");
}

#[test]
fn evaluate_hands_a_value_on_as_it_is() {
    assert_eq!(evaluate(Some(Ok(String::from("3")))), "3");
    assert_eq!(evaluate(Some(Ok(String::new()))), "");
}

#[test]
fn evaluate_labels_an_error_in_lower_case() {
    assert_eq!(evaluate(Some(Err(String::from("x is not defined")))), "error: x is not defined");
    assert_eq!(evaluate(Some(Err(String::new()))), "error: ");
}

#[test]
fn testcase_is_the_built_in_case() {
    let expected = "\n    [\n        [{\"method\":\"evaluate\", \"param\":\"string:1+2\", \"expected\":\"string:3\"},\n        ]\n    ]\n        ";
    assert_eq!(testcase(), expected);
}
