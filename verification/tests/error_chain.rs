use step_machine::{error_chain, Failure};

#[test]
fn chain_of_a_failure_without_causes_is_its_message() {
    let failure = Failure { message: String::from("Coins landed differently"), causes: Vec::new() };
    assert_eq!(error_chain(failure), "Coins landed differently");
}

#[test]
fn chain_lists_each_cause_on_a_line_of_its_own() {
    let failure = Failure {
        message: String::from("can't read file `state.json`"),
        causes: vec![String::from("permission denied"), String::from("os error 13")],
    };
    assert_eq!(
        error_chain(failure),
        "can't read file `state.json`\nCaused by:\n\tpermission denied\n\tos error 13"
    );
}
