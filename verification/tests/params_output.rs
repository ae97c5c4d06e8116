use miska::errors::ExecError;
use miska::output::extract_output;
use miska::params::ParameterSet;

#[test]
fn injected_parameter_round_trips() {
    let mut params = ParameterSet::new();
    params.insert(String::from("K"), String::from("forty-two"));
    assert_eq!(
        params.get(&String::from("K")),
        Some(String::from("forty-two"))
    );
    assert_eq!(params.get(&String::from("missing")), None);
}

#[test]
fn later_parameters_leave_earlier_ones_alone() {
    let mut params = ParameterSet::new();
    params.insert(String::from("a"), String::from("1"));
    params.insert(String::from("b"), String::from("2"));
    assert_eq!(params.get(&String::from("a")), Some(String::from("1")));
    assert_eq!(params.get(&String::from("b")), Some(String::from("2")));
}

#[test]
fn env_pairs_hand_the_sandbox_exactly_the_set() {
    let mut params = ParameterSet::new();
    params.insert(String::from("env"), String::from("a"));
    params.insert(String::from("other"), String::from("x"));
    let pairs = params.env_pairs();
    assert_eq!(pairs.len(), 2);
    assert_eq!(pairs[0].name, "env");
    assert_eq!(pairs[0].value, "a");
    assert_eq!(pairs[1].name, "other");
    assert_eq!(pairs[1].value, "x");
}

#[test]
fn two_contexts_expose_only_their_own_parameters() {
    let mut first = ParameterSet::new();
    first.insert(String::from("env"), String::from("a"));
    let mut second = ParameterSet::new();
    second.insert(String::from("env"), String::from("b"));
    assert_eq!(first.get(&String::from("env")), Some(String::from("a")));
    assert_eq!(second.get(&String::from("env")), Some(String::from("b")));
}

#[test]
fn ascii_output_is_returned_verbatim() {
    assert_eq!(extract_output(&b"hello".to_vec()), "hello");
}

#[test]
fn empty_sink_gives_empty_output() {
    assert_eq!(extract_output(&Vec::new()), "");
}

#[test]
fn invalid_utf8_is_decoded_lossily_not_rejected() {
    let bytes = vec![0x68, 0xff, 0x69];
    assert_eq!(extract_output(&bytes), "h\u{fffd}i");
}

#[test]
fn error_kinds_describe_themselves() {
    assert_eq!(ExecError::ModuleNotFound.describe(), "module not found");
    assert_eq!(
        ExecError::ExecutionTrap {
            message: String::from("boom"),
        }
        .describe(),
        "module trapped during execution"
    );
    assert_eq!(
        ExecError::EntryPointNotFound.describe(),
        "module has no recognized entry point"
    );
}
