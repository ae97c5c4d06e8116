use miska::errors::ExecError;
use miska::invocation::{event_fits, step, Event, Phase, Step};

/// Drive the machine from the start through the given events, as the host
/// process does, and return the decided result.
fn drive(events: Vec<Event>) -> Result<String, ExecError> {
    let mut phase = Phase::Resolve;
    for event in events {
        assert!(event_fits(&phase, &event));
        match step(phase, event) {
            Step::Next { phase: next } => phase = next,
            Step::Done { result } => return result,
        }
    }
    panic!("trace ended before a decision");
}

fn success_prefix(has_start: bool, has_status: bool) -> Vec<Event> {
    vec![
        Event::Resolved,
        Event::ContextReady,
        Event::Compiled,
        Event::Linked,
        Event::Exports {
            has_start,
            has_status,
        },
    ]
}

#[test]
fn missing_module_yields_module_not_found() {
    let r = drive(vec![Event::Missing]);
    assert!(matches!(r, Err(ExecError::ModuleNotFound)));
}

#[test]
fn sink_failure_yields_sink_allocation_failed() {
    let r = drive(vec![Event::Resolved, Event::SinkFailed]);
    assert!(matches!(r, Err(ExecError::SinkAllocationFailed)));
}

#[test]
fn bad_bytes_yield_compilation_error() {
    let r = drive(vec![Event::Resolved, Event::ContextReady, Event::CompileFailed]);
    assert!(matches!(r, Err(ExecError::CompilationError)));
}

#[test]
fn unsatisfied_imports_yield_link_error() {
    let r = drive(vec![
        Event::Resolved,
        Event::ContextReady,
        Event::Compiled,
        Event::LinkFailed,
    ]);
    assert!(matches!(r, Err(ExecError::LinkError)));
}

#[test]
fn no_entry_point_yields_entry_point_not_found() {
    let r = drive(success_prefix(false, false));
    assert!(matches!(r, Err(ExecError::EntryPointNotFound)));
}

#[test]
fn start_entry_printing_hello_returns_hello() {
    let mut events = success_prefix(true, false);
    events.push(Event::Returned);
    events.push(Event::Drained {
        bytes: b"hello".to_vec(),
    });
    assert_eq!(drive(events).unwrap(), "hello");
}

#[test]
fn status_only_module_returns_empty_output() {
    let mut events = success_prefix(false, true);
    events.push(Event::Returned);
    events.push(Event::Drained { bytes: Vec::new() });
    assert_eq!(drive(events).unwrap(), "");
}

#[test]
fn both_entries_run_start_first_then_status() {
    match step(
        Phase::FindEntry,
        Event::Exports {
            has_start: true,
            has_status: true,
        },
    ) {
        Step::Next { phase } => assert_eq!(phase, Phase::RunStart { then_status: true }),
        Step::Done { .. } => panic!("expected another stage"),
    }
    match step(Phase::RunStart { then_status: true }, Event::Returned) {
        Step::Next { phase } => assert_eq!(phase, Phase::RunStatus),
        Step::Done { .. } => panic!("expected another stage"),
    }
    match step(Phase::RunStatus, Event::Returned) {
        Step::Next { phase } => assert_eq!(phase, Phase::Drain),
        Step::Done { .. } => panic!("expected another stage"),
    }
    let mut events = success_prefix(true, true);
    events.push(Event::Returned);
    events.push(Event::Returned);
    events.push(Event::Drained {
        bytes: b"x".to_vec(),
    });
    assert_eq!(drive(events).unwrap(), "x");
}

#[test]
fn trap_yields_execution_trap_with_description() {
    let mut events = success_prefix(true, false);
    events.push(Event::Trapped {
        message: String::from("out of bounds memory access"),
    });
    match drive(events) {
        Err(ExecError::ExecutionTrap { message }) => {
            assert_eq!(message, "out of bounds memory access");
        }
        _ => panic!("expected an execution trap"),
    }
}

#[test]
fn drain_failure_yields_output_decode_error() {
    let mut events = success_prefix(false, true);
    events.push(Event::Returned);
    events.push(Event::DrainFailed);
    assert!(matches!(drive(events), Err(ExecError::OutputDecodeError)));
}

#[test]
fn faulting_run_leaves_later_runs_untouched() {
    let mut faulting = success_prefix(true, false);
    faulting.push(Event::Trapped {
        message: String::from("unreachable executed"),
    });
    assert!(matches!(drive(faulting), Err(ExecError::ExecutionTrap { .. })));

    let mut healthy = success_prefix(true, false);
    healthy.push(Event::Returned);
    healthy.push(Event::Drained {
        bytes: b"still fine".to_vec(),
    });
    assert_eq!(drive(healthy).unwrap(), "still fine");
}

#[test]
fn concurrent_requests_each_see_their_own_sink() {
    let mut first = success_prefix(true, false);
    first.push(Event::Returned);
    first.push(Event::Drained {
        bytes: b"a".to_vec(),
    });
    let mut second = success_prefix(true, false);
    second.push(Event::Returned);
    second.push(Event::Drained {
        bytes: b"b".to_vec(),
    });
    assert_eq!(drive(first).unwrap(), "a");
    assert_eq!(drive(second).unwrap(), "b");
}

#[test]
fn events_out_of_order_do_not_fit() {
    assert!(!event_fits(&Phase::Resolve, &Event::Compiled));
    assert!(!event_fits(
        &Phase::Drain,
        &Event::Exports {
            has_start: true,
            has_status: false,
        }
    ));
    assert!(event_fits(&Phase::Resolve, &Event::Missing));
}
