use vstd::prelude::*;

use crate::errors::{ExecError, ExecErrorV};
use crate::output::{extract_output, lossy_of};

verus! {

/// The stage an invocation is at. Each phase names the piece of outside work
/// the host must perform next; the host reports how that work went as an
/// [`Event`] and [`step`] decides what follows.
#[derive(Clone, Copy, PartialEq, Eq, Structural, Debug)]
pub enum Phase {
    /// Resolve the module name to its compiled bytes.
    Resolve,
    /// Build the capability context: allocate the capture sink and inject
    /// the parameters. A fresh context is built for every invocation.
    BuildContext,
    /// Compile the module bytes into an executable artifact.
    Compile,
    /// Link the artifact's imports against the capability context and
    /// instantiate it.
    Link,
    /// Inspect the instance's exports for recognized entry points.
    FindEntry,
    /// Call the side-effect start entry; `then_status` records whether the
    /// status-returning entry must still run afterwards.
    RunStart { then_status: bool },
    /// Call the status-returning entry.
    RunStatus,
    /// Flush, rewind and drain the capture sink.
    Drain,
}

/// What the host reports back after performing the work a [`Phase`] asked
/// for.
pub enum Event {
    /// The module name resolved to its bytes.
    Resolved,
    /// No source exists for the module name.
    Missing,
    /// The capture sink was allocated and the parameters injected.
    ContextReady,
    /// The capture sink could not be allocated.
    SinkFailed,
    /// The bytes compiled into an artifact.
    Compiled,
    /// The bytes are malformed or use unsupported features.
    CompileFailed,
    /// The artifact's imports were satisfied and an instance exists.
    Linked,
    /// Some import could not be satisfied by the capability context.
    LinkFailed,
    /// Which recognized entry points the instance exports.
    Exports { has_start: bool, has_status: bool },
    /// The entry point that was called returned normally.
    Returned,
    /// The sandboxed code faulted; `message` describes the trap.
    Trapped { message: String },
    /// The capture sink was drained; `bytes` is its full contents.
    Drained { bytes: Vec<u8> },
    /// Draining the capture sink failed on the host side.
    DrainFailed,
}

/// The mathematical value of an [`Event`].
pub enum EventV {
    Resolved,
    Missing,
    ContextReady,
    SinkFailed,
    Compiled,
    CompileFailed,
    Linked,
    LinkFailed,
    Exports { has_start: bool, has_status: bool },
    Returned,
    Trapped { message: Seq<char> },
    Drained { bytes: Seq<u8> },
    DrainFailed,
}

impl View for Event {
    type V = EventV;

    open spec fn view(&self) -> EventV {
        match self {
            Event::Resolved => EventV::Resolved,
            Event::Missing => EventV::Missing,
            Event::ContextReady => EventV::ContextReady,
            Event::SinkFailed => EventV::SinkFailed,
            Event::Compiled => EventV::Compiled,
            Event::CompileFailed => EventV::CompileFailed,
            Event::Linked => EventV::Linked,
            Event::LinkFailed => EventV::LinkFailed,
            Event::Exports { has_start, has_status } => EventV::Exports {
                has_start: *has_start,
                has_status: *has_status,
            },
            Event::Returned => EventV::Returned,
            Event::Trapped { message } => EventV::Trapped { message: message@ },
            Event::Drained { bytes } => EventV::Drained { bytes: bytes@ },
            Event::DrainFailed => EventV::DrainFailed,
        }
    }
}

/// What one step of the machine decides: either the next phase of work, or
/// the invocation's final result.
pub enum Step {
    Next { phase: Phase },
    Done { result: Result<String, ExecError> },
}

/// The mathematical value of a [`Step`].
pub enum StepV {
    Next { phase: Phase },
    Done { result: Result<Seq<char>, ExecErrorV> },
}

impl View for Step {
    type V = StepV;

    open spec fn view(&self) -> StepV {
        match self {
            Step::Next { phase } => StepV::Next { phase: *phase },
            Step::Done { result } => StepV::Done {
                result: match result {
                    Ok(text) => Ok(text@),
                    Err(e) => Err(e@),
                },
            },
        }
    }
}

/// Whether `event` is an outcome the work of `phase` can report.
pub open spec fn event_fits_spec(phase: Phase, event: EventV) -> bool {
    match phase {
        Phase::Resolve => event is Resolved || event is Missing,
        Phase::BuildContext => event is ContextReady || event is SinkFailed,
        Phase::Compile => event is Compiled || event is CompileFailed,
        Phase::Link => event is Linked || event is LinkFailed,
        Phase::FindEntry => event is Exports,
        Phase::RunStart { .. } => event is Returned || event is Trapped,
        Phase::RunStatus => event is Returned || event is Trapped,
        Phase::Drain => event is Drained || event is DrainFailed,
    }
}

/// The transition the machine makes on `event` in `phase`.
///
/// Every stage's failure maps to its own failure kind; a module exporting
/// both entry shapes runs the start entry first and the status entry after
/// it; a module exporting neither fails with `EntryPointNotFound`; the
/// drained capture bytes, decoded lossily, are the invocation's result.
pub open spec fn spec_step(phase: Phase, event: EventV) -> StepV
    recommends
        event_fits_spec(phase, event),
{
    match phase {
        Phase::Resolve => match event {
            EventV::Resolved => StepV::Next { phase: Phase::BuildContext },
            EventV::Missing => StepV::Done { result: Err(ExecErrorV::ModuleNotFound) },
            _ => arbitrary(),
        },
        Phase::BuildContext => match event {
            EventV::ContextReady => StepV::Next { phase: Phase::Compile },
            EventV::SinkFailed => StepV::Done { result: Err(ExecErrorV::SinkAllocationFailed) },
            _ => arbitrary(),
        },
        Phase::Compile => match event {
            EventV::Compiled => StepV::Next { phase: Phase::Link },
            EventV::CompileFailed => StepV::Done { result: Err(ExecErrorV::CompilationError) },
            _ => arbitrary(),
        },
        Phase::Link => match event {
            EventV::Linked => StepV::Next { phase: Phase::FindEntry },
            EventV::LinkFailed => StepV::Done { result: Err(ExecErrorV::LinkError) },
            _ => arbitrary(),
        },
        Phase::FindEntry => match event {
            EventV::Exports { has_start, has_status } => if has_start {
                StepV::Next { phase: Phase::RunStart { then_status: has_status } }
            } else if has_status {
                StepV::Next { phase: Phase::RunStatus }
            } else {
                StepV::Done { result: Err(ExecErrorV::EntryPointNotFound) }
            },
            _ => arbitrary(),
        },
        Phase::RunStart { then_status } => match event {
            EventV::Returned => StepV::Next {
                phase: if then_status {
                    Phase::RunStatus
                } else {
                    Phase::Drain
                },
            },
            EventV::Trapped { message } => StepV::Done {
                result: Err(ExecErrorV::ExecutionTrap { message }),
            },
            _ => arbitrary(),
        },
        Phase::RunStatus => match event {
            EventV::Returned => StepV::Next { phase: Phase::Drain },
            EventV::Trapped { message } => StepV::Done {
                result: Err(ExecErrorV::ExecutionTrap { message }),
            },
            _ => arbitrary(),
        },
        Phase::Drain => match event {
            EventV::Drained { bytes } => StepV::Done { result: Ok(lossy_of(bytes)) },
            EventV::DrainFailed => StepV::Done { result: Err(ExecErrorV::OutputDecodeError) },
            _ => arbitrary(),
        },
    }
}

/// Whether `event` is an outcome the work of `phase` can report; the
/// executable twin of [`event_fits_spec`], for callers that must check
/// before calling [`step`].
pub fn event_fits(phase: &Phase, event: &Event) -> (r: bool)
    ensures
        r == event_fits_spec(*phase, event@),
{
    match phase {
        Phase::Resolve => match event {
            Event::Resolved => true,
            Event::Missing => true,
            _ => false,
        },
        Phase::BuildContext => match event {
            Event::ContextReady => true,
            Event::SinkFailed => true,
            _ => false,
        },
        Phase::Compile => match event {
            Event::Compiled => true,
            Event::CompileFailed => true,
            _ => false,
        },
        Phase::Link => match event {
            Event::Linked => true,
            Event::LinkFailed => true,
            _ => false,
        },
        Phase::FindEntry => match event {
            Event::Exports { .. } => true,
            _ => false,
        },
        Phase::RunStart { .. } => match event {
            Event::Returned => true,
            Event::Trapped { .. } => true,
            _ => false,
        },
        Phase::RunStatus => match event {
            Event::Returned => true,
            Event::Trapped { .. } => true,
            _ => false,
        },
        Phase::Drain => match event {
            Event::Drained { .. } => true,
            Event::DrainFailed => true,
            _ => false,
        },
    }
}

/// Advance the invocation one stage: given the phase whose work the host
/// just performed and the event it reported, decide the next phase of work
/// or the final result. The decision is exactly [`spec_step`].
pub fn step(phase: Phase, event: Event) -> (r: Step)
    requires
        event_fits_spec(phase, event@),
    ensures
        r@ == spec_step(phase, event@),
{
    match phase {
        Phase::Resolve => match event {
            Event::Resolved => Step::Next { phase: Phase::BuildContext },
            Event::Missing => Step::Done { result: Err(ExecError::ModuleNotFound) },
            _ => {
                proof {
                    assert(false);
                }
                Step::Done { result: Err(ExecError::ModuleNotFound) }
            },
        },
        Phase::BuildContext => match event {
            Event::ContextReady => Step::Next { phase: Phase::Compile },
            Event::SinkFailed => Step::Done { result: Err(ExecError::SinkAllocationFailed) },
            _ => {
                proof {
                    assert(false);
                }
                Step::Done { result: Err(ExecError::SinkAllocationFailed) }
            },
        },
        Phase::Compile => match event {
            Event::Compiled => Step::Next { phase: Phase::Link },
            Event::CompileFailed => Step::Done { result: Err(ExecError::CompilationError) },
            _ => {
                proof {
                    assert(false);
                }
                Step::Done { result: Err(ExecError::CompilationError) }
            },
        },
        Phase::Link => match event {
            Event::Linked => Step::Next { phase: Phase::FindEntry },
            Event::LinkFailed => Step::Done { result: Err(ExecError::LinkError) },
            _ => {
                proof {
                    assert(false);
                }
                Step::Done { result: Err(ExecError::LinkError) }
            },
        },
        Phase::FindEntry => match event {
            Event::Exports { has_start, has_status } => if has_start {
                Step::Next { phase: Phase::RunStart { then_status: has_status } }
            } else if has_status {
                Step::Next { phase: Phase::RunStatus }
            } else {
                Step::Done { result: Err(ExecError::EntryPointNotFound) }
            },
            _ => {
                proof {
                    assert(false);
                }
                Step::Done { result: Err(ExecError::EntryPointNotFound) }
            },
        },
        Phase::RunStart { then_status } => match event {
            Event::Returned => Step::Next {
                phase: if then_status {
                    Phase::RunStatus
                } else {
                    Phase::Drain
                },
            },
            Event::Trapped { message } => Step::Done {
                result: Err(ExecError::ExecutionTrap { message }),
            },
            _ => {
                proof {
                    assert(false);
                }
                Step::Done { result: Err(ExecError::EntryPointNotFound) }
            },
        },
        Phase::RunStatus => match event {
            Event::Returned => Step::Next { phase: Phase::Drain },
            Event::Trapped { message } => Step::Done {
                result: Err(ExecError::ExecutionTrap { message }),
            },
            _ => {
                proof {
                    assert(false);
                }
                Step::Done { result: Err(ExecError::EntryPointNotFound) }
            },
        },
        Phase::Drain => match event {
            Event::Drained { bytes } => Step::Done { result: Ok(extract_output(&bytes)) },
            Event::DrainFailed => Step::Done { result: Err(ExecError::OutputDecodeError) },
            _ => {
                proof {
                    assert(false);
                }
                Step::Done { result: Err(ExecError::OutputDecodeError) }
            },
        },
    }
}

/// The final result of driving the machine from `phase` through the events
/// of `trace`: `Some(result)` when the trace is exactly one complete run
/// from `phase` to a decision, `None` when it stops short or carries on past
/// the end.
pub open spec fn machine_result(phase: Phase, trace: Seq<EventV>) -> Option<
    Result<Seq<char>, ExecErrorV>,
>
    decreases trace.len(),
{
    if trace.len() == 0 {
        None
    } else {
        match spec_step(phase, trace[0]) {
            StepV::Next { phase: next } => machine_result(next, trace.drop_first()),
            StepV::Done { result } => if trace.len() == 1 {
                Some(result)
            } else {
                None
            },
        }
    }
}

/// The events of a run in which every stage succeeds: each present entry
/// point returns normally — the start entry before the status entry — and
/// the capture sink drains to `bytes`.
pub open spec fn success_trace(has_start: bool, has_status: bool, bytes: Seq<u8>) -> Seq<EventV> {
    seq![
        EventV::Resolved,
        EventV::ContextReady,
        EventV::Compiled,
        EventV::Linked,
        EventV::Exports { has_start, has_status },
    ] + (if has_start && has_status {
        seq![EventV::Returned, EventV::Returned]
    } else {
        seq![EventV::Returned]
    }) + seq![EventV::Drained { bytes }]
}

proof fn lemma_step_next(phase: Phase, e: EventV, rest: Seq<EventV>)
    requires
        spec_step(phase, e) is Next,
    ensures
        machine_result(phase, seq![e] + rest) == machine_result(spec_step(phase, e)->phase, rest),
{
    let t = seq![e] + rest;
    assert(t.len() == 1 + rest.len());
    assert(t[0] == e);
    assert(t.drop_first() =~= rest);
}

proof fn lemma_step_done(phase: Phase, e: EventV)
    requires
        spec_step(phase, e) is Done,
    ensures
        machine_result(phase, seq![e]) == Some(spec_step(phase, e)->result),
{
    let t = seq![e];
    assert(t.len() == 1);
    assert(t[0] == e);
}

/// Output faithfulness: in a run in which every stage succeeds and the
/// capture sink drains to `bytes`, the invocation returns exactly the lossy
/// decoding of `bytes` — whatever the module wrote, nothing more, nothing
/// less, and never a failure.
pub proof fn lemma_successful_run(has_start: bool, has_status: bool, bytes: Seq<u8>)
    requires
        has_start || has_status,
    ensures
        machine_result(Phase::Resolve, success_trace(has_start, has_status, bytes)) == Some(
            Ok::<Seq<char>, ExecErrorV>(lossy_of(bytes)),
        ),
{
    let t = success_trace(has_start, has_status, bytes);
    let drain = seq![EventV::Drained { bytes }];
    let e5 = EventV::Exports { has_start, has_status };
    let mid: Seq<EventV> = if has_start && has_status {
        seq![EventV::Returned, EventV::Returned]
    } else {
        seq![EventV::Returned]
    };
    let r1 = seq![EventV::ContextReady, EventV::Compiled, EventV::Linked, e5] + mid + drain;
    assert(t =~= seq![EventV::Resolved] + r1);
    lemma_step_next(Phase::Resolve, EventV::Resolved, r1);
    let r2 = seq![EventV::Compiled, EventV::Linked, e5] + mid + drain;
    assert(r1 =~= seq![EventV::ContextReady] + r2);
    lemma_step_next(Phase::BuildContext, EventV::ContextReady, r2);
    let r3 = seq![EventV::Linked, e5] + mid + drain;
    assert(r2 =~= seq![EventV::Compiled] + r3);
    lemma_step_next(Phase::Compile, EventV::Compiled, r3);
    let r4 = seq![e5] + mid + drain;
    assert(r3 =~= seq![EventV::Linked] + r4);
    lemma_step_next(Phase::Link, EventV::Linked, r4);
    let r5 = mid + drain;
    assert(r4 =~= seq![e5] + r5);
    lemma_step_next(Phase::FindEntry, e5, r5);
    if has_start {
        if has_status {
            assert(r5 =~= seq![EventV::Returned] + (seq![EventV::Returned] + drain));
            lemma_step_next(
                Phase::RunStart { then_status: true },
                EventV::Returned,
                seq![EventV::Returned] + drain,
            );
            lemma_step_next(Phase::RunStatus, EventV::Returned, drain);
        } else {
            assert(r5 =~= seq![EventV::Returned] + drain);
            lemma_step_next(Phase::RunStart { then_status: false }, EventV::Returned, drain);
        }
    } else {
        assert(r5 =~= seq![EventV::Returned] + drain);
        lemma_step_next(Phase::RunStatus, EventV::Returned, drain);
    }
    lemma_step_done(Phase::Drain, EventV::Drained { bytes });
}

/// A nonexistent module name yields `ModuleNotFound` at once: no later
/// stage runs, and the resolve stage can report no other failure kind.
pub proof fn lemma_module_not_found()
    ensures
        machine_result(Phase::Resolve, seq![EventV::Missing]) == Some(
            Err::<Seq<char>, ExecErrorV>(ExecErrorV::ModuleNotFound),
        ),
        forall|e: EventV|
            event_fits_spec(Phase::Resolve, e) && spec_step(Phase::Resolve, e) is Done
                ==> #[trigger] spec_step(Phase::Resolve, e)->result == Err::<
                Seq<char>,
                ExecErrorV,
            >(ExecErrorV::ModuleNotFound),
{
    lemma_step_done(Phase::Resolve, EventV::Missing);
}

/// A module exporting no recognized entry point always fails with
/// `EntryPointNotFound`: the run that reaches entry resolution with neither
/// shape exported ends there, with that kind and no other.
pub proof fn lemma_entry_point_not_found()
    ensures
        machine_result(
            Phase::Resolve,
            seq![
                EventV::Resolved,
                EventV::ContextReady,
                EventV::Compiled,
                EventV::Linked,
                EventV::Exports { has_start: false, has_status: false },
            ],
        ) == Some(Err::<Seq<char>, ExecErrorV>(ExecErrorV::EntryPointNotFound)),
{
    let e5 = EventV::Exports { has_start: false, has_status: false };
    let t = seq![EventV::Resolved, EventV::ContextReady, EventV::Compiled, EventV::Linked, e5];
    let r1 = seq![EventV::ContextReady, EventV::Compiled, EventV::Linked, e5];
    assert(t =~= seq![EventV::Resolved] + r1);
    lemma_step_next(Phase::Resolve, EventV::Resolved, r1);
    let r2 = seq![EventV::Compiled, EventV::Linked, e5];
    assert(r1 =~= seq![EventV::ContextReady] + r2);
    lemma_step_next(Phase::BuildContext, EventV::ContextReady, r2);
    let r3 = seq![EventV::Linked, e5];
    assert(r2 =~= seq![EventV::Compiled] + r3);
    lemma_step_next(Phase::Compile, EventV::Compiled, r3);
    let r4 = seq![e5];
    assert(r3 =~= seq![EventV::Linked] + r4);
    lemma_step_next(Phase::Link, EventV::Linked, r4);
    lemma_step_done(Phase::FindEntry, e5);
}

/// A module that faults yields `ExecutionTrap` carrying the trap
/// description and no result text, whichever entry point was running.
pub proof fn lemma_trap(phase: Phase, message: Seq<char>)
    requires
        phase is RunStart || phase is RunStatus,
    ensures
        machine_result(phase, seq![EventV::Trapped { message }]) == Some(
            Err::<Seq<char>, ExecErrorV>(ExecErrorV::ExecutionTrap { message }),
        ),
{
    lemma_step_done(phase, EventV::Trapped { message });
}

/// Where each stage stands in the pipeline, in the order the control flow
/// visits them.
pub open spec fn stage_index(phase: Phase) -> int {
    match phase {
        Phase::Resolve => 0,
        Phase::BuildContext => 1,
        Phase::Compile => 2,
        Phase::Link => 3,
        Phase::FindEntry => 4,
        Phase::RunStart { .. } => 5,
        Phase::RunStatus => 6,
        Phase::Drain => 7,
    }
}

/// The pipeline only moves forward: no stage ever repeats within an
/// invocation, so the capability context is consumed exactly once, and the
/// capture sink is rewound and drained only after every entry point has
/// finished — never while the module can still write.
pub proof fn lemma_stages_move_forward(phase: Phase, event: EventV)
    requires
        event_fits_spec(phase, event),
        spec_step(phase, event) is Next,
    ensures
        stage_index(spec_step(phase, event)->phase) > stage_index(phase),
{
}

/// Isolation: an invocation's outcome is a function of its own events
/// alone. Two runs — of the same module or of different ones, sequential or
/// concurrent — each return exactly the text their own capture sink
/// drained; neither one's parameters, output or fate appears in the other's
/// result.
pub proof fn lemma_isolation(
    has_start1: bool,
    has_status1: bool,
    bytes1: Seq<u8>,
    has_start2: bool,
    has_status2: bool,
    bytes2: Seq<u8>,
)
    requires
        has_start1 || has_status1,
        has_start2 || has_status2,
    ensures
        machine_result(Phase::Resolve, success_trace(has_start1, has_status1, bytes1)) == Some(
            Ok::<Seq<char>, ExecErrorV>(lossy_of(bytes1)),
        ),
        machine_result(Phase::Resolve, success_trace(has_start2, has_status2, bytes2)) == Some(
            Ok::<Seq<char>, ExecErrorV>(lossy_of(bytes2)),
        ),
{
    lemma_successful_run(has_start1, has_status1, bytes1);
    lemma_successful_run(has_start2, has_status2, bytes2);
}

} // verus!
