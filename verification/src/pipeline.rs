//! The build-pipeline runner: a state machine that decides which external
//! step an embedding program should run next.
//!
//! The pipeline proper is a fixed ordered sequence — configure, build,
//! install, package build, then handing a dataflow descriptor to the
//! dataflow-execution service — run strictly sequentially and failing fast on
//! the first step that reports failure. Runtime mode instead delegates to the
//! in-process dataflow runtime and runs none of the steps; on an unsupported
//! platform the pipeline is a successful no-op. The embedding program owns
//! all process spawning: it starts with `start`, performs the returned
//! action, and feeds each outcome back through `advance`.

use vstd::prelude::*;

verus! {

/// How the runner is invoked: delegating to the in-process dataflow runtime,
/// or running the default pipeline of external steps.
#[derive(Clone, Copy, PartialEq, Eq, Debug)]
pub enum PipelineMode {
    Runtime,
    Pipeline,
}

/// One external-process step of the pipeline, in pipeline order.
#[derive(Clone, Copy, PartialEq, Eq, Debug)]
pub enum StepId {
    Configure,
    Build,
    Install,
    PackageBuild,
}

/// What one external step or service reported back.
#[derive(Clone, Copy, PartialEq, Eq, Debug)]
pub enum StepOutcome {
    Success,
    Failure,
}

/// Why a pipeline run failed.
#[derive(Clone, Copy, PartialEq, Eq, Debug)]
pub enum PipelineError {
    /// The named external step exited non-zero or could not be spawned.
    StepFailed(StepId),
    /// The dataflow-execution service reported failure.
    DataflowFailed,
    /// The in-process dataflow runtime reported failure.
    RuntimeFailed,
}

/// What the embedding program should do next.
#[derive(Clone, Copy, PartialEq, Eq, Debug)]
pub enum PipelineAction {
    /// Run the named external step and report its outcome.
    RunStep(StepId),
    /// Hand the dataflow descriptor to the dataflow-execution service and
    /// report its outcome.
    RunDataflow,
    /// Invoke the in-process dataflow runtime and report its outcome.
    InvokeRuntime,
    /// The run is over with this result; no further work.
    Finish(Result<(), PipelineError>),
}

/// Where a pipeline run stands.
#[derive(Clone, Copy, PartialEq, Eq, Debug)]
pub enum PipelineState {
    /// Waiting for the in-process dataflow runtime's outcome.
    AwaitingRuntime,
    /// Waiting for the named external step's outcome.
    RunningStep(StepId),
    /// Waiting for the dataflow-execution service's outcome.
    AwaitingDataflow,
    /// The run is over with this result.
    Finished(Result<(), PipelineError>),
}

/// The step after `step`, or `None` after the last external step (the
/// dataflow hand-off follows it).
pub open spec fn next_step(step: StepId) -> Option<StepId> {
    match step {
        StepId::Configure => Some(StepId::Build),
        StepId::Build => Some(StepId::Install),
        StepId::Install => Some(StepId::PackageBuild),
        StepId::PackageBuild => None,
    }
}

/// Where a run starts and what it does first.
pub open spec fn start_state(mode: PipelineMode, platform_supported: bool) -> (
    PipelineState,
    PipelineAction,
) {
    match mode {
        PipelineMode::Runtime => (PipelineState::AwaitingRuntime, PipelineAction::InvokeRuntime),
        PipelineMode::Pipeline => {
            if !platform_supported {
                (
                    PipelineState::Finished(Ok(())),
                    PipelineAction::Finish(Ok(())),
                )
            } else {
                (
                    PipelineState::RunningStep(StepId::Configure),
                    PipelineAction::RunStep(StepId::Configure),
                )
            }
        },
    }
}

/// One transition: from a state and the reported outcome to the next state
/// and the next action. A finished run stays finished, whatever is reported.
pub open spec fn transition(state: PipelineState, outcome: StepOutcome) -> (
    PipelineState,
    PipelineAction,
) {
    match state {
        PipelineState::AwaitingRuntime => {
            let r = if outcome == StepOutcome::Success {
                Ok(())
            } else {
                Err(PipelineError::RuntimeFailed)
            };
            (PipelineState::Finished(r), PipelineAction::Finish(r))
        },
        PipelineState::RunningStep(step) => {
            if outcome == StepOutcome::Failure {
                let r = Err(PipelineError::StepFailed(step));
                (PipelineState::Finished(r), PipelineAction::Finish(r))
            } else {
                match next_step(step) {
                    Some(next) => (
                        PipelineState::RunningStep(next),
                        PipelineAction::RunStep(next),
                    ),
                    None => (PipelineState::AwaitingDataflow, PipelineAction::RunDataflow),
                }
            }
        },
        PipelineState::AwaitingDataflow => {
            let r = if outcome == StepOutcome::Success {
                Ok(())
            } else {
                Err(PipelineError::DataflowFailed)
            };
            (PipelineState::Finished(r), PipelineAction::Finish(r))
        },
        PipelineState::Finished(r) => (PipelineState::Finished(r), PipelineAction::Finish(r)),
    }
}

/// The actions a run emits from `state` under the given outcomes, one action
/// per outcome.
pub open spec fn trace_from(state: PipelineState, outcomes: Seq<StepOutcome>) -> Seq<
    PipelineAction,
>
    decreases outcomes.len(),
{
    if outcomes.len() == 0 {
        Seq::empty()
    } else {
        let (next, action) = transition(state, outcomes[0]);
        seq![action] + trace_from(next, outcomes.skip(1))
    }
}

/// Every action a whole run emits: the starting action, then one action per
/// reported outcome.
pub open spec fn pipeline_trace(
    mode: PipelineMode,
    platform_supported: bool,
    outcomes: Seq<StepOutcome>,
) -> Seq<PipelineAction> {
    let (state, action) = start_state(mode, platform_supported);
    seq![action] + trace_from(state, outcomes)
}

/// Begin a run: the initial state and the first action to perform.
pub fn start(mode: PipelineMode, platform_supported: bool) -> (r: (
    PipelineState,
    PipelineAction,
))
    ensures
        r == start_state(mode, platform_supported),
{
    match mode {
        PipelineMode::Runtime => (PipelineState::AwaitingRuntime, PipelineAction::InvokeRuntime),
        PipelineMode::Pipeline => {
            if !platform_supported {
                (PipelineState::Finished(Ok(())), PipelineAction::Finish(Ok(())))
            } else {
                (
                    PipelineState::RunningStep(StepId::Configure),
                    PipelineAction::RunStep(StepId::Configure),
                )
            }
        },
    }
}

/// Report the outcome of the last action: the next state and the next action.
pub fn advance(state: PipelineState, outcome: StepOutcome) -> (r: (
    PipelineState,
    PipelineAction,
))
    ensures
        r == transition(state, outcome),
{
    match state {
        PipelineState::AwaitingRuntime => {
            match outcome {
                StepOutcome::Success => (
                    PipelineState::Finished(Ok(())),
                    PipelineAction::Finish(Ok(())),
                ),
                StepOutcome::Failure => (
                    PipelineState::Finished(Err(PipelineError::RuntimeFailed)),
                    PipelineAction::Finish(Err(PipelineError::RuntimeFailed)),
                ),
            }
        },
        PipelineState::RunningStep(step) => {
            match outcome {
                StepOutcome::Failure => (
                    PipelineState::Finished(Err(PipelineError::StepFailed(step))),
                    PipelineAction::Finish(Err(PipelineError::StepFailed(step))),
                ),
                StepOutcome::Success => {
                    match step {
                        StepId::Configure => (
                            PipelineState::RunningStep(StepId::Build),
                            PipelineAction::RunStep(StepId::Build),
                        ),
                        StepId::Build => (
                            PipelineState::RunningStep(StepId::Install),
                            PipelineAction::RunStep(StepId::Install),
                        ),
                        StepId::Install => (
                            PipelineState::RunningStep(StepId::PackageBuild),
                            PipelineAction::RunStep(StepId::PackageBuild),
                        ),
                        StepId::PackageBuild => (
                            PipelineState::AwaitingDataflow,
                            PipelineAction::RunDataflow,
                        ),
                    }
                },
            }
        },
        PipelineState::AwaitingDataflow => {
            match outcome {
                StepOutcome::Success => (
                    PipelineState::Finished(Ok(())),
                    PipelineAction::Finish(Ok(())),
                ),
                StepOutcome::Failure => (
                    PipelineState::Finished(Err(PipelineError::DataflowFailed)),
                    PipelineAction::Finish(Err(PipelineError::DataflowFailed)),
                ),
            }
        },
        PipelineState::Finished(r) => (PipelineState::Finished(r), PipelineAction::Finish(r)),
    }
}

/// One external-process step: an executable, its arguments in order, and the
/// working directory it runs from.
pub struct BuildStep {
    pub executable: String,
    pub args: Vec<String>,
    pub working_dir: String,
}

/// The executable a step invokes: the build-configuration tool for the
/// configure, build and install steps; the package manager for the package
/// build.
pub open spec fn step_executable(step: StepId, cargo: Seq<char>) -> Seq<char> {
    match step {
        StepId::PackageBuild => cargo,
        _ => "cmake"@,
    }
}

/// The arguments a step passes, in order.
pub open spec fn step_args(step: StepId, root_dir: Seq<char>) -> Seq<Seq<char>> {
    match step {
        StepId::Configure => seq!["-DDORA_ROOT_DIR="@ + root_dir, "-B"@, "build"@, "."@],
        StepId::Build => seq!["--build"@, "build"@],
        StepId::Install => seq!["--install"@, "build"@],
        StepId::PackageBuild => seq!["build"@, "--package"@, "dora-runtime"@],
    }
}

/// The command to run for one external step. `root_dir` is the tool's source
/// root (the configure step points the build tool at it), `cargo` the package
/// manager to invoke, `working_dir` the directory every step runs from.
pub fn step_command(step: StepId, root_dir: &str, cargo: &str, working_dir: &str) -> (c: BuildStep)
    ensures
        c.executable@ == step_executable(step, cargo@),
        c.args.deep_view() == step_args(step, root_dir@),
        c.working_dir@ == working_dir@,
{
    let executable: String = match step {
        StepId::PackageBuild => cargo.to_owned(),
        _ => "cmake".to_owned(),
    };
    let mut args: Vec<String> = Vec::new();
    match step {
        StepId::Configure => {
            let mut root_arg = "-DDORA_ROOT_DIR=".to_owned();
            root_arg.append(root_dir);
            args.push(root_arg);
            args.push("-B".to_owned());
            args.push("build".to_owned());
            args.push(".".to_owned());
        },
        StepId::Build => {
            args.push("--build".to_owned());
            args.push("build".to_owned());
        },
        StepId::Install => {
            args.push("--install".to_owned());
            args.push("build".to_owned());
        },
        StepId::PackageBuild => {
            args.push("build".to_owned());
            args.push("--package".to_owned());
            args.push("dora-runtime".to_owned());
        },
    }
    proof {
        assert(args.deep_view() =~= step_args(step, root_dir@));
    }
    BuildStep { executable, args, working_dir: working_dir.to_owned() }
}

/// The fixed artifact descriptor handed to the dataflow-execution service.
pub fn dataflow_descriptor() -> (d: String)
    ensures
        d@ == "dataflow.yml"@,
{
    "dataflow.yml".to_owned()
}

/// The human-readable name of a step, for diagnostics.
pub open spec fn step_label_text(step: StepId) -> Seq<char> {
    match step {
        StepId::Configure => "configure"@,
        StepId::Build => "build"@,
        StepId::Install => "install"@,
        StepId::PackageBuild => "package build"@,
    }
}

/// The human-readable name of a step, for diagnostics.
pub fn step_label(step: StepId) -> (s: &'static str)
    ensures
        s@ == step_label_text(step),
{
    match step {
        StepId::Configure => "configure",
        StepId::Build => "build",
        StepId::Install => "install",
        StepId::PackageBuild => "package build",
    }
}

/// A run emits exactly one action per reported outcome (plus the starting
/// action).
pub proof fn lemma_trace_len(state: PipelineState, outcomes: Seq<StepOutcome>)
    ensures
        trace_from(state, outcomes).len() == outcomes.len(),
    decreases outcomes.len(),
{
    if outcomes.len() > 0 {
        let (next, _) = transition(state, outcomes[0]);
        lemma_trace_len(next, outcomes.skip(1));
    }
}

/// Law: a finished run is terminal — whatever is reported afterwards, it only
/// ever repeats its result and performs no further work.
pub proof fn lemma_finished_is_terminal(r: Result<(), PipelineError>, outcomes: Seq<StepOutcome>)
    ensures
        forall|i: int|
            0 <= i < trace_from(PipelineState::Finished(r), outcomes).len()
                ==> trace_from(PipelineState::Finished(r), outcomes)[i]
                == PipelineAction::Finish(r),
    decreases outcomes.len(),
{
    if outcomes.len() > 0 {
        lemma_finished_is_terminal(r, outcomes.skip(1));
    }
}

/// Law: whichever step is awaited, a reported failure ends the run at once —
/// every action from then on only repeats the error, which names that step.
pub proof fn lemma_step_failure_is_fail_fast(step: StepId, outcomes: Seq<StepOutcome>)
    requires
        outcomes.len() > 0,
        outcomes[0] == StepOutcome::Failure,
    ensures
        ({
            let tr = trace_from(PipelineState::RunningStep(step), outcomes);
            forall|i: int|
                0 <= i < tr.len() ==> tr[i] == PipelineAction::Finish(
                    Err(PipelineError::StepFailed(step)),
                )
        }),
{
    let err = Err::<(), PipelineError>(PipelineError::StepFailed(step));
    let tr = trace_from(PipelineState::RunningStep(step), outcomes);
    lemma_finished_is_terminal(err, outcomes.skip(1));
    assert forall|i: int| 0 <= i < tr.len() implies tr[i] == PipelineAction::Finish(err) by {
        if i >= 1 {
            assert(tr[i] == trace_from(PipelineState::Finished(err), outcomes.skip(1))[i - 1]);
        }
    }
}

/// Law: if the configure step fails, the build, install, package-build and
/// dataflow steps never run, and the reported error identifies the configure
/// step.
pub proof fn lemma_configure_failure_stops_pipeline(outcomes: Seq<StepOutcome>)
    requires
        outcomes.len() > 0,
        outcomes[0] == StepOutcome::Failure,
    ensures
        ({
            let tr = pipeline_trace(PipelineMode::Pipeline, true, outcomes);
            &&& tr[0] == PipelineAction::RunStep(StepId::Configure)
            &&& forall|i: int|
                1 <= i < tr.len() ==> tr[i] == PipelineAction::Finish(
                    Err(PipelineError::StepFailed(StepId::Configure)),
                )
        }),
{
    let tr = pipeline_trace(PipelineMode::Pipeline, true, outcomes);
    let err = Err::<(), PipelineError>(PipelineError::StepFailed(StepId::Configure));
    let rest = trace_from(PipelineState::RunningStep(StepId::Configure), outcomes);
    assert(rest == seq![PipelineAction::Finish(err)] + trace_from(
        PipelineState::Finished(err),
        outcomes.skip(1),
    ));
    lemma_finished_is_terminal(err, outcomes.skip(1));
    assert forall|i: int| 1 <= i < tr.len() implies tr[i] == PipelineAction::Finish(err) by {
        if i >= 2 {
            assert(tr[i] == trace_from(PipelineState::Finished(err), outcomes.skip(1))[i - 2]);
        }
    }
}

/// Law: runtime mode never triggers any of the external process steps, nor
/// the dataflow hand-off.
pub proof fn lemma_runtime_mode_runs_no_step(platform_supported: bool, outcomes: Seq<StepOutcome>)
    ensures
        ({
            let tr = pipeline_trace(PipelineMode::Runtime, platform_supported, outcomes);
            forall|i: int|
                0 <= i < tr.len() ==> (tr[i] == PipelineAction::InvokeRuntime || tr[i] is Finish)
        }),
{
    let tr = pipeline_trace(PipelineMode::Runtime, platform_supported, outcomes);
    if outcomes.len() > 0 {
        let (next, action) = transition(PipelineState::AwaitingRuntime, outcomes[0]);
        let r = if outcomes[0] == StepOutcome::Success {
            Ok(())
        } else {
            Err(PipelineError::RuntimeFailed)
        };
        assert(next == PipelineState::Finished(r) && action == PipelineAction::Finish(r));
        lemma_finished_is_terminal(r, outcomes.skip(1));
        assert forall|i: int| 0 <= i < tr.len() implies (tr[i] == PipelineAction::InvokeRuntime
            || tr[i] is Finish) by {
            if i >= 2 {
                assert(tr[i] == trace_from(PipelineState::Finished(r), outcomes.skip(1))[i - 2]);
            }
        }
    }
}

/// Law: on the unsupported platform, the pipeline is a successful no-op — it
/// reports success at once and never invokes any external process.
pub proof fn lemma_unsupported_platform_short_circuits(outcomes: Seq<StepOutcome>)
    ensures
        ({
            let tr = pipeline_trace(PipelineMode::Pipeline, false, outcomes);
            forall|i: int|
                0 <= i < tr.len() ==> tr[i] == PipelineAction::Finish(
                    Ok::<(), PipelineError>(()),
                )
        }),
{
    lemma_finished_is_terminal(Ok(()), outcomes);
}

/// Law: when every step succeeds, the pipeline runs its steps strictly in
/// order — configure, build, install, package build, the dataflow hand-off —
/// and then reports success.
pub proof fn lemma_pipeline_success_order(outcomes: Seq<StepOutcome>)
    requires
        outcomes.len() == 5,
        forall|i: int| 0 <= i < outcomes.len() ==> outcomes[i] == StepOutcome::Success,
    ensures
        pipeline_trace(PipelineMode::Pipeline, true, outcomes) =~= seq![
            PipelineAction::RunStep(StepId::Configure),
            PipelineAction::RunStep(StepId::Build),
            PipelineAction::RunStep(StepId::Install),
            PipelineAction::RunStep(StepId::PackageBuild),
            PipelineAction::RunDataflow,
            PipelineAction::Finish(Ok(())),
        ],
{
    let o0 = outcomes;
    let o1 = o0.skip(1);
    let o2 = o1.skip(1);
    let o3 = o2.skip(1);
    let o4 = o3.skip(1);
    let o5 = o4.skip(1);
    assert(o1[0] == o0[1] && o2[0] == o0[2] && o3[0] == o0[3] && o4[0] == o0[4]);
    assert(o5.len() == 0);
    assert(trace_from(PipelineState::Finished(Ok(())), o5) =~= Seq::<PipelineAction>::empty());
    assert(trace_from(PipelineState::AwaitingDataflow, o4) =~= seq![
        PipelineAction::Finish(Ok::<(), PipelineError>(())),
    ]);
    assert(trace_from(PipelineState::RunningStep(StepId::PackageBuild), o3) =~= seq![
        PipelineAction::RunDataflow,
        PipelineAction::Finish(Ok::<(), PipelineError>(())),
    ]);
    assert(trace_from(PipelineState::RunningStep(StepId::Install), o2) =~= seq![
        PipelineAction::RunStep(StepId::PackageBuild),
        PipelineAction::RunDataflow,
        PipelineAction::Finish(Ok::<(), PipelineError>(())),
    ]);
    assert(trace_from(PipelineState::RunningStep(StepId::Build), o1) =~= seq![
        PipelineAction::RunStep(StepId::Install),
        PipelineAction::RunStep(StepId::PackageBuild),
        PipelineAction::RunDataflow,
        PipelineAction::Finish(Ok::<(), PipelineError>(())),
    ]);
    assert(trace_from(PipelineState::RunningStep(StepId::Configure), o0) =~= seq![
        PipelineAction::RunStep(StepId::Build),
        PipelineAction::RunStep(StepId::Install),
        PipelineAction::RunStep(StepId::PackageBuild),
        PipelineAction::RunDataflow,
        PipelineAction::Finish(Ok::<(), PipelineError>(())),
    ]);
}

} // verus!
