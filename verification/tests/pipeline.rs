use dora_cli::pipeline::{
    advance, dataflow_descriptor, start, step_command, step_label, PipelineAction, PipelineError,
    PipelineMode, PipelineState, StepId, StepOutcome,
};

/// Drive a run to its end, reporting `outcome` for every action that asks for
/// one, and collect every action the runner emits.
fn drive(mode: PipelineMode, platform_supported: bool, outcome: StepOutcome) -> Vec<PipelineAction> {
    let (mut state, mut action) = start(mode, platform_supported);
    let mut actions = vec![action];
    loop {
        match action {
            PipelineAction::Finish(_) => return actions,
            _ => {
                let (next_state, next_action) = advance(state, outcome);
                state = next_state;
                action = next_action;
                actions.push(action);
            }
        }
    }
}

#[test]
fn configure_failure_stops_pipeline() {
    let (state, action) = start(PipelineMode::Pipeline, true);
    assert_eq!(action, PipelineAction::RunStep(StepId::Configure));

    let (state, action) = advance(state, StepOutcome::Failure);
    let err = Err(PipelineError::StepFailed(StepId::Configure));
    assert_eq!(action, PipelineAction::Finish(err));
    assert_eq!(state, PipelineState::Finished(err));

    // Whatever is reported afterwards, no further step is asked for.
    let (_, action) = advance(state, StepOutcome::Success);
    assert_eq!(action, PipelineAction::Finish(err));
}

#[test]
fn first_failure_is_the_reported_step() {
    let actions = drive(PipelineMode::Pipeline, true, StepOutcome::Failure);
    assert_eq!(
        actions,
        vec![
            PipelineAction::RunStep(StepId::Configure),
            PipelineAction::Finish(Err(PipelineError::StepFailed(StepId::Configure))),
        ]
    );
}

#[test]
fn runtime_mode_runs_no_external_step() {
    let actions = drive(PipelineMode::Runtime, true, StepOutcome::Success);
    assert_eq!(
        actions,
        vec![PipelineAction::InvokeRuntime, PipelineAction::Finish(Ok(()))]
    );
}

#[test]
fn runtime_mode_failure_is_reported() {
    let actions = drive(PipelineMode::Runtime, true, StepOutcome::Failure);
    assert_eq!(
        actions,
        vec![
            PipelineAction::InvokeRuntime,
            PipelineAction::Finish(Err(PipelineError::RuntimeFailed)),
        ]
    );
}

#[test]
fn unsupported_platform_is_successful_noop() {
    let actions = drive(PipelineMode::Pipeline, false, StepOutcome::Success);
    assert_eq!(actions, vec![PipelineAction::Finish(Ok(()))]);
}

#[test]
fn successful_pipeline_runs_steps_in_order() {
    let actions = drive(PipelineMode::Pipeline, true, StepOutcome::Success);
    assert_eq!(
        actions,
        vec![
            PipelineAction::RunStep(StepId::Configure),
            PipelineAction::RunStep(StepId::Build),
            PipelineAction::RunStep(StepId::Install),
            PipelineAction::RunStep(StepId::PackageBuild),
            PipelineAction::RunDataflow,
            PipelineAction::Finish(Ok(())),
        ]
    );
}

#[test]
fn dataflow_failure_is_reported() {
    let (mut state, _) = start(PipelineMode::Pipeline, true);
    for _ in 0..4 {
        let (next, _) = advance(state, StepOutcome::Success);
        state = next;
    }
    assert_eq!(state, PipelineState::AwaitingDataflow);
    let (state, action) = advance(state, StepOutcome::Failure);
    assert_eq!(state, PipelineState::Finished(Err(PipelineError::DataflowFailed)));
    assert_eq!(
        action,
        PipelineAction::Finish(Err(PipelineError::DataflowFailed))
    );
}

#[test]
fn configure_command_points_build_tool_at_root() {
    let c = step_command(StepId::Configure, "/opt/src/tool", "cargo", "/opt/src/tool/work");
    assert_eq!(c.executable, "cmake");
    assert_eq!(
        c.args,
        vec![
            "-DDORA_ROOT_DIR=/opt/src/tool".to_string(),
            "-B".to_string(),
            "build".to_string(),
            ".".to_string(),
        ]
    );
    assert_eq!(c.working_dir, "/opt/src/tool/work");
}

#[test]
fn build_and_install_commands() {
    let b = step_command(StepId::Build, "/r", "cargo", "/w");
    assert_eq!(b.executable, "cmake");
    assert_eq!(b.args, vec!["--build".to_string(), "build".to_string()]);

    let i = step_command(StepId::Install, "/r", "cargo", "/w");
    assert_eq!(i.executable, "cmake");
    assert_eq!(i.args, vec!["--install".to_string(), "build".to_string()]);
}

#[test]
fn package_build_uses_the_package_manager() {
    let c = step_command(StepId::PackageBuild, "/r", "/usr/bin/cargo", "/w");
    assert_eq!(c.executable, "/usr/bin/cargo");
    assert_eq!(
        c.args,
        vec![
            "build".to_string(),
            "--package".to_string(),
            "dora-runtime".to_string(),
        ]
    );
}

#[test]
fn fixed_dataflow_descriptor() {
    assert_eq!(dataflow_descriptor(), "dataflow.yml");
}

#[test]
fn step_labels_name_the_steps() {
    assert_eq!(step_label(StepId::Configure), "configure");
    assert_eq!(step_label(StepId::Build), "build");
    assert_eq!(step_label(StepId::Install), "install");
    assert_eq!(step_label(StepId::PackageBuild), "package build");
}
