use fho::dispatch::{CommandInfo, FhoHandler, ToolCommand};
use fho::env::{ConfigEntry, EnvironmentContext, Ffx, FhoEnvironment};
use fho::errors::FhoError;
use fho::resolution::{AvailabilityFlag, BuildVersion, CheckEnv, TryFromEnv};
use fho::runner::{
    render_metadata, runner_start, runner_step, FhoSuite, RunnerPhase, RunnerPlan,
};

fn fake_info() -> CommandInfo {
    CommandInfo { name: "fake".to_string(), description: "fake command".to_string() }
}

fn fake_env(flag_value: Option<bool>) -> FhoEnvironment {
    let mut flags = Vec::new();
    if let Some(v) = flag_value {
        flags.push(ConfigEntry { key: "fake.experimental".to_string(), value: v });
    }
    FhoEnvironment {
        ffx: Ffx { command_path: vec!["ffx".to_string()] },
        context: EnvironmentContext {
            flags,
            cache_path: "/cache".to_string(),
            build_version: "build-2026".to_string(),
            default_target: None,
        },
    }
}

fn fake_suite() -> FhoSuite {
    let env = fake_env(None);
    FhoSuite::from_env(fake_info(), true, env.ffx, env.context)
}

fn tokens(v: &[&str]) -> Vec<String> {
    let mut out = Vec::new();
    for s in v {
        out.push(s.to_string());
    }
    out
}

/// Drives one standalone construction attempt against the runner state
/// machine, performing the real field resolutions and checks, and
/// reports how often each kind of work ran.
struct Attempt {
    end: RunnerPhase,
    checks_run: usize,
    fields_resolved: usize,
    entry_runs: usize,
}

fn drive_standalone(env: &FhoEnvironment, plan: RunnerPlan) -> Attempt {
    let cmd = ToolCommand::from_args(&fake_info(), &tokens(&["fake", "stuff"])).expect("parse");
    assert!(matches!(cmd.subcommand, FhoHandler::Standalone(_)));
    let mut phase = runner_start(&cmd);
    let mut checks_run = 0;
    let mut fields_resolved = 0;
    let mut entry_runs = 0;
    loop {
        let event: Result<(), FhoError> = match phase {
            RunnerPhase::Initializing => Ok(()),
            RunnerPhase::Resolving { .. } => {
                fields_resolved += 1;
                BuildVersion::try_from_env(env).map(|_| ())
            },
            RunnerPhase::Checking { .. } => {
                checks_run += 1;
                AvailabilityFlag("fake.experimental".to_string()).check_env(env)
            },
            RunnerPhase::ReadyToRun => {
                entry_runs += 1;
                Ok(())
            },
            RunnerPhase::EmittingMetadata => panic!("standalone dispatch entered metadata mode"),
            RunnerPhase::Done { .. } => break,
        };
        phase = runner_step(&plan, phase, event);
    }
    Attempt { end: phase, checks_run, fields_resolved, entry_runs }
}

#[test]
fn failing_precheck_blocks_entry_and_is_counted_once() {
    let env = fake_env(Some(false));
    let a = drive_standalone(&env, RunnerPlan { n_fields: 1, n_checks: 1 });
    assert_eq!(a.checks_run, 1, "the failing check must run exactly once");
    assert_eq!(a.entry_runs, 0, "the entry point must never run after a failed check");
    match a.end {
        RunnerPhase::Done { result: Err(FhoError::FlagDisabled { flag }) } => {
            assert_eq!(flag, "fake.experimental", "the check's own error must propagate verbatim");
        },
        _ => panic!("a failed check must end the invocation with that check's error"),
    }
}

#[test]
fn passing_precheck_runs_exactly_once_then_entry() {
    let env = fake_env(Some(true));
    let a = drive_standalone(&env, RunnerPlan { n_fields: 1, n_checks: 1 });
    assert_eq!(a.checks_run, 1, "a passing check must run exactly once per attempt");
    assert_eq!(a.fields_resolved, 1);
    assert_eq!(a.entry_runs, 1);
    assert!(matches!(a.end, RunnerPhase::Done { result: Ok(()) }));
}

#[test]
fn checks_run_only_after_all_fields_resolve() {
    let env = fake_env(Some(true));
    let a = drive_standalone(&env, RunnerPlan { n_fields: 3, n_checks: 2 });
    assert_eq!(a.fields_resolved, 3);
    assert_eq!(a.checks_run, 2);
    assert_eq!(a.entry_runs, 1);
}

#[test]
fn metadata_dispatch_never_constructs_or_checks() {
    let cmd = ToolCommand::from_args(&fake_info(), &tokens(&["metadata"])).expect("parse");
    let plan = RunnerPlan { n_fields: 2, n_checks: 1 };
    let mut phase = runner_start(&cmd);
    assert!(matches!(phase, RunnerPhase::EmittingMetadata));
    let mut construction_work = 0;
    for _ in 0..4 {
        match phase {
            RunnerPhase::Resolving { .. }
            | RunnerPhase::Checking { .. }
            | RunnerPhase::ReadyToRun
            | RunnerPhase::Initializing => construction_work += 1,
            _ => {},
        }
        phase = runner_step(&plan, phase, Ok(()));
    }
    assert_eq!(construction_work, 0, "the metadata branch must never attempt construction");
    assert!(matches!(phase, RunnerPhase::Done { result: Ok(()) }));
}

#[test]
fn standalone_dispatch_always_attempts_construction() {
    let cmd = ToolCommand::from_args(&fake_info(), &tokens(&["fake", "stuff"])).expect("parse");
    assert!(matches!(runner_start(&cmd), RunnerPhase::Initializing));
}

#[test]
fn initialization_failure_propagates_its_error_verbatim() {
    let plan = RunnerPlan { n_fields: 1, n_checks: 1 };
    let phase = runner_step(&plan, RunnerPhase::Initializing, Err(FhoError::LocatorUnavailable));
    assert!(matches!(phase, RunnerPhase::Done { result: Err(FhoError::LocatorUnavailable) }));
}

#[test]
fn failing_field_resolution_aborts_before_checks_with_its_error() {
    let plan = RunnerPlan { n_fields: 2, n_checks: 1 };
    let phase = runner_step(
        &plan,
        RunnerPhase::Resolving { resolved: 0 },
        Err(FhoError::NoDefaultTarget),
    );
    assert!(matches!(phase, RunnerPhase::Done { result: Err(FhoError::NoDefaultTarget) }));
}

#[test]
fn suite_lists_both_subcommands() {
    let list = fake_suite().global_command_list();
    assert_eq!(list.len(), 2);
    assert_eq!(list[0].name, "fake");
    assert_eq!(list[0].description, "fake command");
    assert_eq!(list[1].name, "metadata");
    assert_eq!(list[1].description, "Print out this subtool's FHO metadata json");
}

#[test]
fn suite_parses_and_reports_static_log_routing() {
    let tool =
        fake_suite().try_from_args(&tokens(&["fake", "stuff"])).expect("parse").expect("runnable");
    assert!(tool.forces_stdout_log());
    assert!(matches!(tool.command.subcommand, FhoHandler::Standalone(_)));
}

#[test]
fn suite_says_not_mine_for_a_foreign_command_line() {
    let r = fake_suite().try_from_args(&tokens(&["other", "stuff"]));
    assert!(
        matches!(r, Ok(None)),
        "a line matching neither branch must be \"not mine\", not an error"
    );
}

#[test]
fn suite_errors_on_a_malformed_matching_line() {
    assert!(fake_suite().try_from_args(&tokens(&[])).is_err());
    assert!(fake_suite().try_from_args(&tokens(&["metadata", "a", "b"])).is_err());
}

#[test]
fn redaction_hides_argument_values() {
    let v = fake_suite().redact_arg_values(&tokens(&["fake", "secret", "hunter2"])).expect("redact");
    assert_eq!(v, tokens(&["fake", "<redacted>", "<redacted>"]));
}

#[test]
fn redaction_hides_the_metadata_output_path() {
    let v = fake_suite().redact_arg_values(&tokens(&["metadata", "/tmp/x.json"])).expect("redact");
    assert_eq!(v, tokens(&["metadata", "<output_path>"]));
    let bare = fake_suite().redact_arg_values(&tokens(&["metadata"])).expect("redact");
    assert_eq!(bare, tokens(&["metadata"]));
}

#[test]
fn rendered_metadata_matches_the_record() {
    let text = render_metadata(&fake_info());
    let back = fho::metadata::FhoToolMetadata::from_json(&text).expect("parse");
    assert_eq!(back.name, "fake");
    assert_eq!(back.description, "fake command");
    assert_eq!(back.requires_fho, 0);
}
