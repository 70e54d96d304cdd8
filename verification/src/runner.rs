//! The tool suite adapter and the tool runner.
//!
//! The suite adapter exposes one tool type through the generic
//! "suite of named tools" interface: enumerate subcommands, attempt to
//! parse a command line into a runnable unit, and redact argument values
//! for safe logging.
//!
//! The runner is a state machine over the phases of one invocation:
//! emitting metadata, or initializing the communication substrate, then
//! resolving each declared field, then running each declared
//! precondition check, then invoking the entry point. The driver
//! performs the outside work each phase calls for (file writes,
//! substrate start-up, field resolution, checks, the entry point) and
//! feeds the outcome back as an event; the machine makes every decision.
//! The gating laws at the bottom prove that the metadata branch never
//! constructs a tool, that a failed check or field blocks the entry
//! point, that every check runs at most once per attempt and all of
//! them exactly once before the entry point runs, and that the first
//! failing step's error becomes the invocation's result verbatim.

use vstd::prelude::*;

use crate::dispatch::{parse_post, CommandInfo, FhoHandler, ToolCommand};
use crate::env::{EnvironmentContext, Ffx};
use crate::errors::FhoError;
use crate::metadata::{metadata_json, FhoToolMetadata, MetadataView};
use crate::strutil::str_eq;
use crate::FhoVersion;

verus! {

/// One tool type's view of the generic multi-tool dispatch surface.
/// Holds only environment-identity data, never live resources, so
/// constructing one is cheap.
#[derive(Debug, Clone)]
pub struct FhoSuite {
    /// The tool's declared subcommand name and description.
    pub info: CommandInfo,
    /// Whether the tool forces stdout into log routing: a static
    /// property of the tool type, known before any instance exists.
    pub forces_stdout_log: bool,
    /// The invoking command-line identity.
    pub ffx: Ffx,
    /// The resolved configuration context.
    pub context: EnvironmentContext,
}

/// A parsed, ready-to-dispatch unit: the command and the static
/// properties the runner needs.
#[derive(Debug, Clone)]
pub struct FhoTool {
    pub command: ToolCommand,
    pub forces_stdout_log: bool,
}

/// The description of the reserved metadata subcommand.
pub open spec fn metadata_description() -> Seq<char> {
    "Print out this subtool's FHO metadata json"@
}

impl FhoSuite {
    /// Builds the suite for one tool from the invocation identity and
    /// configuration context.
    pub fn from_env(info: CommandInfo, forces_stdout_log: bool, ffx: Ffx, context: EnvironmentContext) -> (r: Self)
        ensures
            r.info == info,
            r.forces_stdout_log == forces_stdout_log,
            r.ffx == ffx,
            r.context == context,
    {
        Self { info, forces_stdout_log, ffx, context }
    }

    /// The subcommands this suite exposes: the tool's own, and the
    /// reserved metadata subcommand.
    pub fn global_command_list(&self) -> (r: Vec<CommandInfo>)
        ensures
            r@.len() == 2,
            r@[0].name@ == self.info.name@,
            r@[0].description@ == self.info.description@,
            r@[1].name@ == crate::dispatch::metadata_subcommand(),
            r@[1].description@ == metadata_description(),
    {
        let mut r: Vec<CommandInfo> = Vec::new();
        r.push(
            CommandInfo { name: self.info.name.clone(), description: self.info.description.clone() },
        );
        r.push(
            CommandInfo {
                name: "metadata".to_owned(),
                description: "Print out this subtool's FHO metadata json".to_owned(),
            },
        );
        r
    }

    /// Attempts to parse a command line into a runnable unit. A line
    /// whose first token names neither this tool's subcommand nor
    /// "metadata" is not this suite's to run: it yields `Ok(None)`
    /// ("not mine"), so the outer runner can try another suite. A line
    /// that does match a branch but is malformed (no tokens at all, or
    /// extra metadata arguments) is a usage early-exit.
    pub fn try_from_args(&self, args: &Vec<String>) -> (r: Result<Option<FhoTool>, FhoError>)
        ensures
            args@.len() >= 1 && args@[0]@ != crate::dispatch::metadata_subcommand() && args@[0]@
                != self.info.name@ ==> r == Ok::<Option<FhoTool>, FhoError>(None),
            args@.len() == 0 || (args@.len() >= 1 && (args@[0]@
                == crate::dispatch::metadata_subcommand() || args@[0]@ == self.info.name@))
                ==> match r {
                Ok(Some(t)) => parse_post(self.info.name@, args@, Ok(t.command))
                    && t.forces_stdout_log == self.forces_stdout_log,
                Ok(None) => false,
                Err(e) => parse_post(self.info.name@, args@, Err(e)),
            },
    {
        if args.len() > 0 && !str_eq(args[0].as_str(), "metadata") && !str_eq(
            args[0].as_str(),
            self.info.name.as_str(),
        ) {
            return Ok(None);
        }
        match ToolCommand::from_args(&self.info, args) {
            Ok(command) => Ok(Some(FhoTool { command, forces_stdout_log: self.forces_stdout_log })),
            Err(e) => Err(e),
        }
    }

    /// Redacts argument values for safe logging: subcommand names are
    /// kept, every value after them is replaced by a placeholder.
    pub fn redact_arg_values(&self, args: &Vec<String>) -> (r: Result<Vec<String>, FhoError>)
        ensures
            args@.len() == 0 ==> r is Err,
            args@.len() >= 1 && args@[0]@ == crate::dispatch::metadata_subcommand() && args@.len()
                <= 2 ==> (r matches Ok(v) && v@.len() == args@.len() && v@[0]@
                == crate::dispatch::metadata_subcommand() && (args@.len() == 2 ==> v@[1]@
                == "<output_path>"@)),
            args@.len() >= 1 && args@[0]@ == crate::dispatch::metadata_subcommand() && args@.len()
                >= 3 ==> r is Err,
            args@.len() >= 1 && args@[0]@ != crate::dispatch::metadata_subcommand() && args@[0]@
                == self.info.name@ ==> (r matches Ok(v) && v@.len() == args@.len() && v@[0]@
                == self.info.name@ && (forall|i: int|
                1 <= i < v@.len() ==> #[trigger] v@[i]@ == "<redacted>"@)),
            args@.len() >= 1 && args@[0]@ != crate::dispatch::metadata_subcommand() && args@[0]@
                != self.info.name@ ==> r is Err,
    {
        match ToolCommand::from_args(&self.info, args) {
            Err(e) => Err(e),
            Ok(cmd) => match cmd.subcommand {
                FhoHandler::Metadata(m) => {
                    let mut v: Vec<String> = Vec::new();
                    v.push("metadata".to_owned());
                    if m.output_path.is_some() {
                        v.push("<output_path>".to_owned());
                    }
                    Ok(v)
                },
                FhoHandler::Standalone(rest) => {
                    let mut v: Vec<String> = Vec::new();
                    v.push(self.info.name.clone());
                    let mut i: usize = 0;
                    while i < rest.len()
                        invariant
                            i <= rest@.len(),
                            v@.len() == i + 1,
                            v@[0]@ == self.info.name@,
                            forall|k: int| 1 <= k < v@.len() ==> #[trigger] v@[k]@ == "<redacted>"@,
                        decreases rest@.len() - i,
                    {
                        v.push("<redacted>".to_owned());
                        i = i + 1;
                    }
                    Ok(v)
                },
            },
        }
    }
}

impl FhoTool {
    /// Whether stdout is forced into log routing for this tool type.
    pub fn forces_stdout_log(&self) -> (r: bool)
        ensures
            r == self.forces_stdout_log,
    {
        self.forces_stdout_log
    }
}

/// A tool the framework can construct: it declares its subcommand
/// surface and how to build itself from the environment and its parsed
/// command. Builders resolve each declared field through `TryFromEnv`
/// and run each declared `CheckEnv` precondition, in declaration order,
/// before handing the instance back.
pub trait FfxTool: Sized {
    /// Whether construction succeeds in this environment for this
    /// command.
    spec fn buildable(env: &crate::env::FhoEnvironment, cmd: &Vec<String>) -> bool;

    /// The error a failed construction reports: the first failing
    /// resolution's or check's own error, propagated verbatim.
    spec fn build_err(env: &crate::env::FhoEnvironment, cmd: &Vec<String>) -> FhoError;

    /// Whether stdout is forced into log routing: a static property of
    /// the tool type, queried before any instance exists.
    fn forces_stdout_log() -> bool;

    /// Resolves every declared field from the environment and runs every
    /// declared precondition; the first failure aborts construction.
    fn from_env(env: &crate::env::FhoEnvironment, cmd: Vec<String>) -> (r: Result<Self, FhoError>)
        ensures
            r is Ok <==> Self::buildable(env, &cmd),
            r matches Err(e) ==> e == Self::build_err(env, &cmd),
    ;
}

/// A runnable tool: a constructed instance is consumed exactly once by
/// its entry point, whose result becomes the invocation's result.
pub trait FfxMain: FfxTool {
    /// The tool's entry point.
    fn main(self) -> Result<(), FhoError>;
}

/// Renders the metadata record the metadata branch writes for a tool of
/// this name and description.
pub fn render_metadata(info: &CommandInfo) -> (r: String)
    ensures
        r@ == metadata_json(
            MetadataView {
                name: info.name@,
                description: info.description@,
                requires_fho: 0u64,
                fho_details: FhoVersion::FhoVersion0,
            },
        ),
{
    let record = FhoToolMetadata::new(info.name.clone(), info.description.clone());
    record.to_json()
}

/// How many declared fields and precondition checks one tool type has.
#[derive(Debug, Clone, Copy, PartialEq, Eq, Structural)]
pub struct RunnerPlan {
    pub n_fields: usize,
    pub n_checks: usize,
}

/// The phases of one invocation. Each phase names the one piece of
/// outside work the driver performs next; the event fed back is that
/// work's outcome: `Ok(())`, or the error it failed with.
#[derive(Debug)]
pub enum RunnerPhase {
    /// Write the metadata record to the requested path or stdout.
    EmittingMetadata,
    /// Create the scratch cache directory and start the communication
    /// substrate under the invoking process's build-version fingerprint.
    Initializing,
    /// Resolve declared field number `resolved` from the environment.
    Resolving { resolved: usize },
    /// Run declared precondition check number `checked`.
    Checking { checked: usize },
    /// All fields resolved and all checks passed: invoke the entry point.
    ReadyToRun,
    /// The invocation is over; no further work happens. A failure holds
    /// the failing step's error, propagated verbatim.
    Done { result: Result<(), FhoError> },
}

/// Phase counters stay inside the plan.
pub open spec fn phase_wf(plan: RunnerPlan, s: RunnerPhase) -> bool {
    match s {
        RunnerPhase::Resolving { resolved } => resolved < plan.n_fields,
        RunnerPhase::Checking { checked } => checked < plan.n_checks,
        _ => true,
    }
}

/// The phase after `done` checks have passed.
pub open spec fn advance_checks(plan: RunnerPlan, done: usize) -> RunnerPhase {
    if done < plan.n_checks {
        RunnerPhase::Checking { checked: done }
    } else {
        RunnerPhase::ReadyToRun
    }
}

/// The phase after `done` fields have resolved.
pub open spec fn advance_fields(plan: RunnerPlan, done: usize) -> RunnerPhase {
    if done < plan.n_fields {
        RunnerPhase::Resolving { resolved: done }
    } else {
        advance_checks(plan, 0)
    }
}

/// The whole transition relation of the runner: construction aborts on
/// the first failed resolution or check, whose error becomes the
/// invocation's result verbatim; checks start only after every field
/// resolved, and the entry point runs only from `ReadyToRun`.
pub open spec fn runner_step_spec(
    plan: RunnerPlan,
    s: RunnerPhase,
    outcome: Result<(), FhoError>,
) -> RunnerPhase {
    match s {
        RunnerPhase::EmittingMetadata => RunnerPhase::Done { result: outcome },
        RunnerPhase::Initializing => if outcome is Ok {
            advance_fields(plan, 0)
        } else {
            RunnerPhase::Done { result: outcome }
        },
        RunnerPhase::Resolving { resolved } => if outcome is Ok {
            advance_fields(plan, (resolved + 1) as usize)
        } else {
            RunnerPhase::Done { result: outcome }
        },
        RunnerPhase::Checking { checked } => if outcome is Ok {
            advance_checks(plan, (checked + 1) as usize)
        } else {
            RunnerPhase::Done { result: outcome }
        },
        RunnerPhase::ReadyToRun => RunnerPhase::Done { result: outcome },
        RunnerPhase::Done { result } => RunnerPhase::Done { result },
    }
}

/// The first phase for a parsed command: the metadata branch never
/// enters construction, the standalone branch always attempts it.
pub fn runner_start(cmd: &ToolCommand) -> (r: RunnerPhase)
    ensures
        cmd.subcommand matches FhoHandler::Metadata(_) ==> r == RunnerPhase::EmittingMetadata,
        cmd.subcommand matches FhoHandler::Standalone(_) ==> r == RunnerPhase::Initializing,
{
    match &cmd.subcommand {
        FhoHandler::Metadata(_) => RunnerPhase::EmittingMetadata,
        FhoHandler::Standalone(_) => RunnerPhase::Initializing,
    }
}

/// Advances the runner by the outcome of the phase's outside work.
pub fn runner_step(plan: &RunnerPlan, s: RunnerPhase, outcome: Result<(), FhoError>) -> (r:
    RunnerPhase)
    requires
        phase_wf(*plan, s),
    ensures
        r == runner_step_spec(*plan, s, outcome),
        phase_wf(*plan, r),
{
    match s {
        RunnerPhase::EmittingMetadata => RunnerPhase::Done { result: outcome },
        RunnerPhase::Initializing => match outcome {
            Ok(_) => if plan.n_fields > 0 {
                RunnerPhase::Resolving { resolved: 0 }
            } else if plan.n_checks > 0 {
                RunnerPhase::Checking { checked: 0 }
            } else {
                RunnerPhase::ReadyToRun
            },
            Err(e) => RunnerPhase::Done { result: Err(e) },
        },
        RunnerPhase::Resolving { resolved } => match outcome {
            Ok(_) => if resolved + 1 < plan.n_fields {
                RunnerPhase::Resolving { resolved: resolved + 1 }
            } else if plan.n_checks > 0 {
                RunnerPhase::Checking { checked: 0 }
            } else {
                RunnerPhase::ReadyToRun
            },
            Err(e) => RunnerPhase::Done { result: Err(e) },
        },
        RunnerPhase::Checking { checked } => match outcome {
            Ok(_) => if checked + 1 < plan.n_checks {
                RunnerPhase::Checking { checked: checked + 1 }
            } else {
                RunnerPhase::ReadyToRun
            },
            Err(e) => RunnerPhase::Done { result: Err(e) },
        },
        RunnerPhase::ReadyToRun => RunnerPhase::Done { result: outcome },
        RunnerPhase::Done { result } => RunnerPhase::Done { result },
    }
}

/// What one run of the machine did: the final phase and how many times
/// each kind of outside work was performed.
pub struct RunTally {
    pub end: RunnerPhase,
    pub fields_resolved: nat,
    pub checks_run: nat,
    pub tool_runs: nat,
    pub metadata_writes: nat,
}

/// Runs the machine over a sequence of work outcomes, counting the work
/// performed: stepping out of a phase means its work was done once.
pub open spec fn runner_run(
    plan: RunnerPlan,
    s: RunnerPhase,
    events: Seq<Result<(), FhoError>>,
) -> RunTally
    decreases events.len(),
{
    if events.len() == 0 {
        RunTally { end: s, fields_resolved: 0, checks_run: 0, tool_runs: 0, metadata_writes: 0 }
    } else {
        let t = runner_run(plan, runner_step_spec(plan, s, events[0]), events.skip(1));
        RunTally {
            end: t.end,
            fields_resolved: t.fields_resolved + (if s is Resolving {
                1nat
            } else {
                0nat
            }),
            checks_run: t.checks_run + (if s is Checking {
                1nat
            } else {
                0nat
            }),
            tool_runs: t.tool_runs + (if s is ReadyToRun {
                1nat
            } else {
                0nat
            }),
            metadata_writes: t.metadata_writes + (if s is EmittingMetadata {
                1nat
            } else {
                0nat
            }),
        }
    }
}

/// A finished invocation stays finished: no further work of any kind,
/// and the terminal result never changes.
pub proof fn lemma_done_absorbs(
    plan: RunnerPlan,
    result: Result<(), FhoError>,
    events: Seq<Result<(), FhoError>>,
)
    ensures
        runner_run(plan, RunnerPhase::Done { result }, events) == (RunTally {
            end: RunnerPhase::Done { result },
            fields_resolved: 0nat,
            checks_run: 0nat,
            tool_runs: 0nat,
            metadata_writes: 0nat,
        }),
    decreases events.len(),
{
    if events.len() > 0 {
        lemma_done_absorbs(plan, result, events.skip(1));
    }
}

/// LAW OF THE METADATA BRANCH: an invocation dispatched to the metadata
/// branch never resolves a field, never runs a precondition check and
/// never invokes the entry point, whatever happens.
pub proof fn lemma_metadata_never_constructs(plan: RunnerPlan, events: Seq<Result<(), FhoError>>)
    ensures
        runner_run(plan, RunnerPhase::EmittingMetadata, events).fields_resolved == 0,
        runner_run(plan, RunnerPhase::EmittingMetadata, events).checks_run == 0,
        runner_run(plan, RunnerPhase::EmittingMetadata, events).tool_runs == 0,
{
    if events.len() > 0 {
        lemma_done_absorbs(plan, events[0], events.skip(1));
    }
}

/// The checks a phase still allows before the entry point.
pub open spec fn checks_remaining(plan: RunnerPlan, s: RunnerPhase) -> nat {
    match s {
        RunnerPhase::Initializing => plan.n_checks as nat,
        RunnerPhase::Resolving { .. } => plan.n_checks as nat,
        RunnerPhase::Checking { checked } => (plan.n_checks - checked) as nat,
        _ => 0,
    }
}

/// The checks a phase has already passed.
pub open spec fn checks_done(plan: RunnerPlan, s: RunnerPhase) -> nat {
    match s {
        RunnerPhase::Checking { checked } => checked as nat,
        RunnerPhase::ReadyToRun => plan.n_checks as nat,
        _ => 0,
    }
}

/// LAW OF GATING: from any well-formed phase, the machine never runs
/// more checks than the phase still allows, never invokes the entry
/// point twice, performs nothing after the metadata branch or the end,
/// and invokes the entry point only once every declared check has run
/// and passed.
pub proof fn lemma_runner_counts(
    plan: RunnerPlan,
    s: RunnerPhase,
    events: Seq<Result<(), FhoError>>,
)
    requires
        phase_wf(plan, s),
    ensures
        runner_run(plan, s, events).checks_run <= checks_remaining(plan, s),
        runner_run(plan, s, events).tool_runs <= 1,
        s is Done || s is EmittingMetadata ==> runner_run(plan, s, events).tool_runs == 0
            && runner_run(plan, s, events).checks_run == 0 && runner_run(
            plan,
            s,
            events,
        ).fields_resolved == 0,
        runner_run(plan, s, events).tool_runs == 1 ==> checks_done(plan, s) + runner_run(
            plan,
            s,
            events,
        ).checks_run == plan.n_checks,
    decreases events.len(),
{
    if events.len() > 0 {
        let next = runner_step_spec(plan, s, events[0]);
        assert(phase_wf(plan, next));
        lemma_runner_counts(plan, next, events.skip(1));
    }
}

/// LAW OF THE FAILING CHECK: a precondition check that fails is counted
/// exactly once, ends the invocation with that check's own error, and
/// the entry point never runs.
pub proof fn lemma_failing_check_gates(
    plan: RunnerPlan,
    checked: usize,
    events: Seq<Result<(), FhoError>>,
)
    requires
        checked < plan.n_checks,
        events.len() >= 1,
        events[0] is Err,
    ensures
        runner_run(plan, RunnerPhase::Checking { checked }, events).end == (RunnerPhase::Done {
            result: events[0],
        }),
        runner_run(plan, RunnerPhase::Checking { checked }, events).checks_run == 1,
        runner_run(plan, RunnerPhase::Checking { checked }, events).tool_runs == 0,
{
    lemma_done_absorbs(plan, events[0], events.skip(1));
}

/// LAW OF VERBATIM PROPAGATION: whichever step fails first — metadata
/// write, initialization, a field resolution, a check, or the entry
/// point itself — its error becomes the invocation's terminal result,
/// unchanged.
pub proof fn lemma_failure_propagates_verbatim(
    plan: RunnerPlan,
    s: RunnerPhase,
    events: Seq<Result<(), FhoError>>,
)
    requires
        !(s is Done),
        events.len() >= 1,
        events[0] is Err,
    ensures
        runner_run(plan, s, events).end == (RunnerPhase::Done { result: events[0] }),
{
    lemma_done_absorbs(plan, events[0], events.skip(1));
}

/// LAW OF CONSTRUCTION: a standalone invocation runs at most the
/// declared number of checks, invokes the entry point at most once, and
/// when the entry point does run, every declared check ran first.
pub proof fn lemma_standalone_gating(plan: RunnerPlan, events: Seq<Result<(), FhoError>>)
    ensures
        runner_run(plan, RunnerPhase::Initializing, events).checks_run <= plan.n_checks,
        runner_run(plan, RunnerPhase::Initializing, events).tool_runs <= 1,
        runner_run(plan, RunnerPhase::Initializing, events).tool_runs == 1 ==> runner_run(
            plan,
            RunnerPhase::Initializing,
            events,
        ).checks_run == plan.n_checks,
{
    lemma_runner_counts(plan, RunnerPhase::Initializing, events);
}

} // verus!
