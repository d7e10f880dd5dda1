//! The per-target state machine of the orchestrator. Engine I/O is kept
//! outside the library: each transition takes the event the engine
//! answered with and yields the next phase together with the next action
//! the embedding program must perform against the engine. A target runs
//! `Provision → (Pull →) Create → Start → (SessionCreate → SessionRun →
//! CollectLogs)*` and ends in `Finished`, either completed with a result
//! or failed with a target-scoped error. A step's non-zero exit code is
//! recorded, never fatal; an engine failure faults the target.

use vstd::prelude::*;

use crate::model::FailurePolicy;
use crate::model::LocalImage;
use crate::model::LocalImageModel;
use crate::model::LogChunk;
use crate::model::LogChunkModel;
use crate::model::Step;
use crate::model::StepModel;
use crate::model::StepResult;
use crate::model::StepResultModel;
use crate::model::StreamOrigin;
use crate::model::TargetDescriptor;
use crate::model::TargetDescriptorModel;
use crate::model::TargetOutcome;
use crate::model::TargetOutcomeModel;
use crate::model::TargetRunResultModel;
use crate::model::TestError;
use crate::model::TestErrorModel;
use crate::model::spec_descriptor_label;
use crate::model::spec_overall_exit;
use crate::provision::image_present;
use crate::provision::spec_image_present;
use crate::resolve::ResolveFailure;
use crate::resolve::ResolveFailureModel;
use crate::session::build_step_result;
use crate::session::sh_command;
use crate::session::spec_sh_command;
use crate::session::spec_stream_text;
use vstd::pervasive::unreached;

verus! {

// ---------------------------------------------------------------------
// Run configuration and per-target plan
// ---------------------------------------------------------------------

/// Everything fixed for one invocation: the playbook's name, its runnable
/// steps in file order, the automations skipped for missing content, the
/// host configuration of the containers, and the multi-target failure
/// policy.
#[derive(Debug, Clone)]
pub struct RunConfig {
    pub playbook_name: String,
    pub steps: Vec<Step>,
    pub skipped_automations: Vec<String>,
    pub privileged: bool,
    pub policy: FailurePolicy,
}

pub struct RunConfigModel {
    pub playbook_name: Seq<char>,
    pub steps: Seq<StepModel>,
    pub skipped_automations: Seq<Seq<char>>,
    pub privileged: bool,
    pub policy: FailurePolicy,
}

impl View for RunConfig {
    type V = RunConfigModel;

    open spec fn view(&self) -> RunConfigModel {
        RunConfigModel {
            playbook_name: self.playbook_name@,
            steps: self.steps.deep_view(),
            skipped_automations: self.skipped_automations.deep_view(),
            privileged: self.privileged,
            policy: self.policy,
        }
    }
}

/// One requested target, resolved: the descriptor as requested, the
/// resolution it got, and the deterministic container name of its run.
#[derive(Debug)]
pub struct TargetPlan {
    pub descriptor: TargetDescriptor,
    pub resolution: Result<String, ResolveFailure>,
    pub container_name: String,
}

pub struct TargetPlanModel {
    pub descriptor: TargetDescriptorModel,
    pub resolution: Result<Seq<char>, ResolveFailureModel>,
    pub container_name: Seq<char>,
}

impl View for TargetPlan {
    type V = TargetPlanModel;

    open spec fn view(&self) -> TargetPlanModel {
        TargetPlanModel {
            descriptor: self.descriptor@,
            resolution: match &self.resolution {
                Ok(img) => Ok(img@),
                Err(f) => Err(f@),
            },
            container_name: self.container_name@,
        }
    }
}

impl DeepView for TargetPlan {
    type V = TargetPlanModel;

    open spec fn deep_view(&self) -> TargetPlanModel {
        self@
    }
}

// ---------------------------------------------------------------------
// Actions and events
// ---------------------------------------------------------------------

/// What the embedding program must perform next against the container
/// engine.
#[derive(Debug, Clone)]
pub enum EngineAction {
    /// Query the local image inventory.
    ListImages,
    /// Pull the image; the inventory had no entry for it.
    PullImage { image: String },
    /// Create a container from the image under the given name.
    CreateContainer { image: String, name: String, privileged: bool },
    /// Start the created container.
    StartContainer { name: String },
    /// Create an execution session in the container with the command.
    CreateSession { container: String, command: Vec<String> },
    /// Start the created execution session and await its completion.
    StartSession { session: String },
    /// Stream the logs the running step produced, to exhaustion.
    StreamLogs { container: String },
}

pub enum EngineActionModel {
    ListImages,
    PullImage { image: Seq<char> },
    CreateContainer { image: Seq<char>, name: Seq<char>, privileged: bool },
    StartContainer { name: Seq<char> },
    CreateSession { container: Seq<char>, command: Seq<Seq<char>> },
    StartSession { session: Seq<char> },
    StreamLogs { container: Seq<char> },
}

impl View for EngineAction {
    type V = EngineActionModel;

    open spec fn view(&self) -> EngineActionModel {
        match self {
            EngineAction::ListImages => EngineActionModel::ListImages,
            EngineAction::PullImage { image } => EngineActionModel::PullImage { image: image@ },
            EngineAction::CreateContainer { image, name, privileged } => {
                EngineActionModel::CreateContainer {
                    image: image@,
                    name: name@,
                    privileged: *privileged,
                }
            },
            EngineAction::StartContainer { name } => EngineActionModel::StartContainer {
                name: name@,
            },
            EngineAction::CreateSession { container, command } => {
                EngineActionModel::CreateSession {
                    container: container@,
                    command: command.deep_view(),
                }
            },
            EngineAction::StartSession { session } => EngineActionModel::StartSession {
                session: session@,
            },
            EngineAction::StreamLogs { container } => EngineActionModel::StreamLogs {
                container: container@,
            },
        }
    }
}

impl DeepView for EngineAction {
    type V = EngineActionModel;

    open spec fn deep_view(&self) -> EngineActionModel {
        self@
    }
}

/// What the engine answered to the last action.
#[derive(Debug, Clone)]
pub enum EngineEvent {
    InventoryListed { inventory: Vec<LocalImage> },
    InventoryFailed { detail: String },
    PullFinished,
    PullFailed { detail: String },
    ContainerCreated,
    ContainerCreateFailed { detail: String },
    ContainerStarted,
    ContainerStartFailed { detail: String },
    SessionCreated { session: String },
    SessionCreateFailed { detail: String },
    /// The session ran to completion with this exit status.
    SessionCompleted { exit_code: i64 },
    SessionStartFailed { detail: String },
    LogsCollected { chunks: Vec<LogChunk> },
    LogsFailed { detail: String },
}

pub enum EngineEventModel {
    InventoryListed { inventory: Seq<LocalImageModel> },
    InventoryFailed { detail: Seq<char> },
    PullFinished,
    PullFailed { detail: Seq<char> },
    ContainerCreated,
    ContainerCreateFailed { detail: Seq<char> },
    ContainerStarted,
    ContainerStartFailed { detail: Seq<char> },
    SessionCreated { session: Seq<char> },
    SessionCreateFailed { detail: Seq<char> },
    SessionCompleted { exit_code: int },
    SessionStartFailed { detail: Seq<char> },
    LogsCollected { chunks: Seq<LogChunkModel> },
    LogsFailed { detail: Seq<char> },
}

impl View for EngineEvent {
    type V = EngineEventModel;

    open spec fn view(&self) -> EngineEventModel {
        match self {
            EngineEvent::InventoryListed { inventory } => EngineEventModel::InventoryListed {
                inventory: inventory.deep_view(),
            },
            EngineEvent::InventoryFailed { detail } => EngineEventModel::InventoryFailed {
                detail: detail@,
            },
            EngineEvent::PullFinished => EngineEventModel::PullFinished,
            EngineEvent::PullFailed { detail } => EngineEventModel::PullFailed { detail: detail@ },
            EngineEvent::ContainerCreated => EngineEventModel::ContainerCreated,
            EngineEvent::ContainerCreateFailed { detail } => {
                EngineEventModel::ContainerCreateFailed { detail: detail@ }
            },
            EngineEvent::ContainerStarted => EngineEventModel::ContainerStarted,
            EngineEvent::ContainerStartFailed { detail } => {
                EngineEventModel::ContainerStartFailed { detail: detail@ }
            },
            EngineEvent::SessionCreated { session } => EngineEventModel::SessionCreated {
                session: session@,
            },
            EngineEvent::SessionCreateFailed { detail } => EngineEventModel::SessionCreateFailed {
                detail: detail@,
            },
            EngineEvent::SessionCompleted { exit_code } => EngineEventModel::SessionCompleted {
                exit_code: *exit_code as int,
            },
            EngineEvent::SessionStartFailed { detail } => EngineEventModel::SessionStartFailed {
                detail: detail@,
            },
            EngineEvent::LogsCollected { chunks } => EngineEventModel::LogsCollected {
                chunks: chunks.deep_view(),
            },
            EngineEvent::LogsFailed { detail } => EngineEventModel::LogsFailed { detail: detail@ },
        }
    }
}

// ---------------------------------------------------------------------
// Phases
// ---------------------------------------------------------------------

/// Where one target's run stands. The session phases carry the index of
/// the step in flight and the results of the finished steps.
#[derive(Debug, Clone)]
pub enum Phase {
    /// Awaiting the image inventory.
    Provision,
    /// The image was missing; awaiting the pull.
    Pull,
    /// Awaiting container creation.
    Create,
    /// Awaiting the container start.
    Start,
    /// Awaiting creation of the execution session for step `idx`.
    SessionCreate { idx: usize, results: Vec<StepResult> },
    /// Awaiting completion of the running session for step `idx`.
    SessionRun { idx: usize, results: Vec<StepResult> },
    /// Awaiting the logs step `idx` produced.
    CollectLogs { idx: usize, exit_code: i64, results: Vec<StepResult> },
    /// The target's run is over.
    Finished { outcome: TargetOutcome },
}

pub enum PhaseModel {
    Provision,
    Pull,
    Create,
    Start,
    SessionCreate { idx: int, results: Seq<StepResultModel> },
    SessionRun { idx: int, results: Seq<StepResultModel> },
    CollectLogs { idx: int, exit_code: int, results: Seq<StepResultModel> },
    Finished { outcome: TargetOutcomeModel },
}

impl View for Phase {
    type V = PhaseModel;

    open spec fn view(&self) -> PhaseModel {
        match self {
            Phase::Provision => PhaseModel::Provision,
            Phase::Pull => PhaseModel::Pull,
            Phase::Create => PhaseModel::Create,
            Phase::Start => PhaseModel::Start,
            Phase::SessionCreate { idx, results } => PhaseModel::SessionCreate {
                idx: *idx as int,
                results: results.deep_view(),
            },
            Phase::SessionRun { idx, results } => PhaseModel::SessionRun {
                idx: *idx as int,
                results: results.deep_view(),
            },
            Phase::CollectLogs { idx, exit_code, results } => PhaseModel::CollectLogs {
                idx: *idx as int,
                exit_code: *exit_code as int,
                results: results.deep_view(),
            },
            Phase::Finished { outcome } => PhaseModel::Finished { outcome: outcome@ },
        }
    }
}

/// The session phases only ever hold an index into the steps, with one
/// finished result per step already run.
pub open spec fn spec_phase_wf(cfg: RunConfigModel, ph: PhaseModel) -> bool {
    match ph {
        PhaseModel::SessionCreate { idx, results } => 0 <= idx < cfg.steps.len()
            && results.len() == idx,
        PhaseModel::SessionRun { idx, results } => 0 <= idx < cfg.steps.len() && results.len()
            == idx,
        PhaseModel::CollectLogs { idx, exit_code, results } => 0 <= idx < cfg.steps.len()
            && results.len() == idx,
        _ => true,
    }
}

// ---------------------------------------------------------------------
// The transition
// ---------------------------------------------------------------------

pub open spec fn spec_target_label(plan: TargetPlanModel) -> Seq<char> {
    spec_descriptor_label(plan.descriptor)
}

pub open spec fn spec_provision_error(
    cfg: RunConfigModel,
    plan: TargetPlanModel,
    detail: Seq<char>,
) -> TestErrorModel {
    TestErrorModel::ProvisionError {
        playbook: cfg.playbook_name,
        target: spec_target_label(plan),
        detail,
    }
}

pub open spec fn spec_lifecycle_error(
    cfg: RunConfigModel,
    plan: TargetPlanModel,
    detail: Seq<char>,
) -> TestErrorModel {
    TestErrorModel::LifecycleError {
        playbook: cfg.playbook_name,
        target: spec_target_label(plan),
        detail,
    }
}

pub open spec fn spec_exec_error(
    cfg: RunConfigModel,
    plan: TargetPlanModel,
    step_title: Seq<char>,
    detail: Seq<char>,
) -> TestErrorModel {
    TestErrorModel::ExecError {
        playbook: cfg.playbook_name,
        target: spec_target_label(plan),
        step_title,
        detail,
    }
}

/// The error an event that fits no transition of the current phase is
/// answered with: the embedding program broke the action/event protocol.
pub open spec fn spec_protocol_error(
    cfg: RunConfigModel,
    plan: TargetPlanModel,
    step_title: Seq<char>,
) -> TestErrorModel {
    spec_exec_error(cfg, plan, step_title, "unexpected engine event"@)
}

pub open spec fn spec_failed(outcome: TestErrorModel) -> (PhaseModel, Option<EngineActionModel>) {
    (PhaseModel::Finished { outcome: TargetOutcomeModel::Failed(outcome) }, None)
}

/// The action that creates the target's container from its image.
pub open spec fn spec_create_action(
    cfg: RunConfigModel,
    plan: TargetPlanModel,
) -> EngineActionModel {
    EngineActionModel::CreateContainer {
        image: plan.resolution->Ok_0,
        name: plan.container_name,
        privileged: cfg.privileged,
    }
}

/// The action that creates the execution session of step `idx`.
pub open spec fn spec_create_session_action(
    cfg: RunConfigModel,
    plan: TargetPlanModel,
    idx: int,
) -> EngineActionModel {
    EngineActionModel::CreateSession {
        container: plan.container_name,
        command: spec_sh_command(cfg.steps[idx].content),
    }
}

pub open spec fn spec_step_result(
    step: StepModel,
    exit_code: int,
    chunks: Seq<LogChunkModel>,
) -> StepResultModel {
    StepResultModel {
        step_title: step.title,
        exit_code,
        stdout: spec_stream_text(chunks, StreamOrigin::StdOut),
        stderr: spec_stream_text(chunks, StreamOrigin::StdErr),
    }
}

/// The completed outcome of a target whose steps produced `results`.
pub open spec fn spec_completed_outcome(
    cfg: RunConfigModel,
    plan: TargetPlanModel,
    results: Seq<StepResultModel>,
) -> TargetOutcomeModel {
    TargetOutcomeModel::Completed(
        TargetRunResultModel {
            target: spec_target_label(plan),
            container_name: plan.container_name,
            step_results: results,
            overall_exit_code: spec_overall_exit(results),
        },
    )
}

/// One transition of the per-target machine: from the current phase and
/// the engine's event to the next phase and, unless the target is
/// finished, the next engine action. An image already present in the
/// listed inventory goes straight to container creation, with no pull
/// requested; a missing one is pulled first. Engine failures end the
/// target in the matching error of the taxonomy; an event that fits no
/// transition of the phase ends it in a protocol error; a finished target
/// absorbs every further event.
pub open spec fn spec_phase_step(
    cfg: RunConfigModel,
    plan: TargetPlanModel,
    ph: PhaseModel,
    ev: EngineEventModel,
) -> (PhaseModel, Option<EngineActionModel>) {
    match ph {
        PhaseModel::Provision => match ev {
            EngineEventModel::InventoryListed { inventory } => {
                if spec_image_present(inventory, plan.resolution->Ok_0) {
                    (PhaseModel::Create, Some(spec_create_action(cfg, plan)))
                } else {
                    (
                        PhaseModel::Pull,
                        Some(EngineActionModel::PullImage { image: plan.resolution->Ok_0 }),
                    )
                }
            },
            EngineEventModel::InventoryFailed { detail } => spec_failed(
                spec_provision_error(cfg, plan, detail),
            ),
            _ => spec_failed(spec_protocol_error(cfg, plan, Seq::empty())),
        },
        PhaseModel::Pull => match ev {
            EngineEventModel::PullFinished => (
                PhaseModel::Create,
                Some(spec_create_action(cfg, plan)),
            ),
            EngineEventModel::PullFailed { detail } => spec_failed(
                spec_provision_error(cfg, plan, detail),
            ),
            _ => spec_failed(spec_protocol_error(cfg, plan, Seq::empty())),
        },
        PhaseModel::Create => match ev {
            EngineEventModel::ContainerCreated => (
                PhaseModel::Start,
                Some(EngineActionModel::StartContainer { name: plan.container_name }),
            ),
            EngineEventModel::ContainerCreateFailed { detail } => spec_failed(
                spec_lifecycle_error(cfg, plan, detail),
            ),
            _ => spec_failed(spec_protocol_error(cfg, plan, Seq::empty())),
        },
        PhaseModel::Start => match ev {
            EngineEventModel::ContainerStarted => {
                if cfg.steps.len() == 0 {
                    (
                        PhaseModel::Finished {
                            outcome: spec_completed_outcome(cfg, plan, Seq::empty()),
                        },
                        None,
                    )
                } else {
                    (
                        PhaseModel::SessionCreate { idx: 0, results: Seq::empty() },
                        Some(spec_create_session_action(cfg, plan, 0)),
                    )
                }
            },
            EngineEventModel::ContainerStartFailed { detail } => spec_failed(
                spec_lifecycle_error(cfg, plan, detail),
            ),
            _ => spec_failed(spec_protocol_error(cfg, plan, Seq::empty())),
        },
        PhaseModel::SessionCreate { idx, results } => match ev {
            EngineEventModel::SessionCreated { session } => (
                PhaseModel::SessionRun { idx, results },
                Some(EngineActionModel::StartSession { session }),
            ),
            EngineEventModel::SessionCreateFailed { detail } => spec_failed(
                spec_exec_error(cfg, plan, cfg.steps[idx].title, detail),
            ),
            _ => spec_failed(spec_protocol_error(cfg, plan, cfg.steps[idx].title)),
        },
        PhaseModel::SessionRun { idx, results } => match ev {
            EngineEventModel::SessionCompleted { exit_code } => (
                PhaseModel::CollectLogs { idx, exit_code, results },
                Some(EngineActionModel::StreamLogs { container: plan.container_name }),
            ),
            EngineEventModel::SessionStartFailed { detail } => spec_failed(
                spec_exec_error(cfg, plan, cfg.steps[idx].title, detail),
            ),
            _ => spec_failed(spec_protocol_error(cfg, plan, cfg.steps[idx].title)),
        },
        PhaseModel::CollectLogs { idx, exit_code, results } => match ev {
            EngineEventModel::LogsCollected { chunks } => {
                let results2 = results.push(
                    spec_step_result(cfg.steps[idx], exit_code, chunks),
                );
                if idx + 1 < cfg.steps.len() {
                    (
                        PhaseModel::SessionCreate { idx: idx + 1, results: results2 },
                        Some(spec_create_session_action(cfg, plan, idx + 1)),
                    )
                } else {
                    (
                        PhaseModel::Finished {
                            outcome: spec_completed_outcome(cfg, plan, results2),
                        },
                        None,
                    )
                }
            },
            EngineEventModel::LogsFailed { detail } => spec_failed(
                spec_exec_error(cfg, plan, cfg.steps[idx].title, detail),
            ),
            _ => spec_failed(spec_protocol_error(cfg, plan, cfg.steps[idx].title)),
        },
        PhaseModel::Finished { outcome } => (PhaseModel::Finished { outcome }, None),
    }
}

/// The image a resolved plan runs on.
fn plan_image(plan: &TargetPlan) -> (r: String)
    requires
        plan.resolution is Ok,
    ensures
        r@ == plan@.resolution->Ok_0,
{
    match &plan.resolution {
        Ok(img) => img.clone(),
        Err(_) => unreached(),
    }
}

fn target_label_string(plan: &TargetPlan) -> (r: String)
    ensures
        r@ == spec_target_label(plan@),
{
    plan.descriptor.label().clone()
}

fn provision_error(cfg: &RunConfig, plan: &TargetPlan, detail: String) -> (r: TestError)
    ensures
        r@ == spec_provision_error(cfg@, plan@, detail@),
{
    TestError::ProvisionError {
        playbook: cfg.playbook_name.clone(),
        target: target_label_string(plan),
        detail,
    }
}

fn lifecycle_error(cfg: &RunConfig, plan: &TargetPlan, detail: String) -> (r: TestError)
    ensures
        r@ == spec_lifecycle_error(cfg@, plan@, detail@),
{
    TestError::LifecycleError {
        playbook: cfg.playbook_name.clone(),
        target: target_label_string(plan),
        detail,
    }
}

fn exec_error(cfg: &RunConfig, plan: &TargetPlan, step_title: String, detail: String) -> (r:
    TestError)
    ensures
        r@ == spec_exec_error(cfg@, plan@, step_title@, detail@),
{
    TestError::ExecError {
        playbook: cfg.playbook_name.clone(),
        target: target_label_string(plan),
        step_title,
        detail,
    }
}

fn protocol_failure(cfg: &RunConfig, plan: &TargetPlan, step_title: String) -> (r: (
    Phase,
    Option<EngineAction>,
))
    ensures
        (r.0@, r.1.deep_view()) == spec_failed(spec_protocol_error(cfg@, plan@, step_title@)),
{
    let e = exec_error(cfg, plan, step_title, String::from_str("unexpected engine event"));
    (Phase::Finished { outcome: TargetOutcome::Failed(e) }, None)
}

fn failed(e: TestError) -> (r: (Phase, Option<EngineAction>))
    ensures
        (r.0@, r.1.deep_view()) == spec_failed(e@),
{
    (Phase::Finished { outcome: TargetOutcome::Failed(e) }, None)
}

fn create_action(cfg: &RunConfig, plan: &TargetPlan) -> (r: EngineAction)
    requires
        plan.resolution is Ok,
    ensures
        r@ == spec_create_action(cfg@, plan@),
{
    EngineAction::CreateContainer {
        image: plan_image(plan),
        name: plan.container_name.clone(),
        privileged: cfg.privileged,
    }
}

fn create_session_action(cfg: &RunConfig, plan: &TargetPlan, idx: usize) -> (r: EngineAction)
    requires
        idx < cfg.steps.len(),
    ensures
        r@ == spec_create_session_action(cfg@, plan@, idx as int),
{
    EngineAction::CreateSession {
        container: plan.container_name.clone(),
        command: sh_command(cfg.steps[idx].content.as_str()),
    }
}

fn completed(cfg: &RunConfig, plan: &TargetPlan, results: Vec<StepResult>) -> (r: (
    Phase,
    Option<EngineAction>,
))
    ensures
        r.0@ == (PhaseModel::Finished {
            outcome: spec_completed_outcome(cfg@, plan@, results.deep_view()),
        }),
        r.1 is None,
{
    let overall = crate::model::overall_exit_code(&results);
    let result = crate::model::TargetRunResult {
        target: target_label_string(plan),
        container_name: plan.container_name.clone(),
        step_results: results,
        overall_exit_code: overall,
    };
    (Phase::Finished { outcome: TargetOutcome::Completed(result) }, None)
}

/// Performs one transition of the per-target machine.
pub fn phase_step(cfg: &RunConfig, plan: &TargetPlan, ph: Phase, ev: EngineEvent) -> (r: (
    Phase,
    Option<EngineAction>,
))
    requires
        plan.resolution is Ok,
        spec_phase_wf(cfg@, ph@),
    ensures
        (r.0@, r.1.deep_view()) == spec_phase_step(cfg@, plan@, ph@, ev@),
        spec_phase_wf(cfg@, r.0@),
        r.1 is None <==> r.0@ is Finished,
{
    match ph {
        Phase::Provision => match ev {
            EngineEvent::InventoryListed { inventory } => {
                let img = plan_image(plan);
                if image_present(&inventory, img.as_str()) {
                    (Phase::Create, Some(create_action(cfg, plan)))
                } else {
                    (Phase::Pull, Some(EngineAction::PullImage { image: img }))
                }
            },
            EngineEvent::InventoryFailed { detail } => failed(provision_error(cfg, plan, detail)),
            _ => protocol_failure(cfg, plan, String::new()),
        },
        Phase::Pull => match ev {
            EngineEvent::PullFinished => (Phase::Create, Some(create_action(cfg, plan))),
            EngineEvent::PullFailed { detail } => failed(provision_error(cfg, plan, detail)),
            _ => protocol_failure(cfg, plan, String::new()),
        },
        Phase::Create => match ev {
            EngineEvent::ContainerCreated => (
                Phase::Start,
                Some(EngineAction::StartContainer { name: plan.container_name.clone() }),
            ),
            EngineEvent::ContainerCreateFailed { detail } => failed(
                lifecycle_error(cfg, plan, detail),
            ),
            _ => protocol_failure(cfg, plan, String::new()),
        },
        Phase::Start => match ev {
            EngineEvent::ContainerStarted => {
                if cfg.steps.len() == 0 {
                    let results: Vec<StepResult> = Vec::new();
                    proof {
                        assert(results.deep_view() =~= Seq::<StepResultModel>::empty());
                    }
                    completed(cfg, plan, results)
                } else {
                    let results: Vec<StepResult> = Vec::new();
                    proof {
                        assert(results.deep_view() =~= Seq::<StepResultModel>::empty());
                    }
                    let action = create_session_action(cfg, plan, 0);
                    (Phase::SessionCreate { idx: 0, results }, Some(action))
                }
            },
            EngineEvent::ContainerStartFailed { detail } => failed(
                lifecycle_error(cfg, plan, detail),
            ),
            _ => protocol_failure(cfg, plan, String::new()),
        },
        Phase::SessionCreate { idx, results } => match ev {
            EngineEvent::SessionCreated { session } => (
                Phase::SessionRun { idx, results },
                Some(EngineAction::StartSession { session }),
            ),
            EngineEvent::SessionCreateFailed { detail } => failed(
                exec_error(cfg, plan, cfg.steps[idx].title.clone(), detail),
            ),
            _ => protocol_failure(cfg, plan, cfg.steps[idx].title.clone()),
        },
        Phase::SessionRun { idx, results } => match ev {
            EngineEvent::SessionCompleted { exit_code } => (
                Phase::CollectLogs { idx, exit_code, results },
                Some(EngineAction::StreamLogs { container: plan.container_name.clone() }),
            ),
            EngineEvent::SessionStartFailed { detail } => failed(
                exec_error(cfg, plan, cfg.steps[idx].title.clone(), detail),
            ),
            _ => protocol_failure(cfg, plan, cfg.steps[idx].title.clone()),
        },
        Phase::CollectLogs { idx, exit_code, results } => match ev {
            EngineEvent::LogsCollected { chunks } => {
                let n = cfg.steps.len();
                assert(idx < n);
                let step_result = build_step_result(&cfg.steps[idx], exit_code, &chunks);
                let ghost pre_dv = results.deep_view();
                let mut results2 = results;
                results2.push(step_result);
                proof {
                    assert forall|k: int| 0 <= k < results2@.len() implies results2.deep_view()[k]
                        == pre_dv.push(step_result@)[k] by {
                        assert(results2.deep_view()[k] == results2@[k]@);
                    }
                    assert(results2.deep_view() =~= pre_dv.push(step_result@));
                    assert(step_result@ == spec_step_result(
                        cfg@.steps[idx as int],
                        exit_code as int,
                        chunks.deep_view(),
                    ));
                }
                if idx + 1 < n {
                    let action = create_session_action(cfg, plan, idx + 1);
                    (Phase::SessionCreate { idx: idx + 1, results: results2 }, Some(action))
                } else {
                    completed(cfg, plan, results2)
                }
            },
            EngineEvent::LogsFailed { detail } => failed(
                exec_error(cfg, plan, cfg.steps[idx].title.clone(), detail),
            ),
            _ => protocol_failure(cfg, plan, cfg.steps[idx].title.clone()),
        },
        Phase::Finished { outcome } => (Phase::Finished { outcome }, None),
    }
}

} // verus!
