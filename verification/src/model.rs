//! Data model of the playbook test orchestrator: playbooks and their
//! automation steps, per-step and per-target results, the error taxonomy,
//! and the mathematical view of each type that the contracts speak of.

use vstd::prelude::*;

verus! {

// ---------------------------------------------------------------------
// Playbook structure
// ---------------------------------------------------------------------

/// One shell command plus metadata; executed once per target run.
#[derive(Debug, Clone)]
pub struct Step {
    pub title: String,
    pub description: Option<String>,
    pub runner: String,
    pub approval_message: Option<String>,
    /// The shell command the step runs.
    pub content: String,
}

pub struct StepModel {
    pub title: Seq<char>,
    pub description: Option<Seq<char>>,
    pub runner: Seq<char>,
    pub approval_message: Option<Seq<char>>,
    pub content: Seq<char>,
}

impl View for Step {
    type V = StepModel;

    open spec fn view(&self) -> StepModel {
        StepModel {
            title: self.title@,
            description: self.description.deep_view(),
            runner: self.runner@,
            approval_message: self.approval_message.deep_view(),
            content: self.content@,
        }
    }
}

impl DeepView for Step {
    type V = StepModel;

    open spec fn deep_view(&self) -> StepModel {
        self@
    }
}

/// The body of an automation: a description, an optional target-OS hint,
/// and the ordered steps to run.
#[derive(Debug, Clone)]
pub struct AutomationContent {
    pub description: String,
    /// When present, the authoritative target-OS hint of the automation.
    pub env: Option<String>,
    pub steps: Vec<Step>,
}

pub struct AutomationContentModel {
    pub description: Seq<char>,
    pub env: Option<Seq<char>>,
    pub steps: Seq<StepModel>,
}

impl View for AutomationContent {
    type V = AutomationContentModel;

    open spec fn view(&self) -> AutomationContentModel {
        AutomationContentModel {
            description: self.description@,
            env: self.env.deep_view(),
            steps: self.steps.deep_view(),
        }
    }
}

impl DeepView for AutomationContent {
    type V = AutomationContentModel;

    open spec fn deep_view(&self) -> AutomationContentModel {
        self@
    }
}

/// A titled unit within a playbook. An automation without content is
/// skipped with a warning, never an error.
#[derive(Debug, Clone)]
pub struct Automation {
    pub name: String,
    pub content: Option<AutomationContent>,
}

pub struct AutomationModel {
    pub name: Seq<char>,
    pub content: Option<AutomationContentModel>,
}

impl View for Automation {
    type V = AutomationModel;

    open spec fn view(&self) -> AutomationModel {
        AutomationModel { name: self.name@, content: self.content.deep_view() }
    }
}

impl DeepView for Automation {
    type V = AutomationModel;

    open spec fn deep_view(&self) -> AutomationModel {
        self@
    }
}

/// A playbook manifest as it comes off the wire, before validation: the
/// `automations` key may be absent, which validation turns into a
/// configuration error.
#[derive(Debug, Clone)]
pub struct ManifestDoc {
    pub name: Option<String>,
    pub automations: Option<Vec<Automation>>,
}

pub struct ManifestDocModel {
    pub name: Option<Seq<char>>,
    pub automations: Option<Seq<AutomationModel>>,
}

impl View for ManifestDoc {
    type V = ManifestDocModel;

    open spec fn view(&self) -> ManifestDocModel {
        ManifestDocModel {
            name: self.name.deep_view(),
            automations: self.automations.deep_view(),
        }
    }
}

/// A validated playbook: a name and its automations.
#[derive(Debug, Clone)]
pub struct Playbook {
    pub name: String,
    pub automations: Vec<Automation>,
}

pub struct PlaybookModel {
    pub name: Seq<char>,
    pub automations: Seq<AutomationModel>,
}

impl View for Playbook {
    type V = PlaybookModel;

    open spec fn view(&self) -> PlaybookModel {
        PlaybookModel { name: self.name@, automations: self.automations.deep_view() }
    }
}

// ---------------------------------------------------------------------
// Targets
// ---------------------------------------------------------------------

/// What the caller asks a playbook to be tested on: a canonical OS alias
/// to be looked up in the alias table, or an explicit image reference,
/// which always wins resolution.
#[derive(Debug, Clone, PartialEq, Eq)]
pub enum TargetDescriptor {
    OsAlias(String),
    Image(String),
}

pub enum TargetDescriptorModel {
    OsAlias(Seq<char>),
    Image(Seq<char>),
}

impl View for TargetDescriptor {
    type V = TargetDescriptorModel;

    open spec fn view(&self) -> TargetDescriptorModel {
        match self {
            TargetDescriptor::OsAlias(a) => TargetDescriptorModel::OsAlias(a@),
            TargetDescriptor::Image(i) => TargetDescriptorModel::Image(i@),
        }
    }
}

impl DeepView for TargetDescriptor {
    type V = TargetDescriptorModel;

    open spec fn deep_view(&self) -> TargetDescriptorModel {
        self@
    }
}

/// The string a target descriptor shows in names and error reports.
pub open spec fn spec_descriptor_label(d: TargetDescriptorModel) -> Seq<char> {
    match d {
        TargetDescriptorModel::OsAlias(a) => a,
        TargetDescriptorModel::Image(i) => i,
    }
}

impl TargetDescriptor {
    pub fn label(&self) -> (r: &String)
        ensures
            r@ == spec_descriptor_label(self@),
    {
        match self {
            TargetDescriptor::OsAlias(a) => a,
            TargetDescriptor::Image(i) => i,
        }
    }

    /// A field-for-field copy of the descriptor.
    pub fn duplicate(&self) -> (r: TargetDescriptor)
        ensures
            r == *self,
    {
        match self {
            TargetDescriptor::OsAlias(a) => TargetDescriptor::OsAlias(a.clone()),
            TargetDescriptor::Image(i) => TargetDescriptor::Image(i.clone()),
        }
    }
}

/// One entry of the local image inventory, as the engine reports it.
#[derive(Debug, Clone, PartialEq, Eq)]
pub struct LocalImage {
    pub repository: String,
    pub tag: String,
}

pub struct LocalImageModel {
    pub repository: Seq<char>,
    pub tag: Seq<char>,
}

impl View for LocalImage {
    type V = LocalImageModel;

    open spec fn view(&self) -> LocalImageModel {
        LocalImageModel { repository: self.repository@, tag: self.tag@ }
    }
}

impl DeepView for LocalImage {
    type V = LocalImageModel;

    open spec fn deep_view(&self) -> LocalImageModel {
        self@
    }
}

// ---------------------------------------------------------------------
// Logs
// ---------------------------------------------------------------------

/// Which standard stream a log chunk came from.
#[derive(Debug, Clone, Copy, PartialEq, Eq, Structural)]
pub enum StreamOrigin {
    StdOut,
    StdErr,
}

/// One tagged chunk of output captured while a step runs.
#[derive(Debug, Clone)]
pub struct LogChunk {
    pub origin: StreamOrigin,
    pub text: String,
}

pub struct LogChunkModel {
    pub origin: StreamOrigin,
    pub text: Seq<char>,
}

impl View for LogChunk {
    type V = LogChunkModel;

    open spec fn view(&self) -> LogChunkModel {
        LogChunkModel { origin: self.origin, text: self.text@ }
    }
}

impl DeepView for LogChunk {
    type V = LogChunkModel;

    open spec fn deep_view(&self) -> LogChunkModel {
        self@
    }
}

// ---------------------------------------------------------------------
// Results
// ---------------------------------------------------------------------

/// The outcome of one executed step.
#[derive(Debug, Clone)]
pub struct StepResult {
    pub step_title: String,
    pub exit_code: i64,
    pub stdout: String,
    pub stderr: String,
}

pub struct StepResultModel {
    pub step_title: Seq<char>,
    pub exit_code: int,
    pub stdout: Seq<char>,
    pub stderr: Seq<char>,
}

impl View for StepResult {
    type V = StepResultModel;

    open spec fn view(&self) -> StepResultModel {
        StepResultModel {
            step_title: self.step_title@,
            exit_code: self.exit_code as int,
            stdout: self.stdout@,
            stderr: self.stderr@,
        }
    }
}

impl DeepView for StepResult {
    type V = StepResultModel;

    open spec fn deep_view(&self) -> StepResultModel {
        self@
    }
}

/// Everything one completed target run produced.
#[derive(Debug, Clone)]
pub struct TargetRunResult {
    pub target: String,
    pub container_name: String,
    pub step_results: Vec<StepResult>,
    pub overall_exit_code: i64,
}

pub struct TargetRunResultModel {
    pub target: Seq<char>,
    pub container_name: Seq<char>,
    pub step_results: Seq<StepResultModel>,
    pub overall_exit_code: int,
}

impl View for TargetRunResult {
    type V = TargetRunResultModel;

    open spec fn view(&self) -> TargetRunResultModel {
        TargetRunResultModel {
            target: self.target@,
            container_name: self.container_name@,
            step_results: self.step_results.deep_view(),
            overall_exit_code: self.overall_exit_code as int,
        }
    }
}

// ---------------------------------------------------------------------
// Errors
// ---------------------------------------------------------------------

/// The error taxonomy. Every surfaced error carries the playbook name,
/// the target it concerns and, where one applies, the step title.
#[derive(Debug, Clone)]
pub enum TestError {
    /// The manifest is missing or a required field is absent.
    ConfigError { playbook: String, detail: String },
    /// An alias was not found in the alias table and no explicit image
    /// was given.
    UnknownOs { playbook: String, target: String },
    /// Listing the image inventory or pulling the image failed.
    ProvisionError { playbook: String, target: String, detail: String },
    /// Creating or starting the container failed.
    LifecycleError { playbook: String, target: String, detail: String },
    /// An execution session could not be created or started, or log
    /// retrieval failed irrecoverably.
    ExecError { playbook: String, target: String, step_title: String, detail: String },
}

pub enum TestErrorModel {
    ConfigError { playbook: Seq<char>, detail: Seq<char> },
    UnknownOs { playbook: Seq<char>, target: Seq<char> },
    ProvisionError { playbook: Seq<char>, target: Seq<char>, detail: Seq<char> },
    LifecycleError { playbook: Seq<char>, target: Seq<char>, detail: Seq<char> },
    ExecError { playbook: Seq<char>, target: Seq<char>, step_title: Seq<char>, detail: Seq<char> },
}

impl View for TestError {
    type V = TestErrorModel;

    open spec fn view(&self) -> TestErrorModel {
        match self {
            TestError::ConfigError { playbook, detail } => TestErrorModel::ConfigError {
                playbook: playbook@,
                detail: detail@,
            },
            TestError::UnknownOs { playbook, target } => TestErrorModel::UnknownOs {
                playbook: playbook@,
                target: target@,
            },
            TestError::ProvisionError { playbook, target, detail } => {
                TestErrorModel::ProvisionError {
                    playbook: playbook@,
                    target: target@,
                    detail: detail@,
                }
            },
            TestError::LifecycleError { playbook, target, detail } => {
                TestErrorModel::LifecycleError {
                    playbook: playbook@,
                    target: target@,
                    detail: detail@,
                }
            },
            TestError::ExecError { playbook, target, step_title, detail } => {
                TestErrorModel::ExecError {
                    playbook: playbook@,
                    target: target@,
                    step_title: step_title@,
                    detail: detail@,
                }
            },
        }
    }
}

/// How one requested target ended: completed with a result (individual
/// steps may still have exited non-zero), or failed before or during the
/// run with a target-scoped fatal error.
#[derive(Debug, Clone)]
pub enum TargetOutcome {
    Completed(TargetRunResult),
    Failed(TestError),
}

pub enum TargetOutcomeModel {
    Completed(TargetRunResultModel),
    Failed(TestErrorModel),
}

impl View for TargetOutcome {
    type V = TargetOutcomeModel;

    open spec fn view(&self) -> TargetOutcomeModel {
        match self {
            TargetOutcome::Completed(r) => TargetOutcomeModel::Completed(r@),
            TargetOutcome::Failed(e) => TargetOutcomeModel::Failed(e@),
        }
    }
}

impl DeepView for TargetOutcome {
    type V = TargetOutcomeModel;

    open spec fn deep_view(&self) -> TargetOutcomeModel {
        self@
    }
}

/// What a multi-target invocation does after one target fails: run the
/// remaining targets and aggregate (the default), or stop at once.
#[derive(Debug, Clone, Copy, PartialEq, Eq, Structural)]
pub enum FailurePolicy {
    ContinueAndAggregate,
    FailFast,
}

// ---------------------------------------------------------------------
// Report
// ---------------------------------------------------------------------

/// The ordered report of a whole invocation: one outcome per requested
/// target, in request order.
#[derive(Debug, Clone)]
pub struct TestReport {
    pub entries: Vec<TargetOutcome>,
}

pub struct TestReportModel {
    pub entries: Seq<TargetOutcomeModel>,
}

impl View for TestReport {
    type V = TestReportModel;

    open spec fn view(&self) -> TestReportModel {
        TestReportModel { entries: self.entries.deep_view() }
    }
}

/// Whether the invocation as a whole reports failure: it does exactly
/// when some target failed.
pub open spec fn spec_report_failed(entries: Seq<TargetOutcomeModel>) -> bool {
    exists|i: int| 0 <= i < entries.len() && entries[i] is Failed
}

impl TestReport {
    /// The invocation's overall status: failure exactly when some target
    /// failed.
    pub fn failed(&self) -> (r: bool)
        ensures
            r == spec_report_failed(self@.entries),
    {
        let mut i: usize = 0;
        while i < self.entries.len()
            invariant
                i <= self.entries.len(),
                forall|k: int| 0 <= k < i ==> !(self@.entries[k] is Failed),
            decreases self.entries.len() - i,
        {
            if let TargetOutcome::Failed(_) = &self.entries[i] {
                assert(self@.entries[i as int] is Failed);
                return true;
            }
            i = i + 1;
        }
        false
    }
}

/// Assembles per-target outcomes into the final report. Pure assembly:
/// the entries are the outcomes, in the order given (request order).
pub fn aggregate(outcomes: Vec<TargetOutcome>) -> (r: TestReport)
    ensures
        r@.entries == outcomes.deep_view(),
{
    TestReport { entries: outcomes }
}

/// The overall exit code recorded for a completed target run: the first
/// non-zero step exit code, or zero when every step exited zero.
pub open spec fn spec_overall_exit(results: Seq<StepResultModel>) -> int
    decreases results.len(),
{
    if results.len() == 0 {
        0
    } else if results[0].exit_code != 0 {
        results[0].exit_code
    } else {
        spec_overall_exit(results.skip(1))
    }
}

/// Computes the overall exit code of a finished target run.
pub fn overall_exit_code(results: &Vec<StepResult>) -> (r: i64)
    ensures
        r as int == spec_overall_exit(results.deep_view()),
{
    let ghost all = results.deep_view();
    proof {
        assert(all.skip(0) =~= all);
    }
    let mut i: usize = 0;
    while i < results.len()
        invariant
            i <= results.len(),
            all == results.deep_view(),
            spec_overall_exit(all.skip(i as int)) == spec_overall_exit(all),
            forall|k: int| 0 <= k < i ==> all[k].exit_code == 0,
        decreases results.len() - i,
    {
        if results[i].exit_code != 0 {
            assert(all.skip(i as int)[0] == all[i as int]);
            return results[i].exit_code;
        }
        assert(all.skip(i as int).skip(1) =~= all.skip(i as int + 1));
        assert(all.skip(i as int)[0] == all[i as int]);
        i = i + 1;
    }
    assert(all.skip(i as int).len() == 0);
    0
}

} // verus!
