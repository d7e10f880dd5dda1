//! The orchestrator over a whole invocation: it validates the manifest,
//! resolves every requested target up front, then runs the targets one at
//! a time through the per-target machine, recording one outcome per
//! target in request order. The embedding program drives it in a loop:
//! `start` yields the first engine action; each `deliver` hands back the
//! engine's event and yields the next action, until none is left and the
//! report is complete. A target that fails resolution is recorded as
//! failed without a single engine action. After a failed target the
//! default policy carries on with the remaining targets and aggregates;
//! the fail-fast policy stops the invocation instead.

use vstd::prelude::*;

use crate::manifest::flatten_steps;
use crate::manifest::container_name;
use crate::manifest::spec_container_name;
use crate::manifest::spec_flatten_steps;
use crate::manifest::spec_skipped_names;
use crate::manifest::validate_manifest;
use crate::model::FailurePolicy;
use crate::model::ManifestDoc;
use crate::model::TargetDescriptor;
use crate::model::TargetDescriptorModel;
use crate::model::TargetOutcome;
use crate::model::TargetOutcomeModel;
use crate::model::TestError;
use crate::model::TestErrorModel;
use crate::model::TestReport;
use crate::model::aggregate;
use crate::model::spec_descriptor_label;
use crate::orchestrate::EngineAction;
use crate::orchestrate::EngineActionModel;
use crate::orchestrate::EngineEvent;
use crate::orchestrate::Phase;
use crate::orchestrate::PhaseModel;
use crate::orchestrate::RunConfig;
use crate::orchestrate::RunConfigModel;
use crate::orchestrate::TargetPlan;
use crate::orchestrate::TargetPlanModel;
use crate::orchestrate::phase_step;
use crate::orchestrate::spec_phase_step;
use crate::orchestrate::spec_phase_wf;
use crate::orchestrate::spec_target_label;
use crate::resolve::AliasEntry;
use crate::resolve::AliasEntryModel;
use crate::resolve::ResolveFailure;
use crate::resolve::ResolveFailureModel;
use crate::resolve::resolve;
use crate::resolve::spec_resolve;
use vstd::pervasive::arbitrary;
use vstd::pervasive::unreached;

verus! {

// ---------------------------------------------------------------------
// Plans
// ---------------------------------------------------------------------

/// The plan one requested target gets before anything runs: its
/// resolution against the alias table (the playbook's `env` hint plays no
/// part once a descriptor was given) and its container name.
pub open spec fn spec_plan_of(
    playbook: Seq<char>,
    table: Seq<AliasEntryModel>,
    d: TargetDescriptorModel,
) -> TargetPlanModel {
    TargetPlanModel {
        descriptor: d,
        resolution: spec_resolve(Some(d), None, table),
        container_name: spec_container_name(playbook, spec_descriptor_label(d)),
    }
}

/// The plans of all requested targets, in request order.
pub open spec fn spec_plans_of(
    playbook: Seq<char>,
    table: Seq<AliasEntryModel>,
    targets: Seq<TargetDescriptorModel>,
) -> Seq<TargetPlanModel> {
    Seq::new(targets.len(), |i: int| spec_plan_of(playbook, table, targets[i]))
}

/// The error a target that failed resolution is recorded with.
pub open spec fn spec_resolve_error(playbook: Seq<char>, plan: TargetPlanModel) -> TestErrorModel {
    match plan.resolution {
        Err(ResolveFailureModel::UnknownOs { alias }) => TestErrorModel::UnknownOs {
            playbook,
            target: alias,
        },
        _ => TestErrorModel::UnknownOs { playbook, target: spec_target_label(plan) },
    }
}

// ---------------------------------------------------------------------
// The orchestrator
// ---------------------------------------------------------------------

pub struct OrchestratorModel {
    pub config: RunConfigModel,
    pub plans: Seq<TargetPlanModel>,
    pub idx: int,
    pub phase: PhaseModel,
    pub awaiting: bool,
    pub halted: bool,
    pub outcomes: Seq<TargetOutcomeModel>,
}

/// Runs one playbook against the requested targets, one target at a time.
#[derive(Debug)]
pub struct Orchestrator {
    config: RunConfig,
    plans: Vec<TargetPlan>,
    idx: usize,
    phase: Phase,
    awaiting: bool,
    halted: bool,
    outcomes: Vec<TargetOutcome>,
}

impl View for Orchestrator {
    type V = OrchestratorModel;

    closed spec fn view(&self) -> OrchestratorModel {
        OrchestratorModel {
            config: self.config@,
            plans: self.plans.deep_view(),
            idx: self.idx as int,
            phase: self.phase@,
            awaiting: self.awaiting,
            halted: self.halted,
            outcomes: self.outcomes.deep_view(),
        }
    }
}

/// The orchestrator's well-formedness: the target index stays in range,
/// and while an engine event is owed, the current target is resolved and
/// its phase is a live, well-formed machine phase.
pub open spec fn spec_orch_wf(o: OrchestratorModel) -> bool {
    &&& 0 <= o.idx <= o.plans.len()
    &&& (o.awaiting ==> {
        &&& o.idx < o.plans.len()
        &&& o.plans[o.idx].resolution is Ok
        &&& spec_phase_wf(o.config, o.phase)
        &&& !(o.phase is Finished)
        &&& !o.halted
    })
}

/// The run is over: no event is owed and either every target was handled
/// or the fail-fast policy stopped the invocation.
pub open spec fn spec_complete(o: OrchestratorModel) -> bool {
    !o.awaiting && (o.halted || o.idx >= o.plans.len())
}

/// What advancing past the unresolved targets does: each one is recorded
/// as failed (stopping at the first under fail-fast), until a resolved
/// target begins provisioning with an inventory query, or no target is
/// left.
pub struct PumpModel {
    pub idx: int,
    pub outcomes: Seq<TargetOutcomeModel>,
    pub halted: bool,
    pub action: Option<EngineActionModel>,
}

pub open spec fn spec_pump(
    plans: Seq<TargetPlanModel>,
    playbook: Seq<char>,
    policy: FailurePolicy,
    idx: int,
    outcomes: Seq<TargetOutcomeModel>,
) -> PumpModel
    decreases plans.len() - idx,
    when 0 <= idx <= plans.len()
{
    if idx >= plans.len() {
        PumpModel { idx, outcomes, halted: false, action: None }
    } else if plans[idx].resolution is Ok {
        PumpModel { idx, outcomes, halted: false, action: Some(EngineActionModel::ListImages) }
    } else {
        let outcomes2 = outcomes.push(
            TargetOutcomeModel::Failed(spec_resolve_error(playbook, plans[idx])),
        );
        if policy is FailFast {
            PumpModel { idx: idx + 1, outcomes: outcomes2, halted: true, action: None }
        } else {
            spec_pump(plans, playbook, policy, idx + 1, outcomes2)
        }
    }
}

/// What recording a finished target and moving on does: its outcome is
/// appended; under fail-fast a failed outcome stops the invocation, and
/// otherwise the pump advances to the next target.
pub open spec fn spec_record_and_pump(
    plans: Seq<TargetPlanModel>,
    playbook: Seq<char>,
    policy: FailurePolicy,
    idx: int,
    outcomes: Seq<TargetOutcomeModel>,
    outcome: TargetOutcomeModel,
) -> PumpModel {
    let outcomes2 = outcomes.push(outcome);
    if outcome is Failed && policy is FailFast {
        PumpModel { idx: idx + 1, outcomes: outcomes2, halted: true, action: None }
    } else {
        spec_pump(plans, playbook, policy, idx + 1, outcomes2)
    }
}

/// The outcome a finished phase carries.
pub open spec fn spec_finished_outcome(ph: PhaseModel) -> TargetOutcomeModel {
    match ph {
        PhaseModel::Finished { outcome } => outcome,
        _ => arbitrary(),
    }
}

fn resolve_error(playbook: &String, plan: &TargetPlan) -> (r: TestError)
    requires
        !(plan.resolution is Ok),
    ensures
        r@ == spec_resolve_error(playbook@, plan@),
{
    match &plan.resolution {
        Err(ResolveFailure::UnknownOs { alias }) => TestError::UnknownOs {
            playbook: playbook.clone(),
            target: alias.clone(),
        },
        Err(ResolveFailure::NoTargetGiven) => TestError::UnknownOs {
            playbook: playbook.clone(),
            target: plan.descriptor.label().clone(),
        },
        Ok(_) => unreached(),
    }
}

impl Orchestrator {
    /// Prepares an invocation: validates the manifest (a manifest without
    /// an `automations` key is a configuration error, raised here, before
    /// any engine action exists to be requested), flattens the runnable
    /// steps, and resolves every requested target against the alias
    /// table.
    #[verifier::loop_isolation(false)]
    pub fn new(
        doc: ManifestDoc,
        requested_name: &String,
        targets: Vec<TargetDescriptor>,
        table: &Vec<AliasEntry>,
        policy: FailurePolicy,
        privileged: bool,
    ) -> (r: Result<Orchestrator, TestError>)
        ensures
            r is Err <==> doc@.automations is None,
            match r {
                Err(e) => e@ == (TestErrorModel::ConfigError {
                    playbook: requested_name@,
                    detail: "the manifest has no automations key"@,
                }),
                Ok(o) => {
                    &&& spec_orch_wf(o@)
                    &&& !o@.awaiting
                    &&& !o@.halted
                    &&& o@.idx == 0
                    &&& o@.outcomes.len() == 0
                    &&& o@.config.policy == policy
                    &&& o@.config.privileged == privileged
                    &&& o@.config.playbook_name == (match doc@.name {
                        Some(n) => n,
                        None => requested_name@,
                    })
                    &&& o@.config.steps == spec_flatten_steps(doc@.automations->Some_0)
                    &&& o@.config.skipped_automations == spec_skipped_names(
                        doc@.automations->Some_0,
                    )
                    &&& o@.plans == spec_plans_of(
                        o@.config.playbook_name,
                        table.deep_view(),
                        targets.deep_view(),
                    )
                },
            },
    {
        let playbook = match validate_manifest(doc, requested_name) {
            Ok(p) => p,
            Err(e) => {
                return Err(e);
            },
        };
        let (steps, skipped) = flatten_steps(&playbook);
        let ghost pb = playbook@.name;
        let ghost tv = table.deep_view();
        let ghost td = targets.deep_view();
        let mut plans: Vec<TargetPlan> = Vec::new();
        let mut i: usize = 0;
        while i < targets.len()
            invariant
                i <= targets.len(),
                tv == table.deep_view(),
                td == targets.deep_view(),
                pb == playbook@.name,
                plans.deep_view() =~= spec_plans_of(pb, tv, td.take(i as int)),
            decreases targets.len() - i,
        {
            let d = &targets[i];
            let resolution = resolve(Some(d), None, table);
            let cname = container_name(playbook.name.as_str(), d.label().as_str());
            let plan = TargetPlan { descriptor: d.duplicate(), resolution, container_name: cname };
            proof {
                assert(plan@ == spec_plan_of(pb, tv, td[i as int]));
            }
            let ghost pre_dv = plans.deep_view();
            plans.push(plan);
            proof {
                assert forall|k: int| 0 <= k < plans@.len() implies plans.deep_view()[k]
                    == spec_plans_of(pb, tv, td.take(i as int + 1))[k] by {
                    assert(plans.deep_view()[k] == plans@[k]@);
                    if k < i {
                        assert(plans@[k]@ == pre_dv[k]);
                    }
                }
                assert(plans.deep_view() =~= spec_plans_of(pb, tv, td.take(i as int + 1)));
            }
            i = i + 1;
        }
        proof {
            assert(td.take(i as int) =~= td);
        }
        let config = RunConfig {
            playbook_name: playbook.name,
            steps,
            skipped_automations: skipped,
            privileged,
            policy,
        };
        Ok(
            Orchestrator {
                config,
                plans,
                idx: 0,
                phase: Phase::Provision,
                awaiting: false,
                halted: false,
                outcomes: Vec::new(),
            },
        )
    }

    /// The invocation's fixed configuration.
    pub fn run_config(&self) -> (r: &RunConfig)
        ensures
            r@ == self@.config,
    {
        &self.config
    }

    /// The per-target plans, in request order.
    pub fn plans(&self) -> (r: &Vec<TargetPlan>)
        ensures
            r.deep_view() == self@.plans,
    {
        &self.plans
    }

    /// Whether the run is over and the report complete.
    pub fn is_complete(&self) -> (r: bool)
        ensures
            r == spec_complete(self@),
    {
        !self.awaiting && (self.halted || self.idx >= self.plans.len())
    }

    /// Advances past unresolved targets and begins the next resolved one.
    #[verifier::loop_isolation(false)]
    fn pump(&mut self) -> (r: Option<EngineAction>)
        requires
            spec_orch_wf(old(self)@),
            !old(self)@.awaiting,
            !old(self)@.halted,
        ensures
            final(self)@.config == old(self)@.config,
            final(self)@.plans == old(self)@.plans,
            spec_orch_wf(final(self)@),
            ({
                let p = spec_pump(
                    old(self)@.plans,
                    old(self)@.config.playbook_name,
                    old(self)@.config.policy,
                    old(self)@.idx,
                    old(self)@.outcomes,
                );
                &&& final(self)@.idx == p.idx
                &&& final(self)@.outcomes == p.outcomes
                &&& final(self)@.halted == p.halted
                &&& r.deep_view() == p.action
                &&& final(self)@.awaiting == (p.action is Some)
                &&& (p.action is Some ==> final(self)@.phase == PhaseModel::Provision)
            }),
    {
        let ghost plans0 = self@.plans;
        let ghost cfg0 = self@.config;
        let ghost p0 = spec_pump(
            plans0,
            cfg0.playbook_name,
            cfg0.policy,
            self@.idx,
            self@.outcomes,
        );
        while self.idx < self.plans.len()
            invariant
                self@.config == cfg0,
                self@.plans == plans0,
                self.idx <= self.plans.len(),
                !self.awaiting,
                !self.halted,
                spec_pump(plans0, cfg0.playbook_name, cfg0.policy, self@.idx, self@.outcomes)
                    == p0,
            decreases self.plans.len() - self.idx,
        {
            if self.plans[self.idx].resolution.is_ok() {
                self.phase = Phase::Provision;
                self.awaiting = true;
                return Some(EngineAction::ListImages);
            }
            let e = resolve_error(&self.config.playbook_name, &self.plans[self.idx]);
            let ghost pre_dv = self.outcomes.deep_view();
            self.outcomes.push(TargetOutcome::Failed(e));
            proof {
                assert forall|k: int| 0 <= k < self.outcomes@.len() implies
                    self.outcomes.deep_view()[k] == pre_dv.push(
                    TargetOutcomeModel::Failed(
                        spec_resolve_error(cfg0.playbook_name, plans0[self.idx as int]),
                    ),
                )[k] by {
                    assert(self.outcomes.deep_view()[k] == self.outcomes@[k]@);
                }
                assert(self.outcomes.deep_view() =~= pre_dv.push(
                    TargetOutcomeModel::Failed(
                        spec_resolve_error(cfg0.playbook_name, plans0[self.idx as int]),
                    ),
                ));
            }
            self.idx = self.idx + 1;
            if let FailurePolicy::FailFast = self.config.policy {
                self.halted = true;
                return None;
            }
        }
        None
    }

    /// Begins the run: the first engine action, or nothing when no target
    /// needs the engine.
    pub fn start(&mut self) -> (r: Option<EngineAction>)
        requires
            spec_orch_wf(old(self)@),
            !old(self)@.awaiting,
            !old(self)@.halted,
        ensures
            final(self)@.config == old(self)@.config,
            final(self)@.plans == old(self)@.plans,
            spec_orch_wf(final(self)@),
            ({
                let p = spec_pump(
                    old(self)@.plans,
                    old(self)@.config.playbook_name,
                    old(self)@.config.policy,
                    old(self)@.idx,
                    old(self)@.outcomes,
                );
                &&& final(self)@.idx == p.idx
                &&& final(self)@.outcomes == p.outcomes
                &&& final(self)@.halted == p.halted
                &&& r.deep_view() == p.action
                &&& final(self)@.awaiting == (p.action is Some)
                &&& (p.action is Some ==> final(self)@.phase == PhaseModel::Provision)
            }),
    {
        self.pump()
    }

    /// Hands the machine the engine's answer to the last action and gets
    /// the next action, or nothing once the run is over.
    pub fn deliver(&mut self, ev: EngineEvent) -> (r: Option<EngineAction>)
        requires
            spec_orch_wf(old(self)@),
            old(self)@.awaiting,
        ensures
            final(self)@.config == old(self)@.config,
            final(self)@.plans == old(self)@.plans,
            spec_orch_wf(final(self)@),
            ({
                let (ph2, act) = spec_phase_step(
                    old(self)@.config,
                    old(self)@.plans[old(self)@.idx],
                    old(self)@.phase,
                    ev@,
                );
                match act {
                    Some(a) => {
                        &&& r.deep_view() == Some(a)
                        &&& final(self)@.phase == ph2
                        &&& final(self)@.idx == old(self)@.idx
                        &&& final(self)@.outcomes == old(self)@.outcomes
                        &&& final(self)@.awaiting
                        &&& !final(self)@.halted
                    },
                    None => {
                        let p = spec_record_and_pump(
                            old(self)@.plans,
                            old(self)@.config.playbook_name,
                            old(self)@.config.policy,
                            old(self)@.idx,
                            old(self)@.outcomes,
                            spec_finished_outcome(ph2),
                        );
                        &&& final(self)@.idx == p.idx
                        &&& final(self)@.outcomes == p.outcomes
                        &&& final(self)@.halted == p.halted
                        &&& r.deep_view() == p.action
                        &&& final(self)@.awaiting == (p.action is Some)
                        &&& (p.action is Some ==> final(self)@.phase == PhaseModel::Provision)
                    },
                }
            }),
    {
        let mut ph = Phase::Provision;
        core::mem::swap(&mut ph, &mut self.phase);
        let (ph2, act) = phase_step(&self.config, &self.plans[self.idx], ph, ev);
        match act {
            Some(a) => {
                self.phase = ph2;
                Some(a)
            },
            None => {
                let outcome = match ph2 {
                    Phase::Finished { outcome } => outcome,
                    _ => unreached(),
                };
                let failed = if let TargetOutcome::Failed(_) = &outcome {
                    true
                } else {
                    false
                };
                let ghost outcome_m = outcome@;
                self.awaiting = false;
                let ghost pre_dv = self.outcomes.deep_view();
                self.outcomes.push(outcome);
                proof {
                    assert forall|k: int| 0 <= k < self.outcomes@.len() implies
                        self.outcomes.deep_view()[k] == pre_dv.push(outcome_m)[k] by {
                        assert(self.outcomes.deep_view()[k] == self.outcomes@[k]@);
                    }
                    assert(self.outcomes.deep_view() =~= pre_dv.push(outcome_m));
                }
                let n = self.plans.len();
                assert(self.idx < n);
                self.idx = self.idx + 1;
                let fail_fast = if let FailurePolicy::FailFast = self.config.policy {
                    true
                } else {
                    false
                };
                if failed && fail_fast {
                    self.halted = true;
                    None
                } else {
                    self.pump()
                }
            },
        }
    }

    /// The finished report: one outcome per requested target, in request
    /// order (under fail-fast, per target handled before the stop).
    pub fn into_report(self) -> (r: TestReport)
        requires
            spec_complete(self@),
        ensures
            r@.entries == self@.outcomes,
    {
        aggregate(self.outcomes)
    }
}

} // verus!
