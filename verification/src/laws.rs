//! The library's laws: what holds of resolution, of provisioning, and of
//! whole traces of the per-target machine, proved once and for all
//! inputs. A trace here is the run of the machine over a sequence of
//! engine events, together with every action it requests along the way.

use vstd::prelude::*;

use crate::driver::spec_pump;
use crate::model::TargetDescriptorModel;
use crate::model::TargetOutcomeModel;
use crate::orchestrate::EngineActionModel;
use crate::orchestrate::EngineEventModel;
use crate::orchestrate::PhaseModel;
use crate::orchestrate::RunConfigModel;
use crate::orchestrate::TargetPlanModel;
use crate::orchestrate::spec_completed_outcome;
use crate::orchestrate::spec_create_action;
use crate::orchestrate::spec_create_session_action;
use crate::orchestrate::spec_phase_step;
use crate::resolve::AliasEntryModel;
use crate::resolve::ResolveFailureModel;
use crate::resolve::spec_default_alias_table;
use crate::resolve::spec_lookup;
use crate::resolve::spec_resolve;

verus! {

// ---------------------------------------------------------------------
// Traces of the per-target machine
// ---------------------------------------------------------------------

pub open spec fn spec_opt_seq(a: Option<EngineActionModel>) -> Seq<EngineActionModel> {
    match a {
        Some(x) => seq![x],
        None => seq![],
    }
}

/// The machine run over a whole event sequence: the final phase and every
/// action requested along the way, in order.
pub open spec fn spec_run_trace(
    cfg: RunConfigModel,
    plan: TargetPlanModel,
    ph: PhaseModel,
    evs: Seq<EngineEventModel>,
) -> (PhaseModel, Seq<EngineActionModel>)
    decreases evs.len(),
{
    if evs.len() == 0 {
        (ph, seq![])
    } else {
        let (ph1, act) = spec_phase_step(cfg, plan, ph, evs[0]);
        let (phf, acts) = spec_run_trace(cfg, plan, ph1, evs.skip(1));
        (phf, spec_opt_seq(act) + acts)
    }
}

/// A finished target absorbs every further event and requests nothing
/// more.
pub proof fn lemma_finished_absorbs(
    cfg: RunConfigModel,
    plan: TargetPlanModel,
    ph: PhaseModel,
    evs: Seq<EngineEventModel>,
)
    requires
        ph is Finished,
    ensures
        spec_run_trace(cfg, plan, ph, evs) == (ph, Seq::<EngineActionModel>::empty()),
    decreases evs.len(),
{
    if evs.len() == 0 {
        assert(Seq::<EngineActionModel>::empty() =~= seq![]);
    } else {
        lemma_finished_absorbs(cfg, plan, ph, evs.skip(1));
        assert(spec_opt_seq(None) + Seq::<EngineActionModel>::empty()
            =~= Seq::<EngineActionModel>::empty());
    }
}

// ---------------------------------------------------------------------
// Resolution
// ---------------------------------------------------------------------

/// An alias found in the alias table resolves, with no explicit image
/// given, to exactly the image reference its table entry names, whatever
/// hint stands beside it.
pub proof fn lemma_alias_resolves_from_table(
    alias: Seq<char>,
    hint: Option<Seq<char>>,
    table: Seq<AliasEntryModel>,
)
    requires
        spec_lookup(table, alias) is Some,
    ensures
        spec_resolve(Some(TargetDescriptorModel::OsAlias(alias)), hint, table) == Ok::<
            Seq<char>,
            ResolveFailureModel,
        >(spec_lookup(table, alias)->Some_0),
{
}

/// The built-in table's documented references, by alias.
pub proof fn lemma_default_table_images()
    ensures
        spec_lookup(spec_default_alias_table(), "Linux"@) == Some("ubuntu:latest"@),
        spec_lookup(spec_default_alias_table(), "macOS"@) == Some("sickcodes/docker-osx"@),
        spec_lookup(spec_default_alias_table(), "Windows"@) == Some(
            "mcr.microsoft.com/windows/servercore:ltsc2019"@,
        ),
{
    reveal_strlit("Linux");
    reveal_strlit("macOS");
    reveal_strlit("Windows");
    let t = spec_default_alias_table();
    assert(t[0].alias == "Linux"@);
    assert(t.skip(1)[0] == t[1]);
    assert(t.skip(1).skip(1)[0] == t[2]);
    assert("Linux"@ != "macOS"@) by {
        assert("Linux"@[0] == 'L');
        assert("macOS"@[0] == 'm');
    }
    assert("Linux"@ != "Windows"@) by {
        assert("Linux"@.len() == 5);
        assert("Windows"@.len() == 7);
    }
    assert("macOS"@ != "Windows"@) by {
        assert("macOS"@.len() == 5);
        assert("Windows"@.len() == 7);
    }
    assert(spec_lookup(t, "macOS"@) == spec_lookup(t.skip(1), "macOS"@));
    assert(spec_lookup(t.skip(1), "macOS"@) == Some(t[1].image));
    assert(spec_lookup(t, "Windows"@) == spec_lookup(t.skip(1), "Windows"@));
    assert(spec_lookup(t.skip(1), "Windows"@) == spec_lookup(t.skip(1).skip(1), "Windows"@));
    assert(spec_lookup(t.skip(1).skip(1), "Windows"@) == Some(t[2].image));
}

/// An explicit image reference wins resolution outright, whatever OS hint
/// or alias table stands beside it.
pub proof fn lemma_explicit_image_wins(
    image: Seq<char>,
    hint: Option<Seq<char>>,
    table: Seq<AliasEntryModel>,
)
    ensures
        spec_resolve(Some(TargetDescriptorModel::Image(image)), hint, table) == Ok::<
            Seq<char>,
            ResolveFailureModel,
        >(image),
{
}

/// An alias absent from the table, with no explicit image given, fails
/// resolution as an unknown OS.
pub proof fn lemma_unknown_alias_fails(
    alias: Seq<char>,
    hint: Option<Seq<char>>,
    table: Seq<AliasEntryModel>,
)
    requires
        spec_lookup(table, alias) is None,
    ensures
        spec_resolve(Some(TargetDescriptorModel::OsAlias(alias)), hint, table) == Err::<
            Seq<char>,
            ResolveFailureModel,
        >(ResolveFailureModel::UnknownOs { alias }),
{
}

/// The orchestrator requests an engine action only while it stands at a
/// target whose resolution succeeded, and the first action for a target
/// is always the inventory query. A target that failed resolution is
/// recorded as failed and gets no engine action at all — in particular,
/// no container is ever created for it.
pub proof fn lemma_pump_acts_only_on_resolved(
    plans: Seq<TargetPlanModel>,
    playbook: Seq<char>,
    policy: crate::model::FailurePolicy,
    idx: int,
    outcomes: Seq<TargetOutcomeModel>,
)
    requires
        0 <= idx <= plans.len(),
    ensures
        ({
            let p = spec_pump(plans, playbook, policy, idx, outcomes);
            p.action is Some ==> {
                &&& 0 <= p.idx < plans.len()
                &&& plans[p.idx].resolution is Ok
                &&& p.action->Some_0 is ListImages
            }
        }),
    decreases plans.len() - idx,
{
    if idx >= plans.len() {
    } else if plans[idx].resolution is Ok {
    } else {
        if !(policy is FailFast) {
            let outcomes2 = outcomes.push(
                TargetOutcomeModel::Failed(
                    crate::driver::spec_resolve_error(playbook, plans[idx]),
                ),
            );
            lemma_pump_acts_only_on_resolved(plans, playbook, policy, idx + 1, outcomes2);
        }
    }
}

// ---------------------------------------------------------------------
// Provisioning
// ---------------------------------------------------------------------

/// With the image already in the listed inventory, the provisioning
/// transition goes straight to container creation and requests no pull:
/// ensuring an already-present image a second time performs zero pull
/// operations.
pub proof fn lemma_present_image_is_not_pulled(
    cfg: RunConfigModel,
    plan: TargetPlanModel,
    inventory: Seq<crate::model::LocalImageModel>,
)
    requires
        crate::provision::spec_image_present(inventory, plan.resolution->Ok_0),
    ensures
        spec_phase_step(
            cfg,
            plan,
            PhaseModel::Provision,
            EngineEventModel::InventoryListed { inventory },
        ) == (PhaseModel::Create, Some(spec_create_action(cfg, plan))),
{
}

/// Once provisioning is decided, the machine never returns to it.
pub open spec fn spec_past_provisioning(ph: PhaseModel) -> bool {
    !(ph is Provision) && !(ph is Pull)
}

/// After provisioning is decided, no trace of the target's run requests a
/// pull, whatever the engine answers.
pub proof fn lemma_no_pull_after_provisioning(
    cfg: RunConfigModel,
    plan: TargetPlanModel,
    ph: PhaseModel,
    evs: Seq<EngineEventModel>,
)
    requires
        spec_past_provisioning(ph),
    ensures
        ({
            let (phf, acts) = spec_run_trace(cfg, plan, ph, evs);
            forall|i: int| 0 <= i < acts.len() ==> !(#[trigger] acts[i] is PullImage)
        }),
    decreases evs.len(),
{
    if evs.len() == 0 {
    } else {
        let (ph1, act) = spec_phase_step(cfg, plan, ph, evs[0]);
        assert(spec_past_provisioning(ph1));
        assert(match act {
            Some(a) => !(a is PullImage),
            None => true,
        });
        lemma_no_pull_after_provisioning(cfg, plan, ph1, evs.skip(1));
        let (phf, acts) = spec_run_trace(cfg, plan, ph1, evs.skip(1));
        assert forall|i: int|
            0 <= i < (spec_opt_seq(act) + acts).len() implies !(#[trigger] (spec_opt_seq(act)
            + acts)[i] is PullImage) by {
            if i >= spec_opt_seq(act).len() {
                assert((spec_opt_seq(act) + acts)[i] == acts[i - spec_opt_seq(act).len()]);
            }
        }
    }
}

/// An image already present when the inventory is listed is never pulled,
/// in the whole remaining trace of that target's run.
pub proof fn lemma_present_image_never_pulled(
    cfg: RunConfigModel,
    plan: TargetPlanModel,
    inventory: Seq<crate::model::LocalImageModel>,
    rest: Seq<EngineEventModel>,
)
    requires
        crate::provision::spec_image_present(inventory, plan.resolution->Ok_0),
    ensures
        ({
            let evs = seq![EngineEventModel::InventoryListed { inventory }] + rest;
            let (phf, acts) = spec_run_trace(cfg, plan, PhaseModel::Provision, evs);
            forall|i: int| 0 <= i < acts.len() ==> !(#[trigger] acts[i] is PullImage)
        }),
{
    let evs = seq![EngineEventModel::InventoryListed { inventory }] + rest;
    assert(evs[0] == EngineEventModel::InventoryListed { inventory });
    assert(evs.skip(1) =~= rest);
    lemma_present_image_is_not_pulled(cfg, plan, inventory);
    lemma_no_pull_after_provisioning(cfg, plan, PhaseModel::Create, rest);
    let (phf, acts) = spec_run_trace(cfg, plan, PhaseModel::Create, rest);
    let act0 = spec_opt_seq(Some(spec_create_action(cfg, plan)));
    assert forall|i: int|
        0 <= i < (act0 + acts).len() implies !(#[trigger] (act0 + acts)[i] is PullImage) by {
        if i >= 1 {
            assert((act0 + acts)[i] == acts[i - 1]);
        }
    }
}

/// From the pull phase onward, no trace requests another pull: the
/// machine pulls only while provisioning, never twice.
pub proof fn lemma_no_pull_from_pull_phase(
    cfg: RunConfigModel,
    plan: TargetPlanModel,
    evs: Seq<EngineEventModel>,
)
    ensures
        ({
            let (phf, acts) = spec_run_trace(cfg, plan, PhaseModel::Pull, evs);
            forall|i: int| 0 <= i < acts.len() ==> !(#[trigger] acts[i] is PullImage)
        }),
{
    if evs.len() == 0 {
    } else {
        let (ph1, act) = spec_phase_step(cfg, plan, PhaseModel::Pull, evs[0]);
        assert(spec_past_provisioning(ph1));
        assert(match act {
            Some(a) => !(a is PullImage),
            None => true,
        });
        lemma_no_pull_after_provisioning(cfg, plan, ph1, evs.skip(1));
        let (phf, acts) = spec_run_trace(cfg, plan, ph1, evs.skip(1));
        assert forall|i: int|
            0 <= i < (spec_opt_seq(act) + acts).len() implies !(#[trigger] (spec_opt_seq(act)
            + acts)[i] is PullImage) by {
            if i >= spec_opt_seq(act).len() {
                assert((spec_opt_seq(act) + acts)[i] == acts[i - spec_opt_seq(act).len()]);
            }
        }
    }
}

/// An image missing from the listed inventory is pulled on the spot, and
/// exactly once: the pull is the very next action, and no later action of
/// the target's run is a pull, whatever the engine answers.
pub proof fn lemma_missing_image_pulled_once(
    cfg: RunConfigModel,
    plan: TargetPlanModel,
    inventory: Seq<crate::model::LocalImageModel>,
    rest: Seq<EngineEventModel>,
)
    requires
        !crate::provision::spec_image_present(inventory, plan.resolution->Ok_0),
    ensures
        ({
            let evs = seq![EngineEventModel::InventoryListed { inventory }] + rest;
            let (phf, acts) = spec_run_trace(cfg, plan, PhaseModel::Provision, evs);
            &&& acts.len() >= 1
            &&& acts[0] == (EngineActionModel::PullImage { image: plan.resolution->Ok_0 })
            &&& forall|i: int| 1 <= i < acts.len() ==> !(#[trigger] acts[i] is PullImage)
        }),
{
    let evs = seq![EngineEventModel::InventoryListed { inventory }] + rest;
    assert(evs[0] == EngineEventModel::InventoryListed { inventory });
    assert(evs.skip(1) =~= rest);
    let (ph1, a1) = spec_phase_step(cfg, plan, PhaseModel::Provision, evs[0]);
    assert(ph1 is Pull);
    assert(a1 == Some(EngineActionModel::PullImage { image: plan.resolution->Ok_0 }));
    lemma_no_pull_from_pull_phase(cfg, plan, rest);
    let (phf, acts_tail) = spec_run_trace(cfg, plan, PhaseModel::Pull, rest);
    let acts = spec_opt_seq(a1) + acts_tail;
    assert(acts[0] == (EngineActionModel::PullImage { image: plan.resolution->Ok_0 }));
    assert forall|i: int| 1 <= i < acts.len() implies !(#[trigger] acts[i] is PullImage) by {
        assert(acts[i] == acts_tail[i - 1]);
    }
}

// ---------------------------------------------------------------------
// Execution sessions
// ---------------------------------------------------------------------

/// The events of a run in which every remaining step goes through
/// normally: for each step, its session is created, completes with some
/// exit status, and its logs are collected — whatever the statuses and
/// logs are.
pub open spec fn spec_is_step_events(evs: Seq<EngineEventModel>, k: nat) -> bool
    decreases k,
{
    if k == 0 {
        evs.len() == 0
    } else {
        &&& evs.len() >= 3
        &&& evs[0] is SessionCreated
        &&& evs[1] is SessionCompleted
        &&& evs[2] is LogsCollected
        &&& spec_is_step_events(evs.skip(3), (k - 1) as nat)
    }
}

/// The session-creation actions of a trace, in order.
pub open spec fn spec_session_creations(acts: Seq<EngineActionModel>) -> Seq<EngineActionModel>
    decreases acts.len(),
{
    if acts.len() == 0 {
        seq![]
    } else {
        (if acts[0] is CreateSession {
            seq![acts[0]]
        } else {
            seq![]
        }) + spec_session_creations(acts.skip(1))
    }
}

pub proof fn lemma_session_creations_add(a: Seq<EngineActionModel>, b: Seq<EngineActionModel>)
    ensures
        spec_session_creations(a + b) == spec_session_creations(a) + spec_session_creations(b),
    decreases a.len(),
{
    if a.len() == 0 {
        assert(a + b =~= b);
        assert(spec_session_creations(a) + spec_session_creations(b) =~= spec_session_creations(
            b,
        ));
    } else {
        assert((a + b).skip(1) =~= a.skip(1) + b);
        lemma_session_creations_add(a.skip(1), b);
        assert((a + b)[0] == a[0]);
        assert((if a[0] is CreateSession {
            seq![a[0]]
        } else {
            seq![]
        }) + (spec_session_creations(a.skip(1)) + spec_session_creations(b)) =~= ((if a[0]
            is CreateSession {
            seq![a[0]]
        } else {
            seq![]
        }) + spec_session_creations(a.skip(1))) + spec_session_creations(b));
    }
}

pub proof fn lemma_session_creations_empty()
    ensures
        spec_session_creations(Seq::<EngineActionModel>::empty()) == Seq::<
            EngineActionModel,
        >::empty(),
{
    assert(Seq::<EngineActionModel>::empty().len() == 0);
    assert(spec_session_creations(Seq::<EngineActionModel>::empty()) =~= Seq::<
        EngineActionModel,
    >::empty());
}

pub proof fn lemma_session_creations_opt(a: Option<EngineActionModel>)
    ensures
        spec_session_creations(spec_opt_seq(a)) == (match a {
            Some(x) => if x is CreateSession {
                seq![x]
            } else {
                Seq::<EngineActionModel>::empty()
            },
            None => Seq::<EngineActionModel>::empty(),
        }),
{
    lemma_session_creations_empty();
    match a {
        Some(x) => {
            let s = spec_opt_seq(a);
            assert(s.len() == 1);
            assert(s[0] == x);
            assert(s.skip(1) =~= Seq::<EngineActionModel>::empty());
            if x is CreateSession {
                assert(spec_session_creations(s) =~= seq![x]);
            } else {
                assert(spec_session_creations(s) =~= Seq::<EngineActionModel>::empty());
            }
        },
        None => {
            assert(spec_opt_seq(a) =~= Seq::<EngineActionModel>::empty());
        },
    }
}

/// One unfolding of a trace: the first transition's action, then the rest
/// of the trace from the phase it reached.
pub proof fn lemma_trace_unfold(
    cfg: RunConfigModel,
    plan: TargetPlanModel,
    ph: PhaseModel,
    evs: Seq<EngineEventModel>,
)
    requires
        evs.len() > 0,
    ensures
        ({
            let (ph1, act) = spec_phase_step(cfg, plan, ph, evs[0]);
            let (phf, acts) = spec_run_trace(cfg, plan, ph1, evs.skip(1));
            spec_run_trace(cfg, plan, ph, evs) == (phf, spec_opt_seq(act) + acts)
        }),
{
}

/// From the session phase of step `i`, a run whose remaining steps all go
/// through normally finishes the target as completed, with one result per
/// step (the earlier results kept, each later one titled after its step),
/// and creates, beyond the already-created session of step `i`, exactly
/// the sessions of the later steps, in file order, each running its
/// step's command in the target's single container.
pub proof fn lemma_remaining_steps_run_in_order(
    cfg: RunConfigModel,
    plan: TargetPlanModel,
    i: int,
    results: Seq<crate::model::StepResultModel>,
    evs: Seq<EngineEventModel>,
)
    requires
        0 <= i < cfg.steps.len(),
        results.len() == i,
        spec_is_step_events(evs, (cfg.steps.len() - i) as nat),
    ensures
        ({
            let (phf, acts) = spec_run_trace(
                cfg,
                plan,
                PhaseModel::SessionCreate { idx: i, results },
                evs,
            );
            &&& phf matches PhaseModel::Finished {
                outcome: TargetOutcomeModel::Completed(res),
            }
            &&& res.step_results.len() == cfg.steps.len()
            &&& (forall|j: int| 0 <= j < i ==> res.step_results[j] == results[j])
            &&& (forall|j: int|
                i <= j < cfg.steps.len() ==> (#[trigger] res.step_results[j]).step_title
                    == cfg.steps[j].title)
            &&& res.container_name == plan.container_name
            &&& spec_session_creations(acts) == Seq::new(
                (cfg.steps.len() - i - 1) as nat,
                |j: int| spec_create_session_action(cfg, plan, i + 1 + j),
            )
        }),
    decreases cfg.steps.len() - i,
{
    let e0 = evs[0];
    let e1 = evs[1];
    let e2 = evs[2];
    let ph0 = PhaseModel::SessionCreate { idx: i, results };
    let (ph1, a1) = spec_phase_step(cfg, plan, ph0, e0);
    assert(ph1 == PhaseModel::SessionRun { idx: i, results });
    let (ph2, a2) = spec_phase_step(cfg, plan, ph1, e1);
    let code = e1->SessionCompleted_exit_code;
    assert(ph2 == PhaseModel::CollectLogs { idx: i, exit_code: code, results });
    let (ph3, a3) = spec_phase_step(cfg, plan, ph2, e2);
    let chunks = e2->LogsCollected_chunks;
    let results2 = results.push(
        crate::orchestrate::spec_step_result(cfg.steps[i], code, chunks),
    );
    assert(evs.skip(1)[0] == e1);
    assert(evs.skip(2)[0] == e2);
    assert(evs.skip(1).skip(1) =~= evs.skip(2));
    assert(evs.skip(2).skip(1) =~= evs.skip(3));
    let tail = evs.skip(3);
    let s0 = spec_run_trace(cfg, plan, ph0, evs);
    let s1 = spec_run_trace(cfg, plan, ph1, evs.skip(1));
    let s2 = spec_run_trace(cfg, plan, ph2, evs.skip(2));
    let s3 = spec_run_trace(cfg, plan, ph3, tail);
    lemma_trace_unfold(cfg, plan, ph0, evs);
    assert(s0 == (s1.0, spec_opt_seq(a1) + s1.1));
    lemma_trace_unfold(cfg, plan, ph1, evs.skip(1));
    assert(s1 == (s2.0, spec_opt_seq(a2) + s2.1));
    lemma_trace_unfold(cfg, plan, ph2, evs.skip(2));
    assert(s2 == (s3.0, spec_opt_seq(a3) + s3.1));
    lemma_session_creations_opt(a1);
    lemma_session_creations_opt(a2);
    lemma_session_creations_opt(a3);
    lemma_session_creations_add(spec_opt_seq(a1), s1.1);
    lemma_session_creations_add(spec_opt_seq(a2), s2.1);
    lemma_session_creations_add(spec_opt_seq(a3), s3.1);
    if i + 1 < cfg.steps.len() {
        assert(ph3 == PhaseModel::SessionCreate { idx: i + 1, results: results2 });
        assert(a3 == Some(spec_create_session_action(cfg, plan, i + 1)));
        lemma_remaining_steps_run_in_order(cfg, plan, i + 1, results2, tail);
        assert(spec_session_creations(s3.1) == Seq::new(
            (cfg.steps.len() - i - 2) as nat,
            |j: int| spec_create_session_action(cfg, plan, i + 2 + j),
        ));
        let inner = Seq::new(
            (cfg.steps.len() - i - 2) as nat,
            |j: int| spec_create_session_action(cfg, plan, i + 2 + j),
        );
        let lhs = seq![spec_create_session_action(cfg, plan, i + 1)] + inner;
        assert(spec_session_creations(s0.1) =~= lhs);
        assert forall|j: int| 0 <= j < cfg.steps.len() - i - 1 implies lhs[j]
            == spec_create_session_action(cfg, plan, i + 1 + j) by {
            if j >= 1 {
                assert(lhs[j] == inner[j - 1]);
            }
        }
        assert(lhs =~= Seq::new(
            (cfg.steps.len() - i - 1) as nat,
            |j: int| spec_create_session_action(cfg, plan, i + 1 + j),
        ));
        let res = s0.0->Finished_outcome->Completed_0;
        assert forall|j: int| 0 <= j < i implies res.step_results[j] == results[j] by {
            assert(res.step_results[j] == results2[j]);
        }
        assert(res.step_results[i].step_title == cfg.steps[i].title) by {
            assert(res.step_results[i] == results2[i]);
        }
    } else {
        assert(ph3 == PhaseModel::Finished {
            outcome: spec_completed_outcome(cfg, plan, results2),
        });
        assert(a3 is None);
        assert(spec_is_step_events(tail, 0));
        assert(tail.len() == 0);
        lemma_finished_absorbs(cfg, plan, ph3, tail);
        assert(s3 == (ph3, Seq::<EngineActionModel>::empty()));
        lemma_session_creations_empty();
        assert(spec_session_creations(s0.1) =~= Seq::<EngineActionModel>::empty());
        assert(spec_session_creations(s0.1) =~= Seq::new(
            (cfg.steps.len() - i - 1) as nat,
            |j: int| spec_create_session_action(cfg, plan, i + 1 + j),
        ));
        let res = s0.0->Finished_outcome->Completed_0;
        assert(res.step_results == results2);
        assert forall|j: int| 0 <= j < i implies res.step_results[j] == results[j] by {
            assert(res.step_results[j] == results2[j]);
        }
        assert(res.step_results[i].step_title == cfg.steps[i].title) by {
            assert(res.step_results[i] == results2[i]);
        }
    }
}

/// For a playbook with N runnable steps, a target run whose steps all go
/// through normally creates exactly N execution sessions, in file order —
/// the session of step `j` runs that step's command — all scoped to the
/// single container created for the target, and completes with one
/// result per step, each titled after its step.
pub proof fn lemma_one_session_per_step(
    cfg: RunConfigModel,
    plan: TargetPlanModel,
    evs: Seq<EngineEventModel>,
)
    requires
        spec_is_step_events(evs, cfg.steps.len()),
    ensures
        ({
            let whole = seq![EngineEventModel::ContainerStarted] + evs;
            let (phf, acts) = spec_run_trace(cfg, plan, PhaseModel::Start, whole);
            &&& phf matches PhaseModel::Finished {
                outcome: TargetOutcomeModel::Completed(res),
            }
            &&& res.step_results.len() == cfg.steps.len()
            &&& (forall|j: int|
                0 <= j < cfg.steps.len() ==> (#[trigger] res.step_results[j]).step_title
                    == cfg.steps[j].title)
            &&& res.container_name == plan.container_name
            &&& spec_session_creations(acts) == Seq::new(
                cfg.steps.len(),
                |j: int| spec_create_session_action(cfg, plan, j),
            )
        }),
{
    let whole = seq![EngineEventModel::ContainerStarted] + evs;
    assert(whole[0] == EngineEventModel::ContainerStarted);
    assert(whole.skip(1) =~= evs);
    let (ph1, a1) = spec_phase_step(cfg, plan, PhaseModel::Start, whole[0]);
    let s0 = spec_run_trace(cfg, plan, PhaseModel::Start, whole);
    let s1 = spec_run_trace(cfg, plan, ph1, evs);
    lemma_trace_unfold(cfg, plan, PhaseModel::Start, whole);
    assert(s0 == (s1.0, spec_opt_seq(a1) + s1.1));
    lemma_session_creations_opt(a1);
    lemma_session_creations_add(spec_opt_seq(a1), s1.1);
    if cfg.steps.len() == 0 {
        assert(evs.len() == 0);
        assert(ph1 == PhaseModel::Finished {
            outcome: spec_completed_outcome(cfg, plan, Seq::empty()),
        });
        assert(a1 is None);
        lemma_finished_absorbs(cfg, plan, ph1, evs);
        assert(s1 == (ph1, Seq::<EngineActionModel>::empty()));
        lemma_session_creations_empty();
        assert(spec_session_creations(s0.1) =~= Seq::new(
            cfg.steps.len(),
            |j: int| spec_create_session_action(cfg, plan, j),
        ));
    } else {
        assert(ph1 == PhaseModel::SessionCreate { idx: 0, results: Seq::empty() });
        assert(a1 == Some(spec_create_session_action(cfg, plan, 0)));
        lemma_remaining_steps_run_in_order(cfg, plan, 0, Seq::empty(), evs);
        let inner = Seq::new(
            (cfg.steps.len() - 1) as nat,
            |j: int| spec_create_session_action(cfg, plan, 1 + j),
        );
        assert(spec_session_creations(s1.1) == inner);
        let lhs = seq![spec_create_session_action(cfg, plan, 0)] + inner;
        assert(spec_session_creations(s0.1) =~= lhs);
        assert forall|j: int| 0 <= j < cfg.steps.len() implies lhs[j]
            == spec_create_session_action(cfg, plan, j) by {
            if j >= 1 {
                assert(lhs[j] == inner[j - 1]);
            }
        }
        assert(lhs =~= Seq::new(
            cfg.steps.len(),
            |j: int| spec_create_session_action(cfg, plan, j),
        ));
    }
}

} // verus!
