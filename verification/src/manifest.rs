//! Manifest validation and the pure readings of a playbook: turning a raw
//! manifest into a validated playbook, flattening the runnable steps of
//! its automations (skipping, with their names recorded, automations that
//! carry no content), and extracting the first target-OS hint.

use vstd::prelude::*;

use crate::model::Automation;
use crate::model::AutomationModel;
use crate::model::ManifestDoc;
use crate::model::Playbook;
use crate::model::Step;
use crate::model::StepModel;
use crate::model::TestError;
use crate::model::TestErrorModel;

verus! {

impl Step {
    /// A field-for-field copy of the step.
    pub fn duplicate(&self) -> (r: Step)
        ensures
            r == *self,
    {
        Step {
            title: self.title.clone(),
            description: match &self.description {
                Some(d) => Some(d.clone()),
                None => None,
            },
            runner: self.runner.clone(),
            approval_message: match &self.approval_message {
                Some(m) => Some(m.clone()),
                None => None,
            },
            content: self.content.clone(),
        }
    }
}

/// The steps one automation contributes to a run: its content's steps, or
/// none when it has no content.
pub open spec fn spec_contribution(a: AutomationModel) -> Seq<StepModel> {
    match a.content {
        Some(c) => c.steps,
        None => Seq::empty(),
    }
}

/// All runnable steps of a playbook, in file order: the steps of each
/// automation with content, in automation order.
pub open spec fn spec_flatten_steps(automations: Seq<AutomationModel>) -> Seq<StepModel>
    decreases automations.len(),
{
    if automations.len() == 0 {
        Seq::empty()
    } else {
        spec_contribution(automations[0]) + spec_flatten_steps(automations.skip(1))
    }
}

/// The names of the automations that are skipped because they carry no
/// content, in file order.
pub open spec fn spec_skipped_names(automations: Seq<AutomationModel>) -> Seq<Seq<char>>
    decreases automations.len(),
{
    if automations.len() == 0 {
        Seq::empty()
    } else {
        let rest = spec_skipped_names(automations.skip(1));
        match automations[0].content {
            Some(_) => rest,
            None => seq![automations[0].name] + rest,
        }
    }
}

/// The playbook's target-OS hint: the `env` of the first automation whose
/// content carries one.
pub open spec fn spec_first_env_hint(automations: Seq<AutomationModel>) -> Option<Seq<char>>
    decreases automations.len(),
{
    if automations.len() == 0 {
        None
    } else {
        match automations[0].content {
            Some(c) => match c.env {
                Some(e) => Some(e),
                None => spec_first_env_hint(automations.skip(1)),
            },
            None => spec_first_env_hint(automations.skip(1)),
        }
    }
}

/// Validates a raw manifest. A manifest without an `automations` key is a
/// configuration error, raised before any engine call is planned; one
/// with the key becomes a playbook named after the manifest, or after the
/// requested name when the manifest names none.
pub fn validate_manifest(doc: ManifestDoc, requested_name: &String) -> (r: Result<
    Playbook,
    TestError,
>)
    ensures
        r is Err <==> doc@.automations is None,
        match r {
            Ok(p) => {
                &&& p@.automations == doc@.automations->Some_0
                &&& p@.name == (match doc@.name {
                    Some(n) => n,
                    None => requested_name@,
                })
            },
            Err(e) => e@ == (TestErrorModel::ConfigError {
                playbook: requested_name@,
                detail: "the manifest has no automations key"@,
            }),
        },
{
    match doc.automations {
        None => Err(
            TestError::ConfigError {
                playbook: requested_name.clone(),
                detail: String::from_str("the manifest has no automations key"),
            },
        ),
        Some(automations) => {
            let name = match doc.name {
                Some(n) => n,
                None => requested_name.clone(),
            };
            Ok(Playbook { name, automations })
        },
    }
}

/// Flattens a playbook into its runnable steps, in file order, and the
/// names of the automations skipped for missing content.
pub fn flatten_steps(playbook: &Playbook) -> (r: (Vec<Step>, Vec<String>))
    ensures
        r.0.deep_view() == spec_flatten_steps(playbook@.automations),
        r.1.deep_view() == spec_skipped_names(playbook@.automations),
{
    let ghost av = playbook@.automations;
    let mut steps: Vec<Step> = Vec::new();
    let mut skipped: Vec<String> = Vec::new();
    proof {
        assert(av.skip(0) =~= av);
    }
    let mut i: usize = 0;
    while i < playbook.automations.len()
        invariant
            i <= playbook.automations.len(),
            av == playbook@.automations,
            steps.deep_view() + spec_flatten_steps(av.skip(i as int)) == spec_flatten_steps(av),
            skipped.deep_view() + spec_skipped_names(av.skip(i as int)) == spec_skipped_names(av),
        decreases playbook.automations.len() - i,
    {
        assert(av.skip(i as int)[0] == av[i as int]);
        let ghost steps_pre = steps.deep_view();
        let ghost skipped_pre = skipped.deep_view();
        let automation = &playbook.automations[i];
        match &automation.content {
            Some(content) => {
                let mut j: usize = 0;
                while j < content.steps.len()
                    invariant
                        j <= content.steps.len(),
                        steps.deep_view() =~= steps_pre + content.steps.deep_view().take(
                            j as int,
                        ),
                    decreases content.steps.len() - j,
                {
                    let ghost pre_dv = steps.deep_view();
                    steps.push(content.steps[j].duplicate());
                    proof {
                        assert forall|k: int| 0 <= k < steps@.len() implies steps.deep_view()[k]
                            == pre_dv.push(content.steps@[j as int]@)[k] by {
                            assert(steps.deep_view()[k] == steps@[k]@);
                        }
                        assert(steps.deep_view() =~= pre_dv.push(content.steps@[j as int]@));
                        assert(content.steps.deep_view()[j as int] == content.steps@[j as int]@);
                        assert(steps.deep_view() =~= steps_pre + content.steps.deep_view().take(
                            j as int + 1,
                        ));
                    }
                    j = j + 1;
                }
                proof {
                    assert(content.steps.deep_view().take(content.steps@.len() as int)
                        =~= content.steps.deep_view());
                    assert(steps.deep_view() =~= steps_pre + spec_contribution(av[i as int]));
                }
            },
            None => {
                skipped.push(automation.name.clone());
                proof {
                    assert(skipped.deep_view() =~= skipped_pre.push(av[i as int].name));
                    assert(skipped_pre.push(av[i as int].name) =~= skipped_pre + seq![
                        av[i as int].name,
                    ]);
                }
            },
        }
        proof {
            assert(av.skip(i as int).skip(1) =~= av.skip(i as int + 1));
            assert(steps.deep_view() + spec_flatten_steps(av.skip(i as int + 1))
                =~= spec_flatten_steps(av));
            assert(skipped.deep_view() + spec_skipped_names(av.skip(i as int + 1))
                =~= spec_skipped_names(av));
        }
        i = i + 1;
    }
    proof {
        assert(av.skip(i as int).len() == 0);
        assert(steps.deep_view() =~= steps.deep_view() + spec_flatten_steps(av.skip(i as int)));
        assert(skipped.deep_view() =~= skipped.deep_view() + spec_skipped_names(
            av.skip(i as int),
        ));
    }
    (steps, skipped)
}

/// The playbook's first target-OS hint, as the resolver's fallback.
pub fn first_env_hint(playbook: &Playbook) -> (r: Option<String>)
    ensures
        r.deep_view() == spec_first_env_hint(playbook@.automations),
{
    let ghost av = playbook@.automations;
    proof {
        assert(av.skip(0) =~= av);
    }
    let mut i: usize = 0;
    while i < playbook.automations.len()
        invariant
            i <= playbook.automations.len(),
            av == playbook@.automations,
            spec_first_env_hint(av.skip(i as int)) == spec_first_env_hint(av),
        decreases playbook.automations.len() - i,
    {
        assert(av.skip(i as int)[0] == av[i as int]);
        if let Some(content) = &playbook.automations[i].content {
            if let Some(env) = &content.env {
                return Some(env.clone());
            }
        }
        assert(av.skip(i as int).skip(1) =~= av.skip(i as int + 1));
        i = i + 1;
    }
    assert(av.skip(i as int).len() == 0);
    None
}

/// The deterministic container name for one (playbook, target) run.
/// Determinism makes a concurrent run of the same playbook against the
/// same target collide at the engine instead of silently reusing the
/// other run's container.
pub open spec fn spec_container_name(playbook: Seq<char>, target: Seq<char>) -> Seq<char> {
    playbook + "_"@ + target + "_container"@
}

/// Builds the container name for a (playbook, target) run.
pub fn container_name(playbook: &str, target_label: &str) -> (r: String)
    ensures
        r@ == spec_container_name(playbook@, target_label@),
{
    let mut s = playbook.to_owned();
    s.append("_");
    s.append(target_label);
    s.append("_container");
    s
}

/// The path of a playbook's manifest file under the runtime directory.
pub open spec fn spec_manifest_path(runtime_dir: Seq<char>, playbook: Seq<char>) -> Seq<char> {
    runtime_dir + "/"@ + playbook + "/cocmd.yaml"@
}

/// Builds the path of a playbook's manifest file.
pub fn manifest_path(runtime_dir: &str, playbook: &str) -> (r: String)
    ensures
        r@ == spec_manifest_path(runtime_dir@, playbook@),
{
    let mut s = runtime_dir.to_owned();
    s.append("/");
    s.append(playbook);
    s.append("/cocmd.yaml");
    s
}

} // verus!
