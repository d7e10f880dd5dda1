use playbook_tester::manifest::container_name;
use playbook_tester::manifest::first_env_hint;
use playbook_tester::manifest::flatten_steps;
use playbook_tester::manifest::manifest_path;
use playbook_tester::manifest::validate_manifest;
use playbook_tester::model::Automation;
use playbook_tester::model::AutomationContent;
use playbook_tester::model::ManifestDoc;
use playbook_tester::model::Playbook;
use playbook_tester::model::Step;
use playbook_tester::model::StepResult;
use playbook_tester::model::TestError;
use playbook_tester::model::overall_exit_code;

fn step(title: &str, content: &str) -> Step {
    Step {
        title: title.to_string(),
        description: None,
        runner: "shell".to_string(),
        approval_message: None,
        content: content.to_string(),
    }
}

fn automation(name: &str, env: Option<&str>, steps: Vec<Step>) -> Automation {
    Automation {
        name: name.to_string(),
        content: Some(AutomationContent {
            description: "setup".to_string(),
            env: env.map(|e| e.to_string()),
            steps,
        }),
    }
}

#[test]
fn manifest_without_automations_key_is_a_config_error() {
    let doc = ManifestDoc { name: Some("demo".to_string()), automations: None };
    let requested = "demo".to_string();
    match validate_manifest(doc, &requested) {
        Err(TestError::ConfigError { playbook, detail }) => {
            assert_eq!(playbook, "demo");
            assert_eq!(detail, "the manifest has no automations key");
        },
        other => panic!("expected ConfigError, got {:?}", other),
    }
}

#[test]
fn manifest_with_automations_becomes_a_playbook() {
    let doc = ManifestDoc {
        name: None,
        automations: Some(vec![automation("a", Some("Linux"), vec![step("t", "true")])]),
    };
    let requested = "demo".to_string();
    let playbook = validate_manifest(doc, &requested).unwrap();
    assert_eq!(playbook.name, "demo");
    assert_eq!(playbook.automations.len(), 1);
    assert_eq!(playbook.automations[0].name, "a");
}

#[test]
fn manifest_name_wins_over_the_requested_name() {
    let doc = ManifestDoc { name: Some("named".to_string()), automations: Some(Vec::new()) };
    let requested = "demo".to_string();
    let playbook = validate_manifest(doc, &requested).unwrap();
    assert_eq!(playbook.name, "named");
}

#[test]
fn steps_flatten_in_file_order_and_contentless_automations_are_skipped() {
    let playbook = Playbook {
        name: "demo".to_string(),
        automations: vec![
            automation("first", None, vec![step("one", "echo 1"), step("two", "echo 2")]),
            Automation { name: "empty".to_string(), content: None },
            automation("second", None, vec![step("three", "echo 3")]),
        ],
    };
    let (steps, skipped) = flatten_steps(&playbook);
    let titles: Vec<&str> = steps.iter().map(|s| s.title.as_str()).collect();
    assert_eq!(titles, vec!["one", "two", "three"]);
    assert_eq!(skipped, vec!["empty".to_string()]);
}

#[test]
fn the_first_env_hint_wins() {
    let playbook = Playbook {
        name: "demo".to_string(),
        automations: vec![
            Automation { name: "empty".to_string(), content: None },
            automation("no-env", None, vec![step("a", "true")]),
            automation("linux", Some("Linux"), vec![step("b", "true")]),
            automation("windows", Some("Windows"), vec![step("c", "true")]),
        ],
    };
    assert_eq!(first_env_hint(&playbook), Some("Linux".to_string()));
}

#[test]
fn a_playbook_without_hints_has_none() {
    let playbook = Playbook {
        name: "demo".to_string(),
        automations: vec![automation("no-env", None, vec![step("a", "true")])],
    };
    assert_eq!(first_env_hint(&playbook), None);
}

#[test]
fn container_names_are_deterministic_per_playbook_and_target() {
    assert_eq!(container_name("demo", "Linux"), "demo_Linux_container");
    assert_eq!(container_name("demo", "Linux"), container_name("demo", "Linux"));
    assert_ne!(container_name("demo", "Linux"), container_name("demo", "Windows"));
}

#[test]
fn manifest_path_points_into_the_runtime_directory() {
    assert_eq!(manifest_path("/var/lib/runtime", "demo"), "/var/lib/runtime/demo/cocmd.yaml");
}

fn result_with_code(code: i64) -> StepResult {
    StepResult {
        step_title: "t".to_string(),
        exit_code: code,
        stdout: String::new(),
        stderr: String::new(),
    }
}

#[test]
fn overall_exit_code_is_zero_when_all_steps_pass() {
    let results = vec![result_with_code(0), result_with_code(0)];
    assert_eq!(overall_exit_code(&results), 0);
}

#[test]
fn overall_exit_code_is_the_first_nonzero_one() {
    let results = vec![result_with_code(0), result_with_code(3), result_with_code(5)];
    assert_eq!(overall_exit_code(&results), 3);
}
