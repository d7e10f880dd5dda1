use playbook_tester::model::LogChunk;
use playbook_tester::model::Step;
use playbook_tester::model::StreamOrigin;
use playbook_tester::session::accumulate_logs;
use playbook_tester::session::build_step_result;
use playbook_tester::session::sh_command;

fn out(text: &str) -> LogChunk {
    LogChunk { origin: StreamOrigin::StdOut, text: text.to_string() }
}

fn err(text: &str) -> LogChunk {
    LogChunk { origin: StreamOrigin::StdErr, text: text.to_string() }
}

#[test]
fn a_step_runs_through_the_shell() {
    let cmd = sh_command("echo hello");
    assert_eq!(cmd, vec!["/bin/sh".to_string(), "-c".to_string(), "echo hello".to_string()]);
}

#[test]
fn logs_partition_by_stream_in_arrival_order() {
    let chunks = vec![out("a"), err("oops "), out("b"), err("again"), out("c")];
    let (stdout, stderr) = accumulate_logs(&chunks);
    assert_eq!(stdout, "abc");
    assert_eq!(stderr, "oops again");
}

#[test]
fn no_chunks_mean_empty_streams() {
    let (stdout, stderr) = accumulate_logs(&Vec::new());
    assert_eq!(stdout, "");
    assert_eq!(stderr, "");
}

#[test]
fn a_step_result_carries_title_status_and_streams() {
    let step = Step {
        title: "greet".to_string(),
        description: Some("says hello".to_string()),
        runner: "shell".to_string(),
        approval_message: None,
        content: "echo hello".to_string(),
    };
    let chunks = vec![out("hello\n"), err("warning\n")];
    let result = build_step_result(&step, 0, &chunks);
    assert_eq!(result.step_title, "greet");
    assert_eq!(result.exit_code, 0);
    assert_eq!(result.stdout, "hello\n");
    assert_eq!(result.stderr, "warning\n");
}

#[test]
fn a_nonzero_exit_code_is_recorded_as_is() {
    let step = Step {
        title: "fail".to_string(),
        description: None,
        runner: "shell".to_string(),
        approval_message: None,
        content: "exit 7".to_string(),
    };
    let result = build_step_result(&step, 7, &Vec::new());
    assert_eq!(result.exit_code, 7);
}
