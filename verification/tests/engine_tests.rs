use bran::engine::{aggregate, all_succeeded, plan_units, prints_summary, StepResult, Unit};
use bran::host::Host;
use bran::log::{Output, Stream};
use bran::remote::{Remote, StepKind};

fn host(name: &str, user: &str, build_dir: &str) -> Host {
    Host {
        name: name.into(),
        user: user.into(),
        build_dir: build_dir.into(),
        host: None,
        identity_file: None,
    }
}

fn plain_lines(output: &Output) -> Vec<(Stream, String)> {
    output.captured()
}

#[test]
fn unit_plans_push_reset_then_commands() {
    let h = host("A", "u", "/d");
    let commands: Vec<String> = vec!["echo hi".to_string()];
    let unit = Unit::new(&h, "abc123", &commands);

    assert!(!unit.done());
    let first = unit.current();
    assert_eq!(first.kind, StepKind::LocalPush);
    assert_eq!(first.header, "local");
    assert_eq!(first.program, "git");
    assert_eq!(
        first.title,
        "git --git-dir=.bran --work-tree=. push -f u@A:/d master:bran"
    );
    assert_eq!(
        first.args,
        ["--git-dir=.bran", "--work-tree=.", "push", "-f", "u@A:/d", "master:bran"]
    );
    assert!(first.env.is_none());
}

#[test]
fn unit_reset_step_uses_the_synchronization_token() {
    let h = host("A", "u", "/d");
    let commands: Vec<String> = vec![];
    let mut unit = Unit::new(&h, "abc123", &commands);
    let output = Output::buffered(false, false);

    unit.record(&output, &StepResult::Success);
    assert!(!unit.done());
    let reset = unit.current();
    assert_eq!(reset.kind, StepKind::RemoteShell);
    assert_eq!(reset.header, "A");
    assert_eq!(reset.title, "git reset abc123 --hard");
    assert_eq!(reset.program, "ssh");
    assert_eq!(
        reset.args,
        [
            "-o",
            "PreferredAuthentications=publickey",
            "u@A",
            "-C",
            "cd \"/d\"; git reset abc123 --hard"
        ]
    );
}

#[test]
fn push_step_sets_git_ssh_command_for_identity_file() {
    let h = Host {
        name: "A".into(),
        user: "u".into(),
        build_dir: "/d".into(),
        host: Some("addr".into()),
        identity_file: Some("key".into()),
    };
    let step = bran::remote::push_step(&h);
    assert_eq!(step.kind, StepKind::LocalPush);
    assert_eq!(
        step.env,
        Some(("GIT_SSH_COMMAND".to_string(), "ssh -i \"key\"".to_string()))
    );
    assert_eq!(step.args[4], "u@addr:/d");
}

#[test]
fn remote_init_plans_mkdir_then_git_init() {
    let h = host("A", "u", "/build dir");
    let remote = Remote::new(&h);
    let steps = remote.init();

    assert_eq!(steps.len(), 2);
    assert_eq!(steps[0].title, "mkdir -p \"/build dir\"");
    assert_eq!(
        steps[0].args,
        ["-o", "PreferredAuthentications=publickey", "u@A", "-C", "mkdir -p \"/build dir\""]
    );
    assert_eq!(steps[1].title, "git init");
    assert_eq!(
        steps[1].args,
        ["-o", "PreferredAuthentications=publickey", "u@A", "-C", "cd \"/build dir\"; git init"]
    );
}

#[test]
fn all_commands_succeeding_yields_success_outcome() {
    let h = host("A", "u", "/d");
    let commands: Vec<String> = vec!["true".to_string(), "echo ok".to_string()];
    let mut unit = Unit::new(&h, "c0ffee", &commands);
    let output = Output::buffered(false, false);

    let mut steps: usize = 0;
    while !unit.done() {
        unit.record(&output, &StepResult::Success);
        steps += 1;
    }
    assert_eq!(steps, 4);
    assert!(unit.succeeded());

    let lines = plain_lines(&output);
    assert_eq!(lines.last().unwrap().1, "[A] Build succeeded");
}

#[test]
fn failing_command_stops_the_unit_without_running_later_commands() {
    let h = host("A", "u", "/d");
    let commands: Vec<String> = vec!["false".to_string(), "never run".to_string()];
    let mut unit = Unit::new(&h, "c0ffee", &commands);
    let output = Output::buffered(false, false);

    unit.record(&output, &StepResult::Success); // push
    unit.record(&output, &StepResult::Success); // reset
    assert_eq!(unit.current().title, "false");
    let emitted = unit.record(
        &output,
        &StepResult::Failed("Command failed with exit status: 1".to_string()),
    );
    assert_eq!(emitted.len(), 2, "the error line, then the verdict line");
    assert_eq!(emitted[0], (Stream::StdErr, "[A] Command failed with exit status: 1".to_string()));
    assert_eq!(emitted[1], (Stream::StdErr, "[A] Build failed".to_string()));

    assert!(unit.done(), "a failed step finishes the unit at once");
    assert!(!unit.succeeded());

    let lines = plain_lines(&output);
    assert_eq!(lines[lines.len() - 2].1, "[A] Command failed with exit status: 1");
    assert_eq!(lines[lines.len() - 2].0, Stream::StdErr);
    assert_eq!(lines[lines.len() - 1].1, "[A] Build failed");
}

#[test]
fn failed_push_logs_no_error_description_but_fails_the_unit() {
    let h = host("A", "u", "/d");
    let commands: Vec<String> = vec![];
    let mut unit = Unit::new(&h, "c0ffee", &commands);
    let output = Output::buffered(false, false);

    unit.record(&output, &StepResult::Failed("push rejected".to_string()));

    assert!(unit.done());
    assert!(!unit.succeeded());
    let lines = plain_lines(&output);
    assert_eq!(lines.len(), 1, "a failed push logs only the final verdict");
    assert_eq!(lines[0].1, "[A] Build failed");
}

#[test]
fn one_unit_per_registry_host_in_order() {
    let hosts = vec![host("A", "u", "/a"), host("B", "u", "/b"), host("C", "u", "/c")];
    let commands: Vec<String> = vec!["make".to_string()];
    let units = plan_units(&hosts, "deadbeef", &commands);

    assert_eq!(units.len(), 3);
    let names: Vec<&str> = units.iter().map(|u| u.host_name().as_str()).collect();
    assert_eq!(names, ["A", "B", "C"]);
}

#[test]
fn exit_code_zero_iff_every_outcome_succeeded() {
    let output = Output::buffered(false, false);
    let all_good = vec![("A".to_string(), true), ("B".to_string(), true)];
    assert!(all_succeeded(&all_good));
    assert_eq!(aggregate(&all_good, &output).0, 0);

    let output = Output::buffered(false, false);
    let one_bad = vec![("A".to_string(), true), ("B".to_string(), false)];
    assert!(!all_succeeded(&one_bad));
    assert_eq!(aggregate(&one_bad, &output).0, 1);
}

#[test]
fn summary_suppressed_for_single_host() {
    let results = vec![("A".to_string(), true)];
    assert!(!prints_summary(&results));

    let output = Output::buffered(false, false);
    let (code, summary) = aggregate(&results, &output);
    assert_eq!(code, 0);
    assert!(summary.is_empty(), "no summary lines come back for a single host");
    assert!(
        output.captured().iter().all(|(_, l)| !l.contains("Summary")),
        "no summary block for a single host"
    );
}

#[test]
fn summary_shown_in_registry_order_for_multiple_hosts() {
    let results = vec![("A".to_string(), true), ("B".to_string(), false)];
    assert!(prints_summary(&results));

    let output = Output::buffered(false, false);
    let (code, summary) = aggregate(&results, &output);
    assert_eq!(code, 1);

    let lines = output.captured();
    assert_eq!(summary, lines, "the summary comes back exactly as emitted");
    assert_eq!(lines.len(), 3);
    assert_eq!(lines[0].1, "\n---------- Summary ----------\n");
    assert_eq!(lines[1].1, "[A] Build succeeded");
    assert_eq!(lines[2].1, "[B] Build failed");
}

#[test]
fn print_summary_returns_exactly_what_it_emits() {
    let results = vec![("A".to_string(), true), ("B".to_string(), false)];
    let output = Output::buffered(false, false);
    let emitted = bran::engine::print_summary(&results, &output);
    assert_eq!(emitted, output.captured());
    assert_eq!(emitted[0].1, "\n---------- Summary ----------\n");
    assert_eq!(emitted[1], (Stream::StdOut, "[A] Build succeeded".to_string()));
    assert_eq!(emitted[2], (Stream::StdErr, "[B] Build failed".to_string()));
}

#[test]
fn whole_run_single_host_success_scenario() {
    // registry = {A: (user=u, dir=/d)}, commands = ["echo hi"]; every step
    // exits zero: outcome (A, true), exit code 0, no summary printed.
    let hosts = vec![host("A", "u", "/d")];
    let commands: Vec<String> = vec!["echo hi".to_string()];
    let output = Output::buffered(false, false);

    let mut results: Vec<(String, bool)> = Vec::new();
    for mut unit in plan_units(&hosts, "feedface", &commands) {
        while !unit.done() {
            unit.start(&output);
            unit.record(&output, &StepResult::Success);
        }
        results.push((unit.host_name().clone(), unit.succeeded()));
    }

    assert_eq!(results, [("A".to_string(), true)]);
    let (code, _) = aggregate(&results, &output);
    assert_eq!(code, 0);
    assert!(output.captured().iter().all(|(_, l)| !l.contains("Summary")));
}

#[test]
fn whole_run_mixed_outcomes_scenario() {
    // registry = {A: success, B: failure}: outcomes (A,true),(B,false) in
    // that order in the summary, exit code 1.
    let hosts = vec![host("A", "u", "/a"), host("B", "u", "/b")];
    let commands: Vec<String> = vec!["false".to_string()];
    let output = Output::buffered(false, false);

    let mut results: Vec<(String, bool)> = Vec::new();
    for (i, mut unit) in plan_units(&hosts, "feedface", &commands).into_iter().enumerate() {
        while !unit.done() {
            let fail_here = i == 1 && unit.current().title == "false";
            if fail_here {
                unit.record(
                    &output,
                    &StepResult::Failed("Command failed with exit status: 1".to_string()),
                );
            } else {
                unit.record(&output, &StepResult::Success);
            }
        }
        results.push((unit.host_name().clone(), unit.succeeded()));
    }

    assert_eq!(results, [("A".to_string(), true), ("B".to_string(), false)]);
    let (code, _) = aggregate(&results, &output);
    assert_eq!(code, 1);

    let lines = output.captured();
    let banner = lines.iter().position(|(_, l)| l.contains("Summary")).unwrap();
    assert_eq!(lines[banner + 1].1, "[A] Build succeeded");
    assert_eq!(lines[banner + 2].1, "[B] Build failed");
}

#[test]
fn unreachable_host_still_reports_scenario() {
    // A host whose remote shell is unreachable: outcome (host, false), an
    // error line tagged with that host, and the run still completes.
    let hosts = vec![host("gone", "u", "/d")];
    let commands: Vec<String> = vec!["make".to_string()];
    let output = Output::buffered(false, false);

    let mut results: Vec<(String, bool)> = Vec::new();
    for mut unit in plan_units(&hosts, "feedface", &commands) {
        unit.record(&output, &StepResult::Success); // push
        unit.record(
            &output,
            &StepResult::Failed("Command failed with exit status: 255".to_string()),
        );
        assert!(unit.done());
        results.push((unit.host_name().clone(), unit.succeeded()));
    }

    assert_eq!(results, [("gone".to_string(), false)]);
    assert_eq!(aggregate(&results, &output).0, 1);

    let lines = output.captured();
    assert!(lines
        .iter()
        .any(|(s, l)| *s == Stream::StdErr && l == "[gone] Command failed with exit status: 255"));
    assert!(lines.iter().any(|(_, l)| l == "[gone] Build failed"));
}

#[test]
fn empty_registry_succeeds_vacuously() {
    let results: Vec<(String, bool)> = Vec::new();
    let output = Output::buffered(false, false);
    assert!(all_succeeded(&results));
    assert_eq!(aggregate(&results, &output).0, 0);
}
