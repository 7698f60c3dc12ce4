use jobsched::job::{not_found, started, ExitReport, Job, JobStatus};
use jobsched::protocol::Response;
use jobsched::table::JobTable;

fn job(id: u32, args: &[&str], status: JobStatus) -> Job {
    Job {
        id,
        command: "echo".to_string(),
        args: args.iter().map(|a| a.to_string()).collect(),
        status,
    }
}

fn report(code: Option<i32>, signal: Option<i32>) -> ExitReport {
    ExitReport { code, signal, stdout: "out".to_string(), stderr: "err".to_string() }
}

fn status(line: &str, stdout: Option<&str>, stderr: Option<&str>) -> Response {
    Response::Status {
        status: line.to_string(),
        stdout: stdout.map(|s| s.to_string()),
        stderr: stderr.map(|s| s.to_string()),
    }
}

#[test]
fn statuses_in_words() {
    assert_eq!(JobStatus::Waiting { pid: 4711 }.words(), "Waiting for output (PID: 4711)");
    assert_eq!(report(Some(3), None).outcome().words(), "Finished (Exit Code: 3)");
    assert_eq!(report(Some(-5), None).outcome().words(), "Finished (Exit Code: -5)");
    assert_eq!(report(None, Some(9)).outcome().words(), "Terminated by signal (Code: 9)");
    assert_eq!(
        JobStatus::FailedToSpawn { error: "no such file".to_string() }.words(),
        "Failed to spawn: no such file"
    );
}

#[test]
fn exit_code_comes_before_signal() {
    assert_eq!(
        report(Some(0), Some(15)).outcome(),
        JobStatus::Finished {
            exit_status_code: 0,
            stdout: "out".to_string(),
            stderr: "err".to_string()
        }
    );
    assert_eq!(
        report(None, Some(15)).outcome(),
        JobStatus::Signaled {
            signal_code: 15,
            stdout: "out".to_string(),
            stderr: "err".to_string()
        }
    );
}

#[test]
fn unknown_signal_is_minus_one() {
    assert_eq!(report(None, None).outcome().words(), "Terminated by signal (Code: -1)");
}

#[test]
fn reports_hold_the_line_and_the_output() {
    assert_eq!(
        job(1, &["a", "b"], JobStatus::Waiting { pid: 8 }).report(),
        status("Job 1: echo a b -> Waiting for output (PID: 8)", None, None)
    );
    assert_eq!(
        job(2, &[], report(Some(0), None).outcome()).report(),
        status("Job 2: echo  -> Finished (Exit Code: 0)", Some("out"), Some("err"))
    );
    assert_eq!(
        job(3, &["x"], report(None, Some(9)).outcome()).report(),
        status("Job 3: echo x -> Terminated by signal (Code: 9)", Some("out"), Some("err"))
    );
    assert_eq!(
        job(4, &["x"], JobStatus::FailedToSpawn { error: "denied".to_string() }).report(),
        status("Job 4: echo x -> Failed to spawn: denied", None, None)
    );
}

#[test]
fn messages_about_jobs() {
    assert_eq!(
        started(12, 3456),
        Response::Success { message: "Job 12 started (PID: 3456).".to_string() }
    );
    assert_eq!(not_found(7), Response::Error { message: "Job 7 not found.".to_string() });
}

#[test]
fn numbers_are_given_out_from_one_up() {
    let mut table = JobTable::new();
    assert!(table.has_free_id());
    assert_eq!(table.next_id(), 1);
    assert_eq!(table.next_id(), 2);
    assert_eq!(table.next_id(), 3);
    assert!(table.has_free_id());
}

#[test]
fn table_answers_for_known_and_unknown_jobs() {
    let mut table = JobTable::new();
    let id = table.next_id();
    assert_eq!(table.answer(id), not_found(id));
    table.record(job(id, &["hi"], JobStatus::Waiting { pid: 5 }));
    assert_eq!(
        table.answer(id),
        status("Job 1: echo hi -> Waiting for output (PID: 5)", None, None)
    );
    assert_eq!(table.answer(2), not_found(2));
}

#[test]
fn new_status_replaces_the_old_one() {
    let mut table = JobTable::new();
    let first = table.next_id();
    let second = table.next_id();
    table.record(job(first, &["1"], JobStatus::Waiting { pid: 5 }));
    table.record(job(second, &["2"], JobStatus::Waiting { pid: 6 }));
    table.set_status(first, report(Some(1), None).outcome());
    assert_eq!(
        table.answer(first),
        status("Job 1: echo 1 -> Finished (Exit Code: 1)", Some("out"), Some("err"))
    );
    assert_eq!(
        table.answer(second),
        status("Job 2: echo 2 -> Waiting for output (PID: 6)", None, None)
    );
}

#[test]
fn status_of_an_unknown_job_is_dropped() {
    let mut table = JobTable::new();
    table.set_status(9, JobStatus::Waiting { pid: 1 });
    assert_eq!(table.answer(9), not_found(9));
}
