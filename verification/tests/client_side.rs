use jobsched::client::{Client, ClientAction, ClientEvent, ClientTurn, LengthRead, Printed};
use jobsched::job::{started, ExitReport, Job};
use jobsched::protocol::{Request, Response};

fn tell(turn: ClientTurn, event: ClientEvent) -> ClientTurn {
    assert!(turn.client.accepts(&event));
    turn.client.step(event)
}

fn silent(turn: &ClientTurn) -> bool {
    turn.printed == Printed { out: String::new(), err: String::new() }
}

/// A client that has sent its request.
fn sent() -> ClientTurn {
    let turn = Client::start(Request::Status { job_id: 4 });
    assert_eq!(turn.action, ClientAction::Connect);
    let turn = tell(turn, ClientEvent::Connected(Ok(())));
    assert_eq!(turn.action, ClientAction::Encode { request: Request::Status { job_id: 4 } });
    let turn = tell(turn, ClientEvent::Encoded(Some(vec![5; 300])));
    assert_eq!(turn.action, ClientAction::Write { bytes: vec![44, 1, 0, 0] });
    let turn = tell(turn, ClientEvent::Written(true));
    assert_eq!(turn.action, ClientAction::Write { bytes: vec![5; 300] });
    let turn = tell(turn, ClientEvent::Written(true));
    assert_eq!(turn.action, ClientAction::ReadLength);
    assert!(silent(&turn));
    turn
}

fn receive(turn: ClientTurn, response: Response) -> ClientTurn {
    let turn = tell(turn, ClientEvent::LengthRead(LengthRead::Prefix([2, 0, 0, 0])));
    assert_eq!(turn.action, ClientAction::ReadBody { length: 2 });
    let turn = tell(turn, ClientEvent::BodyRead(Some(vec![6, 7])));
    assert_eq!(turn.action, ClientAction::Decode { body: vec![6, 7] });
    tell(turn, ClientEvent::Decoded(Some(response)))
}

fn status(stdout: Option<&str>, stderr: Option<&str>) -> Response {
    Response::Status {
        status: "S".to_string(),
        stdout: stdout.map(|s| s.to_string()),
        stderr: stderr.map(|s| s.to_string()),
    }
}

#[test]
fn client_shows_success_and_reads_on() {
    let turn = receive(sent(), Response::Success { message: "fine".to_string() });
    assert_eq!(turn.printed.out, "Success: fine\n");
    assert_eq!(turn.printed.err, "");
    assert_eq!(turn.action, ClientAction::ReadLength);
}

#[test]
fn client_shows_an_error_and_is_done() {
    let turn = receive(sent(), Response::Error { message: "bad".to_string() });
    assert_eq!(turn.printed.out, "");
    assert_eq!(turn.printed.err, "Error: bad\n");
    assert_eq!(turn.action, ClientAction::Succeed);
    assert_eq!(turn.client, Client::Done);
}

#[test]
fn client_shows_output_that_is_there() {
    assert_eq!(status(None, None).show().out, "S\n");
    assert_eq!(status(Some(""), Some("")).show().out, "S\n");
    assert_eq!(status(Some("o\n"), Some("")).show().out, "S\n\n--- STDOUT ---\no\n\n");
    assert_eq!(status(None, Some("e")).show().out, "S\n\n--- STDERR ---\ne\n");
    assert_eq!(
        status(Some("o"), Some("e")).show().out,
        "S\n\n--- STDOUT ---\no\n\n--- STDERR ---\ne\n"
    );
    assert_eq!(status(Some("o"), Some("e")).show().err, "");
    assert!(status(None, None).is_last());
    assert!(!started(1, 2).is_last());
}

#[test]
fn client_shows_a_job_from_start_to_end() {
    let job = Job {
        id: 8,
        command: "echo".to_string(),
        args: vec!["hi".to_string()],
        status: ExitReport {
            code: Some(0),
            signal: None,
            stdout: "hi\n".to_string(),
            stderr: String::new(),
        }
        .outcome(),
    };
    let turn = receive(sent(), started(8, 123));
    assert_eq!(turn.printed.out, "Success: Job 8 started (PID: 123).\n");
    assert_eq!(turn.action, ClientAction::ReadLength);
    let turn = receive(turn, job.report());
    assert_eq!(
        turn.printed.out,
        "Job 8: echo hi -> Finished (Exit Code: 0)\n\n--- STDOUT ---\nhi\n\n"
    );
    assert_eq!(turn.action, ClientAction::Succeed);
}

#[test]
fn unreachable_daemon_is_a_failure() {
    let turn = Client::start(Request::Status { job_id: 1 });
    let turn = tell(turn, ClientEvent::Connected(Err("refused".to_string())));
    assert_eq!(turn.printed.out, "");
    assert_eq!(
        turn.printed.err,
        "Failed to connect to daemon: refused. Is the daemon running?\n"
    );
    assert_eq!(turn.action, ClientAction::Fail);
}

#[test]
fn end_of_stream_between_responses_is_no_failure() {
    let turn = tell(sent(), ClientEvent::LengthRead(LengthRead::EndOfStream));
    assert_eq!(turn.action, ClientAction::Succeed);
    assert!(silent(&turn));
    assert_eq!(turn.client, Client::Done);
}

#[test]
fn failed_actions_end_the_client() {
    let turn = tell(sent(), ClientEvent::LengthRead(LengthRead::Failed));
    assert_eq!(turn.action, ClientAction::Fail);
    assert!(silent(&turn));

    let turn = tell(sent(), ClientEvent::LengthRead(LengthRead::Prefix([9, 0, 0, 0])));
    let turn = tell(turn, ClientEvent::BodyRead(None));
    assert_eq!(turn.action, ClientAction::Fail);

    let turn = tell(sent(), ClientEvent::LengthRead(LengthRead::Prefix([1, 0, 0, 0])));
    let turn = tell(turn, ClientEvent::BodyRead(Some(vec![0])));
    let turn = tell(turn, ClientEvent::Decoded(None));
    assert_eq!(turn.action, ClientAction::Fail);

    let turn = Client::AwaitEncoding.step(ClientEvent::Encoded(None));
    assert_eq!(turn.action, ClientAction::Fail);

    let turn = Client::AwaitPrefixWritten { body: vec![1] }.step(ClientEvent::Written(false));
    assert_eq!(turn.action, ClientAction::Fail);

    let turn = Client::AwaitBodyWritten.step(ClientEvent::Written(false));
    assert_eq!(turn.action, ClientAction::Fail);
}

#[test]
fn client_accepts_what_it_waits_for_only() {
    let client = Client::AwaitBody { length: 2 };
    assert!(client.accepts(&ClientEvent::BodyRead(Some(vec![1, 2]))));
    assert!(!client.accepts(&ClientEvent::BodyRead(Some(vec![1]))));
    assert!(client.accepts(&ClientEvent::BodyRead(None)));
    assert!(!client.accepts(&ClientEvent::Written(true)));
    assert!(!Client::Done.accepts(&ClientEvent::Written(true)));
}
