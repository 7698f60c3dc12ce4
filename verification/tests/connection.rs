use jobsched::job::{not_found, started, ExitReport};
use jobsched::protocol::{Request, Response};
use jobsched::session::{Action, Event, Session, Turn};
use jobsched::table::JobTable;

fn tell(turn: Turn, table: &mut JobTable, event: Event) -> Turn {
    assert!(turn.session.ready(table, &event));
    turn.session.step(table, event)
}

/// A connection that has read a request, which is now to be understood.
fn asked(table: &mut JobTable) -> Turn {
    let turn = Session::open();
    assert_eq!(turn.action, Action::ReadLength);
    let turn = tell(turn, table, Event::LengthRead(Some([3, 0, 0, 0])));
    assert_eq!(turn.action, Action::ReadBody { length: 3 });
    let turn = tell(turn, table, Event::BodyRead(Some(vec![7, 8, 9])));
    assert_eq!(turn.action, Action::Decode { body: vec![7, 8, 9] });
    turn
}

fn run(command: &str, args: &[&str]) -> Event {
    Event::Decoded(Ok(Request::Run {
        command: command.to_string(),
        args: args.iter().map(|a| a.to_string()).collect(),
    }))
}

/// Sends the response that the turn asks for, and says which it was.
fn send(turn: Turn, table: &mut JobTable, written: [bool; 2]) -> (Turn, Response) {
    let body: Vec<u8> = vec![42; 258];
    let Turn { session, action } = turn;
    let response = match action {
        Action::Encode { response } => response,
        _ => panic!("no response"),
    };
    let turn = Turn { session, action: Action::Close };
    let turn = tell(turn, table, Event::Encoded(body.clone()));
    assert_eq!(turn.action, Action::Write { bytes: vec![2, 1, 0, 0] });
    let turn = tell(turn, table, Event::Written(written[0]));
    assert_eq!(turn.action, Action::Write { bytes: body });
    let turn = tell(turn, table, Event::Written(written[1]));
    (turn, response)
}

fn finished(code: i32) -> Event {
    Event::Exited(Ok(ExitReport {
        code: Some(code),
        signal: None,
        stdout: "hello\n".to_string(),
        stderr: String::new(),
    }))
}

fn ask_status(table: &mut JobTable, job_id: u32) -> Response {
    let turn = asked(table);
    let turn = tell(turn, table, Event::Decoded(Ok(Request::Status { job_id })));
    let (turn, response) = send(turn, table, [true, true]);
    assert_eq!(turn.action, Action::ReadLength);
    response
}

fn error(message: &str) -> Response {
    Response::Error { message: message.to_string() }
}

#[test]
fn run_is_answered_when_it_starts_and_when_it_ends() {
    let mut table = JobTable::new();
    let turn = asked(&mut table);
    let turn = tell(turn, &mut table, run("echo", &["hello"]));
    assert_eq!(
        turn.action,
        Action::Spawn { job_id: 1, command: "echo".to_string(), args: vec!["hello".to_string()] }
    );
    let turn = tell(turn, &mut table, Event::Spawned(Ok(99)));
    let (turn, response) = send(turn, &mut table, [true, true]);
    assert_eq!(response, started(1, 99));
    assert_eq!(turn.action, Action::AwaitExit { job_id: 1 });
    assert_eq!(
        ask_status(&mut table, 1),
        Response::Status {
            status: "Job 1: echo hello -> Waiting for output (PID: 99)".to_string(),
            stdout: None,
            stderr: None,
        }
    );
    let turn = tell(turn, &mut table, finished(0));
    let (turn, response) = send(turn, &mut table, [true, true]);
    assert_eq!(
        response,
        Response::Status {
            status: "Job 1: echo hello -> Finished (Exit Code: 0)".to_string(),
            stdout: Some("hello\n".to_string()),
            stderr: Some(String::new()),
        }
    );
    assert_eq!(turn.action, Action::ReadLength);
    assert_eq!(ask_status(&mut table, 1), response);
}

#[test]
fn run_goes_on_though_its_client_is_gone() {
    let mut table = JobTable::new();
    let turn = asked(&mut table);
    let turn = tell(turn, &mut table, run("sleep", &["1"]));
    let turn = tell(turn, &mut table, Event::Spawned(Ok(5)));
    let (turn, _) = send(turn, &mut table, [false, false]);
    assert_eq!(turn.action, Action::AwaitExit { job_id: 1 });
    let turn = tell(turn, &mut table, finished(2));
    let (turn, response) = send(turn, &mut table, [false, false]);
    assert_eq!(turn.action, Action::ReadLength);
    assert_eq!(ask_status(&mut table, 1), response);
    let turn = tell(turn, &mut table, Event::LengthRead(None));
    assert_eq!(turn.action, Action::Close);
    assert_eq!(turn.session, Session::Closed);
}

#[test]
fn signal_that_ended_a_job_is_reported() {
    let mut table = JobTable::new();
    let turn = asked(&mut table);
    let turn = tell(turn, &mut table, run("sleep", &["9"]));
    let turn = tell(turn, &mut table, Event::Spawned(Ok(5)));
    let (turn, _) = send(turn, &mut table, [true, true]);
    let killed = Event::Exited(Ok(ExitReport {
        code: None,
        signal: Some(9),
        stdout: String::new(),
        stderr: "oops".to_string(),
    }));
    let turn = tell(turn, &mut table, killed);
    let (_, response) = send(turn, &mut table, [true, true]);
    assert_eq!(
        response,
        Response::Status {
            status: "Job 1: sleep 9 -> Terminated by signal (Code: 9)".to_string(),
            stdout: Some(String::new()),
            stderr: Some("oops".to_string()),
        }
    );
}

#[test]
fn command_that_does_not_start_is_an_error() {
    let mut table = JobTable::new();
    let turn = asked(&mut table);
    let turn = tell(turn, &mut table, run("nope", &[]));
    let turn = tell(turn, &mut table, Event::Spawned(Err("not found".to_string())));
    let (turn, response) = send(turn, &mut table, [true, false]);
    assert_eq!(response, error("Failed to run process: not found"));
    assert_eq!(turn.action, Action::ReadLength);
    assert_eq!(
        ask_status(&mut table, 1),
        Response::Status {
            status: "Job 1: nope  -> Failed to spawn: not found".to_string(),
            stdout: None,
            stderr: None,
        }
    );
}

#[test]
fn process_that_cannot_be_waited_for_is_an_error() {
    let mut table = JobTable::new();
    let turn = asked(&mut table);
    let turn = tell(turn, &mut table, run("x", &["y"]));
    let turn = tell(turn, &mut table, Event::Spawned(Ok(5)));
    let (turn, _) = send(turn, &mut table, [true, true]);
    let turn = tell(turn, &mut table, Event::Exited(Err("no child".to_string())));
    let (turn, response) = send(turn, &mut table, [true, true]);
    assert_eq!(response, error("Failed to wait: no child"));
    assert_eq!(turn.action, Action::ReadLength);
    assert_eq!(
        ask_status(&mut table, 1),
        Response::Status {
            status: "Job 1: x y -> Failed to spawn: Failed to wait: no child".to_string(),
            stdout: None,
            stderr: None,
        }
    );
}

#[test]
fn question_for_an_unknown_job_is_an_error() {
    let mut table = JobTable::new();
    assert_eq!(ask_status(&mut table, 12), not_found(12));
    assert_eq!(ask_status(&mut table, 12), error("Job 12 not found."));
}

#[test]
fn refused_request_leaves_the_connection_open() {
    let mut table = JobTable::new();
    let turn = asked(&mut table);
    let turn = tell(turn, &mut table, Event::Decoded(Err("expected value".to_string())));
    let (turn, response) = send(turn, &mut table, [true, true]);
    assert_eq!(response, error("Failed to deserialize request: expected value"));
    assert_eq!(turn.action, Action::ReadLength);
    assert_eq!(table.next_id(), 1);
}

#[test]
fn refusal_that_cannot_be_written_closes_the_connection() {
    let mut table = JobTable::new();
    let refused = Event::Decoded(Err("bad".to_string()));
    let turn = asked(&mut table);
    let turn = tell(turn, &mut table, refused);
    let turn = tell(turn, &mut table, Event::Encoded(vec![1]));
    let turn = tell(turn, &mut table, Event::Written(false));
    assert_eq!(turn.action, Action::Close);

    let turn = asked(&mut table);
    let turn = tell(turn, &mut table, Event::Decoded(Err("bad".to_string())));
    let turn = tell(turn, &mut table, Event::Encoded(vec![1]));
    let turn = tell(turn, &mut table, Event::Written(true));
    assert_eq!(turn.action, Action::Write { bytes: vec![1] });
    let turn = tell(turn, &mut table, Event::Written(false));
    assert_eq!(turn.action, Action::Close);
    assert_eq!(turn.session, Session::Closed);
}

#[test]
fn body_that_cannot_be_read_closes_the_connection() {
    let mut table = JobTable::new();
    let turn = Session::open();
    let turn = tell(turn, &mut table, Event::LengthRead(Some([0, 1, 0, 0])));
    assert_eq!(turn.action, Action::ReadBody { length: 256 });
    let turn = tell(turn, &mut table, Event::BodyRead(None));
    assert_eq!(turn.action, Action::Close);
}

#[test]
fn jobs_of_two_connections_do_not_mix() {
    let mut table = JobTable::new();
    let one = asked(&mut table);
    let two = asked(&mut table);
    let one = tell(one, &mut table, run("first", &[]));
    let two = tell(two, &mut table, run("second", &[]));
    let two = tell(two, &mut table, Event::Spawned(Ok(22)));
    let one = tell(one, &mut table, Event::Spawned(Ok(11)));
    let (two, second_start) = send(two, &mut table, [true, true]);
    let (one, first_start) = send(one, &mut table, [true, true]);
    assert_eq!(first_start, started(1, 11));
    assert_eq!(second_start, started(2, 22));
    let two = tell(two, &mut table, finished(2));
    assert_eq!(
        ask_status(&mut table, 1),
        Response::Status {
            status: "Job 1: first  -> Waiting for output (PID: 11)".to_string(),
            stdout: None,
            stderr: None,
        }
    );
    let one = tell(one, &mut table, finished(1));
    let (_, second_end) = send(two, &mut table, [true, true]);
    let (_, first_end) = send(one, &mut table, [true, true]);
    assert_eq!(ask_status(&mut table, 1), first_end);
    assert_eq!(ask_status(&mut table, 2), second_end);
    assert_ne!(first_end, second_end);
}

#[test]
fn connection_is_ready_for_what_it_waits_for_only() {
    let table = JobTable::new();
    let turn = Session::open();
    assert!(turn.session.ready(&table, &Event::LengthRead(None)));
    assert!(!turn.session.ready(&table, &Event::BodyRead(None)));
    assert!(!turn.session.ready(&table, &Event::Written(true)));
    let session = Session::AwaitBody { length: 2 };
    assert!(session.ready(&table, &Event::BodyRead(Some(vec![0, 0]))));
    assert!(!session.ready(&table, &Event::BodyRead(Some(vec![0]))));
    assert!(Session::AwaitRequest.ready(&table, &run("ls", &[])));
    assert!(!Session::Closed.ready(&table, &Event::LengthRead(None)));
}

#[test]
fn connection_serves_one_request_after_the_other() {
    let mut table = JobTable::new();
    let turn = asked(&mut table);
    let turn = tell(turn, &mut table, Event::Decoded(Ok(Request::Status { job_id: 1 })));
    let (turn, first) = send(turn, &mut table, [true, true]);
    assert_eq!(first, not_found(1));
    let turn = tell(turn, &mut table, Event::LengthRead(Some([0, 0, 0, 0])));
    assert_eq!(turn.action, Action::ReadBody { length: 0 });
    let turn = tell(turn, &mut table, Event::BodyRead(Some(vec![])));
    let turn = tell(turn, &mut table, Event::Decoded(Err("empty".to_string())));
    let (turn, second) = send(turn, &mut table, [true, true]);
    assert_eq!(second, error("Failed to deserialize request: empty"));
    let turn = tell(turn, &mut table, Event::LengthRead(Some([1, 0, 0, 0])));
    let turn = tell(turn, &mut table, Event::BodyRead(Some(vec![1])));
    let turn = tell(turn, &mut table, run("true", &[]));
    assert_eq!(
        turn.action,
        Action::Spawn { job_id: 1, command: "true".to_string(), args: vec![] }
    );
}

#[test]
fn job_is_known_from_its_start_and_its_end_stands() {
    let mut table = JobTable::new();
    let turn = asked(&mut table);
    let turn = tell(turn, &mut table, run("a", &["b"]));
    assert_eq!(ask_status(&mut table, 1), not_found(1));
    let turn = tell(turn, &mut table, Event::Spawned(Ok(3)));
    assert_ne!(ask_status(&mut table, 1), not_found(1));
    let (turn, _) = send(turn, &mut table, [true, true]);
    let turn = tell(turn, &mut table, finished(0));
    let (_, end) = send(turn, &mut table, [true, true]);
    for id in 2..5u32 {
        let other = asked(&mut table);
        let other = tell(other, &mut table, run("c", &[]));
        let other = tell(other, &mut table, Event::Spawned(Ok(id)));
        let (other, response) = send(other, &mut table, [true, true]);
        assert_eq!(response, started(id, id));
        let _ = tell(other, &mut table, finished(id as i32));
        assert_eq!(ask_status(&mut table, 1), end);
    }
}
