use jobsched::cli::{build_request, Commands, UsageError};
use jobsched::protocol::Request;

fn strings(words: &[&str]) -> Vec<String> {
    words.iter().map(|w| w.to_string()).collect()
}

fn run(words: &[&str]) -> Option<Commands> {
    Some(Commands::Run { command_and_args: strings(words) })
}

fn run_request(command: &str, args: &[&str]) -> Request {
    Request::Run { command: command.to_string(), args: strings(args) }
}

#[test]
fn run_takes_the_first_word_as_the_command() {
    assert_eq!(build_request(run(&["ls", "-l", "/"]), vec![]), Ok(run_request("ls", &["-l", "/"])));
    assert_eq!(build_request(run(&["ls"]), vec![]), Ok(run_request("ls", &[])));
}

#[test]
fn run_may_be_left_out() {
    for words in [vec!["ls"], vec!["echo", "hello", "world"]] {
        assert_eq!(build_request(None, strings(&words)), build_request(run(&words), vec![]));
    }
    assert_eq!(
        build_request(None, strings(&["echo", "hello"])),
        Ok(run_request("echo", &["hello"]))
    );
}

#[test]
fn status_asks_for_the_job() {
    assert_eq!(
        build_request(Some(Commands::Status { job_id: 17 }), vec![]),
        Ok(Request::Status { job_id: 17 })
    );
}

#[test]
fn words_beside_a_subcommand_do_not_count() {
    assert_eq!(
        build_request(Some(Commands::Status { job_id: 1 }), strings(&["ls"])),
        Ok(Request::Status { job_id: 1 })
    );
    assert_eq!(build_request(run(&["a"]), strings(&["b", "c"])), Ok(run_request("a", &[])));
    assert_eq!(build_request(run(&[]), strings(&["b"])), Err(UsageError::NothingToRun));
}

#[test]
fn run_without_a_command_is_an_error() {
    let error = build_request(run(&[]), vec![]).unwrap_err();
    assert_eq!(error, UsageError::NothingToRun);
    assert_eq!(error.message(), "Error: No command provided to 'run'");
}

#[test]
fn empty_command_line_is_an_error() {
    let error = build_request(None, vec![]).unwrap_err();
    assert_eq!(error, UsageError::NoCommand);
    assert_eq!(
        error.message(),
        "Error: No command provided. Usage: jobsched-cli run <command> or jobsched-cli -- <command>"
    );
}
