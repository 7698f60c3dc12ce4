//! A job, how it stands, and what is said of it.

use crate::protocol::{Response, ResponseView};
use crate::text::{
    decimal, decimal_text, join_texts, joined, law_joined_holds_each_part,
    law_nothing_joined_is_empty, lemma_stands_within, signed_decimal, signed_decimal_text, spells,
    stands_at, start_of, texts,
};
use vstd::prelude::*;
use vstd::string::*;

verus! {

/// How a job stands.
#[derive(Debug, PartialEq, Eq)]
pub enum JobStatus {
    /// The process runs, and its output is awaited.
    Waiting { pid: u32 },
    /// The process exited by itself.
    Finished { exit_status_code: i32, stdout: String, stderr: String },
    /// A signal ended the process.
    Signaled { signal_code: i32, stdout: String, stderr: String },
    /// The process could not be started or waited for.
    FailedToSpawn { error: String },
}

/// A command that a client asked for.
#[derive(Debug, PartialEq, Eq)]
pub struct Job {
    pub id: u32,
    pub command: String,
    pub args: Vec<String>,
    pub status: JobStatus,
}

/// What is known of a process once it has ended: its exit code if it exited by
/// itself, the signal that ended it if there is one, and what it printed.
#[derive(Debug, PartialEq, Eq)]
pub struct ExitReport {
    pub code: Option<i32>,
    pub signal: Option<i32>,
    pub stdout: String,
    pub stderr: String,
}

/// A job's status as plain text.
pub enum StatusView {
    Waiting { pid: u32 },
    Finished { exit_status_code: i32, stdout: Seq<char>, stderr: Seq<char> },
    Signaled { signal_code: i32, stdout: Seq<char>, stderr: Seq<char> },
    FailedToSpawn { error: Seq<char> },
}

/// A job as plain text.
pub struct JobView {
    pub id: u32,
    pub command: Seq<char>,
    pub args: Seq<Seq<char>>,
    pub status: StatusView,
}

/// An exit report as plain text.
pub struct ExitView {
    pub code: Option<i32>,
    pub signal: Option<i32>,
    pub stdout: Seq<char>,
    pub stderr: Seq<char>,
}

impl View for JobStatus {
    type V = StatusView;

    open spec fn view(&self) -> StatusView {
        match *self {
            JobStatus::Waiting { pid } => StatusView::Waiting { pid },
            JobStatus::Finished { exit_status_code, stdout, stderr } => StatusView::Finished {
                exit_status_code,
                stdout: stdout@,
                stderr: stderr@,
            },
            JobStatus::Signaled { signal_code, stdout, stderr } => StatusView::Signaled {
                signal_code,
                stdout: stdout@,
                stderr: stderr@,
            },
            JobStatus::FailedToSpawn { error } => StatusView::FailedToSpawn { error: error@ },
        }
    }
}

impl View for Job {
    type V = JobView;

    open spec fn view(&self) -> JobView {
        JobView {
            id: self.id,
            command: self.command@,
            args: texts(self.args@),
            status: self.status@,
        }
    }
}

impl View for ExitReport {
    type V = ExitView;

    open spec fn view(&self) -> ExitView {
        ExitView {
            code: self.code,
            signal: self.signal,
            stdout: self.stdout@,
            stderr: self.stderr@,
        }
    }
}

impl StatusView {
    /// Nothing more is awaited of the process.
    pub open spec fn is_final(self) -> bool {
        self !is Waiting
    }

    /// The status in words.
    pub open spec fn words(self) -> Seq<char> {
        match self {
            StatusView::Waiting { pid } => "Waiting for output (PID: "@ + decimal(pid as nat)
                + ")"@,
            StatusView::Finished { exit_status_code, .. } => "Finished (Exit Code: "@
                + signed_decimal(exit_status_code as int) + ")"@,
            StatusView::Signaled { signal_code, .. } => "Terminated by signal (Code: "@
                + signed_decimal(signal_code as int) + ")"@,
            StatusView::FailedToSpawn { error } => "Failed to spawn: "@ + error,
        }
    }

    /// What the process printed to its standard output, once it has ended.
    pub open spec fn stdout(self) -> Option<Seq<char>> {
        match self {
            StatusView::Finished { stdout, .. } => Some(stdout),
            StatusView::Signaled { stdout, .. } => Some(stdout),
            _ => None,
        }
    }

    /// What the process printed to its standard error, once it has ended.
    pub open spec fn stderr(self) -> Option<Seq<char>> {
        match self {
            StatusView::Finished { stderr, .. } => Some(stderr),
            StatusView::Signaled { stderr, .. } => Some(stderr),
            _ => None,
        }
    }
}

impl JobView {
    /// The job and its status in one line.
    pub open spec fn line(self) -> Seq<char> {
        "Job "@ + decimal(self.id as nat) + ": "@ + self.command + " "@ + joined(self.args, " "@)
            + " -> "@ + self.status.words()
    }

    /// The answer to the question how the job stands.
    pub open spec fn report(self) -> ResponseView {
        ResponseView::Status {
            status: self.line(),
            stdout: self.status.stdout(),
            stderr: self.status.stderr(),
        }
    }
}

impl ExitView {
    /// The status of a job whose process ended so.
    pub open spec fn outcome(self) -> StatusView {
        match self.code {
            Some(code) => StatusView::Finished {
                exit_status_code: code,
                stdout: self.stdout,
                stderr: self.stderr,
            },
            None => StatusView::Signaled {
                signal_code: match self.signal {
                    Some(signal) => signal,
                    None => (-1) as i32,
                },
                stdout: self.stdout,
                stderr: self.stderr,
            },
        }
    }
}

/// What a client is told whose job has started.
pub open spec fn started_response(id: u32, pid: u32) -> ResponseView {
    ResponseView::Success {
        message: "Job "@ + decimal(id as nat) + " started (PID: "@ + decimal(pid as nat) + ")."@,
    }
}

/// What a client is told that asks for a job nobody knows.
pub open spec fn not_found_response(id: u32) -> ResponseView {
    ResponseView::Error { message: "Job "@ + decimal(id as nat) + " not found."@ }
}

/// `label` with the number of a process or its like behind it, in brackets.
fn bracketed(label: &str, number: &String) -> (text: String)
    ensures
        text@ == label@ + number@ + ")"@,
{
    let mut text = String::from_str(label);
    text.append(number.as_str());
    text.append(")");
    text
}

impl JobStatus {
    /// The status in words.
    pub fn words(&self) -> (text: String)
        ensures
            text@ == self@.words(),
    {
        match self {
            JobStatus::Waiting { pid } => bracketed(
                "Waiting for output (PID: ",
                &decimal_text(*pid),
            ),
            JobStatus::Finished { exit_status_code, .. } => bracketed(
                "Finished (Exit Code: ",
                &signed_decimal_text(*exit_status_code),
            ),
            JobStatus::Signaled { signal_code, .. } => bracketed(
                "Terminated by signal (Code: ",
                &signed_decimal_text(*signal_code),
            ),
            JobStatus::FailedToSpawn { error } => {
                let mut text = String::from_str("Failed to spawn: ");
                text.append(error.as_str());
                text
            },
        }
    }
}

impl Job {
    /// The answer to the question how the job stands.
    pub fn report(&self) -> (response: Response)
        ensures
            response@ == self@.report(),
    {
        let mut line = String::from_str("Job ");
        line.append(decimal_text(self.id).as_str());
        line.append(": ");
        line.append(self.command.as_str());
        line.append(" ");
        line.append(join_texts(&self.args, " ").as_str());
        line.append(" -> ");
        line.append(self.status.words().as_str());
        let (stdout, stderr) = match &self.status {
            JobStatus::Finished { stdout, stderr, .. } => (
                Some(stdout.clone()),
                Some(stderr.clone()),
            ),
            JobStatus::Signaled { stdout, stderr, .. } => (
                Some(stdout.clone()),
                Some(stderr.clone()),
            ),
            _ => (None, None),
        };
        Response::Status { status: line, stdout, stderr }
    }
}

impl ExitReport {
    /// The status of a job whose process ended so.
    pub fn outcome(self) -> (status: JobStatus)
        ensures
            status@ == self@.outcome(),
            status@.stdout() == Some(self.stdout@),
            status@.stderr() == Some(self.stderr@),
            status is Finished <==> self.code is Some,
            status is Signaled <==> self.code is None,
            self.code matches Some(code) ==> status->exit_status_code == code,
            self.code is None ==> status->signal_code == match self.signal {
                Some(signal) => signal,
                None => (-1) as i32,
            },
    {
        match self.code {
            Some(code) => JobStatus::Finished {
                exit_status_code: code,
                stdout: self.stdout,
                stderr: self.stderr,
            },
            None => JobStatus::Signaled {
                signal_code: self.signal.unwrap_or(-1),
                stdout: self.stdout,
                stderr: self.stderr,
            },
        }
    }
}

/// What a client is told whose job has started.
pub fn started(id: u32, pid: u32) -> (response: Response)
    ensures
        response@ == started_response(id, pid),
{
    let mut message = String::from_str("Job ");
    message.append(decimal_text(id).as_str());
    message.append(" started (PID: ");
    message.append(decimal_text(pid).as_str());
    message.append(").");
    Response::Success { message }
}

/// What a client is told that asks for a job nobody knows.
pub fn not_found(id: u32) -> (response: Response)
    ensures
        response@ == not_found_response(id),
{
    let mut message = String::from_str("Job ");
    message.append(decimal_text(id).as_str());
    message.append(" not found.");
    Response::Error { message }
}

/// The plain text of a status holds all that the status holds.
pub proof fn law_status_view_keeps_all(status: JobStatus)
    ensures
        match status {
            JobStatus::Waiting { pid } => status@ matches StatusView::Waiting { pid: p } && p
                == pid,
            JobStatus::Finished { exit_status_code, stdout, stderr } => {
                &&& status@ matches StatusView::Finished {
                    exit_status_code: code,
                    stdout: out,
                    stderr: err,
                }
                &&& code == exit_status_code
                &&& out == stdout@
                &&& err == stderr@
            },
            JobStatus::Signaled { signal_code, stdout, stderr } => {
                &&& status@ matches StatusView::Signaled {
                    signal_code: code,
                    stdout: out,
                    stderr: err,
                }
                &&& code == signal_code
                &&& out == stdout@
                &&& err == stderr@
            },
            JobStatus::FailedToSpawn { error } => status@ matches StatusView::FailedToSpawn {
                error: text,
            } && text == error@,
        },
{
}

/// The plain text of a job holds all that the job holds.
pub proof fn law_job_view_keeps_all(job: Job)
    ensures
        job@.id == job.id,
        job@.command == job.command@,
        spells(job@.args, job.args@),
        job@.status == job.status@,
{
}

/// The plain text of an exit report holds all that the report holds.
pub proof fn law_exit_view_keeps_all(report: ExitReport)
    ensures
        report@.code == report.code,
        report@.signal == report.signal,
        report@.stdout == report.stdout@,
        report@.stderr == report.stderr@,
{
}

/// However a process ended, its job keeps all that it printed. The job is finished with
/// the exit code exactly where there is one, and else ended by the signal, which counts as
/// -1 where it is not known.
pub proof fn law_outcome_keeps_code_and_output(report: ExitView)
    ensures
        match report.outcome() {
            StatusView::Finished { exit_status_code, stdout, stderr } => {
                &&& report.code == Some(exit_status_code)
                &&& stdout == report.stdout
                &&& stderr == report.stderr
            },
            StatusView::Signaled { signal_code, stdout, stderr } => {
                &&& report.code is None
                &&& report.signal is Some ==> report.signal == Some(signal_code)
                &&& report.signal is None ==> signal_code == -1
                &&& stdout == report.stdout
                &&& stderr == report.stderr
            },
            _ => false,
        },
        report.outcome().stdout() == Some(report.stdout),
        report.outcome().stderr() == Some(report.stderr),
        report.outcome().is_final(),
{
}

/// Output is known of a job whose process has ended, all of it, and of no other job.
pub proof fn law_output_is_known_once_ended(status: StatusView)
    ensures
        status.is_final() <==> !(status is Waiting),
        match status {
            StatusView::Finished { stdout, stderr, .. } => status.stdout() == Some(stdout)
                && status.stderr() == Some(stderr),
            StatusView::Signaled { stdout, stderr, .. } => status.stdout() == Some(stdout)
                && status.stderr() == Some(stderr),
            _ => status.stdout() is None && status.stderr() is None,
        },
{
}

/// `text` is `label`, then `number`, then a closing bracket, and nothing else.
pub open spec fn brackets(text: Seq<char>, label: Seq<char>, number: Seq<char>) -> bool {
    &&& text.len() == label.len() + number.len() + 1
    &&& stands_at(text, 0, label)
    &&& stands_at(text, label.len() as int, number)
    &&& text.last() == ')'
}

/// The words for a status say of which kind it is, and after that hold its whole number or
/// its whole reason.
pub proof fn law_words_tell_kind_and_number(status: StatusView)
    ensures
        match status {
            StatusView::Waiting { pid } => brackets(
                status.words(),
                "Waiting for output (PID: "@,
                decimal(pid as nat),
            ),
            StatusView::Finished { exit_status_code, .. } => brackets(
                status.words(),
                "Finished (Exit Code: "@,
                signed_decimal(exit_status_code as int),
            ),
            StatusView::Signaled { signal_code, .. } => brackets(
                status.words(),
                "Terminated by signal (Code: "@,
                signed_decimal(signal_code as int),
            ),
            StatusView::FailedToSpawn { error } => {
                &&& status.words().len() == "Failed to spawn: "@.len() + error.len()
                &&& stands_at(status.words(), 0, "Failed to spawn: "@)
                &&& stands_at(status.words(), "Failed to spawn: "@.len() as int, error)
            },
        },
{
    let words = status.words();
    match status {
        StatusView::Waiting { pid } => {
            lemma_brackets(words, "Waiting for output (PID: "@, decimal(pid as nat));
        },
        StatusView::Finished { exit_status_code, .. } => {
            lemma_brackets(
                words,
                "Finished (Exit Code: "@,
                signed_decimal(exit_status_code as int),
            );
        },
        StatusView::Signaled { signal_code, .. } => {
            lemma_brackets(
                words,
                "Terminated by signal (Code: "@,
                signed_decimal(signal_code as int),
            );
        },
        StatusView::FailedToSpawn { error } => {
            lemma_label_and_rest("Failed to spawn: "@, error);
        },
    }
}

proof fn lemma_brackets(text: Seq<char>, label: Seq<char>, number: Seq<char>)
    requires
        text == label + number + ")"@,
    ensures
        brackets(text, label, number),
{
    reveal_strlit(")");
    assert(text.subrange(0, label.len() as int) =~= label);
    assert(text.subrange(label.len() as int, label.len() + number.len() as int) =~= number);
}

/// A label and what follows it each stand whole in the text that they make up.
pub proof fn lemma_label_and_rest(label: Seq<char>, rest: Seq<char>)
    ensures
        (label + rest).len() == label.len() + rest.len(),
        stands_at(label + rest, 0, label),
        stands_at(label + rest, label.len() as int, rest),
{
    assert((label + rest).subrange(0, label.len() as int) =~= label);
    assert((label + rest).subrange(label.len() as int, (label + rest).len() as int) =~= rest);
}

impl JobView {
    /// Where the job's command begins in its line.
    pub open spec fn command_place(self) -> int {
        6 + decimal(self.id as nat).len() as int
    }

    /// Where the job's arguments begin in its line.
    pub open spec fn args_place(self) -> int {
        self.command_place() + self.command.len() + 1
    }

    /// How many characters the arguments take, with one between neighbours.
    pub open spec fn args_len(self) -> int {
        if self.args.len() == 0 {
            0
        } else {
            start_of(self.args, 1, self.args.len()) - 1
        }
    }
}

/// A job's line is "Job ", its number, ": ", its command, a space, its arguments, " -> " and
/// its status in words, each of them whole, and nothing else.
pub proof fn law_line_holds_its_parts(job: JobView)
    ensures
        job.line().len() == job.args_place() + job.args_len() + 4 + job.status.words().len(),
        stands_at(job.line(), 0, "Job "@),
        stands_at(job.line(), 4, decimal(job.id as nat)),
        stands_at(job.line(), job.command_place() - 2, ": "@),
        stands_at(job.line(), job.command_place(), job.command),
        job.line()[job.args_place() - 1] == ' ',
        stands_at(job.line(), job.args_place() + job.args_len(), " -> "@),
        stands_at(job.line(), job.args_place() + job.args_len() + 4, job.status.words()),
{
    lemma_line_places(job);
}

/// In a job's line every argument stands whole, behind the arguments before it, and one
/// space parts it from the next.
pub proof fn law_line_holds_each_argument(job: JobView, k: nat)
    requires
        k < job.args.len(),
    ensures
        stands_at(
            job.line(),
            job.args_place() + start_of(job.args, 1, k),
            job.args[k as int],
        ),
        k + 1 < job.args.len() ==> stands_at(
            job.line(),
            job.args_place() + start_of(job.args, 1, k) + job.args[k as int].len(),
            seq![' '],
        ),
{
    reveal_strlit(" ");
    lemma_line_places(job);
    let args = joined(job.args, " "@);
    law_joined_holds_each_part(job.args, " "@, k);
    lemma_stands_within(
        job.line(),
        job.args_place(),
        args,
        start_of(job.args, 1, k),
        job.args[k as int],
    );
    if k + 1 < job.args.len() {
        assert(" "@ =~= seq![' ']);
        lemma_stands_within(
            job.line(),
            job.args_place(),
            args,
            start_of(job.args, 1, k) + job.args[k as int].len(),
            " "@,
        );
    }
}

proof fn lemma_line_places(job: JobView)
    ensures
        joined(job.args, " "@).len() == job.args_len(),
        job.line().len() == job.args_place() + job.args_len() + 4 + job.status.words().len(),
        stands_at(job.line(), 0, "Job "@),
        stands_at(job.line(), 4, decimal(job.id as nat)),
        stands_at(job.line(), job.command_place() - 2, ": "@),
        stands_at(job.line(), job.command_place(), job.command),
        job.line()[job.args_place() - 1] == ' ',
        stands_at(job.line(), job.args_place(), joined(job.args, " "@)),
        stands_at(job.line(), job.args_place() + job.args_len(), " -> "@),
        stands_at(job.line(), job.args_place() + job.args_len() + 4, job.status.words()),
{
    reveal_strlit("Job ");
    reveal_strlit(": ");
    reveal_strlit(" ");
    reveal_strlit(" -> ");
    let line = job.line();
    let number = decimal(job.id as nat);
    let args = joined(job.args, " "@);
    let words = job.status.words();
    if job.args.len() == 0 {
        law_nothing_joined_is_empty(job.args, " "@);
    } else {
        law_joined_holds_each_part(job.args, " "@, 0);
    }
    let c = job.command_place();
    let a = job.args_place();
    let e = a + args.len();
    assert(line.subrange(0, 4) =~= "Job "@);
    assert(line.subrange(4, 4 + number.len() as int) =~= number);
    assert(line.subrange(c - 2, c) =~= ": "@);
    assert(line.subrange(c, c + job.command.len()) =~= job.command);
    assert(line.subrange(a, e) =~= args);
    assert(line.subrange(e, e + 4) =~= " -> "@);
    assert(line.subrange(e + 4, e + 4 + words.len()) =~= words);
}

/// The report on a job, whatever its status, is its line and the output that is known.
pub proof fn law_report_holds_line_and_output(job: JobView)
    ensures
        job.report() matches ResponseView::Status { status, stdout, stderr } && status
            == job.line() && match job.status {
            StatusView::Finished { stdout: out, stderr: err, .. } => stdout == Some(out) && stderr
                == Some(err),
            StatusView::Signaled { stdout: out, stderr: err, .. } => stdout == Some(out) && stderr
                == Some(err),
            _ => stdout is None && stderr is None,
        },
{
}

/// Who asked for a job is told its number and that of its process, both of them whole.
pub proof fn law_started_tells_both_numbers(id: u32, pid: u32)
    ensures
        ({
            let job_number = decimal(id as nat);
            let process_number = decimal(pid as nat);
            &&& started_response(id, pid) matches ResponseView::Success { message }
            &&& message.len() == 4 + job_number.len() + 15 + process_number.len() + 2
            &&& stands_at(message, 0, "Job "@)
            &&& stands_at(message, 4, job_number)
            &&& stands_at(message, 4 + job_number.len() as int, " started (PID: "@)
            &&& stands_at(message, 19 + job_number.len() as int, process_number)
            &&& stands_at(message, 19 + job_number.len() + process_number.len() as int, ")."@)
        }),
{
    reveal_strlit("Job ");
    reveal_strlit(" started (PID: ");
    reveal_strlit(").");
    let j = decimal(id as nat);
    let p = decimal(pid as nat);
    let message = started_response(id, pid)->Success_message;
    let end = 19 + j.len() + p.len() as int;
    assert(message.subrange(0, 4) =~= "Job "@);
    assert(message.subrange(4, 4 + j.len() as int) =~= j);
    assert(message.subrange(4 + j.len() as int, 19 + j.len() as int) =~= " started (PID: "@);
    assert(message.subrange(19 + j.len() as int, end) =~= p);
    assert(message.subrange(end, end + 2) =~= ")."@);
}

/// Who asks for an unknown job is told, as an error, which number was asked for.
pub proof fn law_not_found_tells_the_number(id: u32)
    ensures
        ({
            let number = decimal(id as nat);
            &&& not_found_response(id) matches ResponseView::Error { message }
            &&& message.len() == 4 + number.len() + 11
            &&& stands_at(message, 0, "Job "@)
            &&& stands_at(message, 4, number)
            &&& stands_at(message, 4 + number.len() as int, " not found."@)
        }),
{
    reveal_strlit("Job ");
    reveal_strlit(" not found.");
    let number = decimal(id as nat);
    let message = not_found_response(id)->Error_message;
    assert(message.subrange(0, 4) =~= "Job "@);
    assert(message.subrange(4, 4 + number.len() as int) =~= number);
    assert(message.subrange(4 + number.len() as int, 15 + number.len() as int)
        =~= " not found."@);
}

} // verus!
