//! What one client sees of the daemon, request by request. Between two turns of a
//! connection others may change the jobs, so each turn meets jobs of its own.

use crate::frame::{frame, law_prefix_weighs_the_body, le_value, prefix_of, LENGTH_LIMIT};
use crate::job::{started_response, ExitView, StatusView};
use crate::protocol::{RequestView, ResponseView};
use crate::session::{
    after_turn, not_spawned_response, undecoded_response, wait_failure, ActionView, AfterView,
    EventView, SessionView, TicketView, TurnView,
};
use crate::table::TableView;
use vstd::prelude::*;

verus! {

/// How the sending of a response went: its bytes, and whether the two parts of the
/// message could be written. The jobs are those at each of the three turns.
pub struct SendingView {
    pub body: Seq<u8>,
    pub prefix_written: bool,
    pub body_written: bool,
    pub at_encoded: TableView,
    pub at_prefix: TableView,
    pub at_body: TableView,
}

impl SendingView {
    /// Both parts of the message could be written.
    pub open spec fn complete(self) -> bool {
        self.prefix_written && self.body_written
    }

    /// The turn after which the bytes of the response are known.
    pub open spec fn prefix_turn(self, session: SessionView) -> TurnView {
        session.next(self.at_encoded, EventView::Encoded(self.body))
    }

    /// The turn after which the prefix has been written, or could not be.
    pub open spec fn body_turn(self, session: SessionView) -> TurnView {
        self.prefix_turn(session).session.next(
            self.at_prefix,
            EventView::Written(self.prefix_written),
        )
    }

    /// The turn after which the body has been written, or could not be.
    pub open spec fn last_turn(self, session: SessionView) -> TurnView {
        self.body_turn(session).session.next(self.at_body, EventView::Written(self.body_written))
    }
}

/// A response goes out as one framed message, no job changes by it, and the connection
/// then goes on as it was to: after a refusal if the message could be written, and after
/// any other response even if it could not.
pub proof fn law_response_is_framed(after: AfterView, sending: SendingView)
    requires
        sending.complete() || after !is NextRequestIfWritten,
    ensures
        ({
            let session = SessionView::AwaitEncoding { after };
            let first = sending.prefix_turn(session);
            let second = sending.body_turn(session);
            let last = sending.last_turn(session);
            &&& first.action matches ActionView::Write { bytes: prefix }
            &&& second.action matches ActionView::Write { bytes: body }
            &&& prefix + body == frame(sending.body)
            &&& first.table == sending.at_encoded
            &&& second.table == sending.at_prefix
            &&& last == after_turn(sending.at_body, after)
        }),
{
}

/// A request reaches the daemon as it was framed: of a message that a client sent, the
/// connection hands exactly the body on to be understood.
pub proof fn law_request_body_is_handed_on(
    body: Seq<u8>,
    at_length: TableView,
    at_body: TableView,
)
    requires
        body.len() < LENGTH_LIMIT,
    ensures
        ({
            let length = SessionView::AwaitLength.next(
                at_length,
                EventView::LengthRead(Some(prefix_of(body))),
            );
            let decode = length.session.next(at_body, EventView::BodyRead(Some(body)));
            &&& length.action == ActionView::ReadBody { length: body.len() as u32 }
            &&& length.session.accepts(EventView::BodyRead(Some(body)))
            &&& decode.action == ActionView::Decode { body }
            &&& decode.session == SessionView::AwaitRequest
            &&& length.table == at_length
            &&& decode.table == at_body
        }),
{
    law_prefix_weighs_the_body(body);
    assert(le_value(prefix_of(body)) == body.len());
}

/// A client that asks for a command gets two answers: that the job has started, and then
/// how it ended. Its connection waits for the end of the job even if the first answer
/// could not be written, and takes the next request whatever became of the second.
pub proof fn law_run_is_answered_twice(
    command: Seq<char>,
    args: Seq<Seq<char>>,
    pid: u32,
    report: ExitView,
    at_request: TableView,
    at_spawn: TableView,
    at_exit: TableView,
    first: SendingView,
    second: SendingView,
)
    requires
        at_request.has_free_id(),
    ensures
        ({
            let id = (at_request.last_id + 1) as u32;
            let job = TicketView { id, command, args }.job(report.outcome());
            let asked = SessionView::AwaitRequest.next(
                at_request,
                EventView::Decoded(Ok(RequestView::Run { command, args })),
            );
            let spawned = asked.session.next(at_spawn, EventView::Spawned(Ok(pid)));
            let waiting = first.last_turn(spawned.session);
            let exited = waiting.session.next(at_exit, EventView::Exited(Ok(report)));
            let done = second.last_turn(exited.session);
            &&& asked.action == ActionView::Spawn { job_id: id, command, args }
            &&& asked.table.last_id == id
            &&& asked.table.jobs == at_request.jobs
            &&& spawned.action == ActionView::Encode { response: started_response(id, pid) }
            &&& spawned.table == at_spawn.with_job(
                TicketView { id, command, args }.job(StatusView::Waiting { pid }),
            )
            &&& waiting.action == ActionView::AwaitExit { job_id: id }
            &&& exited.action == ActionView::Encode { response: job.report() }
            &&& exited.table == at_exit.with_status(id, report.outcome())
            &&& done.session == SessionView::AwaitLength
            &&& done.action == ActionView::ReadLength
        }),
{
}

/// A client whose command could not be started gets one answer, with the reason.
pub proof fn law_failed_start_is_answered_once(
    ticket: TicketView,
    error: Seq<char>,
    at_spawn: TableView,
    sending: SendingView,
)
    ensures
        ({
            let spawned = SessionView::AwaitSpawn { ticket }.next(
                at_spawn,
                EventView::Spawned(Err(error)),
            );
            let done = sending.last_turn(spawned.session);
            &&& spawned.action == ActionView::Encode { response: not_spawned_response(error) }
            &&& spawned.table == at_spawn.with_job(
                ticket.job(StatusView::FailedToSpawn { error }),
            )
            &&& done.session == SessionView::AwaitLength
            &&& done.action == ActionView::ReadLength
        }),
{
}

/// A client whose process could not be waited for gets an answer with the reason.
pub proof fn law_failed_wait_is_answered(
    ticket: TicketView,
    error: Seq<char>,
    at_exit: TableView,
    sending: SendingView,
)
    ensures
        ({
            let exited = SessionView::AwaitExit { ticket }.next(
                at_exit,
                EventView::Exited(Err(error)),
            );
            let done = sending.last_turn(exited.session);
            &&& exited.action == ActionView::Encode {
                response: ResponseView::Error { message: wait_failure(error) },
            }
            &&& exited.table == at_exit.with_status(
                ticket.id,
                StatusView::FailedToSpawn { error: wait_failure(error) },
            )
            &&& done.session == SessionView::AwaitLength
            &&& done.action == ActionView::ReadLength
        }),
{
}

/// A client that asks how a job stands gets one answer, and no job changes by it.
pub proof fn law_question_is_answered_once(
    job_id: u32,
    at_request: TableView,
    sending: SendingView,
)
    ensures
        ({
            let asked = SessionView::AwaitRequest.next(
                at_request,
                EventView::Decoded(Ok(RequestView::Status { job_id })),
            );
            let done = sending.last_turn(asked.session);
            &&& asked.action == ActionView::Encode { response: at_request.answer(job_id) }
            &&& asked.table == at_request
            &&& done.session == SessionView::AwaitLength
            &&& done.action == ActionView::ReadLength
        }),
{
}

/// A client whose request could not be understood is told so, and no job changes by it.
/// The connection goes on with the next request if the answer could be written, and is
/// closed if not; the body is not written after a prefix that could not be.
pub proof fn law_refused_request_is_answered(
    error: Seq<char>,
    at_request: TableView,
    sending: SendingView,
)
    ensures
        ({
            let refused = SessionView::AwaitRequest.next(
                at_request,
                EventView::Decoded(Err(error)),
            );
            let second = sending.body_turn(refused.session);
            let last = sending.last_turn(refused.session);
            &&& refused.action == ActionView::Encode { response: undecoded_response(error) }
            &&& refused.table == at_request
            &&& second.table == sending.at_prefix
            &&& sending.prefix_written ==> last.table == sending.at_body
            &&& second.action == if sending.prefix_written {
                ActionView::Write { bytes: sending.body }
            } else {
                ActionView::Close
            }
            &&& sending.prefix_written ==> last.action == if sending.body_written {
                ActionView::ReadLength
            } else {
                ActionView::Close
            }
        }),
{
}

/// A connection ends where a request can no longer be read, and no job changes by it.
pub proof fn law_lost_client_ends_the_connection(session: SessionView, table: TableView)
    ensures
        SessionView::AwaitLength.next(table, EventView::LengthRead(None)) == (TurnView {
            session: SessionView::Closed,
            table,
            action: ActionView::Close,
        }),
        session is AwaitBody ==> session.next(table, EventView::BodyRead(None)) == (TurnView {
            session: SessionView::Closed,
            table,
            action: ActionView::Close,
        }),
{
}

/// A job that has started is recorded as waiting under its number with its command and
/// arguments, the client is told, and the connection then waits for that very job.
pub proof fn law_started_job_is_recorded_and_awaited(
    ticket: TicketView,
    pid: u32,
    other: u32,
    at_spawn: TableView,
    sending: SendingView,
)
    requires
        other != ticket.id,
    ensures
        ({
            let spawned = SessionView::AwaitSpawn { ticket }.next(
                at_spawn,
                EventView::Spawned(Ok(pid)),
            );
            let waiting = sending.last_turn(spawned.session);
            let jobs = spawned.table.jobs;
            &&& spawned.action == ActionView::Encode {
                response: started_response(ticket.id, pid),
            }
            &&& jobs.contains_key(ticket.id)
            &&& jobs[ticket.id].id == ticket.id
            &&& jobs[ticket.id].command == ticket.command
            &&& jobs[ticket.id].args == ticket.args
            &&& jobs[ticket.id].status == StatusView::Waiting { pid }
            &&& jobs.contains_key(other) <==> at_spawn.jobs.contains_key(other)
            &&& at_spawn.jobs.contains_key(other) ==> jobs[other] == at_spawn.jobs[other]
            &&& spawned.table.last_id == at_spawn.last_id
            &&& waiting.session == SessionView::AwaitExit { ticket }
            &&& waiting.action == ActionView::AwaitExit { job_id: ticket.id }
            &&& waiting.table == sending.at_body
        }),
{
}

/// When a process has ended, the client is sent a report with all that the process printed,
/// and the job gets a status that holds it too, with the exit code or the signal.
pub proof fn law_end_is_recorded_and_reported_in_full(
    ticket: TicketView,
    report: ExitView,
    other: u32,
    at_exit: TableView,
)
    requires
        other != ticket.id,
    ensures
        ({
            let exited = SessionView::AwaitExit { ticket }.next(
                at_exit,
                EventView::Exited(Ok(report)),
            );
            let jobs = exited.table.jobs;
            &&& exited.action matches ActionView::Encode { response }
            &&& response matches ResponseView::Status { status, stdout, stderr }
            &&& status == ticket.job(report.outcome()).line()
            &&& stdout == Some(report.stdout)
            &&& stderr == Some(report.stderr)
            &&& jobs.contains_key(ticket.id) <==> at_exit.jobs.contains_key(ticket.id)
            &&& jobs.contains_key(ticket.id) ==> match jobs[ticket.id].status {
                StatusView::Finished { exit_status_code, stdout: out, stderr: err } => {
                    &&& report.code == Some(exit_status_code)
                    &&& out == report.stdout
                    &&& err == report.stderr
                },
                StatusView::Signaled { stdout: out, stderr: err, .. } => {
                    &&& report.code is None
                    &&& out == report.stdout
                    &&& err == report.stderr
                },
                _ => false,
            }
            &&& jobs.contains_key(other) <==> at_exit.jobs.contains_key(other)
            &&& at_exit.jobs.contains_key(other) ==> jobs[other] == at_exit.jobs[other]
            &&& exited.table.last_id == at_exit.last_id
        }),
{
}

/// A connection that goes on reads the next request, or waits for the job that it has in
/// hand, and no job changes by it.
pub proof fn law_connection_goes_on(table: TableView, after: AfterView)
    ensures
        after_turn(table, after).table == table,
        match after {
            AfterView::AwaitExit { ticket } => {
                &&& after_turn(table, after).action == ActionView::AwaitExit {
                    job_id: ticket.id,
                }
                &&& after_turn(table, after).session == SessionView::AwaitExit { ticket }
            },
            _ => {
                &&& after_turn(table, after).action == ActionView::ReadLength
                &&& after_turn(table, after).session == SessionView::AwaitLength
            },
        },
{
}

} // verus!
