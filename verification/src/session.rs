//! The daemon's side of one connection, as a machine: it says what to do next, and
//! is told how that went.

use crate::frame::{
    announced_length, law_announced_length_has_these_digits, le_value, length_prefix, prefix_of,
};
use crate::job::{
    lemma_label_and_rest, started, started_response, ExitReport, ExitView, Job, JobStatus,
    JobView, StatusView,
};
use crate::protocol::{Request, RequestView, Response, ResponseView};
use crate::table::{JobTable, TableView};
use crate::text::{copy_texts, spells, stands_at, texts};
use vstd::prelude::*;
use vstd::string::*;

verus! {

/// A job that a connection has in hand: its number and what is to be run.
#[derive(Debug, PartialEq, Eq)]
pub struct Ticket {
    pub id: u32,
    pub command: String,
    pub args: Vec<String>,
}

/// How a connection goes on once a response has been written.
#[derive(Debug, PartialEq, Eq)]
pub enum After {
    /// With the next request, whether or not the response could be written.
    NextRequest,
    /// With the next request if the response could be written, else not at all.
    NextRequestIfWritten,
    /// By waiting for the process of the job, whether or not the response could be
    /// written.
    AwaitExit { ticket: Ticket },
}

/// What a connection waits for.
#[derive(Debug, PartialEq, Eq)]
pub enum Session {
    /// The length prefix of a request.
    AwaitLength,
    /// The body of a request.
    AwaitBody { length: u32 },
    /// The request that a body holds.
    AwaitRequest,
    /// Word that the process of the job has started.
    AwaitSpawn { ticket: Ticket },
    /// Word that the process of the job has ended.
    AwaitExit { ticket: Ticket },
    /// The bytes of a response.
    AwaitEncoding { after: After },
    /// Word that the length prefix of a response has been written.
    AwaitPrefixWritten { body: Vec<u8>, after: After },
    /// Word that the body of a response has been written.
    AwaitBodyWritten { after: After },
    /// Nothing: the connection is over.
    Closed,
}

/// How an action went.
#[derive(Debug, PartialEq, Eq)]
pub enum Event {
    /// A length prefix was read, or could not be read.
    LengthRead(Option<[u8; 4]>),
    /// A body was read, or could not be read.
    BodyRead(Option<Vec<u8>>),
    /// A body was understood, or why it was not.
    Decoded(Result<Request, String>),
    /// The number of the process that has started, or why none has.
    Spawned(Result<u32, String>),
    /// How the process ended, or why it could not be waited for.
    Exited(Result<ExitReport, String>),
    /// The bytes of the response.
    Encoded(Vec<u8>),
    /// Whether the bytes could be written.
    Written(bool),
}

/// What is to be done next.
#[derive(Debug, PartialEq, Eq)]
pub enum Action {
    /// Read the four bytes of a length prefix.
    ReadLength,
    /// Read as many bytes.
    ReadBody { length: u32 },
    /// Make a request of these bytes.
    Decode { body: Vec<u8> },
    /// Start this command, with its output captured.
    Spawn { job_id: u32, command: String, args: Vec<String> },
    /// Collect the output of the job's process and wait for its end.
    AwaitExit { job_id: u32 },
    /// Make bytes of this response.
    Encode { response: Response },
    /// Write these bytes.
    Write { bytes: Vec<u8> },
    /// Close the connection.
    Close,
}

/// What a connection waits for next, and what is to be done for it.
#[derive(Debug, PartialEq, Eq)]
pub struct Turn {
    pub session: Session,
    pub action: Action,
}

/// A ticket as plain text.
pub struct TicketView {
    pub id: u32,
    pub command: Seq<char>,
    pub args: Seq<Seq<char>>,
}

/// How a connection goes on, as plain text.
pub enum AfterView {
    NextRequest,
    NextRequestIfWritten,
    AwaitExit { ticket: TicketView },
}

/// What a connection waits for, as plain text and bytes.
pub enum SessionView {
    AwaitLength,
    AwaitBody { length: u32 },
    AwaitRequest,
    AwaitSpawn { ticket: TicketView },
    AwaitExit { ticket: TicketView },
    AwaitEncoding { after: AfterView },
    AwaitPrefixWritten { body: Seq<u8>, after: AfterView },
    AwaitBodyWritten { after: AfterView },
    Closed,
}

/// How an action went, as plain text and bytes.
pub enum EventView {
    LengthRead(Option<Seq<u8>>),
    BodyRead(Option<Seq<u8>>),
    Decoded(Result<RequestView, Seq<char>>),
    Spawned(Result<u32, Seq<char>>),
    Exited(Result<ExitView, Seq<char>>),
    Encoded(Seq<u8>),
    Written(bool),
}

/// What is to be done next, as plain text and bytes.
pub enum ActionView {
    ReadLength,
    ReadBody { length: u32 },
    Decode { body: Seq<u8> },
    Spawn { job_id: u32, command: Seq<char>, args: Seq<Seq<char>> },
    AwaitExit { job_id: u32 },
    Encode { response: ResponseView },
    Write { bytes: Seq<u8> },
    Close,
}

/// A turn together with the jobs after it.
pub struct TurnView {
    pub session: SessionView,
    pub table: TableView,
    pub action: ActionView,
}

impl View for Ticket {
    type V = TicketView;

    open spec fn view(&self) -> TicketView {
        TicketView { id: self.id, command: self.command@, args: texts(self.args@) }
    }
}

impl View for After {
    type V = AfterView;

    open spec fn view(&self) -> AfterView {
        match *self {
            After::NextRequest => AfterView::NextRequest,
            After::NextRequestIfWritten => AfterView::NextRequestIfWritten,
            After::AwaitExit { ticket } => AfterView::AwaitExit { ticket: ticket@ },
        }
    }
}

impl View for Session {
    type V = SessionView;

    open spec fn view(&self) -> SessionView {
        match *self {
            Session::AwaitLength => SessionView::AwaitLength,
            Session::AwaitBody { length } => SessionView::AwaitBody { length },
            Session::AwaitRequest => SessionView::AwaitRequest,
            Session::AwaitSpawn { ticket } => SessionView::AwaitSpawn { ticket: ticket@ },
            Session::AwaitExit { ticket } => SessionView::AwaitExit { ticket: ticket@ },
            Session::AwaitEncoding { after } => SessionView::AwaitEncoding { after: after@ },
            Session::AwaitPrefixWritten { body, after } => SessionView::AwaitPrefixWritten {
                body: body@,
                after: after@,
            },
            Session::AwaitBodyWritten { after } => SessionView::AwaitBodyWritten {
                after: after@,
            },
            Session::Closed => SessionView::Closed,
        }
    }
}

impl View for Event {
    type V = EventView;

    open spec fn view(&self) -> EventView {
        match *self {
            Event::LengthRead(None) => EventView::LengthRead(None),
            Event::LengthRead(Some(prefix)) => EventView::LengthRead(Some(prefix@)),
            Event::BodyRead(None) => EventView::BodyRead(None),
            Event::BodyRead(Some(body)) => EventView::BodyRead(Some(body@)),
            Event::Decoded(Ok(request)) => EventView::Decoded(Ok(request@)),
            Event::Decoded(Err(error)) => EventView::Decoded(Err(error@)),
            Event::Spawned(Ok(pid)) => EventView::Spawned(Ok(pid)),
            Event::Spawned(Err(error)) => EventView::Spawned(Err(error@)),
            Event::Exited(Ok(report)) => EventView::Exited(Ok(report@)),
            Event::Exited(Err(error)) => EventView::Exited(Err(error@)),
            Event::Encoded(body) => EventView::Encoded(body@),
            Event::Written(written) => EventView::Written(written),
        }
    }
}

impl View for Action {
    type V = ActionView;

    open spec fn view(&self) -> ActionView {
        match *self {
            Action::ReadLength => ActionView::ReadLength,
            Action::ReadBody { length } => ActionView::ReadBody { length },
            Action::Decode { body } => ActionView::Decode { body: body@ },
            Action::Spawn { job_id, command, args } => ActionView::Spawn {
                job_id,
                command: command@,
                args: texts(args@),
            },
            Action::AwaitExit { job_id } => ActionView::AwaitExit { job_id },
            Action::Encode { response } => ActionView::Encode { response: response@ },
            Action::Write { bytes } => ActionView::Write { bytes: bytes@ },
            Action::Close => ActionView::Close,
        }
    }
}

impl TicketView {
    /// The job with this number and command, and with this status.
    pub open spec fn job(self, status: StatusView) -> JobView {
        JobView { id: self.id, command: self.command, args: self.args, status }
    }
}

impl SessionView {
    /// `event` is word of what this connection waits for.
    pub open spec fn accepts(self, event: EventView) -> bool {
        match self {
            SessionView::AwaitLength => event is LengthRead,
            SessionView::AwaitBody { length } => match event {
                EventView::BodyRead(Some(body)) => body.len() == length,
                EventView::BodyRead(None) => true,
                _ => false,
            },
            SessionView::AwaitRequest => event is Decoded,
            SessionView::AwaitSpawn { .. } => event is Spawned,
            SessionView::AwaitExit { .. } => event is Exited,
            SessionView::AwaitEncoding { .. } => event is Encoded,
            SessionView::AwaitPrefixWritten { .. } => event is Written,
            SessionView::AwaitBodyWritten { .. } => event is Written,
            SessionView::Closed => false,
        }
    }

    /// The connection can take `event` in: it waits for it, and a job number is left
    /// if the event asks for one.
    pub open spec fn ready(self, table: TableView, event: EventView) -> bool {
        &&& self.accepts(event)
        &&& event matches EventView::Decoded(Ok(RequestView::Run { .. })) ==> table.has_free_id()
    }

    /// The turn that `event` brings about.
    pub open spec fn next(self, table: TableView, event: EventView) -> TurnView {
        match (self, event) {
            (SessionView::AwaitLength, EventView::LengthRead(Some(prefix))) => length_turn(
                table,
                prefix,
            ),
            (SessionView::AwaitBody { .. }, EventView::BodyRead(Some(body))) => TurnView {
                session: SessionView::AwaitRequest,
                table,
                action: ActionView::Decode { body },
            },
            (SessionView::AwaitRequest, EventView::Decoded(decoded)) => request_turn(
                table,
                decoded,
            ),
            (SessionView::AwaitSpawn { ticket }, EventView::Spawned(spawned)) => spawn_turn(
                table,
                ticket,
                spawned,
            ),
            (SessionView::AwaitExit { ticket }, EventView::Exited(exited)) => exit_turn(
                table,
                ticket,
                exited,
            ),
            (SessionView::AwaitEncoding { after }, EventView::Encoded(body)) => TurnView {
                session: SessionView::AwaitPrefixWritten { body, after },
                table,
                action: ActionView::Write { bytes: prefix_of(body) },
            },
            (
                SessionView::AwaitPrefixWritten { body, after },
                EventView::Written(written),
            ) => if written || after !is NextRequestIfWritten {
                TurnView {
                    session: SessionView::AwaitBodyWritten { after },
                    table,
                    action: ActionView::Write { bytes: body },
                }
            } else {
                closing_turn(table)
            },
            (
                SessionView::AwaitBodyWritten { after },
                EventView::Written(written),
            ) => if written || after !is NextRequestIfWritten {
                after_turn(table, after)
            } else {
                closing_turn(table)
            },
            _ => closing_turn(table),
        }
    }
}

/// The connection ends.
pub open spec fn closing_turn(table: TableView) -> TurnView {
    TurnView { session: SessionView::Closed, table, action: ActionView::Close }
}

/// `response` is sent, and then the connection goes on as `after` says.
pub open spec fn reply_turn(
    table: TableView,
    response: ResponseView,
    after: AfterView,
) -> TurnView {
    TurnView {
        session: SessionView::AwaitEncoding { after },
        table,
        action: ActionView::Encode { response },
    }
}

/// As many bytes are read as the prefix announces.
pub open spec fn length_turn(table: TableView, prefix: Seq<u8>) -> TurnView {
    let length = le_value(prefix) as u32;
    TurnView {
        session: SessionView::AwaitBody { length },
        table,
        action: ActionView::ReadBody { length },
    }
}

/// What a client is told whose request could not be understood.
pub open spec fn undecoded_response(error: Seq<char>) -> ResponseView {
    ResponseView::Error { message: "Failed to deserialize request: "@ + error }
}

/// What a client is told whose command could not be started.
pub open spec fn not_spawned_response(error: Seq<char>) -> ResponseView {
    ResponseView::Error { message: "Failed to run process: "@ + error }
}

/// What is said of a process that could not be waited for.
pub open spec fn wait_failure(error: Seq<char>) -> Seq<char> {
    "Failed to wait: "@ + error
}

/// A request to run a command gets the next job number and is started; a question
/// for a job is answered; what could not be understood is refused.
pub open spec fn request_turn(
    table: TableView,
    decoded: Result<RequestView, Seq<char>>,
) -> TurnView {
    match decoded {
        Ok(RequestView::Run { command, args }) => {
            let id = (table.last_id + 1) as u32;
            TurnView {
                session: SessionView::AwaitSpawn { ticket: TicketView { id, command, args } },
                table: table.with_next_id(),
                action: ActionView::Spawn { job_id: id, command, args },
            }
        },
        Ok(RequestView::Status { job_id }) => reply_turn(
            table,
            table.answer(job_id),
            AfterView::NextRequest,
        ),
        Err(error) => reply_turn(
            table,
            undecoded_response(error),
            AfterView::NextRequestIfWritten,
        ),
    }
}

/// A job that has started is recorded as waiting and awaited; one that has not is
/// recorded as failed.
pub open spec fn spawn_turn(
    table: TableView,
    ticket: TicketView,
    spawned: Result<u32, Seq<char>>,
) -> TurnView {
    match spawned {
        Ok(pid) => reply_turn(
            table.with_job(ticket.job(StatusView::Waiting { pid })),
            started_response(ticket.id, pid),
            AfterView::AwaitExit { ticket },
        ),
        Err(error) => reply_turn(
            table.with_job(ticket.job(StatusView::FailedToSpawn { error })),
            not_spawned_response(error),
            AfterView::NextRequest,
        ),
    }
}

/// How the process ended becomes the job's status and is reported.
pub open spec fn exit_turn(
    table: TableView,
    ticket: TicketView,
    exited: Result<ExitView, Seq<char>>,
) -> TurnView {
    match exited {
        Ok(report) => reply_turn(
            table.with_status(ticket.id, report.outcome()),
            ticket.job(report.outcome()).report(),
            AfterView::NextRequest,
        ),
        Err(error) => reply_turn(
            table.with_status(
                ticket.id,
                StatusView::FailedToSpawn { error: wait_failure(error) },
            ),
            ResponseView::Error { message: wait_failure(error) },
            AfterView::NextRequest,
        ),
    }
}

/// The connection goes on as `after` says.
pub open spec fn after_turn(table: TableView, after: AfterView) -> TurnView {
    match after {
        AfterView::AwaitExit { ticket } => TurnView {
            session: SessionView::AwaitExit { ticket },
            table,
            action: ActionView::AwaitExit { job_id: ticket.id },
        },
        _ => TurnView {
            session: SessionView::AwaitLength,
            table,
            action: ActionView::ReadLength,
        },
    }
}

/// `turn`, taken with these jobs, is the one that `view` describes.
pub open spec fn is_turn(turn: Turn, table: TableView, view: TurnView) -> bool {
    &&& turn.session@ == view.session
    &&& turn.action@ == view.action
    &&& table == view.table
}

fn closing() -> (turn: Turn)
    ensures
        turn.session@ == SessionView::Closed,
        turn.action@ == ActionView::Close,
{
    Turn { session: Session::Closed, action: Action::Close }
}

fn reply(response: Response, after: After) -> (turn: Turn)
    ensures
        turn.session@ == (SessionView::AwaitEncoding { after: after@ }),
        turn.action@ == (ActionView::Encode { response: response@ }),
{
    Turn { session: Session::AwaitEncoding { after }, action: Action::Encode { response } }
}

/// `label` with `error` behind it.
fn failure(label: &str, error: &String) -> (text: String)
    ensures
        text@ == label@ + error@,
{
    let mut text = String::from_str(label);
    text.append(error.as_str());
    text
}

/// Takes up a request.
fn take_request(table: &mut JobTable, decoded: Result<Request, String>) -> (turn: Turn)
    requires
        decoded matches Ok(Request::Run { .. }) ==> old(table)@.has_free_id(),
    ensures
        is_turn(
            turn,
            final(table)@,
            request_turn(
                old(table)@,
                match decoded {
                    Ok(request) => Ok(request@),
                    Err(error) => Err(error@),
                },
            ),
        ),
{
    match decoded {
        Ok(Request::Run { command, args }) => {
            let id: u32 = table.next_id();
            let ticket = Ticket { id, command: command.clone(), args: copy_texts(&args) };
            Turn {
                session: Session::AwaitSpawn { ticket },
                action: Action::Spawn { job_id: id, command, args },
            }
        },
        Ok(Request::Status { job_id }) => reply(table.answer(job_id), After::NextRequest),
        Err(error) => reply(
            Response::Error { message: failure("Failed to deserialize request: ", &error) },
            After::NextRequestIfWritten,
        ),
    }
}

/// Records whether the process of a job has started.
fn take_spawn(table: &mut JobTable, ticket: Ticket, spawned: Result<u32, String>) -> (turn: Turn)
    ensures
        is_turn(
            turn,
            final(table)@,
            spawn_turn(
                old(table)@,
                ticket@,
                match spawned {
                    Ok(pid) => Ok(pid),
                    Err(error) => Err(error@),
                },
            ),
        ),
{
    match spawned {
        Ok(pid) => {
            let response = started(ticket.id, pid);
            table.record(
                Job {
                    id: ticket.id,
                    command: ticket.command.clone(),
                    args: copy_texts(&ticket.args),
                    status: JobStatus::Waiting { pid },
                },
            );
            reply(response, After::AwaitExit { ticket })
        },
        Err(error) => {
            let message = failure("Failed to run process: ", &error);
            table.record(
                Job {
                    id: ticket.id,
                    command: ticket.command,
                    args: ticket.args,
                    status: JobStatus::FailedToSpawn { error },
                },
            );
            reply(Response::Error { message }, After::NextRequest)
        },
    }
}

/// Records how the process of a job has ended.
fn take_exit(
    table: &mut JobTable,
    ticket: Ticket,
    exited: Result<ExitReport, String>,
) -> (turn: Turn)
    ensures
        is_turn(
            turn,
            final(table)@,
            exit_turn(
                old(table)@,
                ticket@,
                match exited {
                    Ok(report) => Ok(report@),
                    Err(error) => Err(error@),
                },
            ),
        ),
{
    match exited {
        Ok(report) => {
            let job = Job {
                id: ticket.id,
                command: ticket.command,
                args: ticket.args,
                status: report.outcome(),
            };
            let response = job.report();
            table.set_status(job.id, job.status);
            reply(response, After::NextRequest)
        },
        Err(error) => {
            let message = failure("Failed to wait: ", &error);
            table.set_status(ticket.id, JobStatus::FailedToSpawn { error: message.clone() });
            reply(Response::Error { message }, After::NextRequest)
        },
    }
}

/// Goes on once a response has been written.
fn go_on(after: After) -> (turn: Turn)
    ensures
        forall|table: TableView| #[trigger]
            after_turn(table, after@).session == turn.session@ && after_turn(
                table,
                after@,
            ).action == turn.action@,
{
    match after {
        After::AwaitExit { ticket } => {
            let job_id: u32 = ticket.id;
            Turn { session: Session::AwaitExit { ticket }, action: Action::AwaitExit { job_id } }
        },
        _ => Turn { session: Session::AwaitLength, action: Action::ReadLength },
    }
}

impl Session {
    /// A new connection: it begins with a request.
    pub fn open() -> (turn: Turn)
        ensures
            turn.session@ == SessionView::AwaitLength,
            turn.action@ == ActionView::ReadLength,
    {
        Turn { session: Session::AwaitLength, action: Action::ReadLength }
    }

    /// Whether the connection can take `event` in.
    pub fn ready(&self, table: &JobTable, event: &Event) -> (ready: bool)
        ensures
            ready == self@.ready(table@, event@),
    {
        match (self, event) {
            (Session::AwaitLength, Event::LengthRead(_)) => true,
            (Session::AwaitBody { length }, Event::BodyRead(Some(body))) => body.len() as u64
                == *length as u64,
            (Session::AwaitBody { .. }, Event::BodyRead(None)) => true,
            (
                Session::AwaitRequest,
                Event::Decoded(Ok(Request::Run { .. })),
            ) => table.has_free_id(),
            (Session::AwaitRequest, Event::Decoded(_)) => true,
            (Session::AwaitSpawn { .. }, Event::Spawned(_)) => true,
            (Session::AwaitExit { .. }, Event::Exited(_)) => true,
            (Session::AwaitEncoding { .. }, Event::Encoded(_)) => true,
            (Session::AwaitPrefixWritten { .. }, Event::Written(_)) => true,
            (Session::AwaitBodyWritten { .. }, Event::Written(_)) => true,
            _ => false,
        }
    }

    /// Takes `event` in and says what is to be done next.
    pub fn step(self, table: &mut JobTable, event: Event) -> (turn: Turn)
        requires
            self@.ready(old(table)@, event@),
        ensures
            is_turn(turn, final(table)@, self@.next(old(table)@, event@)),
            turn.session@ == self@.next(old(table)@, event@).session,
            turn.action@ == self@.next(old(table)@, event@).action,
            final(table)@ == self@.next(old(table)@, event@).table,
    {
        match (self, event) {
            (Session::AwaitLength, Event::LengthRead(Some(prefix))) => {
                let length: u32 = announced_length(prefix);
                Turn { session: Session::AwaitBody { length }, action: Action::ReadBody { length } }
            },
            (Session::AwaitBody { .. }, Event::BodyRead(Some(body))) => Turn {
                session: Session::AwaitRequest,
                action: Action::Decode { body },
            },
            (Session::AwaitRequest, Event::Decoded(decoded)) => take_request(table, decoded),
            (Session::AwaitSpawn { ticket }, Event::Spawned(spawned)) => take_spawn(
                table,
                ticket,
                spawned,
            ),
            (Session::AwaitExit { ticket }, Event::Exited(exited)) => take_exit(
                table,
                ticket,
                exited,
            ),
            (Session::AwaitEncoding { after }, Event::Encoded(body)) => {
                let bytes = length_prefix(&body);
                Turn {
                    session: Session::AwaitPrefixWritten { body, after },
                    action: Action::Write { bytes },
                }
            },
            (Session::AwaitPrefixWritten { body, after }, Event::Written(written)) => match (
                written,
                after,
            ) {
                (false, After::NextRequestIfWritten) => closing(),
                (_, after) => Turn {
                    session: Session::AwaitBodyWritten { after },
                    action: Action::Write { bytes: body },
                },
            },
            (Session::AwaitBodyWritten { after }, Event::Written(written)) => match (
                written,
                after,
            ) {
                (false, After::NextRequestIfWritten) => closing(),
                (_, after) => go_on(after),
            },
            _ => closing(),
        }
    }
}

impl EventView {
    /// The event says how `action` went.
    pub open spec fn is_word_of(self, action: ActionView) -> bool {
        match action {
            ActionView::ReadLength => self is LengthRead,
            ActionView::ReadBody { length } => match self {
                EventView::BodyRead(Some(body)) => body.len() == length,
                EventView::BodyRead(None) => true,
                _ => false,
            },
            ActionView::Decode { .. } => self is Decoded,
            ActionView::Spawn { .. } => self is Spawned,
            ActionView::AwaitExit { .. } => self is Exited,
            ActionView::Encode { .. } => self is Encoded,
            ActionView::Write { .. } => self is Written,
            ActionView::Close => false,
        }
    }
}

/// A connection that has asked for an action waits for word of that action and for
/// nothing else, and so it never comes to a stop before it is closed.
pub proof fn law_session_waits_for_its_action(
    session: SessionView,
    table: TableView,
    event: EventView,
    word: EventView,
)
    requires
        session.accepts(event),
    ensures
        ({
            let turn = session.next(table, event);
            &&& turn.session.accepts(word) <==> word.is_word_of(turn.action)
            &&& turn.session is Closed <==> turn.action is Close
        }),
{
}

/// The plain text of a ticket holds all that the ticket holds.
pub proof fn law_ticket_view_keeps_all(ticket: Ticket)
    ensures
        ticket@.id == ticket.id,
        ticket@.command == ticket.command@,
        spells(ticket@.args, ticket.args@),
{
}

/// The plain form of a state holds all that the state holds.
pub proof fn law_session_view_keeps_all(session: Session, after: After)
    ensures
        match after {
            After::NextRequest => after@ is NextRequest,
            After::NextRequestIfWritten => after@ is NextRequestIfWritten,
            After::AwaitExit { ticket } => after@ matches AfterView::AwaitExit { ticket: t } && t
                == ticket@,
        },
        match session {
            Session::AwaitLength => session@ is AwaitLength,
            Session::AwaitBody { length } => session@ matches SessionView::AwaitBody { length: n }
                && n == length,
            Session::AwaitRequest => session@ is AwaitRequest,
            Session::AwaitSpawn { ticket } => session@ matches SessionView::AwaitSpawn {
                ticket: t,
            } && t == ticket@,
            Session::AwaitExit { ticket } => session@ matches SessionView::AwaitExit { ticket: t }
                && t == ticket@,
            Session::AwaitEncoding { after } => session@ matches SessionView::AwaitEncoding {
                after: a,
            } && a == after@,
            Session::AwaitPrefixWritten { body, after } => session@
                matches SessionView::AwaitPrefixWritten { body: b, after: a } && b == body@ && a
                == after@,
            Session::AwaitBodyWritten { after } => session@
                matches SessionView::AwaitBodyWritten { after: a } && a == after@,
            Session::Closed => session@ is Closed,
        },
{
}

/// The plain form of an event holds all that the event holds.
pub proof fn law_event_view_keeps_all(event: Event)
    ensures
        match event {
            Event::LengthRead(read) => {
                &&& event@ matches EventView::LengthRead(r)
                &&& r is Some <==> read is Some
                &&& read is Some ==> r->0 == read->0@
            },
            Event::BodyRead(read) => {
                &&& event@ matches EventView::BodyRead(r)
                &&& r is Some <==> read is Some
                &&& read is Some ==> r->0 == read->0@
            },
            Event::Decoded(decoded) => {
                &&& event@ matches EventView::Decoded(d)
                &&& d is Ok <==> decoded is Ok
                &&& decoded is Ok ==> d->Ok_0 == decoded->Ok_0@
                &&& decoded is Err ==> d->Err_0 == decoded->Err_0@
            },
            Event::Spawned(spawned) => {
                &&& event@ matches EventView::Spawned(s)
                &&& s is Ok <==> spawned is Ok
                &&& spawned is Ok ==> s->Ok_0 == spawned->Ok_0
                &&& spawned is Err ==> s->Err_0 == spawned->Err_0@
            },
            Event::Exited(exited) => {
                &&& event@ matches EventView::Exited(e)
                &&& e is Ok <==> exited is Ok
                &&& exited is Ok ==> e->Ok_0 == exited->Ok_0@
                &&& exited is Err ==> e->Err_0 == exited->Err_0@
            },
            Event::Encoded(body) => event@ matches EventView::Encoded(b) && b == body@,
            Event::Written(written) => event@ matches EventView::Written(w) && w == written,
        },
{
}

/// The plain form of an action holds all that the action holds.
pub proof fn law_action_view_keeps_all(action: Action)
    ensures
        match action {
            Action::ReadLength => action@ is ReadLength,
            Action::ReadBody { length } => action@ matches ActionView::ReadBody { length: n } && n
                == length,
            Action::Decode { body } => action@ matches ActionView::Decode { body: b } && b
                == body@,
            Action::Spawn { job_id, command, args } => {
                &&& action@ matches ActionView::Spawn { job_id: id, command: c, args: a }
                &&& id == job_id
                &&& c == command@
                &&& spells(a, args@)
            },
            Action::AwaitExit { job_id } => action@ matches ActionView::AwaitExit { job_id: id }
                && id == job_id,
            Action::Encode { response } => action@ matches ActionView::Encode { response: r } && r
                == response@,
            Action::Write { bytes } => action@ matches ActionView::Write { bytes: b } && b
                == bytes@,
            Action::Close => action@ is Close,
        },
{
}

/// A connection that waits for an event is ready for it, unless the event asks for a job
/// and the largest number has been given out.
pub proof fn law_only_missing_numbers_hold_up(
    session: SessionView,
    table: TableView,
    event: EventView,
)
    ensures
        session.ready(table, event) ==> session.accepts(event),
        session.accepts(event) && !session.ready(table, event) ==> {
            &&& event matches EventView::Decoded(Ok(request))
            &&& request is Run
            &&& table.last_id == 4294967295
        },
        event matches EventView::Decoded(Ok(RequestView::Run { .. })) && table.last_id
            == 4294967295 ==> !session.ready(table, event),
{
}

/// The job of a ticket has the ticket's number, command and arguments.
pub proof fn law_job_of_a_ticket_is_the_tickets(ticket: TicketView, status: StatusView)
    ensures
        ticket.job(status).id == ticket.id,
        ticket.job(status).command == ticket.command,
        ticket.job(status).args == ticket.args,
        ticket.job(status).status == status,
{
}

/// A refused client is told, as an error, what failed and then the whole reason.
pub proof fn law_refusals_tell_the_whole_reason(error: Seq<char>)
    ensures
        undecoded_response(error) matches ResponseView::Error { message } && message.len() == 31
            + error.len() && stands_at(message, 0, "Failed to deserialize request: "@)
            && stands_at(message, 31, error),
        not_spawned_response(error) matches ResponseView::Error { message } && message.len() == 23
            + error.len() && stands_at(message, 0, "Failed to run process: "@) && stands_at(
            message,
            23,
            error,
        ),
        wait_failure(error).len() == 16 + error.len(),
        stands_at(wait_failure(error), 0, "Failed to wait: "@),
        stands_at(wait_failure(error), 16, error),
{
    reveal_strlit("Failed to deserialize request: ");
    reveal_strlit("Failed to run process: ");
    reveal_strlit("Failed to wait: ");
    lemma_label_and_rest("Failed to deserialize request: "@, error);
    lemma_label_and_rest("Failed to run process: "@, error);
    lemma_label_and_rest("Failed to wait: "@, error);
}

/// The daemon reads as many bytes as the four bytes of the prefix say, digit by digit to the
/// base 256, and then hands the body on unchanged.
pub proof fn law_daemon_reads_the_announced_length(
    prefix: Seq<u8>,
    body: Seq<u8>,
    at_length: TableView,
    at_body: TableView,
)
    requires
        prefix.len() == 4,
    ensures
        ({
            let turn = SessionView::AwaitLength.next(
                at_length,
                EventView::LengthRead(Some(prefix)),
            );
            let next = turn.session.next(at_body, EventView::BodyRead(Some(body)));
            &&& turn.table == at_length
            &&& turn.action matches ActionView::ReadBody { length }
            &&& length % 256 == prefix[0]
            &&& length / 256 % 256 == prefix[1]
            &&& length / 65536 % 256 == prefix[2]
            &&& length / 16777216 == prefix[3]
            &&& turn.session == SessionView::AwaitBody { length }
            &&& next.action == ActionView::Decode { body }
            &&& next.session == SessionView::AwaitRequest
            &&& next.table == at_body
        }),
{
    law_announced_length_has_these_digits(prefix);
}

/// A request to run gets the number after the last one, and the very command and arguments
/// that it holds are started. No job changes by it.
pub proof fn law_requested_command_is_started(
    table: TableView,
    command: Seq<char>,
    args: Seq<Seq<char>>,
)
    requires
        table.last_id < 4294967295,
    ensures
        ({
            let turn = SessionView::AwaitRequest.next(
                table,
                EventView::Decoded(Ok(RequestView::Run { command, args })),
            );
            &&& turn.action matches ActionView::Spawn { job_id, command: started, args: with }
            &&& job_id == table.last_id + 1
            &&& started == command
            &&& with == args
            &&& turn.session matches SessionView::AwaitSpawn { ticket }
            &&& ticket.id == job_id
            &&& ticket.command == command
            &&& ticket.args == args
            &&& turn.table.last_id == job_id
            &&& turn.table.jobs == table.jobs
        }),
{
}

} // verus!
