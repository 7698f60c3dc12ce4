//! The client's side of its connection, as a machine: it says what to do and print
//! next, and is told how that went.

use crate::frame::{
    announced_length, frame, law_announced_length_has_these_digits, law_prefix_weighs_the_body,
    le_value, length_prefix, prefix_of, LENGTH_LIMIT,
};
use crate::job::{started_response, JobView};
use crate::protocol::{Request, RequestView, Response, ResponseView};
use crate::text::{decimal, lemma_stands_within, stands_at};
use vstd::prelude::*;
use vstd::string::*;

verus! {

/// What a client waits for.
#[derive(Debug, PartialEq, Eq)]
pub enum Client {
    /// The connection to the daemon.
    AwaitConnection { request: Request },
    /// The bytes of the request.
    AwaitEncoding,
    /// Word that the length prefix of the request has been written.
    AwaitPrefixWritten { body: Vec<u8> },
    /// Word that the body of the request has been written.
    AwaitBodyWritten,
    /// The length prefix of a response.
    AwaitLength,
    /// The body of a response.
    AwaitBody { length: u32 },
    /// The response that a body holds.
    AwaitResponse,
    /// Nothing: the client is done.
    Done,
}

/// What came of reading a length prefix.
#[derive(Debug, PartialEq, Eq)]
pub enum LengthRead {
    /// The prefix.
    Prefix([u8; 4]),
    /// The daemon has closed the connection.
    EndOfStream,
    /// Reading failed.
    Failed,
}

/// How an action went.
#[derive(Debug, PartialEq, Eq)]
pub enum ClientEvent {
    /// The connection stands, or why it does not.
    Connected(Result<(), String>),
    /// The bytes of the request, or that there are none.
    Encoded(Option<Vec<u8>>),
    /// Whether the bytes could be written.
    Written(bool),
    /// What came of reading a length prefix.
    LengthRead(LengthRead),
    /// A body was read, or could not be read.
    BodyRead(Option<Vec<u8>>),
    /// A body was understood, or was not.
    Decoded(Option<Response>),
}

/// What is to be done next.
#[derive(Debug, PartialEq, Eq)]
pub enum ClientAction {
    /// Connect to the daemon.
    Connect,
    /// Make bytes of this request.
    Encode { request: Request },
    /// Write these bytes.
    Write { bytes: Vec<u8> },
    /// Read the four bytes of a length prefix.
    ReadLength,
    /// Read as many bytes.
    ReadBody { length: u32 },
    /// Make a response of these bytes.
    Decode { body: Vec<u8> },
    /// End, without an error.
    Succeed,
    /// End, with the error that was met last.
    Fail,
}

/// Text for the user: what goes to the standard output and to the standard error.
#[derive(Debug, PartialEq, Eq)]
pub struct Printed {
    pub out: String,
    pub err: String,
}

/// What a client waits for next, what is to be printed, and what is then to be done.
#[derive(Debug, PartialEq, Eq)]
pub struct ClientTurn {
    pub client: Client,
    pub printed: Printed,
    pub action: ClientAction,
}

/// What a client waits for, as plain text and bytes.
pub enum ClientView {
    AwaitConnection { request: RequestView },
    AwaitEncoding,
    AwaitPrefixWritten { body: Seq<u8> },
    AwaitBodyWritten,
    AwaitLength,
    AwaitBody { length: u32 },
    AwaitResponse,
    Done,
}

/// What came of reading a length prefix, as plain bytes.
pub enum LengthReadView {
    Prefix(Seq<u8>),
    EndOfStream,
    Failed,
}

/// How an action went, as plain text and bytes.
pub enum ClientEventView {
    Connected(Result<(), Seq<char>>),
    Encoded(Option<Seq<u8>>),
    Written(bool),
    LengthRead(LengthReadView),
    BodyRead(Option<Seq<u8>>),
    Decoded(Option<ResponseView>),
}

/// What is to be done next, as plain text and bytes.
pub enum ClientActionView {
    Connect,
    Encode { request: RequestView },
    Write { bytes: Seq<u8> },
    ReadLength,
    ReadBody { length: u32 },
    Decode { body: Seq<u8> },
    Succeed,
    Fail,
}

/// Text for the user.
pub struct PrintedView {
    pub out: Seq<char>,
    pub err: Seq<char>,
}

/// A turn of a client.
pub struct ClientTurnView {
    pub client: ClientView,
    pub printed: PrintedView,
    pub action: ClientActionView,
}

impl View for Client {
    type V = ClientView;

    open spec fn view(&self) -> ClientView {
        match *self {
            Client::AwaitConnection { request } => ClientView::AwaitConnection {
                request: request@,
            },
            Client::AwaitEncoding => ClientView::AwaitEncoding,
            Client::AwaitPrefixWritten { body } => ClientView::AwaitPrefixWritten { body: body@ },
            Client::AwaitBodyWritten => ClientView::AwaitBodyWritten,
            Client::AwaitLength => ClientView::AwaitLength,
            Client::AwaitBody { length } => ClientView::AwaitBody { length },
            Client::AwaitResponse => ClientView::AwaitResponse,
            Client::Done => ClientView::Done,
        }
    }
}

impl View for ClientEvent {
    type V = ClientEventView;

    open spec fn view(&self) -> ClientEventView {
        match *self {
            ClientEvent::Connected(Ok(_)) => ClientEventView::Connected(Ok(())),
            ClientEvent::Connected(Err(error)) => ClientEventView::Connected(Err(error@)),
            ClientEvent::Encoded(None) => ClientEventView::Encoded(None),
            ClientEvent::Encoded(Some(body)) => ClientEventView::Encoded(Some(body@)),
            ClientEvent::Written(written) => ClientEventView::Written(written),
            ClientEvent::LengthRead(LengthRead::Prefix(prefix)) => ClientEventView::LengthRead(
                LengthReadView::Prefix(prefix@),
            ),
            ClientEvent::LengthRead(LengthRead::EndOfStream) => ClientEventView::LengthRead(
                LengthReadView::EndOfStream,
            ),
            ClientEvent::LengthRead(LengthRead::Failed) => ClientEventView::LengthRead(
                LengthReadView::Failed,
            ),
            ClientEvent::BodyRead(None) => ClientEventView::BodyRead(None),
            ClientEvent::BodyRead(Some(body)) => ClientEventView::BodyRead(Some(body@)),
            ClientEvent::Decoded(None) => ClientEventView::Decoded(None),
            ClientEvent::Decoded(Some(response)) => ClientEventView::Decoded(Some(response@)),
        }
    }
}

impl View for ClientAction {
    type V = ClientActionView;

    open spec fn view(&self) -> ClientActionView {
        match *self {
            ClientAction::Connect => ClientActionView::Connect,
            ClientAction::Encode { request } => ClientActionView::Encode { request: request@ },
            ClientAction::Write { bytes } => ClientActionView::Write { bytes: bytes@ },
            ClientAction::ReadLength => ClientActionView::ReadLength,
            ClientAction::ReadBody { length } => ClientActionView::ReadBody { length },
            ClientAction::Decode { body } => ClientActionView::Decode { body: body@ },
            ClientAction::Succeed => ClientActionView::Succeed,
            ClientAction::Fail => ClientActionView::Fail,
        }
    }
}

impl View for Printed {
    type V = PrintedView;

    open spec fn view(&self) -> PrintedView {
        PrintedView { out: self.out@, err: self.err@ }
    }
}

impl View for ClientTurn {
    type V = ClientTurnView;

    open spec fn view(&self) -> ClientTurnView {
        ClientTurnView {
            client: self.client@,
            printed: self.printed@,
            action: self.action@,
        }
    }
}

impl PrintedView {
    /// Nothing for the user.
    pub open spec fn nothing() -> PrintedView {
        PrintedView { out: Seq::empty(), err: Seq::empty() }
    }
}

/// What a process printed, under a heading; nothing where it printed nothing or where
/// that is not known.
pub open spec fn section(heading: Seq<char>, text: Option<Seq<char>>) -> Seq<char> {
    match text {
        Some(text) if text.len() > 0 => heading + text + "\n"@,
        _ => Seq::empty(),
    }
}

impl ResponseView {
    /// What the user is shown of the response.
    pub open spec fn shown(self) -> PrintedView {
        match self {
            ResponseView::Success { message } => PrintedView {
                out: "Success: "@ + message + "\n"@,
                err: Seq::empty(),
            },
            ResponseView::Status { status, stdout, stderr } => PrintedView {
                out: status + "\n"@ + section("\n--- STDOUT ---\n"@, stdout) + section(
                    "\n--- STDERR ---\n"@,
                    stderr,
                ),
                err: Seq::empty(),
            },
            ResponseView::Error { message } => PrintedView {
                out: Seq::empty(),
                err: "Error: "@ + message + "\n"@,
            },
        }
    }

    /// No response follows this one.
    pub open spec fn is_last(self) -> bool {
        self !is Success
    }
}

/// What the user is shown where the daemon cannot be reached.
pub open spec fn unreachable_shown(error: Seq<char>) -> PrintedView {
    PrintedView {
        out: Seq::empty(),
        err: "Failed to connect to daemon: "@ + error + ". Is the daemon running?\n"@,
    }
}

/// A turn without text for the user.
pub open spec fn silent_turn(client: ClientView, action: ClientActionView) -> ClientTurnView {
    ClientTurnView { client, printed: PrintedView::nothing(), action }
}

/// The client ends with the error that was met last.
pub open spec fn failing_turn() -> ClientTurnView {
    silent_turn(ClientView::Done, ClientActionView::Fail)
}

/// The response is shown, and the client is done if no other follows.
pub open spec fn response_turn(response: ResponseView) -> ClientTurnView {
    if response.is_last() {
        ClientTurnView {
            client: ClientView::Done,
            printed: response.shown(),
            action: ClientActionView::Succeed,
        }
    } else {
        ClientTurnView {
            client: ClientView::AwaitLength,
            printed: response.shown(),
            action: ClientActionView::ReadLength,
        }
    }
}

impl ClientView {
    /// `event` is word of what this client waits for.
    pub open spec fn accepts(self, event: ClientEventView) -> bool {
        match self {
            ClientView::AwaitConnection { .. } => event is Connected,
            ClientView::AwaitEncoding => event is Encoded,
            ClientView::AwaitPrefixWritten { .. } => event is Written,
            ClientView::AwaitBodyWritten => event is Written,
            ClientView::AwaitLength => event is LengthRead,
            ClientView::AwaitBody { length } => match event {
                ClientEventView::BodyRead(Some(body)) => body.len() == length,
                ClientEventView::BodyRead(None) => true,
                _ => false,
            },
            ClientView::AwaitResponse => event is Decoded,
            ClientView::Done => false,
        }
    }

    /// The turn that `event` brings about.
    pub open spec fn next(self, event: ClientEventView) -> ClientTurnView {
        match (self, event) {
            (
                ClientView::AwaitConnection { request },
                ClientEventView::Connected(connected),
            ) => match connected {
                Ok(_) => silent_turn(
                    ClientView::AwaitEncoding,
                    ClientActionView::Encode { request },
                ),
                Err(error) => ClientTurnView {
                    client: ClientView::Done,
                    printed: unreachable_shown(error),
                    action: ClientActionView::Fail,
                },
            },
            (ClientView::AwaitEncoding, ClientEventView::Encoded(Some(body))) => silent_turn(
                ClientView::AwaitPrefixWritten { body },
                ClientActionView::Write { bytes: prefix_of(body) },
            ),
            (
                ClientView::AwaitPrefixWritten { body },
                ClientEventView::Written(true),
            ) => silent_turn(
                ClientView::AwaitBodyWritten,
                ClientActionView::Write { bytes: body },
            ),
            (ClientView::AwaitBodyWritten, ClientEventView::Written(true)) => silent_turn(
                ClientView::AwaitLength,
                ClientActionView::ReadLength,
            ),
            (
                ClientView::AwaitLength,
                ClientEventView::LengthRead(LengthReadView::Prefix(prefix)),
            ) => silent_turn(
                ClientView::AwaitBody { length: le_value(prefix) as u32 },
                ClientActionView::ReadBody { length: le_value(prefix) as u32 },
            ),
            (
                ClientView::AwaitLength,
                ClientEventView::LengthRead(LengthReadView::EndOfStream),
            ) => silent_turn(ClientView::Done, ClientActionView::Succeed),
            (ClientView::AwaitBody { .. }, ClientEventView::BodyRead(Some(body))) => silent_turn(
                ClientView::AwaitResponse,
                ClientActionView::Decode { body },
            ),
            (
                ClientView::AwaitResponse,
                ClientEventView::Decoded(Some(response)),
            ) => response_turn(response),
            _ => failing_turn(),
        }
    }
}

/// Nothing for the user.
fn nothing() -> (printed: Printed)
    ensures
        printed@ == PrintedView::nothing(),
{
    Printed { out: String::new(), err: String::new() }
}

fn silent(client: Client, action: ClientAction) -> (turn: ClientTurn)
    ensures
        turn@ == silent_turn(client@, action@),
{
    ClientTurn { client, printed: nothing(), action }
}

/// `before`, `text` and `after` in a row.
fn wrapped(before: &str, text: &String, after: &str) -> (line: String)
    ensures
        line@ == before@ + text@ + after@,
{
    let mut line = String::from_str(before);
    line.append(text.as_str());
    line.append(after);
    line
}

/// What a process printed, under a heading.
fn section_text(heading: &str, text: &Option<String>) -> (section_: String)
    ensures
        section_@ == section(heading@, crate::protocol::optional_text(*text)),
{
    match text {
        Some(text) => if text.as_str().is_empty() {
            String::new()
        } else {
            wrapped(heading, text, "\n")
        },
        None => String::new(),
    }
}

impl Response {
    /// What the user is shown of the response.
    pub fn show(&self) -> (printed: Printed)
        ensures
            printed@ == self@.shown(),
    {
        match self {
            Response::Success { message } => Printed {
                out: wrapped("Success: ", message, "\n"),
                err: String::new(),
            },
            Response::Status { status, stdout, stderr } => {
                let mut out = status.clone();
                out.append("\n");
                out.append(section_text("\n--- STDOUT ---\n", stdout).as_str());
                out.append(section_text("\n--- STDERR ---\n", stderr).as_str());
                Printed { out, err: String::new() }
            },
            Response::Error { message } => Printed {
                out: String::new(),
                err: wrapped("Error: ", message, "\n"),
            },
        }
    }

    /// Whether no response follows this one.
    pub fn is_last(&self) -> (last: bool)
        ensures
            last == self@.is_last(),
    {
        match self {
            Response::Success { .. } => false,
            _ => true,
        }
    }
}

impl Client {
    /// A client with a request: it begins by connecting.
    pub fn start(request: Request) -> (turn: ClientTurn)
        ensures
            turn@ == silent_turn(
                ClientView::AwaitConnection { request: request@ },
                ClientActionView::Connect,
            ),
            turn.client@ == (ClientView::AwaitConnection { request: request@ }),
            turn.action@ == ClientActionView::Connect,
            turn.printed.out@.len() == 0,
            turn.printed.err@.len() == 0,
    {
        silent(Client::AwaitConnection { request }, ClientAction::Connect)
    }

    /// Whether the client waits for `event`.
    pub fn accepts(&self, event: &ClientEvent) -> (accepts: bool)
        ensures
            accepts == self@.accepts(event@),
    {
        match (self, event) {
            (Client::AwaitConnection { .. }, ClientEvent::Connected(_)) => true,
            (Client::AwaitEncoding, ClientEvent::Encoded(_)) => true,
            (Client::AwaitPrefixWritten { .. }, ClientEvent::Written(_)) => true,
            (Client::AwaitBodyWritten, ClientEvent::Written(_)) => true,
            (Client::AwaitLength, ClientEvent::LengthRead(_)) => true,
            (Client::AwaitBody { length }, ClientEvent::BodyRead(Some(body))) => body.len() as u64
                == *length as u64,
            (Client::AwaitBody { .. }, ClientEvent::BodyRead(None)) => true,
            (Client::AwaitResponse, ClientEvent::Decoded(_)) => true,
            _ => false,
        }
    }

    /// Takes `event` in and says what is to be printed and done next.
    pub fn step(self, event: ClientEvent) -> (turn: ClientTurn)
        requires
            self@.accepts(event@),
        ensures
            turn@ == self@.next(event@),
            turn.client@ == self@.next(event@).client,
            turn.action@ == self@.next(event@).action,
            turn.printed.out@ == self@.next(event@).printed.out,
            turn.printed.err@ == self@.next(event@).printed.err,
    {
        match (self, event) {
            (
                Client::AwaitConnection { request },
                ClientEvent::Connected(connected),
            ) => match connected {
                Ok(_) => silent(Client::AwaitEncoding, ClientAction::Encode { request }),
                Err(error) => ClientTurn {
                    client: Client::Done,
                    printed: Printed {
                        out: String::new(),
                        err: wrapped(
                            "Failed to connect to daemon: ",
                            &error,
                            ". Is the daemon running?\n",
                        ),
                    },
                    action: ClientAction::Fail,
                },
            },
            (Client::AwaitEncoding, ClientEvent::Encoded(Some(body))) => {
                let bytes = length_prefix(&body);
                silent(Client::AwaitPrefixWritten { body }, ClientAction::Write { bytes })
            },
            (Client::AwaitPrefixWritten { body }, ClientEvent::Written(true)) => silent(
                Client::AwaitBodyWritten,
                ClientAction::Write { bytes: body },
            ),
            (Client::AwaitBodyWritten, ClientEvent::Written(true)) => silent(
                Client::AwaitLength,
                ClientAction::ReadLength,
            ),
            (
                Client::AwaitLength,
                ClientEvent::LengthRead(LengthRead::Prefix(prefix)),
            ) => {
                let length: u32 = announced_length(prefix);
                silent(Client::AwaitBody { length }, ClientAction::ReadBody { length })
            },
            (Client::AwaitLength, ClientEvent::LengthRead(LengthRead::EndOfStream)) => silent(
                Client::Done,
                ClientAction::Succeed,
            ),
            (Client::AwaitBody { .. }, ClientEvent::BodyRead(Some(body))) => silent(
                Client::AwaitResponse,
                ClientAction::Decode { body },
            ),
            (Client::AwaitResponse, ClientEvent::Decoded(Some(response))) => {
                let printed = response.show();
                if response.is_last() {
                    ClientTurn { client: Client::Done, printed, action: ClientAction::Succeed }
                } else {
                    ClientTurn {
                        client: Client::AwaitLength,
                        printed,
                        action: ClientAction::ReadLength,
                    }
                }
            },
            _ => silent(Client::Done, ClientAction::Fail),
        }
    }
}

impl ClientEventView {
    /// The action that this is word of has failed.
    pub open spec fn is_failure(self) -> bool {
        match self {
            ClientEventView::Connected(connected) => connected is Err,
            ClientEventView::Encoded(body) => body is None,
            ClientEventView::Written(written) => !written,
            ClientEventView::LengthRead(read) => read is Failed,
            ClientEventView::BodyRead(body) => body is None,
            ClientEventView::Decoded(response) => response is None,
        }
    }

    /// The event says how `action` went.
    pub open spec fn is_word_of(self, action: ClientActionView) -> bool {
        match action {
            ClientActionView::Connect => self is Connected,
            ClientActionView::Encode { .. } => self is Encoded,
            ClientActionView::Write { .. } => self is Written,
            ClientActionView::ReadLength => self is LengthRead,
            ClientActionView::ReadBody { length } => match self {
                ClientEventView::BodyRead(Some(body)) => body.len() == length,
                ClientEventView::BodyRead(None) => true,
                _ => false,
            },
            ClientActionView::Decode { .. } => self is Decoded,
            ClientActionView::Succeed => false,
            ClientActionView::Fail => false,
        }
    }
}

/// A client that has asked for an action waits for word of that action and for nothing
/// else, and so it never comes to a stop before it is done.
pub proof fn law_client_waits_for_its_action(
    client: ClientView,
    event: ClientEventView,
    word: ClientEventView,
)
    requires
        client.accepts(event),
    ensures
        client.next(event).client.accepts(word) <==> word.is_word_of(client.next(event).action),
{
}

/// A client ends with an error when an action has failed, and only then.
pub proof fn law_client_fails_when_an_action_fails(client: ClientView, event: ClientEventView)
    requires
        client.accepts(event),
    ensures
        client.next(event).action is Fail <==> event.is_failure(),
        client.next(event).client is Done <==> (client.next(event).action is Fail || client.next(
            event,
        ).action is Succeed),
{
}

/// A client ends without an error when the daemon has closed the connection between two
/// responses or has sent a last response, and only then.
pub proof fn law_client_succeeds_at_the_end(client: ClientView, event: ClientEventView)
    requires
        client.accepts(event),
    ensures
        client.next(event).action is Succeed <==> {
            ||| event == ClientEventView::LengthRead(LengthReadView::EndOfStream)
            ||| event matches ClientEventView::Decoded(Some(response)) && response.is_last()
        },
{
}

/// A client shows each response that it gets, and else nothing but that the daemon could
/// not be reached.
pub proof fn law_client_shows_responses(client: ClientView, event: ClientEventView)
    requires
        client.accepts(event),
    ensures
        client.next(event).printed == match event {
            ClientEventView::Decoded(Some(response)) => response.shown(),
            ClientEventView::Connected(Err(error)) => unreachable_shown(error),
            _ => PrintedView::nothing(),
        },
{
}

/// The request goes out as one framed message, and then the first response is read.
pub proof fn law_request_is_framed(request: RequestView, body: Seq<u8>)
    ensures
        ({
            let connected = ClientView::AwaitConnection { request }.next(
                ClientEventView::Connected(Ok(())),
            );
            let first = connected.client.next(ClientEventView::Encoded(Some(body)));
            let second = first.client.next(ClientEventView::Written(true));
            let last = second.client.next(ClientEventView::Written(true));
            &&& connected.action == ClientActionView::Encode { request }
            &&& first.action matches ClientActionView::Write { bytes: head }
            &&& second.action matches ClientActionView::Write { bytes: tail }
            &&& head + tail == frame(body)
            &&& last == silent_turn(ClientView::AwaitLength, ClientActionView::ReadLength)
        }),
{
}

/// A response reaches the client as it was framed: of a message that the daemon sent, the
/// client hands exactly the body on to be understood.
pub proof fn law_response_body_is_handed_on(body: Seq<u8>)
    requires
        body.len() < LENGTH_LIMIT,
    ensures
        ({
            let length = ClientView::AwaitLength.next(
                ClientEventView::LengthRead(LengthReadView::Prefix(prefix_of(body))),
            );
            let decode = length.client.next(ClientEventView::BodyRead(Some(body)));
            &&& length.action == ClientActionView::ReadBody { length: body.len() as u32 }
            &&& length.client.accepts(ClientEventView::BodyRead(Some(body)))
            &&& decode.action == ClientActionView::Decode { body }
            &&& decode.client == ClientView::AwaitResponse
        }),
{
    law_prefix_weighs_the_body(body);
    assert(le_value(prefix_of(body)) == body.len());
}

/// Of a job that it asked for, a client shows that it has started and reads on, and then
/// shows how it ended and is done.
pub proof fn law_client_shows_start_and_end(id: u32, pid: u32, job: JobView)
    ensures
        ({
            let start = ClientView::AwaitResponse.next(
                ClientEventView::Decoded(Some(started_response(id, pid))),
            );
            let end = ClientView::AwaitResponse.next(
                ClientEventView::Decoded(Some(job.report())),
            );
            &&& start.printed.out == "Success: "@ + ("Job "@ + decimal(id as nat)
                + " started (PID: "@ + decimal(pid as nat) + ")."@) + "\n"@
            &&& start.client == ClientView::AwaitLength
            &&& start.action == ClientActionView::ReadLength
            &&& end.printed.out == job.line() + "\n"@ + section(
                "\n--- STDOUT ---\n"@,
                job.status.stdout(),
            ) + section("\n--- STDERR ---\n"@, job.status.stderr())
            &&& end.client == ClientView::Done
            &&& end.action == ClientActionView::Succeed
        }),
{
}

/// The plain form of a client, of what it prints and of its turn holds all that they hold.
pub proof fn law_client_view_keeps_all(client: Client, printed: Printed, turn: ClientTurn)
    ensures
        match client {
            Client::AwaitConnection { request } => client@ matches ClientView::AwaitConnection {
                request: r,
            } && r == request@,
            Client::AwaitEncoding => client@ is AwaitEncoding,
            Client::AwaitPrefixWritten { body } => client@
                matches ClientView::AwaitPrefixWritten { body: b } && b == body@,
            Client::AwaitBodyWritten => client@ is AwaitBodyWritten,
            Client::AwaitLength => client@ is AwaitLength,
            Client::AwaitBody { length } => client@ matches ClientView::AwaitBody { length: n }
                && n == length,
            Client::AwaitResponse => client@ is AwaitResponse,
            Client::Done => client@ is Done,
        },
        printed@.out == printed.out@,
        printed@.err == printed.err@,
        turn@.client == turn.client@,
        turn@.printed == turn.printed@,
        turn@.action == turn.action@,
{
}

/// The plain form of an event holds all that the event holds.
pub proof fn law_client_event_view_keeps_all(event: ClientEvent)
    ensures
        match event {
            ClientEvent::Connected(connected) => {
                &&& event@ matches ClientEventView::Connected(c)
                &&& c is Ok <==> connected is Ok
                &&& connected is Err ==> c->Err_0 == connected->Err_0@
            },
            ClientEvent::Encoded(encoded) => {
                &&& event@ matches ClientEventView::Encoded(e)
                &&& e is Some <==> encoded is Some
                &&& encoded is Some ==> e->0 == encoded->0@
            },
            ClientEvent::Written(written) => event@ matches ClientEventView::Written(w) && w
                == written,
            ClientEvent::LengthRead(read) => {
                &&& event@ matches ClientEventView::LengthRead(r)
                &&& match read {
                    LengthRead::Prefix(prefix) => r matches LengthReadView::Prefix(p) && p
                        == prefix@,
                    LengthRead::EndOfStream => r is EndOfStream,
                    LengthRead::Failed => r is Failed,
                }
            },
            ClientEvent::BodyRead(read) => {
                &&& event@ matches ClientEventView::BodyRead(r)
                &&& r is Some <==> read is Some
                &&& read is Some ==> r->0 == read->0@
            },
            ClientEvent::Decoded(decoded) => {
                &&& event@ matches ClientEventView::Decoded(d)
                &&& d is Some <==> decoded is Some
                &&& decoded is Some ==> d->0 == decoded->0@
            },
        },
{
}

/// The plain form of an action holds all that the action holds.
pub proof fn law_client_action_view_keeps_all(action: ClientAction)
    ensures
        match action {
            ClientAction::Connect => action@ is Connect,
            ClientAction::Encode { request } => action@ matches ClientActionView::Encode {
                request: r,
            } && r == request@,
            ClientAction::Write { bytes } => action@ matches ClientActionView::Write { bytes: b }
                && b == bytes@,
            ClientAction::ReadLength => action@ is ReadLength,
            ClientAction::ReadBody { length } => action@ matches ClientActionView::ReadBody {
                length: n,
            } && n == length,
            ClientAction::Decode { body } => action@ matches ClientActionView::Decode { body: b }
                && b == body@,
            ClientAction::Succeed => action@ is Succeed,
            ClientAction::Fail => action@ is Fail,
        },
{
}

/// Output that is there is shown whole: the heading, every character of it, a line end, and
/// nothing else. Where there is none, nothing is shown, not even the heading.
pub proof fn law_section_shows_the_whole_output(heading: Seq<char>, text: Option<Seq<char>>)
    ensures
        text is None ==> section(heading, text).len() == 0,
        text matches Some(output) ==> {
            &&& output.len() == 0 ==> section(heading, text).len() == 0
            &&& output.len() > 0 ==> {
                &&& section(heading, text).len() == heading.len() + output.len() + 1
                &&& stands_at(section(heading, text), 0, heading)
                &&& stands_at(section(heading, text), heading.len() as int, output)
                &&& section(heading, text).last() == '\n'
            }
        },
{
    reveal_strlit("\n");
    if let Some(output) = text {
        let shown = section(heading, text);
        if output.len() > 0 {
            assert(shown.subrange(0, heading.len() as int) =~= heading);
            assert(shown.subrange(heading.len() as int, heading.len() + output.len() as int)
                =~= output);
        }
    }
}

/// Of a status the user is shown, on the standard output alone, the whole line, a line end,
/// then the standard output of the job and last its standard error.
pub proof fn law_status_is_shown_in_full(
    status: Seq<char>,
    stdout: Option<Seq<char>>,
    stderr: Option<Seq<char>>,
)
    ensures
        ({
            let shown = ResponseView::Status { status, stdout, stderr }.shown();
            let first = section("\n--- STDOUT ---\n"@, stdout);
            let second = section("\n--- STDERR ---\n"@, stderr);
            &&& shown.err.len() == 0
            &&& shown.out.len() == status.len() as int + 1 + first.len() + second.len()
            &&& stands_at(shown.out, 0, status)
            &&& shown.out[status.len() as int] == '\n'
            &&& stands_at(shown.out, status.len() as int + 1, first)
            &&& stands_at(shown.out, status.len() as int + 1 + first.len(), second)
        }),
{
    reveal_strlit("\n");
    let out = ResponseView::Status { status, stdout, stderr }.shown().out;
    let first = section("\n--- STDOUT ---\n"@, stdout);
    let second = section("\n--- STDERR ---\n"@, stderr);
    let a = status.len() as int + 1;
    let b = a + first.len();
    assert(out.subrange(0, status.len() as int) =~= status);
    assert(out.subrange(a, b) =~= first);
    assert(out.subrange(b, b + second.len()) =~= second);
}

/// Output of a job that is shown stands whole in what the user is shown, behind its heading.
pub proof fn law_shown_status_holds_all_output(
    status: Seq<char>,
    stdout: Seq<char>,
    stderr: Seq<char>,
)
    requires
        stdout.len() > 0,
        stderr.len() > 0,
    ensures
        ({
            let out = ResponseView::Status {
                status,
                stdout: Some(stdout),
                stderr: Some(stderr),
            }.shown().out;
            &&& out.len() == status.len() as int + stdout.len() + stderr.len() + 35
            &&& stands_at(out, status.len() as int + 1, "\n--- STDOUT ---\n"@)
            &&& stands_at(out, status.len() as int + 17, stdout)
            &&& stands_at(out, status.len() as int + stdout.len() + 18, "\n--- STDERR ---\n"@)
            &&& stands_at(out, status.len() as int + stdout.len() + 34, stderr)
            &&& out.last() == '\n'
        }),
{
    reveal_strlit("\n--- STDOUT ---\n");
    reveal_strlit("\n--- STDERR ---\n");
    law_status_is_shown_in_full(status, Some(stdout), Some(stderr));
    let out = ResponseView::Status {
        status,
        stdout: Some(stdout),
        stderr: Some(stderr),
    }.shown().out;
    let first = section("\n--- STDOUT ---\n"@, Some(stdout));
    let second = section("\n--- STDERR ---\n"@, Some(stderr));
    law_section_shows_the_whole_output("\n--- STDOUT ---\n"@, Some(stdout));
    law_section_shows_the_whole_output("\n--- STDERR ---\n"@, Some(stderr));
    let a = status.len() as int + 1;
    let b = a + first.len();
    lemma_stands_within(out, a, first, 0, "\n--- STDOUT ---\n"@);
    lemma_stands_within(out, a, first, 16, stdout);
    lemma_stands_within(out, b, second, 0, "\n--- STDERR ---\n"@);
    lemma_stands_within(out, b, second, 16, stderr);
    assert(out.last() == out.subrange(b, b + second.len()).last());
}

/// A message is shown whole: of a success on the standard output, of an error on the
/// standard error, each under its label and with a line end, and nothing on the other.
pub proof fn law_messages_are_shown_in_full(message: Seq<char>)
    ensures
        ({
            let success = ResponseView::Success { message }.shown();
            let error = ResponseView::Error { message }.shown();
            &&& success.err.len() == 0
            &&& success.out.len() == 9 + message.len() + 1
            &&& stands_at(success.out, 0, "Success: "@)
            &&& stands_at(success.out, 9, message)
            &&& success.out.last() == '\n'
            &&& error.out.len() == 0
            &&& error.err.len() == 7 + message.len() + 1
            &&& stands_at(error.err, 0, "Error: "@)
            &&& stands_at(error.err, 7, message)
            &&& error.err.last() == '\n'
        }),
{
    reveal_strlit("Success: ");
    reveal_strlit("Error: ");
    reveal_strlit("\n");
    let out = ResponseView::Success { message }.shown().out;
    let err = ResponseView::Error { message }.shown().err;
    assert(out.subrange(0, 9) =~= "Success: "@);
    assert(out.subrange(9, 9 + message.len() as int) =~= message);
    assert(err.subrange(0, 7) =~= "Error: "@);
    assert(err.subrange(7, 7 + message.len() as int) =~= message);
}

/// Where the daemon cannot be reached the user is told the whole reason, on the standard
/// error alone.
pub proof fn law_unreachable_daemon_is_told_in_full(error: Seq<char>)
    ensures
        ({
            let shown = unreachable_shown(error);
            &&& shown.out.len() == 0
            &&& shown.err.len() == 29 + error.len() as int + 25
            &&& stands_at(shown.err, 0, "Failed to connect to daemon: "@)
            &&& stands_at(shown.err, 29, error)
            &&& stands_at(shown.err, 29 + error.len() as int, ". Is the daemon running?\n"@)
        }),
{
    reveal_strlit("Failed to connect to daemon: ");
    reveal_strlit(". Is the daemon running?\n");
    let err = unreachable_shown(error).err;
    let end = 29 + error.len() as int;
    assert(err.subrange(0, 29) =~= "Failed to connect to daemon: "@);
    assert(err.subrange(29, end) =~= error);
    assert(err.subrange(end, end + 25) =~= ". Is the daemon running?\n"@);
}

/// After every success the client reads on, whatever the message, and after every other
/// response it is done.
pub proof fn law_client_reads_on_after_success(response: ResponseView)
    ensures
        ({
            let turn = ClientView::AwaitResponse.next(ClientEventView::Decoded(Some(response)));
            match response {
                ResponseView::Success { .. } => {
                    &&& turn.client == ClientView::AwaitLength
                    &&& turn.action == ClientActionView::ReadLength
                },
                _ => {
                    &&& turn.client == ClientView::Done
                    &&& turn.action == ClientActionView::Succeed
                },
            }
        }),
        response.is_last() <==> response is Status || response is Error,
{
}

/// The client reads as many bytes as the four bytes of the prefix say, digit by digit to the
/// base 256, and then hands the body on unchanged.
pub proof fn law_client_reads_the_announced_length(prefix: Seq<u8>, body: Seq<u8>)
    requires
        prefix.len() == 4,
    ensures
        ({
            let turn = ClientView::AwaitLength.next(
                ClientEventView::LengthRead(LengthReadView::Prefix(prefix)),
            );
            let next = turn.client.next(ClientEventView::BodyRead(Some(body)));
            &&& turn.action matches ClientActionView::ReadBody { length }
            &&& length % 256 == prefix[0]
            &&& length / 256 % 256 == prefix[1]
            &&& length / 65536 % 256 == prefix[2]
            &&& length / 16777216 == prefix[3]
            &&& turn.client == ClientView::AwaitBody { length }
            &&& next.action == ClientActionView::Decode { body }
            &&& next.client == ClientView::AwaitResponse
        }),
{
    law_announced_length_has_these_digits(prefix);
}

/// A client that has not connected waits for word of the connection and for nothing else.
/// Where the connection does not stand it ends, and nothing is shown where nothing is said.
pub proof fn law_client_begins_by_connecting(request: RequestView, event: ClientEventView)
    ensures
        (ClientView::AwaitConnection { request }).accepts(event) <==> (event is Connected),
        event matches ClientEventView::Connected(Err(_)) ==> {
            let turn = (ClientView::AwaitConnection { request }).next(event);
            turn.client == ClientView::Done && turn.action == ClientActionView::Fail
        },
        PrintedView::nothing().out.len() == 0,
        PrintedView::nothing().err.len() == 0,
{
}

} // verus!
