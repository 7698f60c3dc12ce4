//! What a client and the daemon say to each other.

use crate::text::{spells, texts};
use vstd::prelude::*;

verus! {

/// What a client asks of the daemon.
#[derive(Debug, PartialEq, Eq)]
pub enum Request {
    /// Run `command` with `args` and report how it ends.
    Run { command: String, args: Vec<String> },
    /// Tell how the job with this number stands.
    Status { job_id: u32 },
}

/// What the daemon answers.
#[derive(Debug, PartialEq, Eq)]
pub enum Response {
    /// The request was taken up; more answers follow.
    Success { message: String },
    /// How a job stands, with what it has printed where that is known.
    Status { status: String, stdout: Option<String>, stderr: Option<String> },
    /// The request failed.
    Error { message: String },
}

/// A request as plain text.
pub enum RequestView {
    Run { command: Seq<char>, args: Seq<Seq<char>> },
    Status { job_id: u32 },
}

/// A response as plain text.
pub enum ResponseView {
    Success { message: Seq<char> },
    Status { status: Seq<char>, stdout: Option<Seq<char>>, stderr: Option<Seq<char>> },
    Error { message: Seq<char> },
}

/// The characters of an optional string.
pub open spec fn optional_text(s: Option<String>) -> Option<Seq<char>> {
    match s {
        Some(s) => Some(s@),
        None => None,
    }
}

impl View for Request {
    type V = RequestView;

    open spec fn view(&self) -> RequestView {
        match *self {
            Request::Run { command, args } => RequestView::Run {
                command: command@,
                args: texts(args@),
            },
            Request::Status { job_id } => RequestView::Status { job_id },
        }
    }
}

impl View for Response {
    type V = ResponseView;

    open spec fn view(&self) -> ResponseView {
        match *self {
            Response::Success { message } => ResponseView::Success { message: message@ },
            Response::Status { status, stdout, stderr } => ResponseView::Status {
                status: status@,
                stdout: optional_text(stdout),
                stderr: optional_text(stderr),
            },
            Response::Error { message } => ResponseView::Error { message: message@ },
        }
    }
}

/// The plain text of a request holds all that the request holds.
pub proof fn law_request_view_keeps_all(request: Request)
    ensures
        match request {
            Request::Run { command, args } => request@ matches RequestView::Run {
                command: command_text,
                args: arg_texts,
            } && command_text == command@ && spells(arg_texts, args@),
            Request::Status { job_id } => request@ matches RequestView::Status { job_id: asked }
                && asked == job_id,
        },
{
}

/// The plain text of a response holds all that the response holds.
pub proof fn law_response_view_keeps_all(response: Response)
    ensures
        match response {
            Response::Success { message } => response@ matches ResponseView::Success {
                message: text,
            } && text == message@,
            Response::Status { status, stdout, stderr } => {
                &&& response@ matches ResponseView::Status { status: line, stdout: out, stderr: err }
                &&& line == status@
                &&& out is Some <==> stdout is Some
                &&& stdout is Some ==> out->0 == stdout->0@
                &&& err is Some <==> stderr is Some
                &&& stderr is Some ==> err->0 == stderr->0@
            },
            Response::Error { message } => response@ matches ResponseView::Error { message: text }
                && text == message@,
        },
{
}

} // verus!
