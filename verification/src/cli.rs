//! What the words on the client's command line ask for.

use crate::protocol::{Request, RequestView};
use crate::text::{spells, stands_at, texts};
use vstd::prelude::*;
use vstd::string::*;

verus! {

/// A subcommand of the client.
#[derive(Debug, PartialEq, Eq)]
pub enum Commands {
    /// Run a new job.
    Run { command_and_args: Vec<String> },
    /// Get the status of a job.
    Status { job_id: u32 },
}

/// Why the command line asks for nothing.
#[derive(Debug, PartialEq, Eq)]
pub enum UsageError {
    /// `run` without a command behind it.
    NothingToRun,
    /// Neither a subcommand nor a command.
    NoCommand,
}

/// A subcommand as plain text.
pub enum CommandsView {
    Run { command_and_args: Seq<Seq<char>> },
    Status { job_id: u32 },
}

impl View for Commands {
    type V = CommandsView;

    open spec fn view(&self) -> CommandsView {
        match *self {
            Commands::Run { command_and_args } => CommandsView::Run {
                command_and_args: texts(command_and_args@),
            },
            Commands::Status { job_id } => CommandsView::Status { job_id },
        }
    }
}

impl UsageError {
    /// What the user is told.
    pub open spec fn words(self) -> Seq<char> {
        match self {
            UsageError::NothingToRun => "Error: No command provided to 'run'"@,
            UsageError::NoCommand =>
                "Error: No command provided. Usage: jobsched-cli run <command> or jobsched-cli -- <command>"@,
        }
    }

    /// What the user is told.
    pub fn message(&self) -> (text: String)
        ensures
            text@ == self.words(),
    {
        match self {
            UsageError::NothingToRun => String::from_str("Error: No command provided to 'run'"),
            UsageError::NoCommand => String::from_str(
                "Error: No command provided. Usage: jobsched-cli run <command> or jobsched-cli -- <command>",
            ),
        }
    }
}

/// The first word is the command to run and the others are its arguments; without a
/// first word there is nothing to run.
pub open spec fn run_request(
    words: Seq<Seq<char>>,
    otherwise: UsageError,
) -> Result<RequestView, UsageError> {
    if words.len() == 0 {
        Err(otherwise)
    } else {
        Ok(RequestView::Run { command: words[0], args: words.drop_first() })
    }
}

/// What the command line asks for. Words outside a subcommand count only where there is
/// none, and are then a command to run.
pub open spec fn requested(
    command: Option<CommandsView>,
    command_and_args: Seq<Seq<char>>,
) -> Result<RequestView, UsageError> {
    match command {
        Some(CommandsView::Run { command_and_args: words }) => run_request(
            words,
            UsageError::NothingToRun,
        ),
        Some(CommandsView::Status { job_id }) => Ok(RequestView::Status { job_id }),
        None => run_request(command_and_args, UsageError::NoCommand),
    }
}

/// The word `run` may be left out: a command line asks for the same with and without it.
pub proof fn law_run_may_be_left_out(words: Seq<Seq<char>>, ignored: Seq<Seq<char>>)
    requires
        words.len() > 0,
    ensures
        requested(Some(CommandsView::Run { command_and_args: words }), ignored) == requested(
            None,
            words,
        ),
        requested(None, words) is Ok,
{
}

/// No word is lost or moved: a request to run holds the words of the command line in
/// their order.
pub proof fn law_run_keeps_every_word(words: Seq<Seq<char>>)
    requires
        words.len() > 0,
    ensures
        requested(None, words) matches Ok(RequestView::Run { command, args }) && seq![command]
            + args == words,
{
    assert(seq![words[0]] + words.drop_first() =~= words);
}

/// The request to run these words.
fn run_words(words: Vec<String>, otherwise: UsageError) -> (request: Result<Request, UsageError>)
    ensures
        request matches Ok(request) ==> Ok::<RequestView, UsageError>(request@) == run_request(
            texts(words@),
            otherwise,
        ),
        request matches Err(error) ==> Err::<RequestView, UsageError>(error) == run_request(
            texts(words@),
            otherwise,
        ),
{
    if words.is_empty() {
        Err(otherwise)
    } else {
        let ghost all = texts(words@);
        let mut args = words;
        let command = args.remove(0);
        assert(texts(args@) =~= all.drop_first());
        Ok(Request::Run { command, args })
    }
}

/// What the command line asks for.
pub fn build_request(
    command: Option<Commands>,
    command_and_args: Vec<String>,
) -> (request: Result<Request, UsageError>)
    ensures
        (match request {
            Ok(request) => Ok(request@),
            Err(error) => Err(error),
        }) == requested(
            match command {
                Some(command) => Some(command@),
                None => None,
            },
            texts(command_and_args@),
        ),
{
    match command {
        Some(Commands::Run { command_and_args: words }) => run_words(
            words,
            UsageError::NothingToRun,
        ),
        Some(Commands::Status { job_id }) => Ok(Request::Status { job_id }),
        None => run_words(command_and_args, UsageError::NoCommand),
    }
}

/// The plain text of a subcommand holds all that the subcommand holds.
pub proof fn law_commands_view_keeps_all(command: Commands)
    ensures
        match command {
            Commands::Run { command_and_args } => command@ matches CommandsView::Run {
                command_and_args: words,
            } && spells(words, command_and_args@),
            Commands::Status { job_id } => command@ matches CommandsView::Status { job_id: asked }
                && asked == job_id,
        },
{
}

/// `status` asks for the very job that it names, whatever words stand beside it, and so two
/// numbers ask for two jobs.
pub proof fn law_status_asks_for_the_named_job(
    job_id: u32,
    other_id: u32,
    beside: Seq<Seq<char>>,
    other_beside: Seq<Seq<char>>,
)
    ensures
        requested(Some(CommandsView::Status { job_id }), beside) matches Ok(
            RequestView::Status { job_id: asked },
        ) && asked == job_id,
        requested(Some(CommandsView::Status { job_id }), beside) == requested(
            Some(CommandsView::Status { job_id: other_id }),
            other_beside,
        ) <==> job_id == other_id,
{
}

/// `run` asks for the words behind it, all of them and in their order, whatever words stand
/// beside it.
pub proof fn law_run_asks_for_its_words(words: Seq<Seq<char>>, beside: Seq<Seq<char>>)
    requires
        words.len() > 0,
    ensures
        requested(Some(CommandsView::Run { command_and_args: words }), beside) matches Ok(
            RequestView::Run { command, args },
        ) && seq![command] + args == words,
{
    assert(seq![words[0]] + words.drop_first() =~= words);
}

/// A command line asks for nothing exactly where there is no word to run, and the error
/// tells whether `run` stood there.
pub proof fn law_only_missing_words_are_errors(
    command: Option<CommandsView>,
    beside: Seq<Seq<char>>,
)
    ensures
        requested(command, beside) == Err::<RequestView, UsageError>(UsageError::NothingToRun)
            <==> (command matches Some(CommandsView::Run { command_and_args })
            && command_and_args.len() == 0),
        requested(command, beside) == Err::<RequestView, UsageError>(UsageError::NoCommand)
            <==> command is None && beside.len() == 0,
{
}

/// Both errors begin alike and then tell what is missing.
pub proof fn law_usage_errors_tell_what_is_missing(error: UsageError)
    ensures
        stands_at(error.words(), 0, "Error: No command provided"@),
        error is NothingToRun ==> error.words().skip(26) == " to 'run'"@,
        error is NoCommand ==> error.words().skip(26)
            == ". Usage: jobsched-cli run <command> or jobsched-cli -- <command>"@,
{
    reveal_strlit("Error: No command provided");
    reveal_strlit(" to 'run'");
    reveal_strlit(". Usage: jobsched-cli run <command> or jobsched-cli -- <command>");
    reveal_strlit("Error: No command provided to 'run'");
    reveal_strlit(
        "Error: No command provided. Usage: jobsched-cli run <command> or jobsched-cli -- <command>",
    );
    assert(error.words().subrange(0, 26) =~= "Error: No command provided"@);
    if error is NothingToRun {
        assert(error.words().skip(26) =~= " to 'run'"@);
    } else {
        assert(error.words().skip(26)
            =~= ". Usage: jobsched-cli run <command> or jobsched-cli -- <command>"@);
    }
}

} // verus!
