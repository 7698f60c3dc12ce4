//! The daemon as a whole: the jobs, and all the connections that share them.

use crate::job::{ExitView, JobView, StatusView};
use crate::protocol::RequestView;
use crate::session::{
    wait_failure, ActionView, AfterView, EventView, SessionView, TicketView,
};
use crate::table::TableView;
use vstd::prelude::*;

verus! {

/// The jobs, and the connections by a number of their own.
pub struct SystemView {
    pub table: TableView,
    pub sessions: Map<nat, SessionView>,
}

/// What can happen to the daemon.
pub enum StepView {
    /// A client connects.
    Connect { connection: nat },
    /// A connection is told how its last action went.
    Tell { connection: nat, event: EventView },
}

impl AfterView {
    /// The job that the connection has in hand.
    pub open spec fn in_hand(self) -> Option<TicketView> {
        match self {
            AfterView::AwaitExit { ticket } => Some(ticket),
            _ => None,
        }
    }
}

impl SessionView {
    /// The job that the connection has in hand.
    pub open spec fn in_hand(self) -> Option<TicketView> {
        match self {
            SessionView::AwaitSpawn { ticket } => Some(ticket),
            SessionView::AwaitExit { ticket } => Some(ticket),
            SessionView::AwaitEncoding { after } => after.in_hand(),
            SessionView::AwaitPrefixWritten { after, .. } => after.in_hand(),
            SessionView::AwaitBodyWritten { after } => after.in_hand(),
            _ => None,
        }
    }

    /// The job in hand has a number that was given out. Until its process has started
    /// the table does not hold it; from then on the table holds it as waiting.
    pub open spec fn valid(self, table: TableView) -> bool {
        self.in_hand() matches Some(ticket) ==> {
            &&& 1 <= ticket.id <= table.last_id
            &&& table.jobs.contains_key(ticket.id) <==> self !is AwaitSpawn
            &&& self !is AwaitSpawn ==> {
                &&& table.jobs[ticket.id].status is Waiting
                &&& table.jobs[ticket.id] == ticket.job(table.jobs[ticket.id].status)
            }
        }
    }
}

/// The connection has the job `id` in hand.
pub open spec fn holds(session: SessionView, id: u32) -> bool {
    session.in_hand() matches Some(ticket) && ticket.id == id
}

impl SystemView {
    /// The daemon when it starts.
    pub open spec fn start() -> SystemView {
        SystemView { table: TableView::empty(), sessions: Map::empty() }
    }

    /// The jobs and the connections fit together: no two connections have the same job
    /// in hand, and every job that is waiting is in the hands of a connection.
    pub open spec fn valid(self) -> bool {
        &&& self.table.valid()
        &&& forall|c: nat| #[trigger]
            self.sessions.contains_key(c) ==> self.sessions[c].valid(self.table)
        &&& forall|c: nat, d: nat, id: u32|
            self.sessions.contains_key(c) && self.sessions.contains_key(d) && #[trigger] holds(
                self.sessions[c],
                id,
            ) && #[trigger] holds(self.sessions[d], id) ==> c == d
        &&& forall|id: u32| #[trigger]
            self.table.jobs.contains_key(id) && self.table.jobs[id].status is Waiting ==> exists|
                c: nat,
            | #[trigger]
                self.sessions.contains_key(c) && holds(self.sessions[c], id)
    }

    /// The step can happen now.
    pub open spec fn enabled(self, step: StepView) -> bool {
        match step {
            StepView::Connect { connection } => !self.sessions.contains_key(connection),
            StepView::Tell { connection, event } => {
                &&& self.sessions.contains_key(connection)
                &&& self.sessions[connection].ready(self.table, event)
            },
        }
    }

    /// The daemon after the step.
    pub open spec fn after(self, step: StepView) -> SystemView {
        match step {
            StepView::Connect { connection } => SystemView {
                sessions: self.sessions.insert(connection, SessionView::AwaitLength),
                ..self
            },
            StepView::Tell { connection, event } => {
                let turn = self.sessions[connection].next(self.table, event);
                SystemView {
                    table: turn.table,
                    sessions: self.sessions.insert(connection, turn.session),
                }
            },
        }
    }

    /// The steps can happen one after the other, beginning now.
    pub open spec fn enabled_all(self, steps: Seq<StepView>) -> bool
        decreases steps.len(),
    {
        steps.len() == 0 || {
            &&& self.enabled(steps[0])
            &&& self.after(steps[0]).enabled_all(steps.drop_first())
        }
    }

    /// The daemon after the steps.
    pub open spec fn after_all(self, steps: Seq<StepView>) -> SystemView
        decreases steps.len(),
    {
        if steps.len() == 0 {
            self
        } else {
            self.after(steps[0]).after_all(steps.drop_first())
        }
    }
}

/// The daemon starts with jobs and connections that fit together.
pub proof fn law_start_is_valid()
    ensures
        SystemView::start().valid(),
{
}

/// Whatever happens, the jobs and the connections still fit together.
pub proof fn law_step_keeps_valid(system: SystemView, step: StepView)
    requires
        system.valid(),
        system.enabled(step),
    ensures
        system.after(step).valid(),
{
    let next = system.after(step);
    match step {
        StepView::Connect { connection } => {
            assert forall|id: u32| #[trigger]
                next.table.jobs.contains_key(id)
                    && next.table.jobs[id].status is Waiting implies exists|c: nat| #[trigger]
                next.sessions.contains_key(c) && holds(next.sessions[c], id) by {
                let c = choose|c: nat| #[trigger]
                    system.sessions.contains_key(c) && holds(system.sessions[c], id);
                assert(next.sessions.contains_key(c) && holds(next.sessions[c], id));
            }
        },
        StepView::Tell { connection, event } => {
            lemma_tell_keeps_others(system, connection, event);
            lemma_tell_keeps_waiting_held(system, connection, event);
        },
    }
}

proof fn lemma_tell_keeps_others(system: SystemView, connection: nat, event: EventView)
    requires
        system.valid(),
        system.enabled(StepView::Tell { connection, event }),
    ensures
        ({
            let next = system.after(StepView::Tell { connection, event });
            &&& next.table.valid()
            &&& forall|c: nat| #[trigger]
                next.sessions.contains_key(c) ==> next.sessions[c].valid(next.table)
            &&& forall|c: nat, d: nat, id: u32|
                next.sessions.contains_key(c) && next.sessions.contains_key(d)
                    && #[trigger] holds(next.sessions[c], id) && #[trigger] holds(
                    next.sessions[d],
                    id,
                ) ==> c == d
        }),
{
    let next = system.after(StepView::Tell { connection, event });
    let session = system.sessions[connection];
    assert(session.valid(system.table));
    assert forall|c: nat| #[trigger]
        next.sessions.contains_key(c) implies next.sessions[c].valid(next.table) by {
        if c != connection {
            assert(system.sessions[c].valid(system.table));
            if let Some(ticket) = system.sessions[c].in_hand() {
                assert(holds(system.sessions[c], ticket.id));
                if let Some(own) = session.in_hand() {
                    assert(holds(session, own.id));
                }
            }
        }
    }
    assert forall|c: nat, d: nat, id: u32|
        next.sessions.contains_key(c) && next.sessions.contains_key(d) && #[trigger] holds(
            next.sessions[c],
            id,
        ) && #[trigger] holds(next.sessions[d], id) implies c == d by {
        if c != d {
            assert(c != connection ==> system.sessions[c].valid(system.table));
            assert(d != connection ==> system.sessions[d].valid(system.table));
            assert(c != connection ==> holds(system.sessions[c], id));
            assert(d != connection ==> holds(system.sessions[d], id));
            assert(holds(session, id) || id == system.table.last_id + 1);
        }
    }
}

proof fn lemma_tell_keeps_waiting_held(system: SystemView, connection: nat, event: EventView)
    requires
        system.valid(),
        system.enabled(StepView::Tell { connection, event }),
    ensures
        ({
            let next = system.after(StepView::Tell { connection, event });
            forall|id: u32| #[trigger]
                next.table.jobs.contains_key(id)
                    && next.table.jobs[id].status is Waiting ==> exists|c: nat| #[trigger]
                next.sessions.contains_key(c) && holds(next.sessions[c], id)
        }),
{
    let next = system.after(StepView::Tell { connection, event });
    let session = system.sessions[connection];
    assert(session.valid(system.table));
    assert forall|id: u32| #[trigger]
        next.table.jobs.contains_key(id) && next.table.jobs[id].status is Waiting implies exists|
        c: nat,
    | #[trigger] next.sessions.contains_key(c) && holds(next.sessions[c], id) by {
        if holds(next.sessions[connection], id) {
            assert(next.sessions.contains_key(connection));
        } else {
            assert(system.table.jobs.contains_key(id) && system.table.jobs[id].status is Waiting);
            let c = choose|c: nat| #[trigger]
                system.sessions.contains_key(c) && holds(system.sessions[c], id);
            assert(c != connection);
            assert(next.sessions.contains_key(c) && holds(next.sessions[c], id));
        }
    }
}

/// However the daemon got where it is, its jobs and connections fit together.
pub proof fn law_steps_keep_valid(system: SystemView, steps: Seq<StepView>)
    requires
        system.valid(),
        system.enabled_all(steps),
    ensures
        system.after_all(steps).valid(),
    decreases steps.len(),
{
    if steps.len() > 0 {
        law_step_keeps_valid(system, steps[0]);
        law_steps_keep_valid(system.after(steps[0]), steps.drop_first());
    }
}

/// A job is never forgotten, and keeps its number, command and arguments. Its status
/// changes once at most after it has started: from waiting to a final status, at the
/// word of the connection that has it in hand.
pub proof fn law_step_keeps_jobs(system: SystemView, step: StepView, id: u32)
    requires
        system.valid(),
        system.enabled(step),
        system.table.jobs.contains_key(id),
    ensures
        ({
            let before = system.table.jobs[id];
            let after = system.after(step).table.jobs[id];
            &&& system.after(step).table.jobs.contains_key(id)
            &&& after == JobView { status: after.status, ..before }
            &&& after != before ==> {
                &&& before.status is Waiting
                &&& after.status.is_final()
                &&& step matches StepView::Tell { connection, event } && event is Exited && holds(
                    system.sessions[connection],
                    id,
                )
            }
        }),
{
    if let StepView::Tell { connection, event } = step {
        assert(system.sessions[connection].valid(system.table));
    }
}

/// A job appears in the table at the word of the connection that has it in hand, when
/// its process has started or failed to start.
pub proof fn law_jobs_appear_when_spawned(system: SystemView, step: StepView, id: u32)
    requires
        system.valid(),
        system.enabled(step),
        !system.table.jobs.contains_key(id),
        system.after(step).table.jobs.contains_key(id),
    ensures
        step matches StepView::Tell { connection, event } && event is Spawned && holds(
            system.sessions[connection],
            id,
        ),
{
}

/// The number that a new job gets is given out for the first time: it is above every
/// number in the table or in the hands of a connection.
pub proof fn law_new_job_number_is_fresh(
    system: SystemView,
    connection: nat,
    command: Seq<char>,
    args: Seq<Seq<char>>,
)
    requires
        system.valid(),
        system.sessions.contains_key(connection),
        system.sessions[connection] is AwaitRequest,
        system.table.has_free_id(),
    ensures
        ({
            let event = EventView::Decoded(Ok(RequestView::Run { command, args }));
            let step = StepView::Tell { connection, event };
            let id = (system.table.last_id + 1) as u32;
            &&& system.enabled(step)
            &&& system.after(step).sessions[connection] == SessionView::AwaitSpawn {
                ticket: TicketView { id, command, args },
            }
            &&& system.after(step).table.last_id == id
            &&& forall|known: u32| #[trigger]
                system.table.jobs.contains_key(known) ==> known < id
            &&& forall|c: nat, known: u32|
                system.sessions.contains_key(c) && #[trigger] holds(system.sessions[c], known)
                    ==> known < id
        }),
{
    assert forall|c: nat, known: u32|
        system.sessions.contains_key(c) && #[trigger] holds(
            system.sessions[c],
            known,
        ) implies known < system.table.last_id + 1 by {
        assert(system.sessions[c].valid(system.table));
    }
}

/// The last number given out never falls.
pub proof fn law_numbers_never_fall(system: SystemView, steps: Seq<StepView>)
    requires
        system.enabled_all(steps),
    ensures
        system.table.last_id <= system.after_all(steps).table.last_id,
    decreases steps.len(),
{
    if steps.len() > 0 {
        law_numbers_never_fall(system.after(steps[0]), steps.drop_first());
    }
}

/// No number is given out twice: a job that is asked for at any later time gets a higher
/// number.
pub proof fn law_no_number_is_given_out_twice(
    system: SystemView,
    first: nat,
    first_request: RequestView,
    between: Seq<StepView>,
    second: nat,
    second_request: RequestView,
)
    requires
        first_request is Run,
        second_request is Run,
        ({
            let asked = StepView::Tell {
                connection: first,
                event: EventView::Decoded(Ok(first_request)),
            };
            let asked_later = StepView::Tell {
                connection: second,
                event: EventView::Decoded(Ok(second_request)),
            };
            &&& system.enabled(asked)
            &&& system.after(asked).enabled_all(between)
            &&& system.after(asked).after_all(between).enabled(asked_later)
        }),
    ensures
        ({
            let asked = StepView::Tell {
                connection: first,
                event: EventView::Decoded(Ok(first_request)),
            };
            let asked_later = StepView::Tell {
                connection: second,
                event: EventView::Decoded(Ok(second_request)),
            };
            let once = system.after(asked);
            let twice = once.after_all(between).after(asked_later);
            &&& once.sessions[first].in_hand() matches Some(ticket)
            &&& twice.sessions[second].in_hand() matches Some(later_ticket)
            &&& ticket.id < later_ticket.id
        }),
{
    let asked = StepView::Tell {
        connection: first,
        event: EventView::Decoded(Ok(first_request)),
    };
    law_numbers_never_fall(system.after(asked), between);
}

/// A job that has a final status keeps it for good, and so the answer to the question
/// how it stands is the same at any later time.
pub proof fn law_final_answer_stands(system: SystemView, steps: Seq<StepView>, id: u32)
    requires
        system.valid(),
        system.enabled_all(steps),
        system.table.jobs.contains_key(id),
        system.table.jobs[id].status.is_final(),
    ensures
        system.after_all(steps).table.jobs.contains_key(id),
        system.after_all(steps).table.jobs[id] == system.table.jobs[id],
        system.after_all(steps).table.answer(id) == system.table.answer(id),
    decreases steps.len(),
{
    if steps.len() > 0 {
        law_step_keeps_valid(system, steps[0]);
        law_step_keeps_jobs(system, steps[0], id);
        law_final_answer_stands(system.after(steps[0]), steps.drop_first(), id);
    }
}

/// When a process has ended, the client that asked for it is sent the very answer that
/// anyone gets who asks for the job from then on.
pub proof fn law_client_gets_the_final_answer(
    system: SystemView,
    connection: nat,
    report: ExitView,
    later: Seq<StepView>,
)
    requires
        system.valid(),
        system.enabled(StepView::Tell { connection, event: EventView::Exited(Ok(report)) }),
        system.after(
            StepView::Tell { connection, event: EventView::Exited(Ok(report)) },
        ).enabled_all(later),
    ensures
        ({
            let event = EventView::Exited(Ok(report));
            let next = system.after(StepView::Tell { connection, event });
            let id = system.sessions[connection].in_hand()->0.id;
            &&& next.table.jobs[id].status == report.outcome()
            &&& system.sessions[connection].next(system.table, event).action
                == ActionView::Encode { response: next.after_all(later).table.answer(id) }
        }),
{
    let step = StepView::Tell { connection, event: EventView::Exited(Ok(report)) };
    let id = system.sessions[connection].in_hand()->0.id;
    assert(system.sessions[connection].valid(system.table));
    law_step_keeps_valid(system, step);
    law_final_answer_stands(system.after(step), later, id);
}

/// When a process could not be started or waited for, its job is recorded as failed
/// with the reason, and stays so.
pub proof fn law_failure_is_recorded(
    system: SystemView,
    connection: nat,
    event: EventView,
    error: Seq<char>,
    later: Seq<StepView>,
)
    requires
        system.valid(),
        event == EventView::Spawned(Err(error)) || event == EventView::Exited(Err(error)),
        system.enabled(StepView::Tell { connection, event }),
        system.after(StepView::Tell { connection, event }).enabled_all(later),
    ensures
        ({
            let next = system.after(StepView::Tell { connection, event });
            let ticket = system.sessions[connection].in_hand()->0;
            let reason = if event is Spawned {
                error
            } else {
                wait_failure(error)
            };
            &&& next.after_all(later).table.jobs.contains_key(ticket.id)
            &&& next.after_all(later).table.jobs[ticket.id] == ticket.job(
                StatusView::FailedToSpawn { error: reason },
            )
        }),
{
    let step = StepView::Tell { connection, event };
    let ticket = system.sessions[connection].in_hand()->0;
    assert(system.sessions[connection].valid(system.table));
    law_step_keeps_valid(system, step);
    law_final_answer_stands(system.after(step), later, ticket.id);
}

/// No two connections have the same job in hand, and a job in hand is known as waiting with
/// the command and arguments that were asked for, once its process has started.
pub proof fn law_jobs_in_hand_are_apart(
    system: SystemView,
    first: nat,
    second: nat,
    ticket: TicketView,
    other: TicketView,
)
    requires
        system.valid(),
        first != second,
        system.sessions.contains_key(first),
        system.sessions.contains_key(second),
        system.sessions[first] == (SessionView::AwaitExit { ticket }),
        system.sessions[second].in_hand() == Some(other),
    ensures
        ticket.id != other.id,
        system.table.jobs.contains_key(ticket.id),
        system.table.jobs[ticket.id].id == ticket.id,
        system.table.jobs[ticket.id].command == ticket.command,
        system.table.jobs[ticket.id].args == ticket.args,
        system.table.jobs[ticket.id].status is Waiting,
        1 <= ticket.id <= system.table.last_id,
{
    assert(system.sessions[first].valid(system.table));
    assert(holds(system.sessions[first], ticket.id));
    assert(holds(system.sessions[second], other.id));
}

} // verus!
