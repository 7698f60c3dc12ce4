//! The jobs that the daemon knows, by number.

use crate::job::{not_found, not_found_response, Job, JobStatus, JobView, StatusView};
use crate::protocol::{Response, ResponseView};
use std::collections::HashMap;
use vstd::prelude::*;

verus! {

broadcast use vstd::std_specs::hash::group_hash_axioms;

/// The jobs that the daemon knows, and the last job number that it gave out. It is
/// shared by all connections.
pub struct JobTable {
    last_id: u32,
    jobs: HashMap<u32, Job>,
}

/// The table as a map from job number to job.
pub struct TableView {
    pub last_id: u32,
    pub jobs: Map<u32, JobView>,
}

impl View for JobTable {
    type V = TableView;

    closed spec fn view(&self) -> TableView {
        TableView { last_id: self.last_id, jobs: self.jobs@.map_values(|job: Job| job@) }
    }
}

impl TableView {
    /// No job, and no number given out.
    pub open spec fn empty() -> TableView {
        TableView { last_id: 0, jobs: Map::empty() }
    }

    /// Every job stands under its own number, and that number has been given out.
    pub open spec fn valid(self) -> bool {
        forall|id: u32| #[trigger]
            self.jobs.contains_key(id) ==> self.jobs[id].id == id && 1 <= id <= self.last_id
    }

    /// A number is left to give out.
    pub open spec fn has_free_id(self) -> bool {
        self.last_id < u32::MAX
    }

    /// The table once the next number has been given out.
    pub open spec fn with_next_id(self) -> TableView {
        TableView { last_id: (self.last_id + 1) as u32, ..self }
    }

    /// The table with `job` under its number.
    pub open spec fn with_job(self, job: JobView) -> TableView {
        TableView { jobs: self.jobs.insert(job.id, job), ..self }
    }

    /// The table with another status for the job `id`, if there is such a job.
    pub open spec fn with_status(self, id: u32, status: StatusView) -> TableView {
        if self.jobs.contains_key(id) {
            TableView {
                jobs: self.jobs.insert(id, JobView { status, ..self.jobs[id] }),
                ..self
            }
        } else {
            self
        }
    }

    /// The answer to the question how the job `id` stands.
    pub open spec fn answer(self, id: u32) -> ResponseView {
        if self.jobs.contains_key(id) {
            self.jobs[id].report()
        } else {
            not_found_response(id)
        }
    }
}

impl JobTable {
    /// A table without jobs.
    pub fn new() -> (table: JobTable)
        ensures
            table@ == TableView::empty(),
            table@.valid(),
    {
        let table = JobTable { last_id: 0, jobs: HashMap::new() };
        assert(table@.jobs =~= Map::<u32, JobView>::empty());
        table
    }

    /// Whether a number is left to give out.
    pub fn has_free_id(&self) -> (free: bool)
        ensures
            free == self@.has_free_id(),
    {
        self.last_id < u32::MAX
    }

    /// Gives out the next job number.
    pub fn next_id(&mut self) -> (id: u32)
        requires
            old(self)@.has_free_id(),
        ensures
            id == old(self)@.last_id + 1,
            final(self)@ == old(self)@.with_next_id(),
            old(self)@.valid() ==> final(self)@.valid(),
    {
        self.last_id = self.last_id + 1;
        self.last_id
    }

    /// Puts `job` under its number, in place of what stood there.
    pub fn record(&mut self, job: Job)
        ensures
            final(self)@ == old(self)@.with_job(job@),
            old(self)@.valid() && 1 <= job.id <= old(self)@.last_id ==> final(self)@.valid(),
    {
        let id: u32 = job.id;
        self.jobs.insert(id, job);
        assert(self@.jobs =~= old(self)@.with_job(job@).jobs);
    }

    /// Gives the job `id` another status, if there is such a job.
    pub fn set_status(&mut self, id: u32, status: JobStatus)
        ensures
            final(self)@ == old(self)@.with_status(id, status@),
            old(self)@.valid() ==> final(self)@.valid(),
    {
        match self.jobs.remove(&id) {
            Some(job) => {
                let updated = Job { status, ..job };
                self.jobs.insert(id, updated);
                assert(self@.jobs =~= old(self)@.with_status(id, status@).jobs);
            },
            None => {
                assert(self@.jobs =~= old(self)@.jobs);
            },
        }
    }

    /// The answer to the question how the job `id` stands.
    pub fn answer(&self, id: u32) -> (response: Response)
        ensures
            response@ == self@.answer(id),
            response is Error <==> !self@.jobs.contains_key(id),
            self@.jobs.contains_key(id) ==> response@ == self@.jobs[id].report(),
    {
        match self.jobs.get(&id) {
            Some(job) => job.report(),
            None => not_found(id),
        }
    }
}

/// A new table knows no job and has given out no number.
pub proof fn law_empty_table_knows_nothing(id: u32)
    ensures
        TableView::empty().last_id == 0,
        !TableView::empty().jobs.contains_key(id),
        TableView::empty().answer(id) is Error,
{
}

/// Numbers run out with the largest, and not before.
pub proof fn law_numbers_run_out_at_the_largest(table: TableView)
    ensures
        !table.has_free_id() <==> table.last_id == 4294967295,
{
}

/// Each number given out is one more than the last, and no job changes by it.
pub proof fn law_next_id_counts_by_one(table: TableView)
    requires
        table.last_id < 4294967295,
    ensures
        table.with_next_id().last_id - table.last_id == 1,
        table.with_next_id().jobs == table.jobs,
{
}

/// A job that is recorded is found again, all of it, under its number. Every other number
/// finds what it found before.
pub proof fn law_recorded_job_is_found(table: TableView, job: JobView, other: u32)
    requires
        other != job.id,
    ensures
        table.with_job(job).jobs.contains_key(job.id),
        table.with_job(job).jobs[job.id] == job,
        table.with_job(job).answer(job.id) == job.report(),
        table.with_job(job).jobs.contains_key(other) <==> table.jobs.contains_key(other),
        table.jobs.contains_key(other) ==> table.with_job(job).jobs[other] == table.jobs[other],
        table.with_job(job).answer(other) == table.answer(other),
        table.with_job(job).last_id == table.last_id,
{
}

/// A new status changes a known job in nothing but its status. Every other number finds
/// what it found before, and no job comes or goes.
pub proof fn law_new_status_changes_only_the_status(
    table: TableView,
    id: u32,
    status: StatusView,
    other: u32,
)
    requires
        other != id,
    ensures
        ({
            let next = table.with_status(id, status);
            &&& next.jobs.contains_key(id) <==> table.jobs.contains_key(id)
            &&& table.jobs.contains_key(id) ==> {
                &&& next.jobs[id].status == status
                &&& next.jobs[id].id == table.jobs[id].id
                &&& next.jobs[id].command == table.jobs[id].command
                &&& next.jobs[id].args == table.jobs[id].args
            }
            &&& next.jobs.contains_key(other) <==> table.jobs.contains_key(other)
            &&& table.jobs.contains_key(other) ==> next.jobs[other] == table.jobs[other]
            &&& next.answer(other) == table.answer(other)
            &&& next.last_id == table.last_id
        }),
{
}

/// The answer to a question is an error exactly where no job has the number. Of a known
/// job, whatever its number and its status, the answer holds the job's line and all the
/// output that its status holds.
pub proof fn law_answer_is_an_error_only_for_unknown_jobs(table: TableView, id: u32)
    ensures
        table.answer(id) is Error <==> !table.jobs.contains_key(id),
        table.answer(id) is Status <==> table.jobs.contains_key(id),
        !table.jobs.contains_key(id) ==> table.answer(id) == not_found_response(id),
        table.jobs.contains_key(id) ==> {
            let job = table.jobs[id];
            &&& table.answer(id) matches ResponseView::Status { status, stdout, stderr }
            &&& status == job.line()
            &&& match job.status {
                StatusView::Finished { stdout: out, stderr: err, .. } => stdout == Some(out)
                    && stderr == Some(err),
                StatusView::Signaled { stdout: out, stderr: err, .. } => stdout == Some(out)
                    && stderr == Some(err),
                _ => stdout is None && stderr is None,
            }
        },
{
}

} // verus!
