use vstd::prelude::*;

use crate::json::{Json, JsonModel};
use crate::text::{parse_unsigned, unsigned_of};

verus! {

/// What polling a job reports.
#[derive(Debug, PartialEq)]
pub enum JobStatus {
    NoSuchJob,
    Running,
    Completed(Json),
}

pub enum JobStatusModel {
    NoSuchJob,
    Running,
    Completed(JsonModel),
}

impl View for JobStatus {
    type V = JobStatusModel;

    open spec fn view(&self) -> JobStatusModel {
        match self {
            JobStatus::NoSuchJob => JobStatusModel::NoSuchJob,
            JobStatus::Running => JobStatusModel::Running,
            JobStatus::Completed(j) => JobStatusModel::Completed(j@),
        }
    }
}

/// The jobs started so far, by identifier: each is running (`None`) or holds
/// its result. Identifiers are handed out in order and never reused.
pub struct JobTable {
    results: Vec<Option<Json>>,
}

pub open spec fn result_model(r: Option<Json>) -> Option<JsonModel> {
    match r {
        Some(j) => Some(j@),
        None => None,
    }
}

impl View for JobTable {
    type V = Seq<Option<JsonModel>>;

    closed spec fn view(&self) -> Seq<Option<JsonModel>> {
        self.results@.map_values(|r: Option<Json>| result_model(r))
    }
}

/// What polling job `id` reports.
pub open spec fn status_in(jobs: Seq<Option<JsonModel>>, id: int) -> JobStatusModel {
    if 0 <= id < jobs.len() {
        match jobs[id] {
            Some(r) => JobStatusModel::Completed(r),
            None => JobStatusModel::Running,
        }
    } else {
        JobStatusModel::NoSuchJob
    }
}

/// The jobs after a worker hands in `result` for job `id`. A result is stored
/// once: a job that has completed, or does not exist, is left as it is.
pub open spec fn completed_in(jobs: Seq<Option<JsonModel>>, id: int, result: JsonModel) -> Seq<
    Option<JsonModel>,
> {
    if 0 <= id < jobs.len() && jobs[id] is None {
        jobs.update(id, Some(result))
    } else {
        jobs
    }
}

impl JobTable {
    pub fn new() -> (r: JobTable)
        ensures
            r@ == Seq::<Option<JsonModel>>::empty(),
    {
        let r = JobTable { results: Vec::new() };
        assert(r@ =~= Seq::<Option<JsonModel>>::empty());
        r
    }

    /// Registers a new running job and returns its identifier.
    pub fn start(&mut self) -> (id: usize)
        ensures
            id == old(self)@.len(),
            final(self)@ == old(self)@.push(None),
    {
        let id = self.results.len();
        self.results.push(None);
        assert(self@ =~= old(self)@.push(None));
        id
    }

    /// Stores the result of job `id`, unless it already has one.
    pub fn complete(&mut self, id: usize, result: Json)
        ensures
            final(self)@ == completed_in(old(self)@, id as int, result@),
    {
        if id < self.results.len() && self.results[id].is_none() {
            let ghost m = result@;
            self.results.set(id, Some(result));
            assert(self@ =~= old(self)@.update(id as int, Some(m)));
        }
    }

    /// Reports on job `id` without changing anything.
    pub fn check(&self, id: usize) -> (r: JobStatus)
        ensures
            r@ == status_in(self@, id as int),
    {
        if id >= self.results.len() {
            return JobStatus::NoSuchJob;
        }
        match &self.results[id] {
            Some(j) => JobStatus::Completed(j.deep_copy()),
            None => JobStatus::Running,
        }
    }

    /// Reports on the job whose identifier is written in decimal; text that
    /// names no identifier names no job.
    pub fn check_text(&self, id: &str) -> (r: JobStatus)
        ensures
            r@ == match unsigned_of(id@, usize::MAX as nat) {
                Some(n) => status_in(self@, n as int),
                None => JobStatusModel::NoSuchJob,
            },
    {
        match parse_unsigned(id, usize::MAX as u64) {
            Some(n) => self.check(n as usize),
            None => JobStatus::NoSuchJob,
        }
    }
}

/// Polling is repeatable: once a job has completed, neither starting other
/// jobs nor handing in results changes what polling it reports.
pub proof fn lemma_completed_stays(jobs: Seq<Option<JsonModel>>, id: int, other: int, result: JsonModel)
    requires
        status_in(jobs, id) is Completed,
    ensures
        status_in(jobs.push(None), id) == status_in(jobs, id),
        status_in(completed_in(jobs, other, result), id) == status_in(jobs, id),
{
}

/// No result is lost: a new job reports running; handing in the result of a
/// running job makes it report that result and changes no other job.
pub proof fn lemma_results_independent(
    jobs: Seq<Option<JsonModel>>,
    id: int,
    other: int,
    result: JsonModel,
)
    requires
        status_in(jobs, id) is Running,
        other != id,
    ensures
        status_in(jobs.push(None), jobs.len() as int) == JobStatusModel::Running,
        status_in(completed_in(jobs, id, result), id) == JobStatusModel::Completed(result),
        status_in(completed_in(jobs, id, result), other) == status_in(jobs, other),
{
}

} // verus!
