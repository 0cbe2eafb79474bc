//! The batch orchestrator's decision core. A batch expands every raw input
//! into candidate URLs, launches one concurrent probe per candidate, streams
//! each record to the sink the moment its task terminates — in any order
//! across tasks — and emits exactly one completion signal once every task
//! has been recorded. The application owns the task runtime and the sink;
//! this module decides what is launched, what each termination yields, and
//! when the batch is complete, and its contracts force the one-record-per-
//! task and single-completion discipline.

use crate::normalize::normalize;
use crate::normalize::normalize_spec;
use crate::probe::CheckResult;
use crate::probe::CheckView;
use crate::probe::FetchOutcome;
use crate::probe::check_spec;
use crate::probe::check_url;
use vstd::prelude::*;

verus! {

/// One planned probe: a candidate URL paired with the raw input it was
/// derived from.
pub struct ProbeJob {
    /// The fully-qualified URL to probe.
    pub url: String,
    /// The raw user input this candidate came from.
    pub original_input: String,
}

/// The mathematical value of a `ProbeJob`.
pub struct JobView {
    pub url: Seq<char>,
    pub original_input: Seq<char>,
}

impl View for ProbeJob {
    type V = JobView;

    open spec fn view(&self) -> JobView {
        JobView { url: self.url@, original_input: self.original_input@ }
    }
}

/// The jobs one raw input contributes: one per candidate URL, each
/// remembering the raw (untrimmed) input.
pub open spec fn jobs_of(input: Seq<char>) -> Seq<JobView> {
    normalize_spec(input).map_values(|u: Seq<char>| JobView { url: u, original_input: input })
}

/// All jobs of a batch: the inputs expanded in order.
pub open spec fn expand_spec(inputs: Seq<Seq<char>>) -> Seq<JobView>
    decreases inputs.len(),
{
    if inputs.len() == 0 {
        Seq::empty()
    } else {
        jobs_of(inputs[0]) + expand_spec(inputs.drop_first())
    }
}

/// How many candidates a batch probes: the sum, over the inputs, of the
/// number of candidates each one expands to.
pub open spec fn total_candidates(inputs: Seq<Seq<char>>) -> nat
    decreases inputs.len(),
{
    if inputs.len() == 0 {
        0
    } else {
        normalize_spec(inputs[0]).len() + total_candidates(inputs.drop_first())
    }
}

/// Law: a batch plans exactly one job per candidate URL.
pub proof fn lemma_expand_count(inputs: Seq<Seq<char>>)
    ensures
        expand_spec(inputs).len() == total_candidates(inputs),
    decreases inputs.len(),
{
    if inputs.len() > 0 {
        lemma_expand_count(inputs.drop_first());
    }
}

proof fn lemma_expand_push(inputs: Seq<Seq<char>>, x: Seq<char>)
    ensures
        expand_spec(inputs.push(x)) == expand_spec(inputs) + jobs_of(x),
    decreases inputs.len(),
{
    let p = inputs.push(x);
    assert(p.len() == inputs.len() + 1);
    assert(expand_spec(p) == jobs_of(p[0]) + expand_spec(p.drop_first()));
    if inputs.len() == 0 {
        assert(p[0] == x);
        assert(p.drop_first() =~= Seq::<Seq<char>>::empty());
        assert(expand_spec(p.drop_first()) == Seq::<JobView>::empty());
        assert(jobs_of(x) + Seq::<JobView>::empty() =~= jobs_of(x));
        assert(expand_spec(inputs) == Seq::<JobView>::empty());
        assert(Seq::<JobView>::empty() + jobs_of(x) =~= jobs_of(x));
    } else {
        assert(p[0] == inputs[0]);
        assert(p.drop_first() =~= inputs.drop_first().push(x));
        lemma_expand_push(inputs.drop_first(), x);
        assert(expand_spec(inputs) == jobs_of(inputs[0]) + expand_spec(inputs.drop_first()));
        assert(jobs_of(inputs[0]) + (expand_spec(inputs.drop_first()) + jobs_of(x)) =~= (jobs_of(
            inputs[0],
        ) + expand_spec(inputs.drop_first())) + jobs_of(x));
    }
}

/// Expands every raw input into its candidate URLs, in input order,
/// retaining for each candidate the raw input it came from.
pub fn expand_inputs(inputs: &Vec<String>) -> (jobs: Vec<ProbeJob>)
    ensures
        jobs@.map_values(|j: ProbeJob| j@) == expand_spec(inputs.deep_view()),
{
    let ghost dv = inputs.deep_view();
    let mut jobs: Vec<ProbeJob> = Vec::new();
    let mut i: usize = 0;
    proof {
        assert(jobs@.map_values(|j: ProbeJob| j@) =~= expand_spec(dv.take(0)));
    }
    while i < inputs.len()
        invariant
            dv == inputs.deep_view(),
            dv.len() == inputs@.len(),
            0 <= i <= inputs@.len(),
            jobs@.map_values(|j: ProbeJob| j@) == expand_spec(dv.take(i as int)),
        decreases inputs@.len() - i,
    {
        let ghost raw = dv[i as int];
        let candidates = normalize(inputs[i].as_str());
        proof {
            assert(candidates.deep_view() == normalize_spec(raw));
            assert(candidates.deep_view().len() == candidates@.len());
        }
        let mut k: usize = 0;
        while k < candidates.len()
            invariant
                dv == inputs.deep_view(),
                0 <= i < dv.len(),
                raw == dv[i as int],
                candidates.deep_view() == normalize_spec(raw),
                0 <= k <= candidates@.len(),
                candidates@.len() == normalize_spec(raw).len(),
                jobs@.map_values(|j: ProbeJob| j@) == expand_spec(dv.take(i as int)) + jobs_of(
                    raw,
                ).take(k as int),
            decreases candidates@.len() - k,
        {
            let ghost pre = jobs@;
            let url = candidates[k].clone();
            let original_input = inputs[i].clone();
            jobs.push(ProbeJob { url, original_input });
            proof {
                assert(raw == inputs@[i as int].deep_view());
                assert(candidates.deep_view()[k as int] == candidates@[k as int]@);
                assert(jobs_of(raw)[k as int] == JobView {
                    url: normalize_spec(raw)[k as int],
                    original_input: raw,
                });
                assert(jobs@.last()@ == jobs_of(raw)[k as int]);
                assert(jobs@.map_values(|j: ProbeJob| j@) =~= pre.map_values(|j: ProbeJob| j@).push(
                    jobs@.last()@,
                ));
                assert(jobs@.map_values(|j: ProbeJob| j@) =~= expand_spec(dv.take(i as int))
                    + jobs_of(raw).take(k as int + 1));
            }
            k = k + 1;
        }
        proof {
            assert(jobs_of(raw).take(k as int) =~= jobs_of(raw));
            lemma_expand_push(dv.take(i as int), raw);
            assert(dv.take(i as int).push(raw) =~= dv.take(i as int + 1));
        }
        i = i + 1;
    }
    proof {
        assert(dv.take(dv.len() as int) =~= dv);
    }
    jobs
}

/// One concurrent probe task's termination, as the application observed it.
pub enum TaskTermination {
    /// The task ran to its end and reported how far the fetch came.
    Finished(FetchOutcome),
    /// The execution unit hosting the probe terminated abnormally; carries
    /// the fault description.
    Fault(String),
}

/// The record a terminated task yields: the probe's own record when the
/// task finished, a synthesized fault record otherwise, so that the sink
/// never needs to distinguish a probe that failed from a task that crashed.
pub open spec fn task_record_spec(job: JobView, t: TaskTermination) -> CheckView {
    match t {
        TaskTermination::Finished(outcome) => check_spec(job.url, job.original_input, outcome),
        TaskTermination::Fault(detail) => CheckView {
            original_url: job.url,
            original_input: job.original_input,
            status_code: 0,
            title: "task failed"@,
            banner: Seq::empty(),
            content_length: 0,
            redirect_url: Seq::empty(),
            error: Some("task failed: "@ + detail@),
        },
    }
}

/// Tracks one batch from launch to completion signal. The contracts below
/// force the batch discipline: one record per launched task, recorded as the
/// task terminates, and a single completion signal, emitted only after every
/// task has been recorded.
pub struct BatchRun {
    total: usize,
    finished: usize,
    completed: bool,
    results: Ghost<Seq<CheckView>>,
}

impl BatchRun {
    /// Number of jobs this batch launched.
    pub closed spec fn total_spec(&self) -> nat {
        self.total as nat
    }

    /// Number of task terminations recorded so far.
    pub closed spec fn finished_spec(&self) -> nat {
        self.finished as nat
    }

    /// Whether the completion signal has been emitted.
    pub closed spec fn completed_spec(&self) -> bool {
        self.completed
    }

    /// The records emitted so far, in emission order.
    pub closed spec fn results_spec(&self) -> Seq<CheckView> {
        self.results@
    }

    /// The batch invariant: one record per recorded task, never more
    /// records than launched tasks, and the completion signal only once
    /// everything is recorded.
    pub open spec fn wf(&self) -> bool {
        &&& self.results_spec().len() == self.finished_spec()
        &&& self.finished_spec() <= self.total_spec()
        &&& (self.completed_spec() ==> self.finished_spec() == self.total_spec())
    }

    /// Plans a batch: expands every input into jobs and prepares to track
    /// them. Launching the jobs is the application's part.
    pub fn start(inputs: &Vec<String>) -> (r: (BatchRun, Vec<ProbeJob>))
        ensures
            r.1@.map_values(|j: ProbeJob| j@) == expand_spec(inputs.deep_view()),
            r.0.wf(),
            r.0.total_spec() == expand_spec(inputs.deep_view()).len(),
            r.0.finished_spec() == 0,
            !r.0.completed_spec(),
            r.0.results_spec() == Seq::<CheckView>::empty(),
    {
        let jobs = expand_inputs(inputs);
        let run = BatchRun {
            total: jobs.len(),
            finished: 0,
            completed: false,
            results: Ghost(Seq::empty()),
        };
        proof {
            assert(jobs@.map_values(|j: ProbeJob| j@).len() == jobs@.len());
        }
        (run, jobs)
    }

    /// Records the termination of one task and builds the record that is
    /// streamed to the sink at once. Callable exactly once per launched
    /// job: only while records are still owed and the completion signal has
    /// not fired.
    pub fn task_finished(&mut self, job: &ProbeJob, termination: TaskTermination) -> (r:
        CheckResult)
        requires
            old(self).wf(),
            !old(self).completed_spec(),
            old(self).finished_spec() < old(self).total_spec(),
        ensures
            final(self).wf(),
            final(self).total_spec() == old(self).total_spec(),
            !final(self).completed_spec(),
            final(self).finished_spec() == old(self).finished_spec() + 1,
            r@ == task_record_spec(job@, termination),
            final(self).results_spec() == old(self).results_spec().push(r@),
    {
        let r = match termination {
            TaskTermination::Finished(outcome) => check_url(
                job.url.clone(),
                job.original_input.clone(),
                outcome,
            ),
            TaskTermination::Fault(detail) => {
                let mut err = String::from_str("task failed: ");
                err.append(detail.as_str());
                CheckResult {
                    original_url: job.url.clone(),
                    original_input: job.original_input.clone(),
                    status_code: 0,
                    title: String::from_str("task failed"),
                    banner: String::new(),
                    content_length: 0,
                    redirect_url: String::new(),
                    error: Some(err),
                }
            },
        };
        self.finished = self.finished + 1;
        proof {
            self.results@ = self.results@.push(r@);
        }
        r
    }

    /// Whether every launched task has terminated and been recorded.
    pub fn all_finished(&self) -> (r: bool)
        ensures
            r == (self.finished_spec() == self.total_spec()),
    {
        self.finished == self.total
    }

    /// Emits the batch's single completion signal: allowed exactly when
    /// every task has been recorded and the signal has not fired yet, and
    /// never again afterwards.
    pub fn emit_completion(&mut self)
        requires
            old(self).wf(),
            !old(self).completed_spec(),
            old(self).finished_spec() == old(self).total_spec(),
        ensures
            final(self).wf(),
            final(self).completed_spec(),
            final(self).total_spec() == old(self).total_spec(),
            final(self).finished_spec() == old(self).finished_spec(),
            final(self).results_spec() == old(self).results_spec(),
    {
        self.completed = true;
    }
}

/// Law: a completed batch over `inputs` has emitted exactly one record per
/// candidate URL — the sum over the inputs of the number of candidates each
/// expands to — however many probes failed, and its single completion
/// signal came only once all of them were recorded.
pub proof fn lemma_batch_emits_all(run: BatchRun, inputs: Seq<Seq<char>>)
    requires
        run.wf(),
        run.completed_spec(),
        run.total_spec() == total_candidates(inputs),
    ensures
        run.results_spec().len() == total_candidates(inputs),
{
}

} // verus!
