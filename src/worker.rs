use vstd::prelude::*;
use crate::container::ContainerOutput;
use crate::paths::{file_name, stem};
use crate::proto::{stage_output, BenchResult, BenchSamples, BenchWalltimeSamples, StageOutput};
use crate::results::{e2e_outcome, series, walltime_outcome, IngestError, Metric, SamplingResults};
use crate::text::views;

verus! {

/// The stages that a queued job runs, in order.
#[derive(Clone, Copy, Debug, PartialEq, Eq, Structural)]
pub enum JobStage {
    Clone,
    Fetch,
    Build,
    BenchE2e,
    BenchWalltime,
}

/// Where a job stands.
#[derive(Clone, Copy, Debug, PartialEq, Eq, Structural)]
pub enum Phase {
    /// Waiting for the output of this stage.
    Running(JobStage),
    /// Waiting for the end-to-end sampling documents.
    ReadingSamples,
    /// Waiting for the wall-clock sampling documents.
    ReadingWalltimes,
    /// The outcome has been handed out; nothing more happens.
    Done,
}

/// What the worker hands back to the job.
pub enum Event {
    /// The running stage's container finished.
    Finished(ContainerOutput),
    /// The sampling documents that were asked for, in the order asked.
    Read(Vec<SamplingResults>),
}

/// Why a job stopped without an outcome to publish.
#[derive(Clone, Copy, Debug, PartialEq, Eq, Structural)]
pub enum JobError {
    /// A sampling document could not be taken in.
    Ingest(IngestError),
    /// The event does not answer what the job asked for.
    Unexpected,
}

/// What the worker is to do next.
pub enum Step {
    /// Run this stage's container and hand back its output.
    Run(JobStage),
    /// Read and parse these sampling documents and hand them back.
    Read(Vec<String>),
    /// Publish this outcome; the job is over.
    Publish(BenchResult),
    /// Give up: the environment is broken, not the job.
    Abort(JobError),
}

/// One job taken from the queue, as it moves through the pipeline.
pub struct Job {
    pub id: String,
    pub phase: Phase,
    pub clone: Option<StageOutput>,
    pub fetch: Option<StageOutput>,
    pub build: Option<StageOutput>,
    pub bench_e2e: Option<StageOutput>,
    pub bench_walltime: Option<StageOutput>,
    pub samples: Vec<BenchSamples>,
    pub walltimes: Vec<BenchWalltimeSamples>,
    /// The end-to-end sampling documents to read once that benchmark is done.
    pub results_files: Vec<String>,
    /// The wall-clock sampling documents to read once that benchmark is done.
    pub walltime_files: Vec<String>,
}

/// The place of a stage in the pipeline, from 0.
pub open spec fn stage_index(k: JobStage) -> nat {
    match k {
        JobStage::Clone => 0,
        JobStage::Fetch => 1,
        JobStage::Build => 2,
        JobStage::BenchE2e => 3,
        JobStage::BenchWalltime => 4,
    }
}

/// The name a failure report gives the stage.
pub open spec fn stage_name(k: JobStage) -> Seq<char> {
    match k {
        JobStage::Clone => "clone"@,
        JobStage::Fetch => "fetch"@,
        JobStage::Build => "build"@,
        JobStage::BenchE2e => "bench_e2e"@,
        JobStage::BenchWalltime => "bench_walltime"@,
    }
}

fn name_of(k: JobStage) -> (r: String)
    ensures
        r@ == stage_name(k),
{
    match k {
        JobStage::Clone => String::from_str("clone"),
        JobStage::Fetch => String::from_str("fetch"),
        JobStage::Build => String::from_str("build"),
        JobStage::BenchE2e => String::from_str("bench_e2e"),
        JobStage::BenchWalltime => String::from_str("bench_walltime"),
    }
}

/// A stage's output that says it succeeded.
pub open spec fn succeeded(o: Option<StageOutput>) -> bool {
    o matches Some(s) && s.exitcode == 0
}

/// The end-to-end record taken from the document `doc` found at `path`.
pub open spec fn e2e_record(b: BenchSamples, path: Seq<char>, doc: SamplingResults) -> bool {
    &&& b.name@ == stem(file_name(path)->Some_0)
    &&& b.user_time@ == series(doc.samples@, Metric::UserCpuTime)
    &&& b.system_time@ == series(doc.samples@, Metric::SystemCpuTime)
    &&& b.virtual_memory@ == series(doc.samples@, Metric::VirtualMemory)
    &&& b.resident_memory@ == series(doc.samples@, Metric::ResidentMemory)
    &&& b.cpu_percent@ == series(doc.samples@, Metric::Load)
}

/// The wall-clock record taken from the document `doc` found at `path`.
pub open spec fn walltime_record(b: BenchWalltimeSamples, path: Seq<char>, doc: SamplingResults) -> bool {
    &&& b.name@ == stem(file_name(path)->Some_0)
    &&& b.walltime@ == series(doc.samples@, Metric::Time)
}

/// Some end-to-end document among `docs` cannot be taken in.
pub open spec fn e2e_fails(files: Seq<String>, docs: Seq<SamplingResults>) -> bool {
    exists|i: int| 0 <= i < files.len() && (#[trigger] e2e_outcome(files[i]@, docs[i].samples@)) is Err
}

/// `err` is what is wrong with one of the end-to-end documents `docs`.
pub open spec fn e2e_fails_with(files: Seq<String>, docs: Seq<SamplingResults>, err: IngestError) -> bool {
    exists|i: int| 0 <= i < files.len() && #[trigger] e2e_outcome(files[i]@, docs[i].samples@) == Err::<(), IngestError>(err)
}

/// Some wall-clock document among `docs` cannot be taken in.
pub open spec fn walltime_fails(files: Seq<String>, docs: Seq<SamplingResults>) -> bool {
    exists|i: int| 0 <= i < files.len() && (#[trigger] walltime_outcome(files[i]@, docs[i].samples@)) is Err
}

/// `err` is what is wrong with one of the wall-clock documents `docs`.
pub open spec fn walltime_fails_with(files: Seq<String>, docs: Seq<SamplingResults>, err: IngestError) -> bool {
    exists|i: int| 0 <= i < files.len() && #[trigger] walltime_outcome(files[i]@, docs[i].samples@) == Err::<(), IngestError>(err)
}

impl Job {
    /// The recorded output of stage `k`.
    pub open spec fn output(self, k: JobStage) -> Option<StageOutput> {
        match k {
            JobStage::Clone => self.clone,
            JobStage::Fetch => self.fetch,
            JobStage::Build => self.build,
            JobStage::BenchE2e => self.bench_e2e,
            JobStage::BenchWalltime => self.bench_walltime,
        }
    }

    /// The stages before `n` have succeeded, and no later one has run.
    pub open spec fn ran_until(self, n: nat) -> bool {
        forall|k: JobStage|
            (stage_index(k) < n ==> succeeded(#[trigger] self.output(k))) && (stage_index(k) >= n
                ==> self.output(k) is None)
    }

    /// The outputs recorded agree with where the job stands.
    pub open spec fn wf(self) -> bool {
        match self.phase {
            Phase::Running(k) => self.ran_until(stage_index(k)),
            Phase::ReadingSamples => self.ran_until(4),
            Phase::ReadingWalltimes => self.ran_until(5),
            Phase::Done => true,
        }
    }

    /// `self` with `o` recorded as the output of stage `k`.
    pub open spec fn recorded(self, k: JobStage, o: StageOutput) -> Job {
        match k {
            JobStage::Clone => Job { clone: Some(o), ..self },
            JobStage::Fetch => Job { fetch: Some(o), ..self },
            JobStage::Build => Job { build: Some(o), ..self },
            JobStage::BenchE2e => Job { bench_e2e: Some(o), ..self },
            JobStage::BenchWalltime => Job { bench_walltime: Some(o), ..self },
        }
    }

    /// `r` reports that stage `k` of the job failed, with the outputs of `j`.
    pub open spec fn is_failure(r: BenchResult, j: Job, k: JobStage) -> bool {
        r matches BenchResult::Failure { id, stage, clone, fetch, build, bench_e2e, bench_walltime } && {
            &&& id@ == j.id@
            &&& stage@ == stage_name(k)
            &&& clone == j.clone
            &&& fetch == j.fetch
            &&& build == j.build
            &&& bench_e2e == j.bench_e2e
            &&& bench_walltime == j.bench_walltime
        }
    }

    /// What `advance` does with the job `j` and the event `e`, giving `r`.
    pub open spec fn advanced(j: Job, e: Event, r: (Job, Step)) -> bool {
        let (n, step) = r;
        match (j.phase, e) {
            (Phase::Running(k), Event::Finished(o)) => {
                let rec = j.recorded(k, stage_output(o));
                if o.exitcode != 0 {
                    &&& n.phase == Phase::Done
                    &&& step matches Step::Publish(res) && Job::is_failure(res, rec, k)
                } else {
                    &&& n == (Job { phase: n.phase, ..rec })
                    &&& match k {
                        JobStage::Clone => n.phase == Phase::Running(JobStage::Fetch) && step
                            == Step::Run(JobStage::Fetch),
                        JobStage::Fetch => n.phase == Phase::Running(JobStage::Build) && step
                            == Step::Run(JobStage::Build),
                        JobStage::Build => n.phase == Phase::Running(JobStage::BenchE2e) && step
                            == Step::Run(JobStage::BenchE2e),
                        JobStage::BenchE2e => n.phase == Phase::ReadingSamples && (step matches Step::Read(
                            files,
                        ) && views(files@) == views(j.results_files@)),
                        JobStage::BenchWalltime => n.phase == Phase::ReadingWalltimes && (step matches Step::Read(
                            files,
                        ) && views(files@) == views(j.walltime_files@)),
                    }
                }
            },
            (Phase::ReadingSamples, Event::Read(docs)) => {
                let files = j.results_files@;
                if docs@.len() != files.len() {
                    n.phase == Phase::Done && step == Step::Abort(JobError::Unexpected)
                } else if e2e_fails(files, docs@) {
                    &&& n.phase == Phase::Done
                    &&& step matches Step::Abort(JobError::Ingest(err)) && e2e_fails_with(files, docs@, err)
                }
                else {
                    &&& n == (Job { phase: Phase::Running(JobStage::BenchWalltime), samples: n.samples, ..j })
                    &&& step == Step::Run(JobStage::BenchWalltime)
                    &&& n.samples@.len() == files.len()
                    &&& forall|i: int| 0 <= i < files.len() ==> e2e_record(#[trigger] n.samples@[i], files[i]@, docs@[i])
                }
            },
            (Phase::ReadingWalltimes, Event::Read(docs)) => {
                let files = j.walltime_files@;
                if !(j.clone is Some && j.fetch is Some && j.build is Some && j.bench_e2e is Some
                    && j.bench_walltime is Some) || docs@.len() != files.len() {
                    n.phase == Phase::Done && step == Step::Abort(JobError::Unexpected)
                } else if walltime_fails(files, docs@) {
                    &&& n.phase == Phase::Done
                    &&& step matches Step::Abort(JobError::Ingest(err)) && walltime_fails_with(files, docs@, err)
                } else {
                    &&& n.phase == Phase::Done
                    &&& step matches Step::Publish(BenchResult::Success { id, samples, walltimes, clone, fetch, build, bench_e2e, bench_walltime }) && {
                        &&& id@ == j.id@
                        &&& samples == j.samples
                        &&& walltimes@.len() == files.len()
                        &&& forall|i: int| 0 <= i < files.len() ==> walltime_record(#[trigger] walltimes@[i], files[i]@, docs@[i])
                        &&& j.clone == Some(clone)
                        &&& j.fetch == Some(fetch)
                        &&& j.build == Some(build)
                        &&& j.bench_e2e == Some(bench_e2e)
                        &&& j.bench_walltime == Some(bench_walltime)
                    }
                }
            },
            _ => n.phase == Phase::Done && step == Step::Abort(JobError::Unexpected),
        }
    }
}

fn copy_strings(v: &Vec<String>) -> (r: Vec<String>)
    ensures
        views(r@) == views(v@),
{
    let mut r: Vec<String> = Vec::new();
    let mut i: usize = 0;
    while i < v.len()
        invariant
            i <= v@.len(),
            views(r@) == views(v@.take(i as int)),
        decreases v@.len() - i,
    {
        let ghost before = r@;
        r.push(v[i].clone());
        assert(views(r@) =~= views(before).push(v@[i as int]@));
        assert(views(v@.take(i + 1)) =~= views(v@.take(i as int)).push(v@[i as int]@));
        i = i + 1;
    }
    assert(v@.take(v@.len() as int) =~= v@);
    r
}

proof fn lemma_same_outputs(a: Job, b: Job, n: nat)
    requires
        a.ran_until(n),
        a.clone == b.clone,
        a.fetch == b.fetch,
        a.build == b.build,
        a.bench_e2e == b.bench_e2e,
        a.bench_walltime == b.bench_walltime,
    ensures
        b.ran_until(n),
{
    assert forall|x: JobStage|
        (stage_index(x) < n ==> succeeded(#[trigger] b.output(x))) && (stage_index(x) >= n ==> b.output(x) is None) by {
        assert(b.output(x) == a.output(x));
    }
}

proof fn lemma_ran_one_more(j: Job, k: JobStage, o: StageOutput)
    requires
        j.ran_until(stage_index(k)),
        o.exitcode == 0,
    ensures
        j.recorded(k, o).ran_until(stage_index(k) + 1),
{
    let n = j.recorded(k, o);
    assert forall|x: JobStage|
        (stage_index(x) < stage_index(k) + 1 ==> succeeded(#[trigger] n.output(x))) && (stage_index(x)
            >= stage_index(k) + 1 ==> n.output(x) is None) by {
        assert(succeeded(j.output(x)) || j.output(x) is None);
        if x == k {
        } else {
            assert(n.output(x) == j.output(x));
        }
    }
}

impl Job {
    /// A job just taken from the queue: its first step is to clone.
    pub fn start(id: String, results_files: Vec<String>, walltime_files: Vec<String>) -> (r: (Job, Step))
        ensures
            r.0.wf(),
            r.0.id == id,
            r.0.phase == Phase::Running(JobStage::Clone),
            r.0.results_files == results_files,
            r.0.walltime_files == walltime_files,
            r.0.clone is None && r.0.fetch is None && r.0.build is None,
            r.0.bench_e2e is None && r.0.bench_walltime is None,
            r.0.samples@.len() == 0 && r.0.walltimes@.len() == 0,
            r.1 == Step::Run(JobStage::Clone),
    {
        let j = Job {
            id,
            phase: Phase::Running(JobStage::Clone),
            clone: None,
            fetch: None,
            build: None,
            bench_e2e: None,
            bench_walltime: None,
            samples: Vec::new(),
            walltimes: Vec::new(),
            results_files,
            walltime_files,
        };
        assert(j.ran_until(0));
        (j, Step::Run(JobStage::Clone))
    }

    fn into_done(self) -> (r: Job)
        ensures
            r == (Job { phase: Phase::Done, ..self }),
    {
        Job { phase: Phase::Done, ..self }
    }

    fn finish_stage(self, k: JobStage, o: ContainerOutput) -> (r: (Job, Step))
        requires
            self.phase == Phase::Running(k),
        ensures
            Job::advanced(self, Event::Finished(o), r),
            self.wf() ==> r.0.wf(),
    {
        let ghost old_self = self;
        let ghost og = o;
        let failed = o.exitcode != 0;
        let so = StageOutput::from(o);
        assert(so == stage_output(og));
        let ghost rec = self.recorded(k, so);
        let mut j = self;
        match k {
            JobStage::Clone => j.clone = Some(so),
            JobStage::Fetch => j.fetch = Some(so),
            JobStage::Build => j.build = Some(so),
            JobStage::BenchE2e => j.bench_e2e = Some(so),
            JobStage::BenchWalltime => j.bench_walltime = Some(so),
        }
        assert(j == rec);
        if failed {
            let id = j.id.clone();
            let res = BenchResult::Failure {
                id,
                stage: name_of(k),
                clone: j.clone,
                fetch: j.fetch,
                build: j.build,
                bench_e2e: j.bench_e2e,
                bench_walltime: j.bench_walltime,
            };
            let done = Job {
                id: j.id,
                phase: Phase::Done,
                clone: None,
                fetch: None,
                build: None,
                bench_e2e: None,
                bench_walltime: None,
                samples: j.samples,
                walltimes: j.walltimes,
                results_files: j.results_files,
                walltime_files: j.walltime_files,
            };
            return (done, Step::Publish(res));
        }
        proof {
            if old_self.wf() {
                lemma_ran_one_more(old_self, k, so);
            }
        }
        match k {
            JobStage::Clone => {
                j.phase = Phase::Running(JobStage::Fetch);
                proof {
                    if old_self.wf() {
                        lemma_same_outputs(rec, j, stage_index(k) + 1);
                    }
                }
                (j, Step::Run(JobStage::Fetch))
            },
            JobStage::Fetch => {
                j.phase = Phase::Running(JobStage::Build);
                proof {
                    if old_self.wf() {
                        lemma_same_outputs(rec, j, stage_index(k) + 1);
                    }
                }
                (j, Step::Run(JobStage::Build))
            },
            JobStage::Build => {
                j.phase = Phase::Running(JobStage::BenchE2e);
                proof {
                    if old_self.wf() {
                        lemma_same_outputs(rec, j, stage_index(k) + 1);
                    }
                }
                (j, Step::Run(JobStage::BenchE2e))
            },
            JobStage::BenchE2e => {
                j.phase = Phase::ReadingSamples;
                proof {
                    if old_self.wf() {
                        lemma_same_outputs(rec, j, stage_index(k) + 1);
                    }
                }
                let files = copy_strings(&j.results_files);
                (j, Step::Read(files))
            },
            JobStage::BenchWalltime => {
                j.phase = Phase::ReadingWalltimes;
                proof {
                    if old_self.wf() {
                        lemma_same_outputs(rec, j, stage_index(k) + 1);
                    }
                }
                let files = copy_strings(&j.walltime_files);
                (j, Step::Read(files))
            },
        }
    }

    fn take_samples(self, docs: Vec<SamplingResults>) -> (r: (Job, Step))
        requires
            self.phase == Phase::ReadingSamples,
        ensures
            Job::advanced(self, Event::Read(docs), r),
            self.wf() ==> r.0.wf(),
    {
        let ghost files = self.results_files@;
        if docs.len() != self.results_files.len() {
            return (self.into_done(), Step::Abort(JobError::Unexpected));
        }
        let mut out: Vec<BenchSamples> = Vec::new();
        let mut i: usize = 0;
        while i < docs.len()
            invariant
                i <= docs@.len() == files.len(),
                files == self.results_files@,
                self.phase == Phase::ReadingSamples,
                out@.len() == i,
                forall|x: int| 0 <= x < i ==> (#[trigger] e2e_outcome(files[x]@, docs@[x].samples@)) is Ok,
                forall|x: int| 0 <= x < i ==> e2e_record(#[trigger] out@[x], files[x]@, docs@[x]),
            decreases docs@.len() - i,
        {
            match docs[i].to_bench_samples(self.results_files[i].as_str()) {
                Ok(b) => {
                    out.push(b);
                },
                Err(e) => {
                    assert(e2e_outcome(files[i as int]@, docs@[i as int].samples@) == Err::<(), IngestError>(e));
                    assert(e2e_fails(files, docs@));
                    assert(e2e_fails_with(files, docs@, e));
                    return (self.into_done(), Step::Abort(JobError::Ingest(e)));
                },
            }
            i = i + 1;
        }
        let ghost old_self = self;
        let j = Job { phase: Phase::Running(JobStage::BenchWalltime), samples: out, ..self };
        proof {
            if old_self.wf() {
                lemma_same_outputs(old_self, j, 4);
            }
        }
        (j, Step::Run(JobStage::BenchWalltime))
    }

    fn take_walltimes(self, docs: Vec<SamplingResults>) -> (r: (Job, Step))
        requires
            self.phase == Phase::ReadingWalltimes,
        ensures
            Job::advanced(self, Event::Read(docs), r),
            self.wf() ==> r.0.wf(),
    {
        let ghost files = self.walltime_files@;
        if self.clone.is_none() || self.fetch.is_none() || self.build.is_none() || self.bench_e2e.is_none()
            || self.bench_walltime.is_none() || docs.len() != self.walltime_files.len() {
            return (self.into_done(), Step::Abort(JobError::Unexpected));
        }
        let mut out: Vec<BenchWalltimeSamples> = Vec::new();
        let mut i: usize = 0;
        while i < docs.len()
            invariant
                i <= docs@.len() == files.len(),
                files == self.walltime_files@,
                self.phase == Phase::ReadingWalltimes,
                self.clone is Some && self.fetch is Some && self.build is Some && self.bench_e2e is Some
                    && self.bench_walltime is Some,
                out@.len() == i,
                forall|x: int| 0 <= x < i ==> (#[trigger] walltime_outcome(files[x]@, docs@[x].samples@)) is Ok,
                forall|x: int| 0 <= x < i ==> walltime_record(#[trigger] out@[x], files[x]@, docs@[x]),
            decreases docs@.len() - i,
        {
            match docs[i].to_walltime_samples(self.walltime_files[i].as_str()) {
                Ok(b) => {
                    out.push(b);
                },
                Err(e) => {
                    assert(walltime_outcome(files[i as int]@, docs@[i as int].samples@) == Err::<(), IngestError>(e));
                    assert(walltime_fails(files, docs@));
                    assert(walltime_fails_with(files, docs@, e));
                    return (self.into_done(), Step::Abort(JobError::Ingest(e)));
                },
            }
            i = i + 1;
        }
        let res = BenchResult::Success {
            id: self.id.clone(),
            samples: self.samples,
            walltimes: out,
            clone: self.clone.unwrap(),
            fetch: self.fetch.unwrap(),
            build: self.build.unwrap(),
            bench_e2e: self.bench_e2e.unwrap(),
            bench_walltime: self.bench_walltime.unwrap(),
        };
        let done = Job {
            id: self.id,
            phase: Phase::Done,
            clone: None,
            fetch: None,
            build: None,
            bench_e2e: None,
            bench_walltime: None,
            samples: Vec::new(),
            walltimes: Vec::new(),
            results_files: self.results_files,
            walltime_files: self.walltime_files,
        };
        (done, Step::Publish(res))
    }

    /// Takes the answer to the last step and says what to do next: run the
    /// next stage while every stage so far exited 0, read the sampling
    /// documents after each benchmark, and publish a failure naming the first
    /// stage that exited otherwise, or the success once all have run.
    pub fn advance(self, event: Event) -> (r: (Job, Step))
        ensures
            Job::advanced(self, event, r),
            self.wf() ==> r.0.wf(),
    {
        match event {
            Event::Finished(o) => match self.phase {
                Phase::Running(k) => self.finish_stage(k, o),
                _ => (self.into_done(), Step::Abort(JobError::Unexpected)),
            },
            Event::Read(docs) => match self.phase {
                Phase::ReadingSamples => self.take_samples(docs),
                Phase::ReadingWalltimes => self.take_walltimes(docs),
                _ => (self.into_done(), Step::Abort(JobError::Unexpected)),
            },
        }
    }
}

/// The wall-clock benchmark is asked for only right after the end-to-end
/// documents were taken in, and so only once the end-to-end benchmark exited 0.
pub proof fn lemma_walltime_needs_e2e_success(j: Job, e: Event, r: (Job, Step))
    requires
        j.wf(),
        Job::advanced(j, e, r),
        r.1 == Step::Run(JobStage::BenchWalltime),
    ensures
        j.phase == Phase::ReadingSamples,
        succeeded(j.bench_e2e),
{
    assert(j.output(JobStage::BenchE2e) == j.bench_e2e);
}

/// An end-to-end benchmark that exits with anything but 0 ends the job with
/// a failure naming it, in which the wall-clock benchmark is absent.
pub proof fn lemma_failed_e2e_ends_job(j: Job, o: ContainerOutput, r: (Job, Step))
    requires
        j.wf(),
        j.phase == Phase::Running(JobStage::BenchE2e),
        o.exitcode != 0,
        Job::advanced(j, Event::Finished(o), r),
    ensures
        r.0.phase == Phase::Done,
        r.1 matches Step::Publish(BenchResult::Failure { stage, bench_walltime, .. }) && stage@ == "bench_e2e"@
            && bench_walltime is None,
{
    assert(j.output(JobStage::BenchWalltime) == j.bench_walltime);
}

/// A job that is over runs nothing more, whatever it is handed.
pub proof fn lemma_done_is_final(j: Job, e: Event, r: (Job, Step))
    requires
        j.phase == Phase::Done,
        Job::advanced(j, e, r),
    ensures
        r.0.phase == Phase::Done,
        !(r.1 is Run),
{
}

/// The output that a failure report holds for stage `k`.
pub open spec fn reported(res: BenchResult, k: JobStage) -> Option<StageOutput> {
    match res {
        BenchResult::Failure { clone, fetch, build, bench_e2e, bench_walltime, .. } => match k {
            JobStage::Clone => clone,
            JobStage::Fetch => fetch,
            JobStage::Build => build,
            JobStage::BenchE2e => bench_e2e,
            JobStage::BenchWalltime => bench_walltime,
        },
        BenchResult::Success { .. } => None,
    }
}

/// A failure report holds the outputs of the stages from the first through
/// the one that failed, all of them but that one successful, and nothing for
/// the stages after it.
pub proof fn lemma_failure_is_contiguous(j: Job, o: ContainerOutput, r: (Job, Step))
    requires
        j.wf(),
        j.phase is Running,
        o.exitcode != 0,
        Job::advanced(j, Event::Finished(o), r),
    ensures
        r.1 matches Step::Publish(res) && {
            let k = j.phase->Running_0;
            &&& res is Failure
            &&& reported(res, k) == Some(stage_output(o))
            &&& reported(res, k)->Some_0.exitcode != 0
            &&& forall|x: JobStage| stage_index(x) < stage_index(k) ==> succeeded(#[trigger] reported(res, x))
            &&& forall|x: JobStage| stage_index(x) > stage_index(k) ==> (#[trigger] reported(res, x)) is None
        },
{
    let k = j.phase->Running_0;
    let rec = j.recorded(k, stage_output(o));
    if let Step::Publish(res) = r.1 {
        assert forall|x: JobStage| #[trigger] reported(res, x) == rec.output(x) by {}
        assert forall|x: JobStage| stage_index(x) < stage_index(k) implies succeeded(#[trigger] reported(res, x)) by {
            assert(j.output(x) == rec.output(x));
        }
        assert forall|x: JobStage| stage_index(x) > stage_index(k) implies (#[trigger] reported(res, x)) is None by {
            assert(j.output(x) == rec.output(x));
        }
    }
}

} // verus!
