use vstd::prelude::*;
use crate::paths::{file_name, file_stem, stem};
use crate::profile::TimeSpan;
use crate::proto::{BenchSamples, BenchWalltimeSamples};

verus! {

/// What a series of samples measures.
#[derive(Clone, Copy, Debug, PartialEq, Eq, Structural)]
pub enum Metric {
    /// The time, in nanoseconds, that the command took.
    Time,
    /// The peak virtual memory, in bytes.
    VirtualMemory,
    /// The peak resident memory, in bytes.
    ResidentMemory,
    /// The peak CPU load, in percent.
    Load,
    /// The user CPU time, in nanoseconds.
    UserCpuTime,
    /// The system CPU time, in nanoseconds.
    SystemCpuTime,
}

/// How the sampling was run.
#[derive(Clone, Copy, Debug)]
pub struct SampleConfig {
    pub n_warmup: usize,
    pub n_samples: usize,
    pub sleep_time: TimeSpan,
    pub silly_work: Option<usize>,
}

/// One series of samples of one metric. Each sample is an IEEE-754 double
/// held as its bit pattern.
#[derive(Clone, Debug)]
pub struct BenchmarkResults {
    /// The command that was run.
    pub command: String,
    pub metric: Metric,
    pub samples: Vec<u64>,
}

/// A sampling document.
#[derive(Clone, Debug)]
pub struct SamplingResults {
    pub sampling_config: SampleConfig,
    pub samples: Vec<BenchmarkResults>,
}

/// Why a sampling document could not be taken in.
#[derive(Clone, Copy, Debug, PartialEq, Eq, Structural)]
pub enum IngestError {
    /// The document holds no series of this metric.
    Missing(Metric),
    /// The document's path has no file name to take the record's name from.
    NoFileName,
}

/// The index of the first series of `m`, or -1 where there is none.
pub open spec fn first_index(s: Seq<BenchmarkResults>, m: Metric) -> int
    decreases s.len(),
{
    if s.len() == 0 {
        -1
    } else {
        let k = first_index(s.drop_last(), m);
        if k >= 0 {
            k
        } else if s.last().metric == m {
            s.len() - 1
        } else {
            -1
        }
    }
}

/// The samples of the first series of `m`.
pub open spec fn series(s: Seq<BenchmarkResults>, m: Metric) -> Seq<u64> {
    s[first_index(s, m)].samples@
}

/// Whether the document at `path` with the series `s` is an end-to-end
/// document, and if not, the first thing wrong with it.
pub open spec fn e2e_outcome(path: Seq<char>, s: Seq<BenchmarkResults>) -> Result<(), IngestError> {
    if first_index(s, Metric::UserCpuTime) < 0 {
        Err(IngestError::Missing(Metric::UserCpuTime))
    } else if first_index(s, Metric::SystemCpuTime) < 0 {
        Err(IngestError::Missing(Metric::SystemCpuTime))
    } else if first_index(s, Metric::VirtualMemory) < 0 {
        Err(IngestError::Missing(Metric::VirtualMemory))
    } else if first_index(s, Metric::ResidentMemory) < 0 {
        Err(IngestError::Missing(Metric::ResidentMemory))
    } else if first_index(s, Metric::Load) < 0 {
        Err(IngestError::Missing(Metric::Load))
    } else if first_index(s, Metric::Time) < 0 {
        Err(IngestError::Missing(Metric::Time))
    } else if file_name(path) is None {
        Err(IngestError::NoFileName)
    } else {
        Ok(())
    }
}

/// Whether the document at `path` with the series `s` is a wall-clock
/// document, and if not, what is wrong with it.
pub open spec fn walltime_outcome(path: Seq<char>, s: Seq<BenchmarkResults>) -> Result<(), IngestError> {
    if first_index(s, Metric::Time) < 0 {
        Err(IngestError::Missing(Metric::Time))
    } else if file_name(path) is None {
        Err(IngestError::NoFileName)
    } else {
        Ok(())
    }
}

/// The series of all six metrics are present.
pub open spec fn has_all_metrics(s: Seq<BenchmarkResults>) -> bool {
    &&& first_index(s, Metric::Time) >= 0
    &&& first_index(s, Metric::VirtualMemory) >= 0
    &&& first_index(s, Metric::ResidentMemory) >= 0
    &&& first_index(s, Metric::Load) >= 0
    &&& first_index(s, Metric::UserCpuTime) >= 0
    &&& first_index(s, Metric::SystemCpuTime) >= 0
}

proof fn lemma_first_index(s: Seq<BenchmarkResults>, m: Metric)
    ensures
        -1 <= first_index(s, m) < s.len(),
        first_index(s, m) >= 0 ==> s[first_index(s, m)].metric == m,
        forall|i: int| 0 <= i < s.len() && (first_index(s, m) < 0 || i < first_index(s, m)) ==> s[i].metric != m,
    decreases s.len(),
{
    if s.len() > 0 {
        let t = s.drop_last();
        lemma_first_index(t, m);
        assert forall|i: int| 0 <= i < s.len() && (first_index(s, m) < 0 || i < first_index(s, m)) implies s[i].metric != m by {
            if i < s.len() - 1 {
                assert(s[i] == t[i]);
            }
        }
    }
}

/// The index of the first series of `m`, where there is one.
pub fn find_series(s: &Vec<BenchmarkResults>, m: Metric) -> (r: Option<usize>)
    ensures
        match r {
            Some(i) => i < s@.len() && i as int == first_index(s@, m),
            None => first_index(s@, m) < 0,
        },
{
    let mut i: usize = 0;
    while i < s.len()
        invariant
            i <= s@.len(),
            first_index(s@.take(i as int), m) < 0,
        decreases s@.len() - i,
    {
        assert(s@.take(i + 1).drop_last() =~= s@.take(i as int));
        if s[i].metric == m {
            proof {
                lemma_first_index(s@, m);
                lemma_first_index(s@.take(i + 1), m);
                lemma_first_index(s@.take(i as int), m);
                assert(first_index(s@.take(i + 1), m) == i);
                lemma_first_index_prefix(s@, i + 1, m);
            }
            return Some(i);
        }
        i = i + 1;
    }
    assert(s@.take(s@.len() as int) =~= s@);
    None
}

proof fn lemma_first_index_prefix(s: Seq<BenchmarkResults>, n: int, m: Metric)
    requires
        0 <= n <= s.len(),
        first_index(s.take(n), m) >= 0,
    ensures
        first_index(s, m) == first_index(s.take(n), m),
    decreases s.len() - n,
{
    if n < s.len() {
        assert(s.take(n + 1).drop_last() =~= s.take(n));
        lemma_first_index_prefix(s, n + 1, m);
    } else {
        assert(s.take(n) =~= s);
    }
}

fn series_of(s: &Vec<BenchmarkResults>, m: Metric) -> (r: Result<Vec<u64>, IngestError>)
    ensures
        match r {
            Ok(v) => first_index(s@, m) >= 0 && v@ == series(s@, m),
            Err(e) => first_index(s@, m) < 0 && e == IngestError::Missing(m),
        },
{
    match find_series(s, m) {
        Some(i) => {
            let v = s[i].samples.clone();
            assert(v@ =~= s@[i as int].samples@);
            Ok(v)
        },
        None => Err(IngestError::Missing(m)),
    }
}

impl SamplingResults {
    /// Takes in an end-to-end document found at `path`: every one of the six
    /// metrics must have a series, and the record is named after the stem of
    /// the path's file name.
    pub fn to_bench_samples(&self, path: &str) -> (r: Result<BenchSamples, IngestError>)
        ensures
            match r {
                Ok(b) => {
                    &&& e2e_outcome(path@, self.samples@) == Ok::<(), IngestError>(())
                    &&& b.name@ == stem(file_name(path@)->Some_0)
                    &&& b.user_time@ == series(self.samples@, Metric::UserCpuTime)
                    &&& b.system_time@ == series(self.samples@, Metric::SystemCpuTime)
                    &&& b.virtual_memory@ == series(self.samples@, Metric::VirtualMemory)
                    &&& b.resident_memory@ == series(self.samples@, Metric::ResidentMemory)
                    &&& b.cpu_percent@ == series(self.samples@, Metric::Load)
                },
                Err(e) => e2e_outcome(path@, self.samples@) == Err::<(), IngestError>(e),
            },
            r is Ok <==> has_all_metrics(self.samples@) && file_name(path@) is Some,
    {
        let user_time = match series_of(&self.samples, Metric::UserCpuTime) {
            Ok(v) => v,
            Err(e) => return Err(e),
        };
        let system_time = match series_of(&self.samples, Metric::SystemCpuTime) {
            Ok(v) => v,
            Err(e) => return Err(e),
        };
        let virtual_memory = match series_of(&self.samples, Metric::VirtualMemory) {
            Ok(v) => v,
            Err(e) => return Err(e),
        };
        let resident_memory = match series_of(&self.samples, Metric::ResidentMemory) {
            Ok(v) => v,
            Err(e) => return Err(e),
        };
        let cpu_percent = match series_of(&self.samples, Metric::Load) {
            Ok(v) => v,
            Err(e) => return Err(e),
        };
        if find_series(&self.samples, Metric::Time).is_none() {
            return Err(IngestError::Missing(Metric::Time));
        }
        let name = match file_stem(path) {
            Some(n) => n,
            None => return Err(IngestError::NoFileName),
        };
        Ok(BenchSamples { name, user_time, system_time, virtual_memory, resident_memory, cpu_percent })
    }

    /// Takes in a wall-clock document found at `path`: it must have a series
    /// of `Time`, and the record is named after the stem of the path's file name.
    pub fn to_walltime_samples(&self, path: &str) -> (r: Result<BenchWalltimeSamples, IngestError>)
        ensures
            match r {
                Ok(b) => {
                    &&& walltime_outcome(path@, self.samples@) == Ok::<(), IngestError>(())
                    &&& b.name@ == stem(file_name(path@)->Some_0)
                    &&& b.walltime@ == series(self.samples@, Metric::Time)
                },
                Err(e) => walltime_outcome(path@, self.samples@) == Err::<(), IngestError>(e),
            },
            r is Ok <==> first_index(self.samples@, Metric::Time) >= 0 && file_name(path@) is Some,
    {
        let walltime = match series_of(&self.samples, Metric::Time) {
            Ok(v) => v,
            Err(e) => return Err(e),
        };
        let name = match file_stem(path) {
            Some(n) => n,
            None => return Err(IngestError::NoFileName),
        };
        Ok(BenchWalltimeSamples { name, walltime })
    }
}

} // verus!
