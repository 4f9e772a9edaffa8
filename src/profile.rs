use vstd::prelude::*;
use crate::paths::{file_name, file_stem, has_file_name, join, joined, stem};

verus! {

/// A span of time, held as `std::time::Duration` holds it.
#[derive(Clone, Copy, Debug, PartialEq, Eq)]
pub struct TimeSpan {
    pub secs: u64,
    /// Below one second.
    pub nanos: u32,
}

impl TimeSpan {
    /// The part below a second is below a second.
    pub open spec fn wf(self) -> bool {
        self.nanos < 1_000_000_000
    }

    /// The span of `secs` whole seconds.
    pub open spec fn from_secs_spec(secs: u64) -> TimeSpan {
        TimeSpan { secs, nanos: 0 }
    }

    /// The span in whole milliseconds.
    pub open spec fn spec_millis(self) -> nat {
        (self.secs * 1000 + self.nanos / 1_000_000) as nat
    }

    /// The span in whole microseconds.
    pub open spec fn spec_micros(self) -> nat {
        (self.secs * 1_000_000 + self.nanos / 1000) as nat
    }

    /// A span of whole seconds.
    pub fn from_secs(secs: u64) -> (r: TimeSpan)
        ensures
            r == TimeSpan::from_secs_spec(secs),
    {
        TimeSpan { secs, nanos: 0 }
    }

    /// Whole milliseconds, as `Duration::as_millis` gives them.
    pub fn as_millis(&self) -> (r: u128)
        ensures
            r == self.spec_millis(),
    {
        self.secs as u128 * 1000 + (self.nanos / 1_000_000) as u128
    }

    /// Whole microseconds, as `Duration::as_micros` gives them.
    pub fn as_micros(&self) -> (r: u128)
        ensures
            r == self.spec_micros(),
    {
        self.secs as u128 * 1_000_000 + (self.nanos / 1000) as u128
    }
}

/// How one stage of the pipeline runs: its image and its resource policy.
#[derive(Clone, Debug)]
pub struct Stage {
    pub image: String,
    /// Told to the workload inside the container.
    pub soft_timeout: TimeSpan,
    /// Bounds the wait for the container's output.
    pub hard_timeout: TimeSpan,
    /// In bytes.
    pub memory_limit: u64,
    /// Memory plus swap, in bytes.
    pub swap_limit: u64,
    /// The CPU quota, in billionths of a CPU.
    pub nano_cpus: u64,
    pub networking: bool,
    /// The CPUs the container is pinned to, in the engine's list notation.
    pub cpu_cores: Option<String>,
}

impl Default for Stage {
    /// Two minutes of soft timeout, three of hard, 512 MiB of memory, 768 MiB
    /// of memory and swap, one CPU and no network.
    fn default() -> (r: Stage)
        ensures
            r.image@.len() == 0,
            r.soft_timeout == TimeSpan::from_secs_spec(120),
            r.hard_timeout == TimeSpan::from_secs_spec(180),
            r.memory_limit == 512 * 1024 * 1024,
            r.swap_limit == 768 * 1024 * 1024,
            r.nano_cpus == 1_000_000_000,
            !r.networking,
            r.cpu_cores is None,
    {
        Stage {
            image: String::new(),
            soft_timeout: TimeSpan::from_secs(120),
            hard_timeout: TimeSpan::from_secs(180),
            memory_limit: 512 * 1024 * 1024,
            swap_limit: 768 * 1024 * 1024,
            nano_cpus: 1_000_000_000,
            networking: false,
            cpu_cores: None,
        }
    }
}

/// One group of benchmark settings.
#[derive(Clone, Copy, Debug)]
pub struct ProfileSettings {
    pub warmups: u32,
    pub runs: u32,
    /// The sampling interval of the end-to-end benchmark.
    pub interval: TimeSpan,
    /// The amount of synthetic CPU work between samples.
    pub work: u32,
    /// The pause between samples.
    pub sleep: TimeSpan,
}

/// The two groups of benchmark settings.
#[derive(Clone, Copy, Debug)]
pub struct Profiles {
    pub main: ProfileSettings,
    pub other: ProfileSettings,
}

impl Profiles {
    /// The group that `main` selects.
    pub open spec fn spec_select(self, main: bool) -> ProfileSettings {
        if main {
            self.main
        } else {
            self.other
        }
    }

    /// The settings of the group that `main` selects.
    pub fn select(&self, main: bool) -> (r: ProfileSettings)
        ensures
            r == self.spec_select(main),
    {
        if main {
            self.main
        } else {
            self.other
        }
    }
}

/// The stage definitions, one for each stage of the pipeline.
#[derive(Clone, Debug)]
pub struct Stages {
    pub clone: Stage,
    pub fetch: Stage,
    pub build: Stage,
    pub bench_e2e: Stage,
    pub bench_walltime: Stage,
    pub pgo_build: Stage,
    pub pgo_build_profile: Stage,
    pub pgo_profile: Stage,
}

/// The sample documents that the benchmarks run on.
#[derive(Clone, Debug)]
pub struct Samples {
    /// The directory that holds the samples.
    pub root: String,
    /// The sample files, relative to the root.
    pub files: Vec<String>,
    /// The training files for profile-guided optimisation, relative to the root.
    pub training: Vec<String>,
}

/// The whole configuration.
#[derive(Clone, Debug)]
pub struct Profile {
    /// Whether a sandbox's directories are removed when it closes.
    pub delete_on_exit: bool,
    pub profiles: Profiles,
    pub stages: Stages,
    pub samples: Samples,
    /// The directory under which sandboxes are made.
    pub workdir: String,
}

/// Where the samples directory is mounted inside a container.
pub open spec fn samples_target() -> Seq<char> {
    "/samples"@
}

/// The items joined with commas between them; nothing for no items.
pub open spec fn comma_joined(items: Seq<Seq<char>>) -> Option<Seq<char>>
    decreases items.len(),
{
    if items.len() == 0 {
        None
    } else if items.len() == 1 {
        Some(items[0])
    } else {
        Some(comma_joined(items.drop_last())->Some_0 + seq![','] + items.last())
    }
}

/// The in-container paths of the given sample files, comma-joined.
pub open spec fn file_list(files: Seq<String>) -> Option<Seq<char>> {
    comma_joined(files.map_values(|p: String| joined(samples_target(), p@)))
}

/// Where the result document of a sample file lands in `dir`.
pub open spec fn results_file(dir: Seq<char>, p: Seq<char>) -> Seq<char> {
    joined(dir, stem(file_name(p)->Some_0) + ".json"@)
}

fn sample_list(files: &Vec<String>) -> (r: Option<String>)
    ensures
        r matches Some(s) ==> file_list(files@) == Some(s@),
        r is None ==> file_list(files@) is None,
{
    let ghost items = files@.map_values(|p: String| joined(samples_target(), p@));
    if files.len() == 0 {
        return None;
    }
    let mut acc = join("/samples", files[0].as_str());
    let mut i: usize = 1;
    assert(items.take(1).drop_last() =~= Seq::<Seq<char>>::empty());
    while i < files.len()
        invariant
            1 <= i <= files@.len(),
            items == files@.map_values(|p: String| joined(samples_target(), p@)),
            comma_joined(items.take(i as int)) == Some(acc@),
        decreases files@.len() - i,
    {
        let next = join("/samples", files[i].as_str());
        acc.push(',');
        acc.append(next.as_str());
        assert(items.take(i + 1).drop_last() =~= items.take(i as int));
        i = i + 1;
    }
    assert(items.take(files@.len() as int) =~= items);
    Some(acc)
}

impl Samples {
    /// The sample files as the benchmark stages see them: their paths under
    /// the samples mount, comma-joined; nothing where there are no files.
    pub fn to_env(&self) -> (r: Option<String>)
        ensures
            r matches Some(s) ==> file_list(self.files@) == Some(s@),
            r is None ==> self.files@.len() == 0,
    {
        sample_list(&self.files)
    }

    /// The training files, as `to_env` gives the sample files.
    pub fn to_training_env(&self) -> (r: Option<String>)
        ensures
            r matches Some(s) ==> file_list(self.training@) == Some(s@),
            r is None ==> self.training@.len() == 0,
    {
        sample_list(&self.training)
    }

    /// Whether each sample file has a file name.
    pub open spec fn names_ok(self) -> bool {
        forall|i: int| 0 <= i < self.files@.len() ==> (#[trigger] file_name(self.files@[i]@)) is Some
    }

    /// Tests `names_ok`.
    pub fn has_file_names(&self) -> (r: bool)
        ensures
            r == self.names_ok(),
    {
        let mut i: usize = 0;
        while i < self.files.len()
            invariant
                i <= self.files@.len(),
                forall|j: int| 0 <= j < i ==> (#[trigger] file_name(self.files@[j]@)) is Some,
            decreases self.files@.len() - i,
        {
            if !has_file_name(self.files[i].as_str()) {
                return false;
            }
            i = i + 1;
        }
        true
    }

    /// The result documents that a benchmark writes into `results`: one for
    /// each sample file, named after its stem with the extension `json`.
    pub fn to_results_file(&self, results: &str) -> (r: Vec<String>)
        requires
            self.names_ok(),
        ensures
            r@.len() == self.files@.len(),
            forall|i: int| 0 <= i < r@.len() ==> (#[trigger] r@[i])@ == results_file(results@, self.files@[i]@),
    {
        let mut r: Vec<String> = Vec::new();
        let mut i: usize = 0;
        while i < self.files.len()
            invariant
                i <= self.files@.len(),
                self.names_ok(),
                r@.len() == i,
                forall|j: int| 0 <= j < i ==> (#[trigger] r@[j])@ == results_file(results@, self.files@[j]@),
            decreases self.files@.len() - i,
        {
            assert(file_name(self.files@[i as int]@) is Some);
            let mut name = file_stem(self.files[i].as_str()).unwrap();
            name.append(".json");
            r.push(join(results, name.as_str()));
            i = i + 1;
        }
        r
    }
}

} // verus!
