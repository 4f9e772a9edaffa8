use vstd::prelude::*;
use rand::Rng;
use crate::container::{ContainerSpec, Mount};
use crate::paths::{join, joined};
use crate::profile::{file_list, Profile, Samples, Stage};
use crate::text::{decimal, push_decimal, views};

verus! {

/// Whether `c` is an ASCII letter or digit.
pub open spec fn alphanumeric(c: char) -> bool {
    ('a' <= c <= 'z') || ('A' <= c <= 'Z') || ('0' <= c <= '9')
}

/// The length of a generated sandbox id.
pub const ID_LEN: usize = 10;

/// Relies on rand 0.8: `thread_rng().sample_iter(&Alphanumeric)` yields an
/// endless run of bytes drawn from the ASCII letters and digits; `len` of
/// them are taken.
#[verifier::external_body]
fn random_alphanumeric(len: usize) -> (r: String)
    ensures
        r@.len() == len,
        forall|i: int| 0 <= i < r@.len() ==> alphanumeric(#[trigger] r@[i]),
{
    rand::thread_rng().sample_iter(&rand::distributions::Alphanumeric).take(len).map(char::from).collect()
}

/// The directories of the sandbox `id` under `root`: its own directory, then
/// `git`, `cargo`, `results`, `walltimes` and `pgo-data` inside it.
pub open spec fn directories(root: Seq<char>, id: Seq<char>) -> Seq<Seq<char>> {
    let parent = joined(root, id);
    seq![
        parent,
        joined(parent, "git"@),
        joined(parent, "cargo"@),
        joined(parent, "results"@),
        joined(parent, "walltimes"@),
        joined(parent, "pgo-data"@),
    ]
}

/// An id that names one directory: not empty, and without a separator.
pub open spec fn plain_id(id: Seq<char>) -> bool {
    id.len() > 0 && forall|i: int| 0 <= i < id.len() ==> id[i] != '/'
}

/// The directory below `root` that holds a sandbox: `root` and a separator.
spec fn root_prefix(root: Seq<char>) -> Seq<char> {
    if root.len() == 0 {
        root
    } else if root.last() == '/' {
        root
    } else {
        root + seq!['/']
    }
}

/// `a` followed by `ra` and `b` followed by `rb` differ, where `a` and `b` are
/// different plain ids and each rest is empty or starts with a separator.
proof fn lemma_tails_differ(a: Seq<char>, ra: Seq<char>, b: Seq<char>, rb: Seq<char>)
    requires
        plain_id(a),
        plain_id(b),
        a != b,
        ra.len() == 0 || ra[0] == '/',
        rb.len() == 0 || rb[0] == '/',
    ensures
        a + ra != b + rb,
{
    let x = a + ra;
    let y = b + rb;
    if x == y {
        if a.len() < b.len() {
            if ra.len() == 0 {
                assert(x.len() < y.len());
            } else {
                assert(x[a.len() as int] == '/');
                assert(y[a.len() as int] == b[a.len() as int]);
            }
        } else if b.len() < a.len() {
            if rb.len() == 0 {
                assert(y.len() < x.len());
            } else {
                assert(y[b.len() as int] == '/');
                assert(x[b.len() as int] == a[b.len() as int]);
            }
        } else {
            assert(a =~= x.take(a.len() as int));
            assert(b =~= y.take(b.len() as int));
        }
    }
}

proof fn lemma_directory_shape(root: Seq<char>, a: Seq<char>, i: int)
    requires
        plain_id(a),
        0 <= i < 6,
    ensures
        exists|r: Seq<char>| (r.len() == 0 || r[0] == '/') && #[trigger] directories(root, a)[i] == root_prefix(root) + (a + r),
{
    reveal_strlit("git");
    reveal_strlit("cargo");
    reveal_strlit("results");
    reveal_strlit("walltimes");
    reveal_strlit("pgo-data");
    let parent = joined(root, a);
    assert(parent =~= root_prefix(root) + a);
    let names = seq!["git"@, "cargo"@, "results"@, "walltimes"@, "pgo-data"@];
    if i == 0 {
        let r = Seq::<char>::empty();
        assert(directories(root, a)[i] =~= root_prefix(root) + (a + r));
    } else {
        let n = names[i - 1];
        assert(n.len() > 0 && n[0] != '/');
        assert(parent.last() == a.last());
        let r = seq!['/'] + n;
        assert(directories(root, a)[i] == joined(parent, n));
        assert(directories(root, a)[i] =~= root_prefix(root) + (a + r));
    }
}

/// Two sandboxes opened under one root with different ids never share a
/// directory, where each id names one directory. (Two opened with the same id
/// get the same directories: that collision is not defended against.)
pub proof fn lemma_sandboxes_disjoint(root: Seq<char>, a: Seq<char>, b: Seq<char>)
    requires
        plain_id(a),
        plain_id(b),
        a != b,
    ensures
        forall|i: int, j: int|
            0 <= i < 6 && 0 <= j < 6 ==> #[trigger] directories(root, a)[i] != #[trigger] directories(root, b)[j],
{
    assert forall|i: int, j: int|
        0 <= i < 6 && 0 <= j < 6 implies #[trigger] directories(root, a)[i] != #[trigger] directories(root, b)[j] by {
        lemma_directory_shape(root, a, i);
        lemma_directory_shape(root, b, j);
        let ra = choose|r: Seq<char>| (r.len() == 0 || r[0] == '/') && #[trigger] directories(root, a)[i] == root_prefix(root) + (a + r);
        let rb = choose|r: Seq<char>| (r.len() == 0 || r[0] == '/') && #[trigger] directories(root, b)[j] == root_prefix(root) + (b + r);
        lemma_tails_differ(a, ra, b, rb);
        let p = root_prefix(root);
        if directories(root, a)[i] == directories(root, b)[j] {
            assert((p + (a + ra)).skip(p.len() as int) =~= a + ra);
            assert((p + (b + rb)).skip(p.len() as int) =~= b + rb);
        }
    }
}

/// The private workspace of one job.
#[derive(Debug)]
pub struct Sandbox {
    pub id: String,
    pub delete_on_exit: bool,
    pub parent: String,
    pub git: String,
    pub cargo: String,
    pub results: String,
    pub walltimes: String,
    pub pgo_data: String,
    pub repository: String,
    pub commit: String,
    /// Whether the containers' output is echoed to the log as it arrives.
    pub pipe: bool,
}

/// Why a stage container could not be described.
#[derive(Clone, Copy, Debug, PartialEq, Eq, Structural)]
pub enum StageError {
    /// The profile names no sample files.
    NoSamples,
}

/// A mount as plain values: source, target, read-only.
pub open spec fn mount_views(m: Seq<Mount>) -> Seq<(Seq<char>, Seq<char>, bool)> {
    m.map_values(|x: Mount| (x.source@, x.target@, x.read_only))
}

fn key_value(key: &str, value: &str) -> (r: String)
    ensures
        r@ == key@ + value@,
{
    let mut r = String::from_str(key);
    r.append(value);
    r
}

fn key_number(key: &str, value: u128) -> (r: String)
    ensures
        r@ == key@ + decimal(value as nat),
{
    let mut r = String::from_str(key);
    push_decimal(&mut r, value);
    r
}

impl Sandbox {
    /// The sandbox's directories, in the order of `directories`.
    pub open spec fn dirs(self) -> Seq<Seq<char>> {
        seq![self.parent@, self.git@, self.cargo@, self.results@, self.walltimes@, self.pgo_data@]
    }

    /// Lays out the sandbox of a job under `root`. The job's id is `id` where
    /// one is given, otherwise `ID_LEN` random ASCII letters and digits. Nothing is
    /// created on disk here; `dirs` lists what is to be created, parent first.
    pub fn new(profile: &Profile, root: &str, repository: &str, commit: &str, id: Option<String>) -> (r: Sandbox)
        ensures
            id matches Some(given) ==> r.id == given,
            id is None ==> r.id@.len() == ID_LEN && forall|i: int| 0 <= i < ID_LEN ==> alphanumeric(#[trigger] r.id@[i]),
            r.dirs() == directories(root@, r.id@),
            r.delete_on_exit == profile.delete_on_exit,
            r.repository@ == repository@,
            r.commit@ == commit@,
            !r.pipe,
    {
        let id = match id {
            Some(given) => given,
            None => random_alphanumeric(ID_LEN),
        };
        let parent = join(root, id.as_str());
        let git = join(parent.as_str(), "git");
        let cargo = join(parent.as_str(), "cargo");
        let results = join(parent.as_str(), "results");
        let walltimes = join(parent.as_str(), "walltimes");
        let pgo_data = join(parent.as_str(), "pgo-data");
        Sandbox {
            id,
            delete_on_exit: profile.delete_on_exit,
            parent,
            git,
            cargo,
            results,
            walltimes,
            pgo_data,
            repository: String::from_str(repository),
            commit: String::from_str(commit),
            pipe: false,
        }
    }

    /// The sandbox's id.
    pub fn id(&self) -> (r: &str)
        ensures
            r@ == self.id@,
    {
        self.id.as_str()
    }

    /// The directory that the end-to-end results are written to.
    pub fn results(&self) -> (r: &str)
        ensures
            r@ == self.results@,
    {
        self.results.as_str()
    }

    /// The directory that the wall-clock results are written to.
    pub fn walltimes(&self) -> (r: &str)
        ensures
            r@ == self.walltimes@,
    {
        self.walltimes.as_str()
    }

    /// The directory that holds the fetched crates.
    pub fn cargo(&self) -> (r: &str)
        ensures
            r@ == self.cargo@,
    {
        self.cargo.as_str()
    }

    /// The directory that the repository is cloned into.
    pub fn git(&self) -> (r: &str)
        ensures
            r@ == self.git@,
    {
        self.git.as_str()
    }

    /// The repository's URL.
    pub fn repo(&self) -> (r: &str)
        ensures
            r@ == self.repository@,
    {
        self.repository.as_str()
    }

    /// The commit to check out.
    pub fn commit(&self) -> (r: &str)
        ensures
            r@ == self.commit@,
    {
        self.commit.as_str()
    }

    /// Whether the directories are to be removed when the sandbox closes.
    pub fn delete_on_exit(&self) -> (r: bool)
        ensures
            r == self.delete_on_exit,
    {
        self.delete_on_exit
    }

    /// The directories to create when the sandbox opens, parent first; the
    /// same but the parent are removed when it closes.
    pub fn directories(&self) -> (r: Vec<String>)
        ensures
            views(r@) == self.dirs(),
    {
        let mut r: Vec<String> = Vec::new();
        r.push(self.parent.clone());
        r.push(self.git.clone());
        r.push(self.cargo.clone());
        r.push(self.results.clone());
        r.push(self.walltimes.clone());
        r.push(self.pgo_data.clone());
        assert(views(r@) =~= self.dirs());
        r
    }

    /// The directories to remove when the sandbox closes: the five working
    /// directories where the profile asked for removal, none otherwise.
    pub fn removals(&self) -> (r: Vec<String>)
        ensures
            self.delete_on_exit ==> views(r@) == self.dirs().drop_first(),
            !self.delete_on_exit ==> r@.len() == 0,
    {
        let mut r: Vec<String> = Vec::new();
        if self.delete_on_exit {
            r.push(self.git.clone());
            r.push(self.cargo.clone());
            r.push(self.results.clone());
            r.push(self.walltimes.clone());
            r.push(self.pgo_data.clone());
            assert(views(r@) =~= self.dirs().drop_first());
        }
        r
    }

    /// The container that clones the repository into the git directory.
    pub fn clone(&self, profile: &Profile) -> (r: ContainerSpec)
        ensures
            r.hardened_for(
                profile.stages.clone,
                seq!["REPO_URL="@ + self.repository@, "COMMIT="@ + self.commit@],
                r.mounts@,
            ),
            mount_views(r.mounts@) == seq![(self.git@, "/typster"@, false)],
    {
        let mut env: Vec<String> = Vec::new();
        env.push(key_value("REPO_URL=", self.repository.as_str()));
        env.push(key_value("COMMIT=", self.commit.as_str()));
        let mut mounts: Vec<Mount> = Vec::new();
        mounts.push(Mount::new(self.git.as_str(), "/typster"));
        assert(views(env@) =~= seq!["REPO_URL="@ + self.repository@, "COMMIT="@ + self.commit@]);
        assert(mount_views(mounts@) =~= seq![(self.git@, "/typster"@, false)]);
        ContainerSpec::hardened(&profile.stages.clone, env, mounts)
    }

    /// The container that fetches the crates into the cargo directory.
    pub fn fetch(&self, profile: &Profile) -> (r: ContainerSpec)
        ensures
            r.hardened_for(profile.stages.fetch, Seq::empty(), r.mounts@),
            mount_views(r.mounts@) == seq![(self.git@, "/typster"@, true), (self.cargo@, "/cargo"@, false)],
    {
        let env: Vec<String> = Vec::new();
        let mut mounts: Vec<Mount> = Vec::new();
        mounts.push(Mount::read_only(self.git.as_str(), "/typster"));
        mounts.push(Mount::new(self.cargo.as_str(), "/cargo"));
        assert(views(env@) =~= Seq::empty());
        assert(mount_views(mounts@) =~= seq![(self.git@, "/typster"@, true), (self.cargo@, "/cargo"@, false)]);
        ContainerSpec::hardened(&profile.stages.fetch, env, mounts)
    }

    fn build_with(&self, stage: &Stage, pgo: bool) -> (r: ContainerSpec)
        ensures
            r.hardened_for(*stage, Seq::empty(), r.mounts@),
            !pgo ==> mount_views(r.mounts@) == seq![(self.git@, "/typster"@, false), (self.cargo@, "/cargo"@, true)],
            pgo ==> mount_views(r.mounts@) == seq![
                (self.git@, "/typster"@, false),
                (self.cargo@, "/cargo"@, true),
                (self.pgo_data@, "/pgo-data"@, false),
            ],
    {
        let env: Vec<String> = Vec::new();
        let mut mounts: Vec<Mount> = Vec::new();
        mounts.push(Mount::new(self.git.as_str(), "/typster"));
        mounts.push(Mount::read_only(self.cargo.as_str(), "/cargo"));
        if pgo {
            mounts.push(Mount::new(self.pgo_data.as_str(), "/pgo-data"));
            assert(mount_views(mounts@) =~= seq![
                (self.git@, "/typster"@, false),
                (self.cargo@, "/cargo"@, true),
                (self.pgo_data@, "/pgo-data"@, false),
            ]);
        } else {
            assert(mount_views(mounts@) =~= seq![(self.git@, "/typster"@, false), (self.cargo@, "/cargo"@, true)]);
        }
        assert(views(env@) =~= Seq::empty());
        ContainerSpec::hardened(stage, env, mounts)
    }

    /// The container that builds the project.
    pub fn build(&self, profile: &Profile) -> (r: ContainerSpec)
        ensures
            r.hardened_for(profile.stages.build, Seq::empty(), r.mounts@),
            mount_views(r.mounts@) == seq![(self.git@, "/typster"@, false), (self.cargo@, "/cargo"@, true)],
    {
        self.build_with(&profile.stages.build, false)
    }

    /// The container that builds the project instrumented for profiling.
    pub fn pgo_build_profile(&self, profile: &Profile) -> (r: ContainerSpec)
        ensures
            r.hardened_for(profile.stages.pgo_build_profile, Seq::empty(), r.mounts@),
            mount_views(r.mounts@) == seq![
                (self.git@, "/typster"@, false),
                (self.cargo@, "/cargo"@, true),
                (self.pgo_data@, "/pgo-data"@, false),
            ],
    {
        self.build_with(&profile.stages.pgo_build_profile, true)
    }

    /// The container that builds the project with the gathered profile.
    pub fn pgo_build(&self, profile: &Profile) -> (r: ContainerSpec)
        ensures
            r.hardened_for(profile.stages.pgo_build, Seq::empty(), r.mounts@),
            mount_views(r.mounts@) == seq![
                (self.git@, "/typster"@, false),
                (self.cargo@, "/cargo"@, true),
                (self.pgo_data@, "/pgo-data"@, false),
            ],
    {
        self.build_with(&profile.stages.pgo_build, true)
    }

    /// The container that runs the instrumented build over the samples to
    /// gather a profile.
    pub fn pgo_profile(&self, profile: &Profile, samples: &Samples) -> (r: Result<ContainerSpec, StageError>)
        ensures
            r is Err <==> samples.files@.len() == 0,
            r matches Ok(c) ==> {
                &&& c.hardened_for(
                    profile.stages.pgo_profile,
                    seq!["FILE_LIST="@ + file_list(samples.files@)->Some_0],
                    c.mounts@,
                )
                &&& mount_views(c.mounts@) == seq![
                    (self.git@, "/typster"@, true),
                    (samples.root@, "/samples"@, true),
                    (self.walltimes@, "/data"@, false),
                    (self.pgo_data@, "/pgo-data"@, false),
                ]
            },
    {
        let list = match samples.to_env() {
            Some(l) => l,
            None => return Err(StageError::NoSamples),
        };
        let mut env: Vec<String> = Vec::new();
        env.push(key_value("FILE_LIST=", list.as_str()));
        let mut mounts: Vec<Mount> = Vec::new();
        mounts.push(Mount::read_only(self.git.as_str(), "/typster"));
        mounts.push(Mount::read_only(samples.root.as_str(), "/samples"));
        mounts.push(Mount::new(self.walltimes.as_str(), "/data"));
        mounts.push(Mount::new(self.pgo_data.as_str(), "/pgo-data"));
        assert(views(env@) =~= seq!["FILE_LIST="@ + file_list(samples.files@)->Some_0]);
        assert(mount_views(mounts@) =~= seq![
            (self.git@, "/typster"@, true),
            (samples.root@, "/samples"@, true),
            (self.walltimes@, "/data"@, false),
            (self.pgo_data@, "/pgo-data"@, false),
        ]);
        Ok(ContainerSpec::hardened(&profile.stages.pgo_profile, env, mounts))
    }

    /// The container that runs the end-to-end benchmark, with the settings of
    /// the `main` group or of the other one.
    pub fn bench_e2e(&self, profile: &Profile, samples: &Samples, main: bool) -> (r: Result<ContainerSpec, StageError>)
        ensures
            r is Err <==> samples.files@.len() == 0,
            r matches Ok(c) ==> {
                let s = profile.profiles.spec_select(main);
                &&& c.hardened_for(
                    profile.stages.bench_e2e,
                    seq![
                        "WARMUPS="@ + decimal(s.warmups as nat),
                        "RUNS="@ + decimal(s.runs as nat),
                        "FILE_LIST="@ + file_list(samples.files@)->Some_0,
                        "FREQUENCY="@ + decimal(s.interval.spec_micros()),
                        "WORK="@ + decimal(s.work as nat),
                        "SLEEP="@ + decimal(s.sleep.spec_millis()),
                    ],
                    c.mounts@,
                )
                &&& mount_views(c.mounts@) == seq![
                    (self.git@, "/typster"@, true),
                    (samples.root@, "/samples"@, true),
                    (self.results@, "/data"@, false),
                ]
            },
    {
        let settings = profile.profiles.select(main);
        let list = match samples.to_env() {
            Some(l) => l,
            None => return Err(StageError::NoSamples),
        };
        let mut env: Vec<String> = Vec::new();
        env.push(key_number("WARMUPS=", settings.warmups as u128));
        env.push(key_number("RUNS=", settings.runs as u128));
        env.push(key_value("FILE_LIST=", list.as_str()));
        env.push(key_number("FREQUENCY=", settings.interval.as_micros()));
        env.push(key_number("WORK=", settings.work as u128));
        env.push(key_number("SLEEP=", settings.sleep.as_millis()));
        let mut mounts: Vec<Mount> = Vec::new();
        mounts.push(Mount::read_only(self.git.as_str(), "/typster"));
        mounts.push(Mount::read_only(samples.root.as_str(), "/samples"));
        mounts.push(Mount::new(self.results.as_str(), "/data"));
        assert(views(env@) =~= seq![
            "WARMUPS="@ + decimal(settings.warmups as nat),
            "RUNS="@ + decimal(settings.runs as nat),
            "FILE_LIST="@ + file_list(samples.files@)->Some_0,
            "FREQUENCY="@ + decimal(settings.interval.spec_micros()),
            "WORK="@ + decimal(settings.work as nat),
            "SLEEP="@ + decimal(settings.sleep.spec_millis()),
        ]);
        assert(mount_views(mounts@) =~= seq![
            (self.git@, "/typster"@, true),
            (samples.root@, "/samples"@, true),
            (self.results@, "/data"@, false),
        ]);
        Ok(ContainerSpec::hardened(&profile.stages.bench_e2e, env, mounts))
    }

    /// The container that runs the wall-clock benchmark, with the settings of
    /// the `main` group or of the other one.
    pub fn bench_walltime(&self, profile: &Profile, samples: &Samples, main: bool) -> (r: Result<ContainerSpec, StageError>)
        ensures
            r is Err <==> samples.files@.len() == 0,
            r matches Ok(c) ==> {
                let s = profile.profiles.spec_select(main);
                &&& c.hardened_for(
                    profile.stages.bench_walltime,
                    seq![
                        "WARMUPS="@ + decimal(s.warmups as nat),
                        "RUNS="@ + decimal(s.runs as nat),
                        "FILE_LIST="@ + file_list(samples.files@)->Some_0,
                        "WORK="@ + decimal(s.work as nat),
                        "SLEEP="@ + decimal(s.sleep.spec_millis()),
                    ],
                    c.mounts@,
                )
                &&& mount_views(c.mounts@) == seq![
                    (self.git@, "/typster"@, true),
                    (samples.root@, "/samples"@, true),
                    (self.walltimes@, "/data"@, false),
                ]
            },
    {
        let settings = profile.profiles.select(main);
        let list = match samples.to_env() {
            Some(l) => l,
            None => return Err(StageError::NoSamples),
        };
        let mut env: Vec<String> = Vec::new();
        env.push(key_number("WARMUPS=", settings.warmups as u128));
        env.push(key_number("RUNS=", settings.runs as u128));
        env.push(key_value("FILE_LIST=", list.as_str()));
        env.push(key_number("WORK=", settings.work as u128));
        env.push(key_number("SLEEP=", settings.sleep.as_millis()));
        let mut mounts: Vec<Mount> = Vec::new();
        mounts.push(Mount::read_only(self.git.as_str(), "/typster"));
        mounts.push(Mount::read_only(samples.root.as_str(), "/samples"));
        mounts.push(Mount::new(self.walltimes.as_str(), "/data"));
        assert(views(env@) =~= seq![
            "WARMUPS="@ + decimal(settings.warmups as nat),
            "RUNS="@ + decimal(settings.runs as nat),
            "FILE_LIST="@ + file_list(samples.files@)->Some_0,
            "WORK="@ + decimal(settings.work as nat),
            "SLEEP="@ + decimal(settings.sleep.spec_millis()),
        ]);
        assert(mount_views(mounts@) =~= seq![
            (self.git@, "/typster"@, true),
            (samples.root@, "/samples"@, true),
            (self.walltimes@, "/data"@, false),
        ]);
        Ok(ContainerSpec::hardened(&profile.stages.bench_walltime, env, mounts))
    }
}

} // verus!
