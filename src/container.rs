use vstd::prelude::*;
use crate::profile::{Stage, TimeSpan};
use crate::text::{append_lines, decimal, log_lines, push_decimal, push_replaced, replaced, views};

verus! {

/// The exit code that stands for "the engine reported no exit code".
pub const NO_EXIT_CODE: i64 = 0x7fff_ffff_ffff_ffff;

/// The seconds a container is given to stop before the engine kills it.
pub const STOP_GRACE_SECS: u64 = 10;

/// The most processes a container may hold at once.
pub const PIDS_LIMIT: u64 = 512;

/// A host directory bound into a container.
#[derive(Clone, Debug)]
pub struct Mount {
    /// The host path.
    pub source: String,
    /// The path inside the container.
    pub target: String,
    pub read_only: bool,
}

impl Mount {
    /// A writable mount of `source` at `target`.
    pub fn new(source: &str, target: &str) -> (r: Mount)
        ensures
            r.source@ == source@,
            r.target@ == target@,
            !r.read_only,
    {
        Mount { source: String::from_str(source), target: String::from_str(target), read_only: false }
    }

    /// A read-only mount of `source` at `target`.
    pub fn read_only(source: &str, target: &str) -> (r: Mount)
        ensures
            r.source@ == source@,
            r.target@ == target@,
            r.read_only,
    {
        Mount { source: String::from_str(source), target: String::from_str(target), read_only: true }
    }
}

/// Everything the engine is told when a container is created for one stage.
pub struct ContainerSpec {
    pub name: String,
    pub image: String,
    pub platform: String,
    pub env: Vec<String>,
    pub working_dir: String,
    pub tty: bool,
    pub network_disabled: bool,
    pub network_mode: String,
    pub mounts: Vec<Mount>,
    /// In bytes.
    pub memory: u64,
    /// Memory plus swap, in bytes.
    pub memory_swap: u64,
    pub cpuset_cpus: Option<String>,
    /// The CPU quota, in billionths of a CPU.
    pub nano_cpus: u64,
    pub restart_policy: String,
    /// How often the engine may restart the container.
    pub max_retries: u64,
    pub cap_drop: Vec<String>,
    pub cap_add: Vec<String>,
    pub security_opt: Vec<String>,
    pub pids_limit: u64,
    /// Bounds the wait for the container's output.
    pub hard_timeout: TimeSpan,
}

/// Where the internal proxy listens.
pub open spec fn proxy_url() -> Seq<char> {
    "http://172.19.0.2:3128"@
}

/// The proxy variables that a networked stage receives.
pub open spec fn proxy_env() -> Seq<Seq<char>> {
    seq!["HTTP_PROXY="@ + proxy_url(), "HTTPS_PROXY="@ + proxy_url(), "FTP_PROXY="@ + proxy_url()]
}

/// The variables that a container of `stage` receives besides `env`.
pub open spec fn stage_env(stage: Stage, env: Seq<Seq<char>>) -> Seq<Seq<char>> {
    (if stage.networking { env + proxy_env() } else { env }).push(
        "TIMEOUT="@ + decimal(stage.soft_timeout.secs as nat),
    )
}

/// The name of the container of a stage: taken from its image alone.
pub open spec fn container_name(image: Seq<char>) -> Seq<char> {
    "typster-"@ + replaced(image, '/', '-')
}

/// An optional string as plain characters.
pub open spec fn opt_view(o: Option<String>) -> Option<Seq<char>> {
    match o {
        Some(s) => Some(s@),
        None => None,
    }
}

impl ContainerSpec {
    /// The hardened container that runs `stage` with the variables `env` and
    /// exactly the mounts `mounts`.
    pub open spec fn hardened_for(self, stage: Stage, env: Seq<Seq<char>>, mounts: Seq<Mount>) -> bool {
        &&& self.name@ == container_name(stage.image@)
        &&& self.image@ == stage.image@
        &&& self.platform@ == "linux/amd64"@
        &&& views(self.env@) == stage_env(stage, env)
        &&& self.working_dir@ == "/typster"@
        &&& self.tty
        &&& self.network_disabled == !stage.networking
        &&& self.network_mode@ == (if stage.networking { "typst-internal"@ } else { "none"@ })
        &&& self.mounts@ == mounts
        &&& self.memory == stage.memory_limit
        &&& self.memory_swap == stage.swap_limit
        &&& opt_view(self.cpuset_cpus) == opt_view(stage.cpu_cores)
        &&& self.nano_cpus == stage.nano_cpus
        &&& self.restart_policy@ == "no"@
        &&& self.max_retries == 0
        &&& views(self.cap_drop@) == seq!["ALL"@]
        &&& views(self.cap_add@) == seq!["DAC_OVERRIDE"@]
        &&& views(self.security_opt@) == seq!["no-new-privileges"@]
        &&& self.pids_limit == PIDS_LIMIT
        &&& self.hard_timeout == stage.hard_timeout
    }

    /// Builds the hardened container for `stage`: every capability dropped
    /// but `DAC_OVERRIDE`, no new privileges, a process limit, the stage's
    /// memory, swap and CPU caps, and no network unless the stage asks for
    /// it, in which case the container joins the internal network and is
    /// told where the proxy is.
    pub fn hardened(stage: &Stage, env: Vec<String>, mounts: Vec<Mount>) -> (r: ContainerSpec)
        ensures
            r.hardened_for(*stage, views(env@), mounts@),
    {
        let ghost env0 = views(env@);
        let mut env = env;
        if stage.networking {
            let ghost e = env@;
            env.push(String::from_str("HTTP_PROXY=http://172.19.0.2:3128"));
            env.push(String::from_str("HTTPS_PROXY=http://172.19.0.2:3128"));
            env.push(String::from_str("FTP_PROXY=http://172.19.0.2:3128"));
            proof {
                reveal_strlit("HTTP_PROXY=http://172.19.0.2:3128");
                reveal_strlit("HTTPS_PROXY=http://172.19.0.2:3128");
                reveal_strlit("FTP_PROXY=http://172.19.0.2:3128");
                reveal_strlit("HTTP_PROXY=");
                reveal_strlit("HTTPS_PROXY=");
                reveal_strlit("FTP_PROXY=");
                reveal_strlit("http://172.19.0.2:3128");
                assert("HTTP_PROXY=http://172.19.0.2:3128"@ =~= "HTTP_PROXY="@ + proxy_url());
                assert("HTTPS_PROXY=http://172.19.0.2:3128"@ =~= "HTTPS_PROXY="@ + proxy_url());
                assert("FTP_PROXY=http://172.19.0.2:3128"@ =~= "FTP_PROXY="@ + proxy_url());
                assert(views(env@) =~= env0 + proxy_env());
            }
        }
        let ghost e1 = env@;
        let mut timeout = String::from_str("TIMEOUT=");
        push_decimal(&mut timeout, stage.soft_timeout.secs as u128);
        env.push(timeout);
        assert(views(env@) =~= views(e1).push(timeout@));
        let mut name = String::from_str("typster-");
        push_replaced(&mut name, stage.image.as_str(), '/', '-');
        let cpuset_cpus = match &stage.cpu_cores {
            Some(c) => Some(c.clone()),
            None => None,
        };
        let mut cap_drop: Vec<String> = Vec::new();
        cap_drop.push(String::from_str("ALL"));
        let mut cap_add: Vec<String> = Vec::new();
        cap_add.push(String::from_str("DAC_OVERRIDE"));
        let mut security_opt: Vec<String> = Vec::new();
        security_opt.push(String::from_str("no-new-privileges"));
        assert(views(cap_drop@) =~= seq!["ALL"@]);
        assert(views(cap_add@) =~= seq!["DAC_OVERRIDE"@]);
        assert(views(security_opt@) =~= seq!["no-new-privileges"@]);
        let network_mode = if stage.networking {
            String::from_str("typst-internal")
        } else {
            String::from_str("none")
        };
        ContainerSpec {
            name,
            image: stage.image.clone(),
            platform: String::from_str("linux/amd64"),
            env,
            working_dir: String::from_str("/typster"),
            tty: true,
            network_disabled: !stage.networking,
            network_mode,
            mounts,
            memory: stage.memory_limit,
            memory_swap: stage.swap_limit,
            cpuset_cpus,
            nano_cpus: stage.nano_cpus,
            restart_policy: String::from_str("no"),
            max_retries: 0,
            cap_drop,
            cap_add,
            security_opt,
            pids_limit: PIDS_LIMIT,
            hard_timeout: stage.hard_timeout,
        }
    }
}

/// A stage without networking runs with the network disabled, outside any
/// network, with exactly the mounts it asked for, and with the variables it
/// was handed plus `TIMEOUT` alone: no proxy variable is added.
pub proof fn lemma_offline_stage_isolated(c: ContainerSpec, stage: Stage, env: Seq<Seq<char>>, mounts: Seq<Mount>)
    requires
        !stage.networking,
        c.hardened_for(stage, env, mounts),
    ensures
        c.network_disabled,
        c.network_mode@ == "none"@,
        c.mounts@ == mounts,
        views(c.env@) == env.push("TIMEOUT="@ + decimal(stage.soft_timeout.secs as nat)),
{
}

/// The exit code of a finished container: what the engine reported, or
/// `NO_EXIT_CODE` where it reported none.
pub open spec fn spec_exit_code(reported: Option<i64>) -> i64 {
    match reported {
        Some(c) => c,
        None => NO_EXIT_CODE,
    }
}

pub fn exit_code(reported: Option<i64>) -> (r: i64)
    ensures
        r == spec_exit_code(reported),
{
    match reported {
        Some(c) => c,
        None => NO_EXIT_CODE,
    }
}

/// The exit code is the sentinel exactly when the engine reported none
/// (an engine that reports the sentinel's own value is left aside).
pub proof fn lemma_sentinel_iff_unreported(reported: Option<i64>)
    requires
        reported != Some(NO_EXIT_CODE),
    ensures
        spec_exit_code(reported) == NO_EXIT_CODE <==> reported is None,
{
}

/// Which stream a chunk of container output came on.
#[derive(Clone, Copy, Debug, PartialEq, Eq)]
pub enum LogKind {
    StdOut,
    StdErr,
    StdIn,
    Console,
}

/// What a finished container printed, and how it exited.
#[derive(Debug)]
pub struct ContainerOutput {
    pub stdout: Vec<String>,
    pub stderr: Vec<String>,
    pub exitcode: i64,
}

/// Gathers the lines of a container's output as its chunks arrive.
#[derive(Debug)]
pub struct OutputCollector {
    pub stdout: Vec<String>,
    pub stderr: Vec<String>,
}

impl OutputCollector {
    /// A collector that has seen nothing yet.
    pub fn new() -> (r: OutputCollector)
        ensures
            r.stdout@.len() == 0,
            r.stderr@.len() == 0,
    {
        OutputCollector { stdout: Vec::new(), stderr: Vec::new() }
    }

    /// Takes one chunk: its lines go to standard error when it came on
    /// standard error, to standard output when it came on standard output or
    /// the console, and nowhere when it came on standard input.
    pub fn push_chunk(&mut self, kind: LogKind, text: &str)
        ensures
            views(final(self).stdout@) == views(old(self).stdout@) + (if kind == LogKind::StdOut
                || kind == LogKind::Console { log_lines(text@) } else { Seq::empty() }),
            views(final(self).stderr@) == views(old(self).stderr@) + (if kind == LogKind::StdErr {
                log_lines(text@)
            } else {
                Seq::empty()
            }),
    {
        match kind {
            LogKind::StdErr => {
                append_lines(&mut self.stderr, text);
                assert(views(self.stdout@) =~= views(old(self).stdout@) + Seq::empty());
            },
            LogKind::StdOut | LogKind::Console => {
                append_lines(&mut self.stdout, text);
                assert(views(self.stderr@) =~= views(old(self).stderr@) + Seq::empty());
            },
            LogKind::StdIn => {
                assert(views(self.stdout@) =~= views(old(self).stdout@) + Seq::empty());
                assert(views(self.stderr@) =~= views(old(self).stderr@) + Seq::empty());
            },
        }
    }

    /// The container's output, once the engine has said how it exited.
    pub fn finish(self, reported: Option<i64>) -> (r: ContainerOutput)
        ensures
            r.stdout@ == self.stdout@,
            r.stderr@ == self.stderr@,
            r.exitcode == spec_exit_code(reported),
    {
        ContainerOutput { stdout: self.stdout, stderr: self.stderr, exitcode: exit_code(reported) }
    }
}

/// How a container is released when its scope ends.
#[derive(Clone, Copy, Debug, PartialEq, Eq)]
pub enum Teardown {
    /// Never joined: stop it with a grace period and leave removal for later.
    Stop { grace_secs: u64 },
    /// Joined: remove it at once, by force.
    Remove { force: bool },
}

/// One container started for one stage.
#[derive(Debug)]
pub struct Container {
    /// The engine's id of the container.
    pub id: String,
    pub hard_timeout: TimeSpan,
    /// Set once the container has been joined.
    pub stopped: bool,
}

impl Container {
    /// A container that has just been started.
    pub fn new(id: String, hard_timeout: TimeSpan) -> (r: Container)
        ensures
            r.id == id,
            r.hard_timeout == hard_timeout,
            !r.stopped,
    {
        Container { id, hard_timeout, stopped: false }
    }

    /// Records that the container was joined.
    pub fn mark_joined(&mut self)
        ensures
            final(self).stopped,
            final(self).id == old(self).id,
            final(self).hard_timeout == old(self).hard_timeout,
    {
        self.stopped = true;
    }

    /// How to release the container: removal when it was joined, otherwise a
    /// stop with the grace period.
    pub fn teardown(&self) -> (r: Teardown)
        ensures
            self.stopped ==> r == (Teardown::Remove { force: true }),
            !self.stopped ==> r == (Teardown::Stop { grace_secs: STOP_GRACE_SECS }),
    {
        if self.stopped {
            Teardown::Remove { force: true }
        } else {
            Teardown::Stop { grace_secs: STOP_GRACE_SECS }
        }
    }
}

} // verus!
