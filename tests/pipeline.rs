use typster::container::{
    exit_code, ContainerOutput, ContainerSpec, Container, LogKind, Mount, OutputCollector, Teardown,
    NO_EXIT_CODE,
};
use typster::paths::{file_stem, has_file_name, join};
use typster::profile::{Profile, ProfileSettings, Profiles, Samples, Stage, Stages, TimeSpan};
use typster::proto::{narrow_exit_code, BenchResult, StageOutput};
use typster::results::{BenchmarkResults, IngestError, Metric, SampleConfig, SamplingResults};
use typster::sandbox::{Sandbox, StageError};
use typster::text::{append_lines, push_decimal};
use typster::worker::{Event, Job, JobError, JobStage, Phase, Step};

fn stage(image: &str, networking: bool) -> Stage {
    Stage {
        image: image.to_string(),
        soft_timeout: TimeSpan { secs: 120, nanos: 0 },
        hard_timeout: TimeSpan { secs: 180, nanos: 0 },
        memory_limit: 512 * 1024 * 1024,
        swap_limit: 768 * 1024 * 1024,
        nano_cpus: 1_500_000_000,
        networking,
        cpu_cores: Some("2,3".to_string()),
    }
}

fn settings(warmups: u32) -> ProfileSettings {
    ProfileSettings {
        warmups,
        runs: 30,
        interval: TimeSpan { secs: 0, nanos: 1_500_000 },
        work: 7,
        sleep: TimeSpan { secs: 2, nanos: 500_000_000 },
    }
}

fn samples(files: &[&str]) -> Samples {
    Samples {
        root: "./samples".to_string(),
        files: files.iter().map(|f| f.to_string()).collect(),
        training: vec!["train.typ".to_string()],
    }
}

fn profile() -> Profile {
    Profile {
        delete_on_exit: true,
        profiles: Profiles { main: settings(10), other: settings(2) },
        stages: Stages {
            clone: stage("typst/clone", true),
            fetch: stage("typst/fetch", true),
            build: stage("typst/build", false),
            bench_e2e: stage("typst/bench-end-to-end", false),
            bench_walltime: stage("typst/bench-walltime", false),
            pgo_build: stage("typst/pgo-build", false),
            pgo_build_profile: stage("typst/pgo-build-profile", false),
            pgo_profile: stage("typst/pgo-profile", false),
        },
        samples: samples(&["a.typ", "dir/b.typ"]),
        workdir: "/work".to_string(),
    }
}

fn mounts_of(spec: &ContainerSpec) -> Vec<(String, String, bool)> {
    spec.mounts.iter().map(|m| (m.source.clone(), m.target.clone(), m.read_only)).collect()
}

fn m(source: &str, target: &str, read_only: bool) -> (String, String, bool) {
    (source.to_string(), target.to_string(), read_only)
}

#[test]
fn decimal_digits() {
    let mut s = String::from("n=");
    push_decimal(&mut s, 0);
    assert_eq!(s, "n=0");
    let mut s = String::new();
    push_decimal(&mut s, 1234567890123);
    assert_eq!(s, "1234567890123");
    let mut s = String::new();
    push_decimal(&mut s, u128::MAX);
    assert_eq!(s, u128::MAX.to_string());
}

#[test]
fn log_lines_are_split_trimmed_and_kept_when_not_empty() {
    let mut out = vec!["earlier".to_string()];
    append_lines(&mut out, "  hello \n\n\t world\r\n   \nlast");
    assert_eq!(out, vec!["earlier", "hello", "world", "last"]);
    let mut out = Vec::new();
    append_lines(&mut out, "");
    assert!(out.is_empty());
    let mut out = Vec::new();
    append_lines(&mut out, "\u{3000}wide\u{a0}\n");
    assert_eq!(out, vec!["wide"]);
}

#[test]
fn path_join_follows_path_rules() {
    assert_eq!(join("/samples", "a.typ"), "/samples/a.typ");
    assert_eq!(join("/samples/", "a.typ"), "/samples/a.typ");
    assert_eq!(join("/samples", "/abs/a.typ"), "/abs/a.typ");
    assert_eq!(join("", "a.typ"), "a.typ");
}

#[test]
fn file_names_and_stems() {
    assert_eq!(file_stem("dir/b.tar.typ"), Some("b.tar".to_string()));
    assert_eq!(file_stem("dir/.hidden"), Some(".hidden".to_string()));
    assert_eq!(file_stem("dir/name/"), Some("name".to_string()));
    assert_eq!(file_stem("dir/name/."), Some("name".to_string()));
    assert_eq!(file_stem("/r/a.json"), Some("a".to_string()));
    assert_eq!(file_stem("dir/.."), None);
    assert!(!has_file_name("/"));
    assert!(!has_file_name(""));
    assert!(has_file_name("x"));
}

#[test]
fn sample_file_list() {
    let s = samples(&["a.typ", "dir/b.typ", "/abs/c.typ"]);
    assert_eq!(s.to_env(), Some("/samples/a.typ,/samples/dir/b.typ,/abs/c.typ".to_string()));
    assert_eq!(s.to_training_env(), Some("/samples/train.typ".to_string()));
    assert_eq!(samples(&[]).to_env(), None);
}

#[test]
fn results_files_take_the_stem_and_json() {
    let s = samples(&["a.typ", "dir/b.tar.typ"]);
    assert!(s.has_file_names());
    assert_eq!(s.to_results_file("/work/x/results"), vec!["/work/x/results/a.json", "/work/x/results/b.tar.json"]);
    assert!(!samples(&["ok.typ", "up/.."]).has_file_names());
}

#[test]
fn offline_stage_has_no_network_and_exactly_its_mounts() {
    let st = stage("typst/build", false);
    let mounts = vec![Mount::new("/h/git", "/typster"), Mount::read_only("/h/cargo", "/cargo")];
    let spec = ContainerSpec::hardened(&st, vec!["A=1".to_string()], mounts);
    assert!(spec.network_disabled);
    assert_eq!(spec.network_mode, "none");
    assert_eq!(mounts_of(&spec), vec![m("/h/git", "/typster", false), m("/h/cargo", "/cargo", true)]);
    assert_eq!(spec.env, vec!["A=1", "TIMEOUT=120"]);
    assert_eq!(spec.name, "typster-typst-build");
    assert_eq!(spec.image, "typst/build");
    assert_eq!(spec.cap_drop, vec!["ALL"]);
    assert_eq!(spec.cap_add, vec!["DAC_OVERRIDE"]);
    assert_eq!(spec.security_opt, vec!["no-new-privileges"]);
    assert_eq!(spec.pids_limit, 512);
    assert_eq!(spec.memory, 512 * 1024 * 1024);
    assert_eq!(spec.memory_swap, 768 * 1024 * 1024);
    assert_eq!(spec.nano_cpus, 1_500_000_000);
    assert_eq!(spec.cpuset_cpus, Some("2,3".to_string()));
    assert_eq!(spec.working_dir, "/typster");
    assert_eq!(spec.restart_policy, "no");
    assert_eq!(spec.max_retries, 0);
}

#[test]
fn networked_stage_joins_internal_network_with_proxy() {
    let st = stage("typst/fetch", true);
    let spec = ContainerSpec::hardened(&st, vec![], vec![]);
    assert!(!spec.network_disabled);
    assert_eq!(spec.network_mode, "typst-internal");
    assert_eq!(
        spec.env,
        vec![
            "HTTP_PROXY=http://172.19.0.2:3128",
            "HTTPS_PROXY=http://172.19.0.2:3128",
            "FTP_PROXY=http://172.19.0.2:3128",
            "TIMEOUT=120",
        ]
    );
}

#[test]
fn exit_code_sentinel_only_when_unreported() {
    assert_eq!(exit_code(None), NO_EXIT_CODE);
    assert_eq!(NO_EXIT_CODE, i64::MAX);
    assert_eq!(exit_code(Some(0)), 0);
    assert_eq!(exit_code(Some(137)), 137);
    assert_eq!(exit_code(Some(-1)), -1);
}

#[test]
fn collector_routes_streams() {
    let mut c = OutputCollector::new();
    c.push_chunk(LogKind::StdOut, "one\ntwo\n");
    c.push_chunk(LogKind::StdErr, " oops \n");
    c.push_chunk(LogKind::Console, "three");
    c.push_chunk(LogKind::StdIn, "ignored");
    let out = c.finish(None);
    assert_eq!(out.stdout, vec!["one", "two", "three"]);
    assert_eq!(out.stderr, vec!["oops"]);
    assert_eq!(out.exitcode, i64::MAX);
}

#[test]
fn stage_output_narrows_exit_code() {
    let o = StageOutput::from(ContainerOutput { stdout: vec!["x".into()], stderr: vec![], exitcode: NO_EXIT_CODE });
    assert_eq!(o.exitcode, i32::MAX);
    assert_eq!(o.stdout, vec!["x"]);
    let code = |c: i64| StageOutput::from(ContainerOutput { stdout: vec![], stderr: vec![], exitcode: c }).exitcode;
    assert_eq!(code(0), 0);
    assert_eq!(code(2), 2);
    assert_eq!(code(-5), -5);
    assert_eq!(code(1 << 32), i32::MAX - 1);
    assert_eq!(code(i32::MAX as i64), i32::MAX - 1);
    assert_eq!(code(i64::MAX - 1), i32::MAX - 1);
    assert_eq!(code(i32::MIN as i64), i32::MIN);
    assert_eq!(code(i64::MIN), i32::MIN);
    assert_eq!(narrow_exit_code(-1), -1);
}

#[test]
fn teardown_depends_on_join() {
    let mut c = Container::new("abc".to_string(), TimeSpan { secs: 5, nanos: 0 });
    assert_eq!(c.teardown(), Teardown::Stop { grace_secs: 10 });
    c.mark_joined();
    assert_eq!(c.teardown(), Teardown::Remove { force: true });
}

#[test]
fn sandbox_layout_under_root() {
    let p = profile();
    let s = Sandbox::new(&p, "/work", "https://example/repo", "abcd", Some("t1".to_string()));
    assert_eq!(s.id(), "t1");
    assert_eq!(s.repo(), "https://example/repo");
    assert_eq!(s.commit(), "abcd");
    assert_eq!(s.git(), "/work/t1/git");
    assert_eq!(s.cargo(), "/work/t1/cargo");
    assert_eq!(s.results(), "/work/t1/results");
    assert_eq!(s.walltimes(), "/work/t1/walltimes");
    assert_eq!(s.pgo_data, "/work/t1/pgo-data");
    assert!(s.delete_on_exit());
    assert_eq!(
        s.directories(),
        vec!["/work/t1", "/work/t1/git", "/work/t1/cargo", "/work/t1/results", "/work/t1/walltimes", "/work/t1/pgo-data"]
    );
}

#[test]
fn random_sandbox_id_is_ten_alphanumerics() {
    let s = Sandbox::new(&profile(), "/work", "r", "c", None);
    assert_eq!(s.id().len(), 10);
    assert!(s.id().chars().all(|c| c.is_ascii_alphanumeric()));
}

#[test]
fn sandboxes_with_different_ids_share_no_directory() {
    let p = profile();
    let a = Sandbox::new(&p, "/work", "r", "c", Some("job".to_string()));
    let b = Sandbox::new(&p, "/work", "r", "c", Some("jobs".to_string()));
    for x in a.directories() {
        for y in b.directories() {
            assert_ne!(x, y);
        }
    }
    let c = Sandbox::new(&p, "/work", "r", "c", Some("job".to_string()));
    assert_eq!(a.directories(), c.directories());
}

#[test]
fn clone_stage_container() {
    let p = profile();
    let s = Sandbox::new(&p, "/work", "https://example/repo", "abcd", Some("t1".to_string()));
    let spec = s.clone(&p);
    assert_eq!(mounts_of(&spec), vec![m("/work/t1/git", "/typster", false)]);
    assert_eq!(
        spec.env,
        vec![
            "REPO_URL=https://example/repo",
            "COMMIT=abcd",
            "HTTP_PROXY=http://172.19.0.2:3128",
            "HTTPS_PROXY=http://172.19.0.2:3128",
            "FTP_PROXY=http://172.19.0.2:3128",
            "TIMEOUT=120",
        ]
    );
    assert_eq!(spec.name, "typster-typst-clone");
}

#[test]
fn fetch_and_build_stage_mounts() {
    let p = profile();
    let s = Sandbox::new(&p, "/work", "r", "c", Some("t1".to_string()));
    assert_eq!(mounts_of(&s.fetch(&p)), vec![m("/work/t1/git", "/typster", true), m("/work/t1/cargo", "/cargo", false)]);
    let b = s.build(&p);
    assert_eq!(mounts_of(&b), vec![m("/work/t1/git", "/typster", false), m("/work/t1/cargo", "/cargo", true)]);
    assert_eq!(b.env, vec!["TIMEOUT=120"]);
    let pgo = vec![
        m("/work/t1/git", "/typster", false),
        m("/work/t1/cargo", "/cargo", true),
        m("/work/t1/pgo-data", "/pgo-data", false),
    ];
    assert_eq!(mounts_of(&s.pgo_build_profile(&p)), pgo);
    assert_eq!(mounts_of(&s.pgo_build(&p)), pgo);
    assert_eq!(s.pgo_build(&p).image, "typst/pgo-build");
}

#[test]
fn pgo_profile_stage() {
    let p = profile();
    let s = Sandbox::new(&p, "/work", "r", "c", Some("t1".to_string()));
    let spec = s.pgo_profile(&p, &p.samples).unwrap();
    assert_eq!(spec.env, vec!["FILE_LIST=/samples/a.typ,/samples/dir/b.typ", "TIMEOUT=120"]);
    assert_eq!(
        mounts_of(&spec),
        vec![
            m("/work/t1/git", "/typster", true),
            m("./samples", "/samples", true),
            m("/work/t1/walltimes", "/data", false),
            m("/work/t1/pgo-data", "/pgo-data", false),
        ]
    );
    assert_eq!(s.pgo_profile(&p, &samples(&[])).err(), Some(StageError::NoSamples));
}

#[test]
fn bench_stages_get_their_settings() {
    let p = profile();
    let s = Sandbox::new(&p, "/work", "r", "c", Some("t1".to_string()));
    let e2e = s.bench_e2e(&p, &p.samples, true).unwrap();
    assert_eq!(
        e2e.env,
        vec![
            "WARMUPS=10",
            "RUNS=30",
            "FILE_LIST=/samples/a.typ,/samples/dir/b.typ",
            "FREQUENCY=1500",
            "WORK=7",
            "SLEEP=2500",
            "TIMEOUT=120",
        ]
    );
    assert_eq!(
        mounts_of(&e2e),
        vec![m("/work/t1/git", "/typster", true), m("./samples", "/samples", true), m("/work/t1/results", "/data", false)]
    );
    let wall = s.bench_walltime(&p, &p.samples, false).unwrap();
    assert_eq!(
        wall.env,
        vec!["WARMUPS=2", "RUNS=30", "FILE_LIST=/samples/a.typ,/samples/dir/b.typ", "WORK=7", "SLEEP=2500", "TIMEOUT=120"]
    );
    assert_eq!(mounts_of(&wall)[2], m("/work/t1/walltimes", "/data", false));
    assert_eq!(s.bench_e2e(&p, &samples(&[]), true).err(), Some(StageError::NoSamples));
    assert_eq!(s.bench_walltime(&p, &samples(&[]), true).err(), Some(StageError::NoSamples));
}

fn series(metric: Metric, values: &[f64]) -> BenchmarkResults {
    BenchmarkResults {
        command: "typst compile".to_string(),
        metric,
        samples: values.iter().map(|v| v.to_bits()).collect(),
    }
}

fn document(metrics: &[Metric]) -> SamplingResults {
    SamplingResults {
        sampling_config: SampleConfig {
            n_warmup: 1,
            n_samples: 2,
            sleep_time: TimeSpan { secs: 0, nanos: 0 },
            silly_work: None,
        },
        samples: metrics.iter().enumerate().map(|(i, m)| series(*m, &[i as f64, 0.5])).collect(),
    }
}

const ALL: [Metric; 6] = [
    Metric::Time,
    Metric::VirtualMemory,
    Metric::ResidentMemory,
    Metric::Load,
    Metric::UserCpuTime,
    Metric::SystemCpuTime,
];

#[test]
fn e2e_document_with_all_metrics_parses() {
    let doc = document(&ALL);
    let b = doc.to_bench_samples("/work/t1/results/a.json").unwrap();
    assert_eq!(b.name, "a");
    assert_eq!(b.virtual_memory, vec![1f64.to_bits(), 0.5f64.to_bits()]);
    assert_eq!(b.resident_memory, vec![2f64.to_bits(), 0.5f64.to_bits()]);
    assert_eq!(b.cpu_percent, vec![3f64.to_bits(), 0.5f64.to_bits()]);
    assert_eq!(b.user_time, vec![4f64.to_bits(), 0.5f64.to_bits()]);
    assert_eq!(b.system_time, vec![5f64.to_bits(), 0.5f64.to_bits()]);
    assert_eq!(f64::from_bits(b.system_time[1]), 0.5);
}

#[test]
fn e2e_document_missing_any_metric_fails() {
    for missing in ALL {
        let kept: Vec<Metric> = ALL.iter().copied().filter(|m| *m != missing).collect();
        let r = document(&kept).to_bench_samples("/r/a.json");
        assert_eq!(r.err(), Some(IngestError::Missing(missing)));
    }
    assert_eq!(document(&ALL).to_bench_samples("/").err(), Some(IngestError::NoFileName));
}

#[test]
fn first_series_of_a_metric_is_taken() {
    let mut doc = document(&ALL);
    doc.samples.push(series(Metric::Load, &[99.0]));
    let b = doc.to_bench_samples("x/b.json").unwrap();
    assert_eq!(b.cpu_percent, vec![3f64.to_bits(), 0.5f64.to_bits()]);
}

#[test]
fn walltime_document_needs_time_only() {
    let w = document(&[Metric::Time]).to_walltime_samples("/w/b.json").unwrap();
    assert_eq!(w.name, "b");
    assert_eq!(w.walltime, vec![0f64.to_bits(), 0.5f64.to_bits()]);
    assert_eq!(
        document(&[Metric::Load]).to_walltime_samples("/w/b.json").err(),
        Some(IngestError::Missing(Metric::Time))
    );
}

fn out(code: i64) -> ContainerOutput {
    ContainerOutput { stdout: vec![format!("exit {}", code)], stderr: vec![], exitcode: code }
}

fn started() -> Job {
    let (job, step) = Job::start("t1".to_string(), vec!["/r/a.json".to_string()], vec!["/w/a.json".to_string()]);
    assert!(matches!(step, Step::Run(JobStage::Clone)));
    job
}

#[test]
fn failed_build_reports_the_stages_that_ran() {
    let job = started();
    let (job, step) = job.advance(Event::Finished(out(0)));
    assert!(matches!(step, Step::Run(JobStage::Fetch)));
    let (job, step) = job.advance(Event::Finished(out(0)));
    assert!(matches!(step, Step::Run(JobStage::Build)));
    let (job, step) = job.advance(Event::Finished(out(1)));
    assert_eq!(job.phase, Phase::Done);
    match step {
        Step::Publish(BenchResult::Failure { id, stage, clone, fetch, build, bench_e2e, bench_walltime }) => {
            assert_eq!(id, "t1");
            assert_eq!(stage, "build");
            assert_eq!(clone.unwrap().exitcode, 0);
            assert_eq!(fetch.unwrap().exitcode, 0);
            let build = build.unwrap();
            assert_eq!(build.exitcode, 1);
            assert_eq!(build.stdout, vec!["exit 1"]);
            assert!(bench_e2e.is_none());
            assert!(bench_walltime.is_none());
        },
        _ => panic!("expected a failure"),
    }
}

fn through_e2e(code: i64) -> (Job, Step) {
    let mut job = started();
    for _ in 0..3 {
        let (next, _) = job.advance(Event::Finished(out(0)));
        job = next;
    }
    job.advance(Event::Finished(out(code)))
}

#[test]
fn failed_e2e_never_runs_walltime() {
    let (job, step) = through_e2e(2);
    match step {
        Step::Publish(BenchResult::Failure { stage, bench_e2e, bench_walltime, .. }) => {
            assert_eq!(stage, "bench_e2e");
            assert_eq!(bench_e2e.unwrap().exitcode, 2);
            assert!(bench_walltime.is_none());
        },
        _ => panic!("expected a failure"),
    }
    let (job, step) = job.advance(Event::Finished(out(0)));
    assert!(matches!(step, Step::Abort(JobError::Unexpected)));
    assert_eq!(job.phase, Phase::Done);
}

#[test]
fn failure_keeps_sentinel_and_wide_codes_nonzero() {
    let (_, step) = through_e2e(NO_EXIT_CODE);
    match step {
        Step::Publish(BenchResult::Failure { bench_e2e, .. }) => assert_eq!(bench_e2e.unwrap().exitcode, i32::MAX),
        _ => panic!("expected a failure"),
    }
    let (_, step) = through_e2e(1 << 32);
    match step {
        Step::Publish(BenchResult::Failure { stage, bench_e2e, .. }) => {
            assert_eq!(stage, "bench_e2e");
            assert_ne!(bench_e2e.unwrap().exitcode, 0);
        },
        _ => panic!("expected a failure"),
    }
}

#[test]
fn successful_job_publishes_everything() {
    let (job, step) = through_e2e(0);
    match step {
        Step::Read(files) => assert_eq!(files, vec!["/r/a.json"]),
        _ => panic!("expected a read"),
    }
    let (job, step) = job.advance(Event::Read(vec![document(&ALL)]));
    assert!(matches!(step, Step::Run(JobStage::BenchWalltime)));
    let (job, step) = job.advance(Event::Finished(out(0)));
    match step {
        Step::Read(files) => assert_eq!(files, vec!["/w/a.json"]),
        _ => panic!("expected a read"),
    }
    let (job, step) = job.advance(Event::Read(vec![document(&[Metric::Time])]));
    assert_eq!(job.phase, Phase::Done);
    match step {
        Step::Publish(BenchResult::Success { id, samples, walltimes, clone, bench_walltime, .. }) => {
            assert_eq!(id, "t1");
            assert_eq!(samples.len(), 1);
            assert_eq!(samples[0].name, "a");
            assert_eq!(walltimes.len(), 1);
            assert_eq!(walltimes[0].walltime, vec![0f64.to_bits(), 0.5f64.to_bits()]);
            assert_eq!(clone.exitcode, 0);
            assert_eq!(bench_walltime.stdout, vec!["exit 0"]);
        },
        _ => panic!("expected a success"),
    }
}

#[test]
fn bad_sampling_document_aborts() {
    let (job, _) = through_e2e(0);
    let (job, step) = job.advance(Event::Read(vec![document(&[Metric::Time])]));
    assert!(matches!(step, Step::Abort(JobError::Ingest(IngestError::Missing(Metric::UserCpuTime)))));
    assert_eq!(job.phase, Phase::Done);
    let (job, _) = through_e2e(0);
    let (_, step) = job.advance(Event::Read(vec![]));
    assert!(matches!(step, Step::Abort(JobError::Unexpected)));
}

#[test]
fn event_out_of_turn_aborts() {
    let job = started();
    let (job, step) = job.advance(Event::Read(vec![]));
    assert!(matches!(step, Step::Abort(JobError::Unexpected)));
    assert_eq!(job.phase, Phase::Done);
}

#[test]
fn time_span_units() {
    let t = TimeSpan { secs: 3, nanos: 4_005_006 };
    assert_eq!(t.as_millis(), 3004);
    assert_eq!(t.as_micros(), 3_004_005);
    assert_eq!(TimeSpan::from_secs(9), TimeSpan { secs: 9, nanos: 0 });
    assert_eq!(p_select(), 2);
}

fn p_select() -> u32 {
    profile().profiles.select(false).warmups
}

#[test]
fn stage_defaults() {
    let s = Stage::default();
    assert_eq!(s.soft_timeout, TimeSpan { secs: 120, nanos: 0 });
    assert_eq!(s.hard_timeout, TimeSpan { secs: 180, nanos: 0 });
    assert_eq!(s.memory_limit, 536_870_912);
    assert_eq!(s.swap_limit, 805_306_368);
    assert_eq!(s.nano_cpus, 1_000_000_000);
    assert!(!s.networking);
    assert!(s.cpu_cores.is_none());
    assert!(s.image.is_empty());
}

#[test]
fn removals_follow_delete_on_exit() {
    let mut p = profile();
    let s = Sandbox::new(&p, "/work", "r", "c", Some("t1".to_string()));
    assert_eq!(
        s.removals(),
        vec!["/work/t1/git", "/work/t1/cargo", "/work/t1/results", "/work/t1/walltimes", "/work/t1/pgo-data"]
    );
    p.delete_on_exit = false;
    let kept = Sandbox::new(&p, "/work", "r", "c", Some("t1".to_string()));
    assert!(kept.removals().is_empty());
}
