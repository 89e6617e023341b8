use csm::csmrc::Config;
use csm::micromamba::{
    is_missing_dll, launch_failure, EnvDirAction, EnvDirError, EnvLocation, LaunchOutcome,
    Micromamba, RunEvent, RunFinish, RunStep,
};
use csm::platform::{Platform, TargetArch, TargetOs};

const LINUX: Platform = Platform { os: TargetOs::Linux, arch: TargetArch::X86_64 };
const WINDOWS: Platform = Platform { os: TargetOs::Windows, arch: TargetArch::X86_64 };

#[test]
fn set_env_var_overrides_and_keeps_keys_unique() {
    let config = Config::default();
    let mut m = Micromamba::new(&config);
    assert!(m.env_var_pairs().is_empty());
    m.set_env_var("A", "1");
    m.set_env_var("B", "2");
    m.set_env_var("A", "3");
    assert_eq!(
        m.env_var_pairs(),
        vec![("A".to_string(), "3".to_string()), ("B".to_string(), "2".to_string())]
    );
}

#[test]
fn new_sets_root_prefix() {
    let mut config = Config::default();
    config.mamba_root_prefix = Some("/opt/mamba".to_string());
    let m = Micromamba::new(&config);
    assert_eq!(
        m.env_var_pairs(),
        vec![("MAMBA_ROOT_PREFIX".to_string(), "/opt/mamba".to_string())]
    );
}

#[test]
fn run_uses_path_binary_when_it_runs() {
    let config = Config::default();
    let mut m = Micromamba::new(&config);
    m.set_env_var("X", "y");
    let mut run = m.stream(vec!["env", "list"]);
    assert!(run.is_streamed());
    match run.advance(RunEvent::Begin) {
        RunStep::Launch(inv) => {
            assert_eq!(inv.program, "micromamba");
            assert_eq!(inv.args, vec!["env".to_string(), "list".to_string()]);
            assert_eq!(inv.env_vars, vec![("X".to_string(), "y".to_string())]);
        }
        _ => panic!("expected a launch"),
    }
    assert!(matches!(
        run.advance(RunEvent::Launched(LaunchOutcome::Ran)),
        RunStep::Finish(RunFinish::Output)
    ));
}

#[test]
fn run_downloads_when_path_binary_missing() {
    let config = Config::default();
    let m = Micromamba::new(&config);
    let mut run = m.capture(vec!["info"]);
    assert!(!run.is_streamed());
    assert!(matches!(run.advance(RunEvent::Begin), RunStep::Launch(_)));
    assert!(matches!(
        run.advance(RunEvent::Launched(LaunchOutcome::NotFound)),
        RunStep::Fetch
    ));
    match run.advance(RunEvent::Fetched(Some("/cache/csm/micromamba".to_string()))) {
        RunStep::Launch(inv) => {
            assert_eq!(inv.program, "/cache/csm/micromamba");
            assert_eq!(inv.args, vec!["info".to_string()]);
        }
        _ => panic!("expected a launch of the downloaded binary"),
    }
    assert!(matches!(
        run.advance(RunEvent::Launched(LaunchOutcome::CouldNotRun)),
        RunStep::Finish(RunFinish::CouldNotRun)
    ));
}

#[test]
fn run_gives_up_when_path_binary_cannot_run() {
    let config = Config::default();
    let m = Micromamba::new(&config);
    let mut run = m.stream(vec!["info"]);
    let _ = run.advance(RunEvent::Begin);
    assert!(matches!(
        run.advance(RunEvent::Launched(LaunchOutcome::CouldNotRun)),
        RunStep::Finish(RunFinish::CouldNotRun)
    ));
}

#[test]
fn run_gives_up_when_download_fails() {
    let config = Config::default();
    let m = Micromamba::new(&config);
    let mut run = m.stream(vec!["info"]);
    let _ = run.advance(RunEvent::Begin);
    let _ = run.advance(RunEvent::Launched(LaunchOutcome::NotFound));
    assert!(matches!(
        run.advance(RunEvent::Fetched(None)),
        RunStep::Finish(RunFinish::CouldNotRun)
    ));
    // Anything reported after the end is refused.
    assert!(matches!(
        run.advance(RunEvent::Begin),
        RunStep::Finish(RunFinish::CouldNotRun)
    ));
}

#[test]
fn noop_mode_runs_nothing() {
    let mut config = Config::default();
    config.noop_mode = true;
    let m = Micromamba::new(&config);
    let mut run = m.stream_if_verbose(vec!["info"]);
    assert!(!run.is_streamed());
    assert!(matches!(
        run.advance(RunEvent::Begin),
        RunStep::Finish(RunFinish::Noop)
    ));
}

#[test]
fn stream_if_verbose_streams_in_verbose_mode() {
    let mut config = Config::default();
    config.verbose = true;
    let m = Micromamba::new(&config);
    assert!(m.stream_if_verbose(vec!["info"]).is_streamed());
}

#[test]
fn env_paths() {
    let config = Config::default();
    let m = Micromamba::new(&config);
    let q = m.bin_path_for_env("foo", WINDOWS);
    assert_eq!(q.bin_dir, "Scripts");
    match q.location {
        EnvLocation::Query(mut run) => match run.advance(RunEvent::Begin) {
            RunStep::Launch(inv) => assert_eq!(
                inv.args,
                vec!["info".to_string(), "--name".to_string(), "foo".to_string(), "--json".to_string()]
            ),
            _ => panic!("expected a launch"),
        },
        _ => panic!("expected a query"),
    }
    assert_eq!(m.bin_path_for_env("foo", LINUX).bin_dir, "bin");

    let mut noop = Config::default();
    noop.noop_mode = true;
    let m = Micromamba::new(&noop);
    match m.path_for_env("foo") {
        EnvLocation::Known(p) => assert_eq!(p, "/no-op/mode/path/for/env"),
        _ => panic!("expected the no-op path"),
    }
}

#[test]
fn create_env_dir_decisions() {
    let config = Config::default();
    let m = Micromamba::new(&config);
    match m.create_env_dir("foo", None, false, false) {
        Err(EnvDirError::NotLocated(msg)) => {
            assert_eq!(msg, "Could not determine path for environment 'foo'")
        }
        _ => panic!("expected NotLocated"),
    }
    match m.create_env_dir("foo", Some("/e/foo".to_string()), true, false) {
        Err(EnvDirError::AlreadyExists(msg)) => assert_eq!(
            msg,
            "The target environment directory '/e/foo' already exists"
        ),
        _ => panic!("expected AlreadyExists"),
    }
    let plan = m.create_env_dir("foo", Some("/e/foo".to_string()), true, true).ok().unwrap();
    assert_eq!(plan.action, EnvDirAction::RemoveThenCreate);
    let plan = m.create_env_dir("foo", Some("/e/foo".to_string()), false, false).ok().unwrap();
    assert_eq!(plan.action, EnvDirAction::Create);
    assert_eq!(plan.path, "/e/foo");

    let mut noop = Config::default();
    noop.noop_mode = true;
    let m = Micromamba::new(&noop);
    let plan = m.create_env_dir("foo", None, true, false).ok().unwrap();
    assert_eq!(plan.action, EnvDirAction::Keep);
    assert_eq!(plan.path, "/no-op/mode/path/for/env");
}

#[test]
fn launch_classification() {
    assert_eq!(launch_failure(true), LaunchOutcome::NotFound);
    assert_eq!(launch_failure(false), LaunchOutcome::CouldNotRun);
    assert!(is_missing_dll(WINDOWS, Some(0xc0000135u32 as i32)));
    assert!(!is_missing_dll(LINUX, Some(0xc0000135u32 as i32)));
    assert!(!is_missing_dll(WINDOWS, Some(1)));
    assert!(!is_missing_dll(WINDOWS, None));
}
