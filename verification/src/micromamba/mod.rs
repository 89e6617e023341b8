//! Calling `micromamba`: the environment variables handed to it, the commands
//! it is asked to run, and how a binary is found (in `$PATH`, else downloaded
//! into the cache directory).
pub mod download;

use vstd::prelude::*;

use crate::csmrc::Config;
use crate::platform::Platform;
use crate::text::{concat3, owned};
use crate::ExitCode;

verus! {

/// The part of `micromamba info --json` that `csm` reads.
pub struct MicromambaInfo {
    pub env_location: String,
}

/// The environment variables that a list of pairs sets; a later pair overrides
/// an earlier one with the same key.
pub open spec fn pairs_map(s: Seq<(String, String)>) -> Map<Seq<char>, Seq<char>>
    decreases s.len(),
{
    if s.len() == 0 {
        Map::empty()
    } else {
        pairs_map(s.drop_last()).insert(s.last().0@, s.last().1@)
    }
}

/// No key occurs twice in the list.
pub open spec fn keys_unique(s: Seq<(String, String)>) -> bool {
    forall|i: int, j: int|
        #![trigger s[i], s[j]]
        0 <= i < s.len() && 0 <= j < s.len() && i != j ==> s[i].0@ != s[j].0@
}

/// The texts of a list of strings.
pub open spec fn texts(s: Seq<String>) -> Seq<Seq<char>> {
    s.map_values(|x: String| x@)
}

/// The texts of a list of string slices.
pub open spec fn str_texts(s: Seq<&str>) -> Seq<Seq<char>> {
    s.map_values(|x: &str| x@)
}

proof fn lemma_pairs_map_push(s: Seq<(String, String)>, p: (String, String))
    ensures
        pairs_map(s.push(p)) == pairs_map(s).insert(p.0@, p.1@),
{
    assert(s.push(p).drop_last() =~= s);
}

proof fn lemma_pairs_map_update(s: Seq<(String, String)>, i: int, p: (String, String))
    requires
        keys_unique(s),
        0 <= i < s.len(),
        p.0@ == s[i].0@,
    ensures
        pairs_map(s.update(i, p)) == pairs_map(s).insert(p.0@, p.1@),
    decreases s.len(),
{
    let u = s.update(i, p);
    let t = s.drop_last();
    if i == s.len() - 1 {
        assert(u.drop_last() =~= t);
        assert(pairs_map(u) =~= pairs_map(s).insert(p.0@, p.1@));
    } else {
        assert(u.drop_last() =~= t.update(i, p));
        assert(keys_unique(t));
        lemma_pairs_map_update(t, i, p);
        assert(s.last().0@ != p.0@);
        assert(pairs_map(u) =~= pairs_map(s).insert(p.0@, p.1@));
    }
}

fn find_key(vars: &Vec<(String, String)>, key: &String) -> (r: Option<usize>)
    ensures
        match r {
            Some(i) => i < vars@.len() && vars@[i as int].0@ == key@,
            None => forall|j: int| 0 <= j < vars@.len() ==> #[trigger] vars@[j].0@ != key@,
        },
{
    let mut i: usize = 0;
    while i < vars.len()
        invariant
            i <= vars@.len(),
            forall|j: int| 0 <= j < i ==> #[trigger] vars@[j].0@ != key@,
        decreases vars@.len() - i,
    {
        if vars[i].0 == *key {
            return Some(i);
        }
        i = i + 1;
    }
    None
}

fn copy_pairs(vars: &Vec<(String, String)>) -> (r: Vec<(String, String)>)
    ensures
        r@ == vars@,
{
    let mut r: Vec<(String, String)> = Vec::new();
    let mut i: usize = 0;
    while i < vars.len()
        invariant
            i <= vars@.len(),
            r@ == vars@.subrange(0, i as int),
        decreases vars@.len() - i,
    {
        let k = vars[i].0.clone();
        let v = vars[i].1.clone();
        r.push((k, v));
        proof {
            assert(r@ =~= vars@.subrange(0, i + 1));
        }
        i = i + 1;
    }
    assert(r@ =~= vars@);
    r
}

fn copy_strings(v: &Vec<String>) -> (r: Vec<String>)
    ensures
        r@ == v@,
{
    let mut r: Vec<String> = Vec::new();
    let mut i: usize = 0;
    while i < v.len()
        invariant
            i <= v@.len(),
            r@ == v@.subrange(0, i as int),
        decreases v@.len() - i,
    {
        r.push(v[i].clone());
        proof {
            assert(r@ =~= v@.subrange(0, i + 1));
        }
        i = i + 1;
    }
    assert(r@ =~= v@);
    r
}

fn owned_strings(v: &Vec<&str>) -> (r: Vec<String>)
    ensures
        texts(r@) == str_texts(v@),
{
    let mut r: Vec<String> = Vec::new();
    let mut i: usize = 0;
    while i < v.len()
        invariant
            i <= v@.len(),
            r@.len() == i,
            texts(r@) == str_texts(v@.subrange(0, i as int)),
        decreases v@.len() - i,
    {
        let ghost old_r = r@;
        r.push(owned(v[i]));
        proof {
            assert forall|j: int| 0 <= j < i + 1 implies #[trigger] texts(r@)[j] == str_texts(
                v@.subrange(0, i + 1),
            )[j] by {
                if j < i {
                    assert(r@[j] == old_r[j]);
                    assert(texts(old_r)[j] == str_texts(v@.subrange(0, i as int))[j]);
                }
            }
            assert(texts(r@) =~= str_texts(v@.subrange(0, i + 1)));
        }
        i = i + 1;
    }
    assert(v@.subrange(0, v@.len() as int) =~= v@);
    r
}

/// A command ready to be run: the program, its arguments, and the
/// environment variables it gets on top of the inherited ones.
pub struct Invocation {
    pub program: String,
    pub args: Vec<String>,
    pub env_vars: Vec<(String, String)>,
}

impl Invocation {
    /// The command runs `program` with `args`, with exactly the variables `env` set.
    pub open spec fn runs(self, program: Seq<char>, args: Seq<Seq<char>>, env: Map<Seq<char>, Seq<char>>) -> bool {
        &&& self.program@ == program
        &&& texts(self.args@) == args
        &&& pairs_map(self.env_vars@) == env
        &&& keys_unique(self.env_vars@)
    }
}

/// Calls `micromamba` with the settings of a `Config`.
pub struct Micromamba<'a> {
    config: &'a Config,
    env_vars: Vec<(String, String)>,
}

/// The variables that the settings alone ask for.
pub open spec fn initial_env(config: &Config) -> Map<Seq<char>, Seq<char>> {
    match config.mamba_root_prefix {
        Some(p) => Map::empty().insert("MAMBA_ROOT_PREFIX"@, p@),
        None => Map::empty(),
    }
}

/// The path that stands for every environment in no-op mode.
pub open spec fn noop_env_path() -> Seq<char> {
    "/no-op/mode/path/for/env"@
}

/// How the location of an environment is learnt.
pub enum EnvLocation {
    /// It is known without asking (no-op mode).
    Known(String),
    /// `micromamba info --json` must be captured; its `env location` is the answer.
    Query(MicromambaRun),
}

/// Where the binaries of an environment are: `bin_dir` below its location.
pub struct BinPathQuery {
    pub location: EnvLocation,
    pub bin_dir: &'static str,
}

/// What to do on disk for a new environment directory.
#[derive(Clone, Copy, Debug, PartialEq, Eq, Structural)]
pub enum EnvDirAction {
    /// Nothing (no-op mode).
    Keep,
    /// Create the directory (and its parents).
    Create,
    /// Remove what is there, then create the directory.
    RemoveThenCreate,
}

pub struct EnvDirPlan {
    pub path: String,
    pub action: EnvDirAction,
}

/// Why a directory for a new environment cannot be made.
pub enum EnvDirError {
    /// The environment's location could not be determined.
    NotLocated(String),
    /// The directory exists and replacing it was not asked for.
    AlreadyExists(String),
}

impl<'a> Micromamba<'a> {
    #[verifier::type_invariant]
    spec fn inv(self) -> bool {
        keys_unique(self.env_vars@)
    }

    /// The environment variables that `micromamba` will be given.
    pub closed spec fn env(self) -> Map<Seq<char>, Seq<char>> {
        pairs_map(self.env_vars@)
    }

    /// The settings in use.
    pub closed spec fn settings(self) -> &'a Config {
        self.config
    }

    pub fn new(config: &'a Config) -> (r: Micromamba<'a>)
        ensures
            r.settings() == config,
            r.env() == initial_env(config),
    {
        let mut micromamba = Micromamba { config, env_vars: Vec::new() };
        if let Some(mamba_root_prefix) = &config.mamba_root_prefix {
            micromamba.set_env_var("MAMBA_ROOT_PREFIX", mamba_root_prefix.as_str());
        }
        micromamba
    }

    /// Set (or replace) one environment variable for `micromamba`.
    pub fn set_env_var(&mut self, key: &str, value: &str)
        ensures
            final(self).env() == old(self).env().insert(key@, value@),
            final(self).settings() == old(self).settings(),
    {
        proof {
            use_type_invariant(&*self);
        }
        let key_s = owned(key);
        let value_s = owned(value);
        let mut vars: Vec<(String, String)> = Vec::new();
        std::mem::swap(&mut vars, &mut self.env_vars);
        let ghost before = vars@;
        match find_key(&vars, &key_s) {
            Some(i) => {
                let ghost p = (key_s, value_s);
                vars.set(i, (key_s, value_s));
                proof {
                    lemma_pairs_map_update(before, i as int, p);
                    assert(vars@ == before.update(i as int, p));
                }
            },
            None => {
                let ghost p = (key_s, value_s);
                vars.push((key_s, value_s));
                proof {
                    lemma_pairs_map_push(before, p);
                    assert(vars@ == before.push(p));
                }
            },
        }
        self.env_vars = vars;
    }

    /// The environment variables, as a list in which no key occurs twice.
    pub fn env_var_pairs(&self) -> (r: Vec<(String, String)>)
        ensures
            pairs_map(r@) == self.env(),
            keys_unique(r@),
    {
        proof {
            use_type_invariant(self);
        }
        copy_pairs(&self.env_vars)
    }

    /// A run of `micromamba` with `args`: the binary in `$PATH` is tried first,
    /// then one downloaded into the cache directory. In no-op mode nothing runs.
    pub fn micromamba(&self, args: Vec<&str>, stream_output: bool) -> (r: MicromambaRun)
        ensures
            r.phase() == RunPhase::Start,
            r.arg_texts() == str_texts(args@),
            r.env() == self.env(),
            r.streams_output() == stream_output,
            r.noop() == self.settings().noop_mode,
    {
        proof {
            use_type_invariant(self);
        }
        let run = MicromambaRun {
            args: owned_strings(&args),
            env_vars: copy_pairs(&self.env_vars),
            stream_output,
            noop: self.config.noop_mode,
            phase: RunPhase::Start,
        };
        run
    }

    /// Run `micromamba`, streaming its output to the console.
    pub fn stream(&self, args: Vec<&str>) -> (r: MicromambaRun)
        ensures
            r.phase() == RunPhase::Start,
            r.arg_texts() == str_texts(args@),
            r.env() == self.env(),
            r.streams_output(),
            r.noop() == self.settings().noop_mode,
    {
        self.micromamba(args, true)
    }

    /// Run `micromamba`, capturing its output to be shown in case of an error.
    pub fn capture(&self, args: Vec<&str>) -> (r: MicromambaRun)
        ensures
            r.phase() == RunPhase::Start,
            r.arg_texts() == str_texts(args@),
            r.env() == self.env(),
            !r.streams_output(),
            r.noop() == self.settings().noop_mode,
    {
        self.micromamba(args, false)
    }

    /// Stream the output in verbose mode, capture it otherwise.
    pub fn stream_if_verbose(&self, args: Vec<&str>) -> (r: MicromambaRun)
        ensures
            r.phase() == RunPhase::Start,
            r.arg_texts() == str_texts(args@),
            r.env() == self.env(),
            r.streams_output() == self.settings().verbose,
            r.noop() == self.settings().noop_mode,
    {
        if self.config.verbose {
            self.micromamba(args, true)
        } else {
            self.micromamba(args, false)
        }
    }

    /// How to learn where the environment `name` lives: asked of
    /// `micromamba info --name <name> --json`, except in no-op mode.
    pub fn path_for_env(&self, name: &str) -> (r: EnvLocation)
        ensures
            self.settings().noop_mode ==> (r matches EnvLocation::Known(p) && p@ == noop_env_path()),
            !self.settings().noop_mode ==> (r matches EnvLocation::Query(q) && q.phase()
                == RunPhase::Start && q.arg_texts() == seq!["info"@, "--name"@, name@, "--json"@]
                && q.env() == self.env() && !q.streams_output() && !q.noop()),
    {
        if self.config.noop_mode {
            return EnvLocation::Known(owned("/no-op/mode/path/for/env"));
        }
        let args: Vec<&str> = vec!["info", "--name", name, "--json"];
        let q = self.capture(args);
        assert(str_texts(args@) =~= seq!["info"@, "--name"@, name@, "--json"@]);
        EnvLocation::Query(q)
    }

    /// Where the binaries of the environment `name` are: `Scripts` below its
    /// location on Windows, `bin` elsewhere.
    pub fn bin_path_for_env(&self, name: &str, platform: Platform) -> (r: BinPathQuery)
        ensures
            r.bin_dir@ == (if platform.os == crate::platform::TargetOs::Windows {
                "Scripts"@
            } else {
                "bin"@
            }),
            self.settings().noop_mode ==> (r.location matches EnvLocation::Known(p) && p@
                == noop_env_path()),
            !self.settings().noop_mode ==> (r.location matches EnvLocation::Query(q) && q.phase()
                == RunPhase::Start && q.arg_texts() == seq!["info"@, "--name"@, name@, "--json"@]
                && q.env() == self.env() && !q.streams_output() && !q.noop()),
    {
        let bin_dir = if platform.is_windows() {
            "Scripts"
        } else {
            "bin"
        };
        BinPathQuery { location: self.path_for_env(name), bin_dir }
    }

    /// What to do for a new environment directory, given where the
    /// environment `name` lives (`located`), whether something exists there,
    /// and whether it may be replaced (`force`).
    pub fn create_env_dir(&self, name: &str, located: Option<String>, exists: bool, force: bool) -> (r:
        Result<EnvDirPlan, EnvDirError>)
        ensures
            self.settings().noop_mode ==> (r matches Ok(plan) && plan.path@ == noop_env_path()
                && plan.action == EnvDirAction::Keep),
            !self.settings().noop_mode ==> match located {
                None => r matches Err(EnvDirError::NotLocated(m)) && m@
                    == "Could not determine path for environment '"@ + name@ + "'"@,
                Some(p) => if exists && !force {
                    r matches Err(EnvDirError::AlreadyExists(m)) && m@
                        == "The target environment directory '"@ + p@ + "' already exists"@
                } else {
                    r matches Ok(plan) && plan.path == p && plan.action == (if exists {
                        EnvDirAction::RemoveThenCreate
                    } else {
                        EnvDirAction::Create
                    })
                },
            },
    {
        if self.config.noop_mode {
            return Ok(
                EnvDirPlan { path: owned("/no-op/mode/path/for/env"), action: EnvDirAction::Keep },
            );
        }
        match located {
            None => Err(
                EnvDirError::NotLocated(
                    concat3("Could not determine path for environment '", name, "'"),
                ),
            ),
            Some(p) => {
                if exists {
                    if force {
                        Ok(EnvDirPlan { path: p, action: EnvDirAction::RemoveThenCreate })
                    } else {
                        Err(
                            EnvDirError::AlreadyExists(
                                concat3(
                                    "The target environment directory '",
                                    p.as_str(),
                                    "' already exists",
                                ),
                            ),
                        )
                    }
                } else {
                    Ok(EnvDirPlan { path: p, action: EnvDirAction::Create })
                }
            },
        }
    }
}

/// What running `micromamba` gave.
pub enum MicromambaResult {
    /// It ran with its output streamed; whether it exited successfully, and
    /// its exit code where it has one.
    StreamedOutput { success: bool, code: Option<i32> },
    /// It ran with its output captured.
    CapturedOutput { success: bool, code: Option<i32>, stdout: Vec<u8>, stderr: Vec<u8> },
    /// No binary could be run.
    CouldNotRun,
    /// There was no binary to run.
    NotFound,
    /// No-op mode: nothing was run.
    Noop,
}

impl MicromambaResult {
    /// The result counts as success: nothing was run in no-op mode, or the
    /// binary ran and exited successfully.
    pub open spec fn succeeded(self) -> bool {
        match self {
            MicromambaResult::StreamedOutput { success, .. } => success,
            MicromambaResult::CapturedOutput { success, .. } => success,
            MicromambaResult::Noop => true,
            _ => false,
        }
    }

    /// The exit code that the result amounts to.
    pub fn exit_code(&self) -> (r: ExitCode)
        ensures
            r == (if self.succeeded() {
                ExitCode::Success
            } else {
                ExitCode::Failure
            }),
    {
        let ok = match self {
            MicromambaResult::StreamedOutput { success, .. } => *success,
            MicromambaResult::CapturedOutput { success, .. } => *success,
            MicromambaResult::Noop => true,
            _ => false,
        };
        if ok {
            ExitCode::Success
        } else {
            ExitCode::Failure
        }
    }

    /// The exit code of the binary, where it ran and has one.
    pub fn code(&self) -> (r: Option<i32>)
        ensures
            r == match self {
                MicromambaResult::StreamedOutput { code, .. } => *code,
                MicromambaResult::CapturedOutput { code, .. } => *code,
                _ => None,
            },
    {
        match self {
            MicromambaResult::StreamedOutput { code, .. } => *code,
            MicromambaResult::CapturedOutput { code, .. } => *code,
            _ => None,
        }
    }

    /// Whether the output was captured.
    pub fn is_captured(&self) -> (r: bool)
        ensures
            r == (*self is CapturedOutput),
    {
        match self {
            MicromambaResult::CapturedOutput { .. } => true,
            _ => false,
        }
    }
}

/// How an attempt to run a `micromamba` binary went.
#[derive(Clone, Copy, Debug, PartialEq, Eq, Structural)]
pub enum LaunchOutcome {
    /// It ran (whatever its exit status).
    Ran,
    /// There is no binary at that path.
    NotFound,
    /// A binary is there but could not be run or waited for.
    CouldNotRun,
}

/// The outcome of a failed attempt to run a binary: `NotFound` when the
/// operating system reported that the binary does not exist.
pub fn launch_failure(not_found: bool) -> (r: LaunchOutcome)
    ensures
        r == (if not_found {
            LaunchOutcome::NotFound
        } else {
            LaunchOutcome::CouldNotRun
        }),
{
    if not_found {
        LaunchOutcome::NotFound
    } else {
        LaunchOutcome::CouldNotRun
    }
}

/// The exit code with which Windows reports a DLL that a program needs as
/// missing (`0xc0000135` read as an `i32`).
pub open spec fn missing_dll_code() -> i32 {
    -1073741515i32
}

/// Whether an exit code means that Windows could not find a DLL needed to run
/// `micromamba` (usually the VC++ runtime).
pub fn is_missing_dll(platform: Platform, code: Option<i32>) -> (r: bool)
    ensures
        r == (platform.os == crate::platform::TargetOs::Windows && code == Some(missing_dll_code())),
{
    if platform.is_windows() {
        match code {
            Some(c) => c == -1073741515i32,
            None => false,
        }
    } else {
        false
    }
}

/// Where a run of `micromamba` stands.
#[derive(Clone, Copy, Debug, PartialEq, Eq, Structural)]
pub enum RunPhase {
    /// Nothing has happened yet.
    Start,
    /// The binary in `$PATH` is being run.
    InPath,
    /// A binary is being downloaded into the cache directory.
    Fetching,
    /// The downloaded binary is being run.
    Cached,
    /// The run is over.
    Done,
}

/// What the caller reports back to a run.
pub enum RunEvent {
    /// Start the run.
    Begin,
    /// The binary that the last step asked to run was tried.
    Launched(LaunchOutcome),
    /// The download finished: the path of the binary, or `None` if it failed.
    Fetched(Option<String>),
}

/// How a run of `micromamba` ended.
#[derive(Clone, Copy, Debug, PartialEq, Eq, Structural)]
pub enum RunFinish {
    /// No-op mode: nothing was run.
    Noop,
    /// The result is that of the binary that ran last.
    Output,
    /// No binary could be run.
    CouldNotRun,
}

/// What the caller must do next for a run.
pub enum RunStep {
    /// Run this command and report `Launched`.
    Launch(Invocation),
    /// Download `micromamba` into the cache directory and report `Fetched`.
    Fetch,
    /// The run is over.
    Finish(RunFinish),
}

/// The next step of a run, in terms of what is run.
pub enum Plan {
    LaunchFromPath,
    LaunchDownloaded(Seq<char>),
    Fetch,
    Finish(RunFinish),
}

/// The decisions of a run: from the phase it is in and what was reported, the
/// next phase and step.
pub open spec fn spec_next(phase: RunPhase, noop: bool, event: RunEvent) -> (RunPhase, Plan) {
    match (phase, event) {
        (RunPhase::Start, RunEvent::Begin) => if noop {
            (RunPhase::Done, Plan::Finish(RunFinish::Noop))
        } else {
            (RunPhase::InPath, Plan::LaunchFromPath)
        },
        (RunPhase::InPath, RunEvent::Launched(o)) => match o {
            LaunchOutcome::Ran => (RunPhase::Done, Plan::Finish(RunFinish::Output)),
            LaunchOutcome::NotFound => (RunPhase::Fetching, Plan::Fetch),
            LaunchOutcome::CouldNotRun => (RunPhase::Done, Plan::Finish(RunFinish::CouldNotRun)),
        },
        (RunPhase::Fetching, RunEvent::Fetched(Some(p))) => (
            RunPhase::Cached,
            Plan::LaunchDownloaded(p@),
        ),
        (RunPhase::Cached, RunEvent::Launched(LaunchOutcome::Ran)) => (
            RunPhase::Done,
            Plan::Finish(RunFinish::Output),
        ),
        _ => (RunPhase::Done, Plan::Finish(RunFinish::CouldNotRun)),
    }
}

/// How many more times a run may still start a binary from a phase.
pub open spec fn launches_left(phase: RunPhase) -> nat {
    match phase {
        RunPhase::Start => 2,
        RunPhase::InPath => 1,
        RunPhase::Fetching => 1,
        RunPhase::Cached => 0,
        RunPhase::Done => 0,
    }
}

/// The plan starts a binary.
pub open spec fn plan_launches(plan: Plan) -> bool {
    plan is LaunchFromPath || plan is LaunchDownloaded
}

/// A run of `micromamba`: the caller performs each step and reports what
/// happened; the run decides what comes next.
pub struct MicromambaRun {
    args: Vec<String>,
    env_vars: Vec<(String, String)>,
    stream_output: bool,
    noop: bool,
    phase: RunPhase,
}

impl MicromambaRun {
    #[verifier::type_invariant]
    spec fn inv(self) -> bool {
        &&& keys_unique(self.env_vars@)
        &&& self.noop ==> (self.phase == RunPhase::Start || self.phase == RunPhase::Done)
    }

    pub closed spec fn phase(self) -> RunPhase {
        self.phase
    }

    pub closed spec fn arg_texts(self) -> Seq<Seq<char>> {
        texts(self.args@)
    }

    pub closed spec fn env(self) -> Map<Seq<char>, Seq<char>> {
        pairs_map(self.env_vars@)
    }

    pub closed spec fn streams_output(self) -> bool {
        self.stream_output
    }

    pub closed spec fn noop(self) -> bool {
        self.noop
    }

    /// The step agrees with the plan: a launch runs the planned program with
    /// the run's arguments and environment.
    pub open spec fn step_agrees(self, step: RunStep, plan: Plan) -> bool {
        match plan {
            Plan::LaunchFromPath => step matches RunStep::Launch(inv) && inv.runs(
                "micromamba"@,
                self.arg_texts(),
                self.env(),
            ),
            Plan::LaunchDownloaded(p) => step matches RunStep::Launch(inv) && inv.runs(
                p,
                self.arg_texts(),
                self.env(),
            ),
            Plan::Fetch => step is Fetch,
            Plan::Finish(f) => step matches RunStep::Finish(g) && g == f,
        }
    }

    /// Whether the output is streamed to the console (rather than captured).
    pub fn is_streamed(&self) -> (r: bool)
        ensures
            r == self.streams_output(),
    {
        self.stream_output
    }

    /// The arguments that `micromamba` is run with.
    pub fn arguments(&self) -> (r: Vec<String>)
        ensures
            texts(r@) == self.arg_texts(),
    {
        copy_strings(&self.args)
    }

    /// The environment variables that the run hands to `micromamba`, as a list
    /// in which no key occurs twice.
    pub fn env_var_pairs(&self) -> (r: Vec<(String, String)>)
        ensures
            pairs_map(r@) == self.env(),
            keys_unique(r@),
    {
        proof {
            use_type_invariant(self);
        }
        copy_pairs(&self.env_vars)
    }

    /// Report what happened and learn the next step.
    pub fn advance(&mut self, event: RunEvent) -> (r: RunStep)
        ensures
            final(self).phase() == spec_next(old(self).phase(), old(self).noop(), event).0,
            old(self).step_agrees(r, spec_next(old(self).phase(), old(self).noop(), event).1),
            final(self).arg_texts() == old(self).arg_texts(),
            final(self).env() == old(self).env(),
            final(self).streams_output() == old(self).streams_output(),
            final(self).noop() == old(self).noop(),
            old(self).noop() ==> !(r is Launch) && !(r is Fetch),
    {
        proof {
            use_type_invariant(&*self);
        }
        let (next, step) = match (self.phase, event) {
            (RunPhase::Start, RunEvent::Begin) => {
                if self.noop {
                    (RunPhase::Done, RunStep::Finish(RunFinish::Noop))
                } else {
                    (RunPhase::InPath, RunStep::Launch(self.micromamba_at("micromamba")))
                }
            },
            (RunPhase::InPath, RunEvent::Launched(o)) => match o {
                LaunchOutcome::Ran => (RunPhase::Done, RunStep::Finish(RunFinish::Output)),
                LaunchOutcome::NotFound => (RunPhase::Fetching, RunStep::Fetch),
                LaunchOutcome::CouldNotRun => (
                    RunPhase::Done,
                    RunStep::Finish(RunFinish::CouldNotRun),
                ),
            },
            (RunPhase::Fetching, RunEvent::Fetched(Some(p))) => (
                RunPhase::Cached,
                RunStep::Launch(self.micromamba_at(p.as_str())),
            ),
            (RunPhase::Cached, RunEvent::Launched(LaunchOutcome::Ran)) => (
                RunPhase::Done,
                RunStep::Finish(RunFinish::Output),
            ),
            _ => (RunPhase::Done, RunStep::Finish(RunFinish::CouldNotRun)),
        };
        self.phase = next;
        step
    }

    /// The command that runs the `micromamba` at `path` with the run's
    /// arguments and environment variables.
    fn micromamba_at(&self, path: &str) -> (r: Invocation)
        ensures
            r.runs(path@, self.arg_texts(), self.env()),
    {
        proof {
            use_type_invariant(self);
        }
        Invocation {
            program: owned(path),
            args: copy_strings(&self.args),
            env_vars: copy_pairs(&self.env_vars),
        }
    }
}

/// A run starts a binary at most twice, once from `$PATH` and once from the
/// cache directory: every step that starts one uses up one of the launches left.
pub proof fn lemma_at_most_two_launches(phase: RunPhase, noop: bool, event: RunEvent)
    ensures
        launches_left(spec_next(phase, noop, event).0) + (if plan_launches(
            spec_next(phase, noop, event).1,
        ) {
            1nat
        } else {
            0nat
        }) <= launches_left(phase),
{
}

/// `micromamba` is downloaded only after the one in `$PATH` was found missing;
/// one that exists but cannot be run is never replaced by a download.
pub proof fn lemma_download_only_when_missing(phase: RunPhase, noop: bool, event: RunEvent)
    ensures
        spec_next(phase, noop, event).1 is Fetch ==> (phase == RunPhase::InPath && (event matches RunEvent::Launched(o) && o == LaunchOutcome::NotFound)),
        (phase == RunPhase::InPath && (event matches RunEvent::Launched(o) && o == LaunchOutcome::CouldNotRun)) ==> spec_next(phase, noop, event).1 == Plan::Finish(RunFinish::CouldNotRun),
{
}

/// A binary that ran ends the run with its own output, whether it was the one
/// in `$PATH` or the downloaded one; a run is reported as `CouldNotRun` only
/// when the last binary tried did not run.
pub proof fn lemma_ran_binary_gives_its_output(phase: RunPhase, noop: bool, event: RunEvent)
    ensures
        (phase == RunPhase::InPath || phase == RunPhase::Cached) && (event matches RunEvent::Launched(o) && o == LaunchOutcome::Ran)
            ==> spec_next(phase, noop, event) == (RunPhase::Done, Plan::Finish(RunFinish::Output)),
        spec_next(phase, noop, event).1 == Plan::Finish(RunFinish::CouldNotRun) ==> !(event matches RunEvent::Launched(o) && o == LaunchOutcome::Ran && (phase == RunPhase::InPath || phase == RunPhase::Cached)),
        spec_next(phase, noop, event).1 == Plan::Finish(RunFinish::Output) ==> (event matches RunEvent::Launched(o) && o == LaunchOutcome::Ran && (phase == RunPhase::InPath || phase == RunPhase::Cached)),
{
}

} // verus!
