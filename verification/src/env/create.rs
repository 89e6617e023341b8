//! `csm env create`: SSL/TLS options for `micromamba`, the environment's name,
//! the creation itself, and the optional post-creation setup.
use vstd::prelude::*;

use crate::csmrc::{Config, EnvCreateConfig};
use crate::env::{determine_env_name, spec_determine_env_name, CommonArgs};
use crate::micromamba::{str_texts, Micromamba, MicromambaRun, RunPhase};
use crate::text::{clone_opt, opt_view, owned, same_text};
use crate::ExitCode;

verus! {

/// The arguments of `csm env create`.
pub struct Args {
    pub common: CommonArgs,
    /// If specified, overrides the post-creation setup file.
    pub setup_file: Option<String>,
    /// "true" to verify SSL/TLS certificates with the system chain, "false" to
    /// disable verification, or the path to a custom chain (PEM file).
    pub ssl_verify: Option<String>,
    /// Disable SSL/TLS revokation checking in micromamba.
    pub ssl_no_revoke: bool,
}

/// Whether to verify certificates, and with which bundle: `--ssl-verify`
/// decides when given, the configuration otherwise.
pub open spec fn spec_resolve_ssl(cli: Option<Seq<char>>, cfg: EnvCreateConfig) -> (bool, Option<Seq<char>>) {
    match cli {
        Some(b) => if b == "false"@ {
            (false, None)
        } else if b == "true"@ {
            (true, None)
        } else {
            (true, Some(b))
        },
        None => (cfg.ssl_verify, opt_view(cfg.ssl_bundle)),
    }
}

/// The environment variables that pass the SSL/TLS settings on to
/// `micromamba` and `pip`, set on top of `env`.
pub open spec fn spec_ssl_env(
    env: Map<Seq<char>, Seq<char>>,
    verify: bool,
    bundle: Option<Seq<char>>,
    no_revoke: bool,
) -> Map<Seq<char>, Seq<char>> {
    let with_verification = if verify && bundle is Some {
        env.insert("PIP_CERT"@, bundle->0).insert("REQUESTS_CA_BUNDLE"@, bundle->0).insert(
            "CURL_CA_BUNDLE"@,
            bundle->0,
        )
    } else if !verify {
        env.insert("PIP_CERT"@, ""@).insert("REQUESTS_CA_BUNDLE"@, ""@).insert(
            "CURL_CA_BUNDLE"@,
            ""@,
        ).insert("PIP_TRUSTED_HOST"@, "pypi.org files.pythonhosted.org pypi.pythonhosted.org"@).insert(
            "PIP_INDEX_URL"@,
            "https://pypi.org/simple"@,
        )
    } else {
        env
    };
    if no_revoke {
        with_verification.insert("MAMBA_SSL_NO_REVOKE"@, "true"@)
    } else {
        with_verification
    }
}

/// The variables that `args` and `config` ask for, set on top of `env`.
pub open spec fn spec_configured_env(env: Map<Seq<char>, Seq<char>>, args: Args, config: Config) -> Map<
    Seq<char>,
    Seq<char>,
> {
    let (verify, bundle) = spec_resolve_ssl(opt_view(args.ssl_verify), config.env_create);
    spec_ssl_env(env, verify, bundle, args.ssl_no_revoke || config.env_create.ssl_no_revoke)
}

/// The arguments with which `micromamba` creates the environment.
pub open spec fn spec_create_command(env_file: Seq<char>, env_name: Seq<char>) -> Seq<Seq<char>> {
    seq!["env"@, "create"@, "--file"@, env_file, "--name"@, env_name, "--yes"@]
}

/// The post-creation setup file, and whether it must exist.
pub open spec fn spec_setup_file_choice(setup_file: Option<Seq<char>>) -> (Seq<char>, bool) {
    match setup_file {
        None => ("robotmk-setup.yaml"@, false),
        Some(p) => (p, true),
    }
}

/// Whether to verify certificates, and with which bundle.
pub fn resolve_ssl(cli: &Option<String>, cfg: &EnvCreateConfig) -> (r: (bool, Option<String>))
    ensures
        (r.0, opt_view(r.1)) == spec_resolve_ssl(opt_view(*cli), *cfg),
{
    match cli {
        Some(b) => {
            if same_text(b.as_str(), "false") {
                (false, None)
            } else if same_text(b.as_str(), "true") {
                (true, None)
            } else {
                (true, Some(b.clone()))
            }
        },
        None => (cfg.ssl_verify, clone_opt(&cfg.ssl_bundle)),
    }
}

/// Hand the SSL/TLS settings of `args` and `config` to `micromamba`.
pub fn configure_ssl(micromamba: &mut Micromamba, args: &Args, config: &Config)
    ensures
        final(micromamba).env() == spec_configured_env(old(micromamba).env(), *args, *config),
        final(micromamba).settings() == old(micromamba).settings(),
{
    let (ssl_verify, ssl_bundle) = resolve_ssl(&args.ssl_verify, &config.env_create);
    if ssl_verify && ssl_bundle.is_some() {
        let bundle = ssl_bundle.unwrap();
        micromamba.set_env_var("PIP_CERT", bundle.as_str());
        micromamba.set_env_var("REQUESTS_CA_BUNDLE", bundle.as_str());
        micromamba.set_env_var("CURL_CA_BUNDLE", bundle.as_str());
    } else if !ssl_verify {
        micromamba.set_env_var("PIP_CERT", "");
        micromamba.set_env_var("REQUESTS_CA_BUNDLE", "");
        micromamba.set_env_var("CURL_CA_BUNDLE", "");
        micromamba.set_env_var(
            "PIP_TRUSTED_HOST",
            "pypi.org files.pythonhosted.org pypi.pythonhosted.org",
        );
        micromamba.set_env_var("PIP_INDEX_URL", "https://pypi.org/simple");
    }
    let ssl_no_revoke = args.ssl_no_revoke || config.env_create.ssl_no_revoke;
    if ssl_no_revoke {
        micromamba.set_env_var("MAMBA_SSL_NO_REVOKE", "true");
    }
}

/// The post-creation setup file, and whether it must exist.
pub fn setup_file_choice(setup_file: &Option<String>) -> (r: (String, bool))
    ensures
        (r.0@, r.1) == spec_setup_file_choice(opt_view(*setup_file)),
{
    match setup_file {
        None => (owned("robotmk-setup.yaml"), false),
        Some(p) => (p.clone(), true),
    }
}

/// Where the creation of an environment stands.
#[derive(Clone, Copy, Debug, PartialEq, Eq, Structural)]
pub enum CreatePhase {
    /// Nothing has happened yet.
    Start,
    /// An explicit setup file is being looked for.
    CheckingSetup,
    /// The environment's name is being determined.
    Naming,
    /// `micromamba` is creating the environment.
    Running,
    /// The setup file is being read.
    ReadingSetup,
    /// The post-creation setup is running.
    PostCreate,
    /// It is over.
    Done,
}

/// What reading the setup file gave.
#[derive(Clone, Copy, Debug, PartialEq, Eq, Structural)]
pub enum SetupRead {
    /// There is no such file.
    NotFound,
    /// The file exists but could not be read or parsed.
    Unreadable,
    /// The file was read.
    Found,
}

/// What the caller reports back.
pub enum CreateEvent {
    /// Start.
    Begin,
    /// Whether the explicit setup file exists.
    SetupFileChecked(bool),
    /// The sources of a name other than the command line: the `name` of the env
    /// file and the name of the current directory, where there are such.
    NameSources { env_file_name: Option<String>, cwd_name: Option<String> },
    /// `micromamba` finished; whether it succeeded.
    MicromambaFinished(bool),
    /// What reading the setup file gave.
    SetupFileRead(SetupRead),
    /// The post-creation setup finished; whether it succeeded.
    PostCreateFinished(bool),
}

/// What the caller must do next.
pub enum CreateStep {
    /// Report whether this explicit setup file exists.
    CheckSetupFile(String),
    /// Read the env file at this path and the current directory, and report
    /// the names they give.
    DetermineName(String),
    /// Perform this run of `micromamba`, which creates the environment
    /// `env_name`, and report whether it succeeded.
    RunMicromamba { run: MicromambaRun, env_name: String },
    /// Read this setup file and report how that went; `required` says
    /// whether it was asked for explicitly.
    ReadSetup { path: String, required: bool },
    /// Run the post-creation setup for this environment.
    RunPostCreate(String),
    /// It is over, with this result.
    Finish(Result<(), ExitCode>),
}

/// The next step, by what it holds.
pub enum CreatePlan {
    CheckSetupFile(Seq<char>),
    DetermineName(Seq<char>),
    RunMicromamba(Seq<Seq<char>>, Seq<char>),
    ReadSetup(Seq<char>, bool),
    RunPostCreate(Seq<char>),
    Finish(Result<(), ExitCode>),
}

/// The decisions of `env create`: from the phase, the name chosen so far and
/// what was reported, the next phase, the name, whether the SSL/TLS settings
/// are handed to `micromamba` now, and the next step.
pub open spec fn spec_create_next(
    phase: CreatePhase,
    args: Args,
    name: Option<Seq<char>>,
    event: CreateEvent,
) -> (CreatePhase, Option<Seq<char>>, bool, CreatePlan) {
    match (phase, event) {
        (CreatePhase::Start, CreateEvent::Begin) => match args.setup_file {
            Some(p) => (CreatePhase::CheckingSetup, name, false, CreatePlan::CheckSetupFile(p@)),
            None => (
                CreatePhase::Naming,
                name,
                true,
                CreatePlan::DetermineName(args.common.env_file@),
            ),
        },
        (CreatePhase::CheckingSetup, CreateEvent::SetupFileChecked(exists)) => if exists {
            (CreatePhase::Naming, name, true, CreatePlan::DetermineName(args.common.env_file@))
        } else {
            (CreatePhase::Done, name, false, CreatePlan::Finish(Err(ExitCode::Failure)))
        },
        (CreatePhase::Naming, CreateEvent::NameSources { env_file_name, cwd_name }) => {
            match spec_determine_env_name(
                opt_view(args.common.name),
                opt_view(env_file_name),
                opt_view(cwd_name),
            ) {
                Some(n) => (
                    CreatePhase::Running,
                    Some(n),
                    false,
                    CreatePlan::RunMicromamba(spec_create_command(args.common.env_file@, n), n),
                ),
                None => (CreatePhase::Done, name, false, CreatePlan::Finish(Err(ExitCode::Failure))),
            }
        },
        (CreatePhase::Running, CreateEvent::MicromambaFinished(ok)) => if ok {
            let (path, required) = spec_setup_file_choice(opt_view(args.setup_file));
            (CreatePhase::ReadingSetup, name, false, CreatePlan::ReadSetup(path, required))
        } else {
            (CreatePhase::Done, name, false, CreatePlan::Finish(Err(ExitCode::Failure)))
        },
        (CreatePhase::ReadingSetup, CreateEvent::SetupFileRead(read)) => match read {
            SetupRead::Found => (
                CreatePhase::PostCreate,
                name,
                false,
                CreatePlan::RunPostCreate(name->0),
            ),
            _ => (CreatePhase::Done, name, false, CreatePlan::Finish(Ok(()))),
        },
        (CreatePhase::PostCreate, CreateEvent::PostCreateFinished(ok)) => (
            CreatePhase::Done,
            name,
            false,
            CreatePlan::Finish(
                if ok {
                    Ok(())
                } else {
                    Err(ExitCode::Failure)
                },
            ),
        ),
        _ => (CreatePhase::Done, name, false, CreatePlan::Finish(Err(ExitCode::Failure))),
    }
}

/// The creation of an environment: the caller performs each step and reports
/// what happened; the flow decides what comes next.
pub struct CreateFlow<'a> {
    micromamba: Micromamba<'a>,
    args: Args,
    config: &'a Config,
    phase: CreatePhase,
    env_name: Option<String>,
}

/// Start creating an environment with `micromamba`, as `args` and `config` say.
pub fn run<'a>(micromamba: Micromamba<'a>, args: Args, config: &'a Config) -> (r: CreateFlow<'a>)
    ensures
        r.settings() == micromamba.settings(),
        r.phase() == CreatePhase::Start,
        r.args() == args,
        r.config() == config,
        r.env() == micromamba.env(),
        r.name() is None,
{
    CreateFlow { micromamba, args, config, phase: CreatePhase::Start, env_name: None }
}

impl<'a> CreateFlow<'a> {
    #[verifier::type_invariant]
    spec fn inv(self) -> bool {
        &&& (self.phase == CreatePhase::Running || self.phase == CreatePhase::ReadingSetup
            || self.phase == CreatePhase::PostCreate) ==> self.env_name is Some
    }

    pub closed spec fn phase(self) -> CreatePhase {
        self.phase
    }

    pub closed spec fn args(self) -> Args {
        self.args
    }

    pub closed spec fn config(self) -> &'a Config {
        self.config
    }

    /// The settings that `micromamba` is run with.
    pub closed spec fn settings(self) -> &'a Config {
        self.micromamba.settings()
    }

    /// The environment variables that `micromamba` gets.
    pub closed spec fn env(self) -> Map<Seq<char>, Seq<char>> {
        self.micromamba.env()
    }

    /// The name of the environment, once chosen.
    pub closed spec fn name(self) -> Option<Seq<char>> {
        opt_view(self.env_name)
    }

    /// The step agrees with the plan.
    pub open spec fn step_agrees(self, step: CreateStep, plan: CreatePlan, env: Map<Seq<char>, Seq<char>>) -> bool {
        match plan {
            CreatePlan::CheckSetupFile(p) => step matches CreateStep::CheckSetupFile(s) && s@ == p,
            CreatePlan::DetermineName(p) => step matches CreateStep::DetermineName(s) && s@ == p,
            CreatePlan::RunMicromamba(a, n) => step matches CreateStep::RunMicromamba { run: q, env_name } && env_name@ == n && q.phase()
                == RunPhase::Start && q.arg_texts() == a && q.env() == env && q.streams_output()
                == self.settings().verbose && q.noop() == self.settings().noop_mode,
            CreatePlan::ReadSetup(p, req) => step matches CreateStep::ReadSetup { path, required }
                && path@ == p && required == req,
            CreatePlan::RunPostCreate(n) => step matches CreateStep::RunPostCreate(s) && s@ == n,
            CreatePlan::Finish(res) => step matches CreateStep::Finish(r) && r == res,
        }
    }

    /// Hand the SSL/TLS settings to `micromamba`.
    fn configure(&mut self)
        ensures
            final(self).env() == spec_configured_env(old(self).env(), old(self).args(), *old(self).config()),
            final(self).phase() == old(self).phase(),
            final(self).name() == old(self).name(),
            final(self).args() == old(self).args(),
            final(self).config() == old(self).config(),
            final(self).settings() == old(self).settings(),
    {
        proof {
            use_type_invariant(&*self);
        }
        let mut m = Micromamba::new(self.config);
        std::mem::swap(&mut m, &mut self.micromamba);
        configure_ssl(&mut m, &self.args, self.config);
        std::mem::swap(&mut m, &mut self.micromamba);
    }

    /// Report what happened and learn the next step.
    pub fn advance(&mut self, event: CreateEvent) -> (r: CreateStep)
        ensures
            ({
                let next = spec_create_next(old(self).phase(), old(self).args(), old(self).name(), event);
                &&& final(self).phase() == next.0
                &&& final(self).name() == next.1
                &&& final(self).env() == (if next.2 {
                    spec_configured_env(old(self).env(), old(self).args(), *old(self).config())
                } else {
                    old(self).env()
                })
                &&& old(self).step_agrees(r, next.3, final(self).env())
            }),
            final(self).args() == old(self).args(),
            final(self).config() == old(self).config(),
            final(self).settings() == old(self).settings(),
    {
        proof {
            use_type_invariant(&*self);
        }
        let phase = self.phase;
        match (phase, event) {
            (CreatePhase::Start, CreateEvent::Begin) => match &self.args.setup_file {
                Some(p) => {
                    let path = p.clone();
                    self.phase = CreatePhase::CheckingSetup;
                    CreateStep::CheckSetupFile(path)
                },
                None => {
                    self.configure();
                    proof {
                        use_type_invariant(&*self);
                    }
                    self.phase = CreatePhase::Naming;
                    CreateStep::DetermineName(self.args.common.env_file.clone())
                },
            },
            (CreatePhase::CheckingSetup, CreateEvent::SetupFileChecked(exists)) => {
                if exists {
                    self.configure();
                    proof {
                        use_type_invariant(&*self);
                    }
                    self.phase = CreatePhase::Naming;
                    CreateStep::DetermineName(self.args.common.env_file.clone())
                } else {
                    self.phase = CreatePhase::Done;
                    CreateStep::Finish(Err(ExitCode::Failure))
                }
            },
            (CreatePhase::Naming, CreateEvent::NameSources { env_file_name, cwd_name }) => {
                let explicit = clone_opt(&self.args.common.name);
                match determine_env_name(explicit, env_file_name, cwd_name) {
                    Some(n) => {
                        let args: Vec<&str> = vec![
                            "env",
                            "create",
                            "--file",
                            self.args.common.env_file.as_str(),
                            "--name",
                            n.as_str(),
                            "--yes",
                        ];
                        let q = self.micromamba.stream_if_verbose(args);
                        assert(str_texts(args@) =~= spec_create_command(
                            self.args.common.env_file@,
                            n@,
                        ));
                        let env_name = n.clone();
                        self.env_name = Some(n);
                        self.phase = CreatePhase::Running;
                        CreateStep::RunMicromamba { run: q, env_name }
                    },
                    None => {
                        self.phase = CreatePhase::Done;
                        CreateStep::Finish(Err(ExitCode::Failure))
                    },
                }
            },
            (CreatePhase::Running, CreateEvent::MicromambaFinished(ok)) => {
                if ok {
                    let (path, required) = setup_file_choice(&self.args.setup_file);
                    self.phase = CreatePhase::ReadingSetup;
                    CreateStep::ReadSetup { path, required }
                } else {
                    self.phase = CreatePhase::Done;
                    CreateStep::Finish(Err(ExitCode::Failure))
                }
            },
            (CreatePhase::ReadingSetup, CreateEvent::SetupFileRead(read)) => match read {
                SetupRead::Found => {
                    let n = clone_opt(&self.env_name).unwrap();
                    self.phase = CreatePhase::PostCreate;
                    CreateStep::RunPostCreate(n)
                },
                _ => {
                    self.phase = CreatePhase::Done;
                    CreateStep::Finish(Ok(()))
                },
            },
            (CreatePhase::PostCreate, CreateEvent::PostCreateFinished(ok)) => {
                self.phase = CreatePhase::Done;
                if ok {
                    CreateStep::Finish(Ok(()))
                } else {
                    CreateStep::Finish(Err(ExitCode::Failure))
                }
            },
            _ => {
                self.phase = CreatePhase::Done;
                CreateStep::Finish(Err(ExitCode::Failure))
            },
        }
    }
}

/// The variables that carry the SSL/TLS settings are six different ones.
proof fn lemma_ssl_keys_distinct()
    ensures
        "CURL_CA_BUNDLE"@.len() == 14,
        "PIP_CERT"@.len() == 8,
        "REQUESTS_CA_BUNDLE"@.len() == 18,
        "PIP_INDEX_URL"@.len() == 13,
        "PIP_TRUSTED_HOST"@.len() == 16,
        "MAMBA_SSL_NO_REVOKE"@.len() == 19,
{
    reveal_strlit("CURL_CA_BUNDLE");
    reveal_strlit("PIP_CERT");
    reveal_strlit("REQUESTS_CA_BUNDLE");
    reveal_strlit("PIP_INDEX_URL");
    reveal_strlit("PIP_TRUSTED_HOST");
    reveal_strlit("MAMBA_SSL_NO_REVOKE");
}

/// `m` and `env` agree on the key `k`: both lack it, or both map it to the same value.
pub open spec fn same_entry(m: Map<Seq<char>, Seq<char>>, env: Map<Seq<char>, Seq<char>>, k: Seq<char>) -> bool {
    &&& m.dom().contains(k) == env.dom().contains(k)
    &&& m.dom().contains(k) ==> m[k] == env[k]
}

/// `--ssl-verify` given on the command line decides alone: the configuration
/// does not matter then.
pub proof fn lemma_command_line_overrides_config(b: Seq<char>, cfg1: EnvCreateConfig, cfg2: EnvCreateConfig)
    ensures
        spec_resolve_ssl(Some(b), cfg1) == spec_resolve_ssl(Some(b), cfg2),
{
}

/// Verification is never switched off while a bundle is in use, whatever the
/// command line says, once the configuration has passed validation.
pub proof fn lemma_no_bundle_without_verification(cli: Option<Seq<char>>, config: Config)
    requires
        !config.bundle_without_verification(),
    ensures
        !(spec_resolve_ssl(cli, config.env_create).0 == false && spec_resolve_ssl(
            cli,
            config.env_create,
        ).1 is Some),
{
}

/// With verification switched off, the three bundle variables are emptied and
/// pip is sent to PyPI, which it trusts.
pub proof fn lemma_ssl_verify_disabled(
    env: Map<Seq<char>, Seq<char>>,
    bundle: Option<Seq<char>>,
    no_revoke: bool,
)
    ensures
        ({
            let m = spec_ssl_env(env, false, bundle, no_revoke);
            &&& m.contains_pair("CURL_CA_BUNDLE"@, ""@)
            &&& m.contains_pair("PIP_CERT"@, ""@)
            &&& m.contains_pair("REQUESTS_CA_BUNDLE"@, ""@)
            &&& m.contains_pair("PIP_INDEX_URL"@, "https://pypi.org/simple"@)
            &&& m.contains_pair(
                "PIP_TRUSTED_HOST"@,
                "pypi.org files.pythonhosted.org pypi.pythonhosted.org"@,
            )
        }),
{
    lemma_ssl_keys_distinct();
}

/// With verification on and a bundle given, the three bundle variables name
/// it, and pip's index and trusted hosts are left alone.
pub proof fn lemma_ssl_custom_bundle(
    env: Map<Seq<char>, Seq<char>>,
    b: Seq<char>,
    no_revoke: bool,
)
    ensures
        ({
            let m = spec_ssl_env(env, true, Some(b), no_revoke);
            &&& m.contains_pair("CURL_CA_BUNDLE"@, b)
            &&& m.contains_pair("PIP_CERT"@, b)
            &&& m.contains_pair("REQUESTS_CA_BUNDLE"@, b)
            &&& same_entry(m, env, "PIP_INDEX_URL"@)
            &&& same_entry(m, env, "PIP_TRUSTED_HOST"@)
        }),
{
    lemma_ssl_keys_distinct();
}

/// With verification on and no bundle (the default), no variable is set:
/// the system chain is used.
pub proof fn lemma_ssl_default_sets_nothing(env: Map<Seq<char>, Seq<char>>)
    ensures
        spec_ssl_env(env, true, None, false) == env,
{
}

/// `MAMBA_SSL_NO_REVOKE` is set to `true` exactly when revocation checks are
/// switched off; otherwise it is left as it was.
pub proof fn lemma_ssl_no_revoke(
    env: Map<Seq<char>, Seq<char>>,
    verify: bool,
    bundle: Option<Seq<char>>,
    no_revoke: bool,
)
    ensures
        no_revoke ==> spec_ssl_env(env, verify, bundle, no_revoke).contains_pair(
            "MAMBA_SSL_NO_REVOKE"@,
            "true"@,
        ),
        !no_revoke ==> same_entry(
            spec_ssl_env(env, verify, bundle, no_revoke),
            env,
            "MAMBA_SSL_NO_REVOKE"@,
        ),
{
    lemma_ssl_keys_distinct();
}

/// The SSL/TLS settings are handed to `micromamba` exactly when the naming
/// phase is entered, so once per creation and before `micromamba` runs; and
/// `micromamba` is only run once a name has been chosen, under that name.
pub proof fn lemma_create_order(phase: CreatePhase, args: Args, name: Option<Seq<char>>, event: CreateEvent)
    ensures
        ({
            let next = spec_create_next(phase, args, name, event);
            &&& next.2 <==> (next.0 == CreatePhase::Naming && phase != CreatePhase::Naming)
            &&& next.3 is RunMicromamba ==> (next.1 matches Some(n) && next.3
                == CreatePlan::RunMicromamba(spec_create_command(args.common.env_file@, n), n))
        }),
{
}

/// `--ssl-verify` on the command line overrides the configuration for every
/// SSL/TLS variable: two configurations that differ only in `ssl_verify` and
/// `ssl_bundle` give `micromamba` the same variables.
pub proof fn lemma_command_line_overrides_config_env(
    env: Map<Seq<char>, Seq<char>>,
    args: Args,
    c1: Config,
    c2: Config,
)
    requires
        args.ssl_verify is Some,
        c1.env_create.ssl_no_revoke == c2.env_create.ssl_no_revoke,
    ensures
        spec_configured_env(env, args, c1) == spec_configured_env(env, args, c2),
{
}

/// `env create` succeeds exactly when `micromamba` created the environment and
/// then either there was no usable setup file or the post-creation setup
/// succeeded: the post-creation setup decides the result, and a successful one
/// always gives success.
pub proof fn lemma_create_succeeds_exactly_when(phase: CreatePhase, args: Args, name: Option<Seq<char>>, event: CreateEvent)
    ensures
        spec_create_next(phase, args, name, event).3 == CreatePlan::Finish(Ok(())) <==> (
            (phase == CreatePhase::ReadingSetup && (event matches CreateEvent::SetupFileRead(r) && r != SetupRead::Found))
            || (phase == CreatePhase::PostCreate && (event matches CreateEvent::PostCreateFinished(ok) && ok))),
        phase == CreatePhase::PostCreate ==> (event matches CreateEvent::PostCreateFinished(ok) ==> spec_create_next(phase, args, name, event).3 == CreatePlan::Finish(if ok { Ok(()) } else { Err(ExitCode::Failure) })),
{
}

} // verus!
