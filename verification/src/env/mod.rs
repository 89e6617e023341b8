//! The `env` subcommands: choosing an environment's name and dispatching to
//! the work each subcommand does.
pub mod create;

use vstd::prelude::*;

use crate::csmrc::Config;
use crate::micromamba::{str_texts, Micromamba, MicromambaRun, RunPhase};
use crate::text::opt_view;
use crate::ExitCode;

verus! {

/// Arguments shared by the subcommands that act on one environment.
pub struct CommonArgs {
    /// If specified, the name of the environment. If not specified, csm will
    /// look to the env file for a "name" field to use instead. As a last
    /// resort, the current directory name will be used.
    pub name: Option<String>,
    /// The env file passed to micromamba and used as a fallback for
    /// determining the environment name.
    pub env_file: String,
}

/// The `env` subcommands.
pub enum Subcommand {
    /// Create an environment
    Create(create::Args),
    /// List existing environments
    List,
    /// Display information about the micromamba setup
    Info,
}

/// The name of an environment: the explicit one first, then the `name` found in
/// the env file, then the name of the current directory.
pub open spec fn spec_determine_env_name(
    explicit_name: Option<Seq<char>>,
    env_file_name: Option<Seq<char>>,
    cwd_name: Option<Seq<char>>,
) -> Option<Seq<char>> {
    if explicit_name is Some {
        explicit_name
    } else if env_file_name is Some {
        env_file_name
    } else {
        cwd_name
    }
}

/// Choose the name of an environment.
///
/// `env_file_name` is the `name` key of the env file, when the file could be
/// read and parsed and has that key; `cwd_name` is the last component of the
/// current directory, when it could be determined and is valid UTF-8.
pub fn determine_env_name(
    explicit_name: Option<String>,
    env_file_name: Option<String>,
    cwd_name: Option<String>,
) -> (r: Option<String>)
    ensures
        r == (if explicit_name is Some {
            explicit_name
        } else if env_file_name is Some {
            env_file_name
        } else {
            cwd_name
        }),
        opt_view(r) == spec_determine_env_name(
            opt_view(explicit_name),
            opt_view(env_file_name),
            opt_view(cwd_name),
        ),
{
    // If someone gave an explicit --name, use that first.
    if let Some(name) = explicit_name {
        return Some(name);
    }
    // Fallback 1: the name key of the env file.
    if let Some(name) = env_file_name {
        return Some(name);
    }
    // Fallback 2: the current directory name.
    cwd_name
}

/// Like `determine_env_name`, but failing when no name can be determined.
pub fn env_name(explicit_name: Option<String>, env_file_name: Option<String>, cwd_name: Option<String>) -> (r:
    Result<String, ExitCode>)
    ensures
        match spec_determine_env_name(
            opt_view(explicit_name),
            opt_view(env_file_name),
            opt_view(cwd_name),
        ) {
            Some(n) => r matches Ok(s) && s@ == n,
            None => r == Err::<String, ExitCode>(ExitCode::Failure),
        },
{
    match determine_env_name(explicit_name, env_file_name, cwd_name) {
        Some(name) => Ok(name),
        None => Err(ExitCode::Failure),
    }
}

/// What to tell the user after `micromamba` ran with its output captured.
#[derive(Clone, Copy, Debug, PartialEq, Eq, Structural)]
pub enum OutputReport {
    /// Show the captured stdout and stderr: it failed.
    DumpCaptured,
    /// Say that it is done.
    Done,
    /// Nothing to say (the output was streamed, or nothing ran).
    Nothing,
}

/// The captured output of `micromamba` is shown when it failed.
pub fn dump_micromamba_captured_output_on_error(captured: bool, rc: ExitCode) -> (r: OutputReport)
    ensures
        r == (if !captured {
            OutputReport::Nothing
        } else if rc == ExitCode::Success {
            OutputReport::Done
        } else {
            OutputReport::DumpCaptured
        }),
{
    if !captured {
        OutputReport::Nothing
    } else {
        match rc {
            ExitCode::Success => OutputReport::Done,
            ExitCode::Failure => OutputReport::DumpCaptured,
        }
    }
}

/// The work that an `env` subcommand amounts to.
pub enum EnvDispatch<'a> {
    /// Create an environment, step by step.
    Create(create::CreateFlow<'a>),
    /// Run `micromamba` and stream its output.
    Run(MicromambaRun),
}

/// Dispatch an `env` subcommand.
pub fn run<'a>(config: &'a Config, subcommand: Subcommand) -> (r: EnvDispatch<'a>)
    ensures
        match subcommand {
            Subcommand::Create(args) => r matches EnvDispatch::Create(flow) && flow.phase()
                == create::CreatePhase::Start && flow.args() == args && flow.config() == config
                && flow.settings() == config
                && flow.env() == crate::micromamba::initial_env(config),
            Subcommand::List => r matches EnvDispatch::Run(q) && q.phase() == RunPhase::Start
                && q.arg_texts() == seq!["env"@, "list"@] && q.env()
                == crate::micromamba::initial_env(config) && q.streams_output() && q.noop()
                == config.noop_mode,
            Subcommand::Info => r matches EnvDispatch::Run(q) && q.phase() == RunPhase::Start
                && q.arg_texts() == seq!["info"@] && q.env() == crate::micromamba::initial_env(
                config,
            ) && q.streams_output() && q.noop() == config.noop_mode,
        },
{
    let micromamba = Micromamba::new(config);
    match subcommand {
        Subcommand::Create(args) => EnvDispatch::Create(create::run(micromamba, args, config)),
        Subcommand::List => {
            let args: Vec<&str> = vec!["env", "list"];
            let q = micromamba.stream(args);
            assert(str_texts(args@) =~= seq!["env"@, "list"@]);
            EnvDispatch::Run(q)
        },
        Subcommand::Info => {
            let args: Vec<&str> = vec!["info"];
            let q = micromamba.stream(args);
            assert(str_texts(args@) =~= seq!["info"@]);
            EnvDispatch::Run(q)
        },
    }
}

} // verus!
