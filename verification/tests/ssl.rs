use std::collections::HashMap;

use csm::csmrc::{Config, ConfigError, CsmrcLookup};
use csm::env::create::{self, Args, CreateEvent, CreateStep, SetupRead};
use csm::env::{run, CommonArgs, EnvDispatch, Subcommand};
use csm::micromamba::{Micromamba, RunEvent, RunFinish, RunStep};

fn noop_verbose_config() -> Config {
    let mut config = Config::default();
    config.noop_mode = true;
    config.verbose = true;
    config
}

fn create_args(name: Option<&str>, ssl_verify: Option<&str>, ssl_no_revoke: bool) -> Args {
    Args {
        common: CommonArgs {
            name: name.map(String::from),
            env_file: "robotmk-env.yaml".to_string(),
        },
        setup_file: None,
        ssl_verify: ssl_verify.map(String::from),
        ssl_no_revoke,
    }
}

/// Run `env create` to the end as no-op mode does, returning the variables
/// that micromamba would have been given and whether it succeeded.
fn create_env_vars(config: &Config, args: Args) -> (HashMap<String, String>, bool) {
    let mut flow = create::run(Micromamba::new(config), args, config);
    let mut step = flow.advance(CreateEvent::Begin);
    let mut vars = HashMap::new();
    loop {
        step = match step {
            CreateStep::CheckSetupFile(_) => flow.advance(CreateEvent::SetupFileChecked(true)),
            CreateStep::DetermineName(_) => flow.advance(CreateEvent::NameSources {
                env_file_name: None,
                cwd_name: Some("csm-test".to_string()),
            }),
            CreateStep::RunMicromamba { run: mut q, .. } => {
                vars = q.env_var_pairs().into_iter().collect();
                let finished = q.advance(RunEvent::Begin);
                assert!(matches!(finished, RunStep::Finish(RunFinish::Noop)));
                flow.advance(CreateEvent::MicromambaFinished(true))
            }
            CreateStep::ReadSetup { .. } => {
                flow.advance(CreateEvent::SetupFileRead(SetupRead::NotFound))
            }
            CreateStep::RunPostCreate(_) => flow.advance(CreateEvent::PostCreateFinished(true)),
            CreateStep::Finish(r) => return (vars, r.is_ok()),
        }
    }
}

fn assert_verification_disabled(vars: &HashMap<String, String>) {
    assert_eq!(vars.get("CURL_CA_BUNDLE").map(String::as_str), Some(""));
    assert_eq!(vars.get("PIP_CERT").map(String::as_str), Some(""));
    assert_eq!(vars.get("REQUESTS_CA_BUNDLE").map(String::as_str), Some(""));
    assert_eq!(
        vars.get("PIP_INDEX_URL").map(String::as_str),
        Some("https://pypi.org/simple")
    );
    assert_eq!(
        vars.get("PIP_TRUSTED_HOST").map(String::as_str),
        Some("pypi.org files.pythonhosted.org pypi.pythonhosted.org")
    );
}

fn assert_no_ssl_vars(vars: &HashMap<String, String>) {
    for key in [
        "CURL_CA_BUNDLE",
        "PIP_CERT",
        "REQUESTS_CA_BUNDLE",
        "PIP_INDEX_URL",
        "PIP_TRUSTED_HOST",
    ] {
        assert!(!vars.contains_key(key), "{key} should not be set");
    }
}

/// `env create --ssl-verify=false` / `ssl_verify: false`
#[test]
fn test_csm_ssl_verify_false() {
    let config = noop_verbose_config();
    let (vars, ok) = create_env_vars(&config, create_args(Some("foo"), Some("false"), false));
    assert!(ok);
    assert_verification_disabled(&vars);

    let mut config = noop_verbose_config();
    config.env_create.ssl_verify = false;
    let (vars, ok) = create_env_vars(&config, create_args(None, None, false));
    assert!(ok);
    assert_verification_disabled(&vars);
}

/// `--ssl-verify=true` sets nothing, and neither does the default.
#[test]
fn test_csm_ssl_verify_true() {
    let config = noop_verbose_config();
    let (vars, ok) = create_env_vars(&config, create_args(None, Some("true"), false));
    assert!(ok);
    assert_no_ssl_vars(&vars);

    match run(&config, Subcommand::List) {
        EnvDispatch::Run(mut q) => {
            let vars: HashMap<String, String> = q.env_var_pairs().into_iter().collect();
            assert_no_ssl_vars(&vars);
            assert!(matches!(q.advance(RunEvent::Begin), RunStep::Finish(RunFinish::Noop)));
        }
        _ => panic!("env list should run micromamba"),
    }
}

/// `--ssl-verify=/tmp/hey` / `ssl_bundle: /tmp/hey`
#[test]
fn test_csm_ssl_verify_custom_bundle() {
    fn assert_env_vars(vars: &HashMap<String, String>) {
        assert_eq!(vars.get("CURL_CA_BUNDLE").map(String::as_str), Some("/tmp/hey"));
        assert_eq!(vars.get("PIP_CERT").map(String::as_str), Some("/tmp/hey"));
        assert_eq!(
            vars.get("REQUESTS_CA_BUNDLE").map(String::as_str),
            Some("/tmp/hey")
        );
        assert!(!vars.contains_key("PIP_INDEX_URL"));
        assert!(!vars.contains_key("PIP_TRUSTED_HOST"));
    }

    let config = noop_verbose_config();
    let (vars, ok) = create_env_vars(&config, create_args(None, Some("/tmp/hey"), false));
    assert!(ok);
    assert_env_vars(&vars);

    let mut config = noop_verbose_config();
    config.env_create.ssl_bundle = Some("/tmp/hey".to_string());
    let (vars, ok) = create_env_vars(&config, create_args(None, None, false));
    assert!(ok);
    assert_env_vars(&vars);
}

/// `--ssl-no-revoke` / `ssl_no_revoke: true`
#[test]
fn test_csm_ssl_no_revoke() {
    let config = noop_verbose_config();
    let (vars, ok) = create_env_vars(&config, create_args(None, None, true));
    assert!(ok);
    assert_eq!(
        vars.get("MAMBA_SSL_NO_REVOKE").map(String::as_str),
        Some("true")
    );

    let (vars, ok) = create_env_vars(&config, create_args(None, None, false));
    assert!(ok);
    assert!(!vars.contains_key("MAMBA_SSL_NO_REVOKE"));

    let mut config = noop_verbose_config();
    config.env_create.ssl_no_revoke = true;
    let (vars, ok) = create_env_vars(&config, create_args(None, None, false));
    assert!(ok);
    assert_eq!(
        vars.get("MAMBA_SSL_NO_REVOKE").map(String::as_str),
        Some("true")
    );
}

/// `ssl_verify: false` together with `ssl_bundle` is refused.
#[test]
fn test_csm_ssl_verify_false_and_ssl_bundle() {
    let mut config = noop_verbose_config();
    config.env_create.ssl_verify = false;
    config.env_create.ssl_bundle = Some("foo.pem".to_string());
    match Config::from_csmrc(CsmrcLookup::Parsed(config)) {
        Err(ConfigError::InvalidData(m)) => {
            assert!(m.contains("SSL/TLS verification was disabled"))
        }
        _ => panic!("the configuration should have been refused"),
    }
}

#[test]
fn ssl_command_line_overrides_configured_bundle() {
    let mut config = noop_verbose_config();
    config.env_create.ssl_bundle = Some("/etc/bundle.pem".to_string());
    let (vars, ok) = create_env_vars(&config, create_args(None, Some("true"), false));
    assert!(ok);
    assert_no_ssl_vars(&vars);
}

#[test]
fn mamba_root_prefix_is_passed_on() {
    let mut config = noop_verbose_config();
    config.mamba_root_prefix = Some("/opt/mamba".to_string());
    let (vars, _) = create_env_vars(&config, create_args(None, Some("false"), true));
    assert_eq!(vars.get("MAMBA_ROOT_PREFIX").map(String::as_str), Some("/opt/mamba"));
    assert_eq!(vars.len(), 7);
}
