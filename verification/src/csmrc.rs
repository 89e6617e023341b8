//! The user's configuration, read from `~/.csmrc` when it exists.
use vstd::prelude::*;

verus! {

/// Options for the `env create` subcommand.
#[derive(Debug)]
pub struct EnvCreateConfig {
    /// If true (default), verify SSL/TLS certificates. This is used for
    /// configuring passthrough to micromamba (and indirectly, pip).
    pub ssl_verify: bool,
    /// The SSL/TLS certificate bundle to verify with. When None (default), uses
    /// the default, which when calling out to micromamba, corresponds to the
    /// system chain or "ca-certificates" from conda-forge if installed.
    pub ssl_bundle: Option<String>,
    /// Disable SSL/TLS revokation checking (affects passthrough to micromamba).
    pub ssl_no_revoke: bool,
}

/// The settings of `csm`.
#[derive(Debug)]
pub struct Config {
    /// Override the $MAMBA_ROOT_PREFIX when shelling out to micromamba.
    pub mamba_root_prefix: Option<String>,
    /// If true, don't make any changes or call any commands, just print what
    /// we *would* do normally.
    pub noop_mode: bool,
    /// Override the cache directory.
    pub cache_dir: Option<String>,
    /// If false, never download micromamba, even if needed.
    pub download_micromamba: bool,
    /// If true, the program is being run in verbose mode.
    pub verbose: bool,
    /// If true, skip checking for LongPaths support on Windows, and never try
    /// to set it.
    pub skip_longpaths_check: bool,
    /// Options for the 'env create' subcommand
    pub env_create: EnvCreateConfig,
}

/// Why the configuration could not be used.
#[derive(Debug, PartialEq, Eq)]
pub enum ConfigError {
    /// The configuration was read but is not acceptable.
    InvalidData(String),
    /// The configuration file exists but could not be read.
    Io(String),
}

/// What looking for `~/.csmrc` found.
pub enum CsmrcLookup {
    /// The home directory could not be determined.
    NoHome,
    /// There is no `~/.csmrc`.
    NotFound,
    /// `~/.csmrc` exists but could not be opened; the error's text.
    Unreadable(String),
    /// `~/.csmrc` was parsed into these settings.
    Parsed(Config),
    /// `~/.csmrc` is not a valid configuration; the parser's message.
    Malformed(String),
}

/// The message of the error that `validate` gives.
pub open spec fn bundle_without_verification_message() -> Seq<char> {
    "SSL/TLS verification was disabled, but a bundle was still specified"@
}

impl EnvCreateConfig {
    /// These are the default `env create` options.
    pub open spec fn is_default(&self) -> bool {
        &&& self.ssl_verify
        &&& self.ssl_bundle is None
        &&& !self.ssl_no_revoke
    }
}

impl Config {
    /// These are the default settings.
    pub open spec fn is_default(&self) -> bool {
        &&& self.mamba_root_prefix is None
        &&& !self.noop_mode
        &&& self.cache_dir is None
        &&& self.download_micromamba
        &&& !self.verbose
        &&& !self.skip_longpaths_check
        &&& self.env_create.is_default()
    }

    /// A bundle was given although verification is switched off: a combination
    /// that is refused rather than guessed at.
    pub open spec fn bundle_without_verification(&self) -> bool {
        !self.env_create.ssl_verify && self.env_create.ssl_bundle is Some
    }

    /// Check the configuration for combinations that make no sense.
    pub fn validate(self) -> (r: Result<Config, ConfigError>)
        ensures
            self.bundle_without_verification() ==> (r matches Err(ConfigError::InvalidData(m)) && m@
                == bundle_without_verification_message()),
            !self.bundle_without_verification() ==> r == Ok::<Config, ConfigError>(self),
    {
        // Specifying a bundle when ssl_verify is false makes no sense.
        // Do the safe thing and bail out - they might have meant to use the
        // bundle and we should not just disable verification in this case.
        if !self.env_create.ssl_verify && self.env_create.ssl_bundle.is_some() {
            return Err(
                ConfigError::InvalidData(
                    String::from_str(
                        "SSL/TLS verification was disabled, but a bundle was still specified",
                    ),
                ),
            );
        }
        Ok(self)
    }

    /// The settings that result from looking for `~/.csmrc`: the defaults when
    /// there is no home directory or no file, the parsed file once it passes
    /// `validate`, and an error otherwise.
    pub fn from_csmrc(lookup: CsmrcLookup) -> (r: Result<Config, ConfigError>)
        ensures
            match lookup {
                CsmrcLookup::NoHome | CsmrcLookup::NotFound => r matches Ok(c) && c.is_default(),
                CsmrcLookup::Unreadable(m) => r == Err::<Config, ConfigError>(ConfigError::Io(m)),
                CsmrcLookup::Malformed(m) => r == Err::<Config, ConfigError>(
                    ConfigError::InvalidData(m),
                ),
                CsmrcLookup::Parsed(c) => if c.bundle_without_verification() {
                    r matches Err(ConfigError::InvalidData(m)) && m@
                        == bundle_without_verification_message()
                } else {
                    r == Ok::<Config, ConfigError>(c)
                },
            },
    {
        match lookup {
            CsmrcLookup::NoHome => Ok(Config::default()),
            CsmrcLookup::NotFound => Ok(Config::default()),
            CsmrcLookup::Unreadable(m) => Err(ConfigError::Io(m)),
            CsmrcLookup::Malformed(m) => Err(ConfigError::InvalidData(m)),
            CsmrcLookup::Parsed(c) => c.validate(),
        }
    }
}

impl ConfigError {
    /// The text of the error.
    pub fn message(&self) -> (r: &String)
        ensures
            r == match self {
                ConfigError::InvalidData(m) => m,
                ConfigError::Io(m) => m,
            },
    {
        match self {
            ConfigError::InvalidData(m) => m,
            ConfigError::Io(m) => m,
        }
    }
}

impl Default for EnvCreateConfig {
    fn default() -> (r: EnvCreateConfig)
        ensures
            r.is_default(),
    {
        EnvCreateConfig { ssl_verify: true, ssl_bundle: None, ssl_no_revoke: false }
    }
}

impl Default for Config {
    fn default() -> (r: Config)
        ensures
            r.is_default(),
    {
        Config {
            mamba_root_prefix: None,
            noop_mode: false,
            cache_dir: None,
            download_micromamba: true,
            verbose: false,
            skip_longpaths_check: false,
            env_create: EnvCreateConfig::default(),
        }
    }
}

/// The defaults pass validation: a user without `~/.csmrc` is never refused.
pub proof fn lemma_default_config_is_valid(c: Config)
    requires
        c.is_default(),
    ensures
        !c.bundle_without_verification(),
{
}

} // verus!
