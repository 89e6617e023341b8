use csm::shell::{ShellConfiguration, SupportedShell, VarLookup};

#[test]
fn shell_names_and_aliases_are_recognised() {
    assert_eq!(SupportedShell::from_name("bash", false), Some(SupportedShell::Bash));
    assert_eq!(SupportedShell::from_name("bash.exe", false), Some(SupportedShell::Bash));
    assert_eq!(SupportedShell::from_name("fish.exe", false), Some(SupportedShell::Fish));
    assert_eq!(SupportedShell::from_name("pwsh", false), Some(SupportedShell::Powershell));
    assert_eq!(
        SupportedShell::from_name("powershell.exe", false),
        Some(SupportedShell::Powershell)
    );
    assert_eq!(SupportedShell::from_name("zsh.exe", false), Some(SupportedShell::Zsh));
    assert_eq!(SupportedShell::from_name("sh", false), None);
    assert_eq!(SupportedShell::from_name("", true), None);
}

#[test]
fn shell_names_ignore_ascii_case_only_when_asked() {
    assert_eq!(SupportedShell::from_name("BASH", false), None);
    assert_eq!(SupportedShell::from_name("BASH", true), Some(SupportedShell::Bash));
    assert_eq!(
        SupportedShell::from_name("PowerShell.EXE", true),
        Some(SupportedShell::Powershell)
    );
}

#[test]
fn shell_name_roundtrip() {
    for shell in [
        SupportedShell::Bash,
        SupportedShell::Fish,
        SupportedShell::Powershell,
        SupportedShell::Zsh,
    ] {
        assert_eq!(SupportedShell::from_name(shell.as_str(), false), Some(shell));
        assert_eq!(
            SupportedShell::from_name(&shell.as_str().to_uppercase(), true),
            Some(shell)
        );
    }
}

#[test]
fn detect_prefers_parent_process() {
    assert_eq!(
        SupportedShell::detect(Some("fish"), Some("bash")),
        Some(SupportedShell::Fish)
    );
    assert_eq!(
        SupportedShell::detect(Some("sshd"), Some("zsh")),
        Some(SupportedShell::Zsh)
    );
    assert_eq!(SupportedShell::detect(None, Some("Bash")), Some(SupportedShell::Bash));
    assert_eq!(SupportedShell::detect(None, None), None);
}

#[test]
fn csm_hook_needs_exact_name() {
    assert_eq!(SupportedShell::from_csm_hook(Some("zsh")), Some(SupportedShell::Zsh));
    assert_eq!(SupportedShell::from_csm_hook(Some("ZSH")), None);
    assert_eq!(SupportedShell::from_csm_hook(None), None);
}

#[test]
fn env_var_code_per_shell() {
    assert_eq!(
        SupportedShell::Bash.env_var_codegen("FOO", "bar"),
        "export FOO=\"bar\";"
    );
    assert_eq!(
        SupportedShell::Zsh.env_var_codegen("FOO", "bar"),
        "export FOO=\"bar\";"
    );
    assert_eq!(
        SupportedShell::Fish.env_var_codegen("FOO", "bar"),
        "set -g FOO \"bar\";"
    );
    assert_eq!(
        SupportedShell::Powershell.env_var_codegen("FOO", "bar"),
        "$env:FOO = \"bar\";"
    );
}

#[test]
fn set_env_var_saves_current_value_once() {
    let shell = SupportedShell::Bash;
    assert_eq!(SupportedShell::backup_key("PATH"), "_CSM_PATH_ORIG");
    assert_eq!(
        shell.set_env_var(
            "PATH",
            "/env/bin",
            VarLookup::NotPresent,
            VarLookup::Present("/usr/bin".to_string())
        ),
        "export _CSM_PATH_ORIG=\"/usr/bin\";export PATH=\"/env/bin\";"
    );
    assert_eq!(
        shell.set_env_var(
            "PATH",
            "/env/bin",
            VarLookup::Present("/usr/bin".to_string()),
            VarLookup::Present("/other".to_string())
        ),
        "export PATH=\"/env/bin\";"
    );
    assert_eq!(
        shell.set_env_var("X", "1", VarLookup::NotPresent, VarLookup::NotPresent),
        "export X=\"1\";"
    );
    assert_eq!(
        shell.set_env_var("X", "1", VarLookup::NotPresent, VarLookup::NotUnicode),
        "export X=\"1\";"
    );
    assert_eq!(
        shell.set_env_var("X", "1", VarLookup::NotUnicode, VarLookup::NotPresent),
        "export X=\"1\";"
    );
}

#[test]
fn shell_configuration_instructions() {
    let cfg = ShellConfiguration::from_supported_shell(&SupportedShell::Bash);
    assert_eq!(cfg.profile_file, "~/.bashrc");
    assert_eq!(cfg.init_command, "eval \"$(csm init bash --code)\"");
    assert_eq!(
        cfg.persist_command(),
        "echo 'eval \"$(csm init bash --code)\"' >> ~/.bashrc"
    );
    let expected = format!(
        r#"To set up csm in your current shell session, run the following:
    {}

If you add it to your shell profile ({}), the hook should automatically be
enabled for future shell sessions.

You could run the following command to add it automatically:

    {}"#,
        cfg.init_command,
        cfg.profile_file,
        cfg.persist_command()
    );
    assert_eq!(cfg.instructions(), expected);

    let fish = ShellConfiguration::from_supported_shell(&SupportedShell::Fish);
    assert_eq!(fish.profile_file, "~/.config/fish/config.fish");
    assert_eq!(fish.init_command, "csm init fish --code | source");
    let pwsh = ShellConfiguration::from_supported_shell(&SupportedShell::Powershell);
    assert_eq!(pwsh.profile_file, "$PROFILE");
    let zsh = ShellConfiguration::from_supported_shell(&SupportedShell::Zsh);
    assert_eq!(zsh.init_command, "eval \"$(csm init zsh --code)\"");
}

#[test]
fn shell_display_names() {
    assert_eq!(SupportedShell::Powershell.as_str(), "powershell");
    assert_eq!(SupportedShell::from_parent_process(Some("ZSH.EXE")), Some(SupportedShell::Zsh));
    assert_eq!(SupportedShell::from_env(Some("nu")), None);
}
