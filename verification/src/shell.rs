//! Shell-specific interaction: recognising the user's shell, generating code
//! that sets environment variables in it, and the instructions for hooking
//! `csm` into it.
use vstd::prelude::*;

use crate::text::{
    ascii_lower_code, concat3, concat5, eq_ignore_ascii_case, same_text, same_text_ignoring_ascii_case,
};

verus! {

/// The shells that `csm` can generate code for.
#[derive(Clone, Copy, Debug, PartialEq, Eq, Structural)]
pub enum SupportedShell {
    Bash,
    Fish,
    Powershell,
    Zsh,
}

/// What an environment variable lookup gave.
pub enum VarLookup {
    Present(String),
    NotPresent,
    NotUnicode,
}

/// The canonical name of a shell.
pub open spec fn spec_shell_name(shell: SupportedShell) -> Seq<char> {
    match shell {
        SupportedShell::Bash => "bash"@,
        SupportedShell::Fish => "fish"@,
        SupportedShell::Powershell => "powershell"@,
        SupportedShell::Zsh => "zsh"@,
    }
}

/// The canonical name of a shell, followed by the aliases it is also known by.
pub open spec fn spec_shell_names(shell: SupportedShell) -> Seq<Seq<char>> {
    match shell {
        SupportedShell::Bash => seq!["bash"@, "bash.exe"@],
        SupportedShell::Fish => seq!["fish"@, "fish.exe"@],
        SupportedShell::Powershell => seq![
            "powershell"@,
            "pwsh"@,
            "pwsh.exe"@,
            "powershell.exe"@,
        ],
        SupportedShell::Zsh => seq!["zsh"@, "zsh.exe"@],
    }
}

/// `input` names the same thing as `name`, exactly or up to ASCII case.
pub open spec fn name_matches(name: Seq<char>, input: Seq<char>, ignore_case: bool) -> bool {
    if ignore_case {
        eq_ignore_ascii_case(name, input)
    } else {
        name == input
    }
}

/// `input` is one of the names of `shell`.
pub open spec fn shell_matches(shell: SupportedShell, input: Seq<char>, ignore_case: bool) -> bool {
    exists|i: int|
        0 <= i < spec_shell_names(shell).len() && #[trigger] name_matches(
            spec_shell_names(shell)[i],
            input,
            ignore_case,
        )
}

/// The first shell, in declaration order, that `input` names.
pub open spec fn spec_shell_from_name(input: Seq<char>, ignore_case: bool) -> Option<SupportedShell> {
    if shell_matches(SupportedShell::Bash, input, ignore_case) {
        Some(SupportedShell::Bash)
    } else if shell_matches(SupportedShell::Fish, input, ignore_case) {
        Some(SupportedShell::Fish)
    } else if shell_matches(SupportedShell::Powershell, input, ignore_case) {
        Some(SupportedShell::Powershell)
    } else if shell_matches(SupportedShell::Zsh, input, ignore_case) {
        Some(SupportedShell::Zsh)
    } else {
        None
    }
}

/// Shell code that sets the environment variable `key` to `value`.
pub open spec fn spec_env_var_codegen(shell: SupportedShell, key: Seq<char>, value: Seq<char>) -> Seq<
    char,
> {
    match shell {
        SupportedShell::Bash | SupportedShell::Zsh => "export "@ + key + "=\""@ + value + "\";"@,
        SupportedShell::Fish => "set -g "@ + key + " \""@ + value + "\";"@,
        SupportedShell::Powershell => "$env:"@ + key + " = \""@ + value + "\";"@,
    }
}

/// The variable in which the original value of `key` is saved.
pub open spec fn spec_backup_key(key: Seq<char>) -> Seq<char> {
    "_CSM_"@ + key + "_ORIG"@
}

/// The code that `set_env_var` generates: the current value of `key` is saved
/// first, but only when no saved value exists yet, and only when there is a
/// current value to save.
pub open spec fn spec_set_env_var(
    shell: SupportedShell,
    key: Seq<char>,
    new_value: Seq<char>,
    saved: VarLookup,
    current: VarLookup,
) -> Seq<char> {
    let backup = match saved {
        VarLookup::NotPresent => match current {
            VarLookup::Present(v) => spec_env_var_codegen(shell, spec_backup_key(key), v@),
            _ => Seq::empty(),
        },
        _ => Seq::empty(),
    };
    backup + spec_env_var_codegen(shell, key, new_value)
}

fn matches_any(names: &[&str], input: &str, ignore_case: bool) -> (r: bool)
    ensures
        r == exists|i: int|
            0 <= i < names@.len() && #[trigger] name_matches(names@[i]@, input@, ignore_case),
{
    let mut i: usize = 0;
    while i < names.len()
        invariant
            i <= names@.len(),
            forall|j: int| 0 <= j < i ==> !#[trigger] name_matches(names@[j]@, input@, ignore_case),
        decreases names@.len() - i,
    {
        let name = names[i];
        let hit = if ignore_case {
            same_text_ignoring_ascii_case(name, input)
        } else {
            same_text(name, input)
        };
        if hit {
            assert(name_matches(names@[i as int]@, input@, ignore_case));
            return true;
        }
        i = i + 1;
    }
    false
}

impl SupportedShell {
    /// The canonical name of the shell, as it is shown to the user.
    pub fn as_str(&self) -> (r: &'static str)
        ensures
            r@ == spec_shell_name(*self),
    {
        match self {
            SupportedShell::Bash => "bash",
            SupportedShell::Fish => "fish",
            SupportedShell::Powershell => "powershell",
            SupportedShell::Zsh => "zsh",
        }
    }

    fn names(&self) -> (r: &'static [&'static str])
        ensures
            r@.len() == spec_shell_names(*self).len(),
            forall|i: int| 0 <= i < r@.len() ==> #[trigger] r@[i]@ == spec_shell_names(*self)[i],
    {
        match self {
            SupportedShell::Bash => {
                let r: &'static [&'static str] = &["bash", "bash.exe"];
                assert(r@ == seq!["bash", "bash.exe"]);
                r
            },
            SupportedShell::Fish => {
                let r: &'static [&'static str] = &["fish", "fish.exe"];
                assert(r@ == seq!["fish", "fish.exe"]);
                r
            },
            SupportedShell::Powershell => {
                let r: &'static [&'static str] = &["powershell", "pwsh", "pwsh.exe", "powershell.exe"];
                assert(r@ == seq!["powershell", "pwsh", "pwsh.exe", "powershell.exe"]);
                r
            },
            SupportedShell::Zsh => {
                let r: &'static [&'static str] = &["zsh", "zsh.exe"];
                assert(r@ == seq!["zsh", "zsh.exe"]);
                r
            },
        }
    }

    /// Whether `input` is one of the names of this shell.
    fn is_named(&self, input: &str, ignore_case: bool) -> (r: bool)
        ensures
            r == shell_matches(*self, input@, ignore_case),
    {
        let names = self.names();
        let r = matches_any(names, input, ignore_case);
        proof {
            if r {
                let i = choose|i: int|
                    0 <= i < names@.len() && #[trigger] name_matches(names@[i]@, input@, ignore_case);
                assert(name_matches(spec_shell_names(*self)[i], input@, ignore_case));
            } else {
                assert forall|i: int| 0 <= i < spec_shell_names(*self).len() implies !#[trigger] name_matches(
                spec_shell_names(*self)[i],
                input@,
                ignore_case,
            ) by {
                    assert(names@[i]@ == spec_shell_names(*self)[i]);
                }
            }
        }
        r
    }

    /// The shell that `input` names, by its canonical name or an alias
    /// (such as `pwsh` or `bash.exe`), optionally ignoring ASCII case.
    pub fn from_name(input: &str, ignore_case: bool) -> (r: Option<SupportedShell>)
        ensures
            r == spec_shell_from_name(input@, ignore_case),
    {
        if SupportedShell::Bash.is_named(input, ignore_case) {
            Some(SupportedShell::Bash)
        } else if SupportedShell::Fish.is_named(input, ignore_case) {
            Some(SupportedShell::Fish)
        } else if SupportedShell::Powershell.is_named(input, ignore_case) {
            Some(SupportedShell::Powershell)
        } else if SupportedShell::Zsh.is_named(input, ignore_case) {
            Some(SupportedShell::Zsh)
        } else {
            None
        }
    }

    /// The shell named by the parent process, if its name is known and names one.
    pub fn from_parent_process(parent_name: Option<&str>) -> (r: Option<SupportedShell>)
        ensures
            r == match parent_name {
                Some(n) => spec_shell_from_name(n@, true),
                None => None,
            },
    {
        match parent_name {
            Some(n) => SupportedShell::from_name(n, true),
            None => None,
        }
    }

    /// The shell named by the last component of `$SHELL`, if it is set.
    pub fn from_env(shell_var_last_component: Option<&str>) -> (r: Option<SupportedShell>)
        ensures
            r == match shell_var_last_component {
                Some(n) => spec_shell_from_name(n@, true),
                None => None,
            },
    {
        match shell_var_last_component {
            Some(n) => SupportedShell::from_name(n, true),
            None => None,
        }
    }

    /// Detect the user's shell: the parent process's name is tried first, then
    /// `$SHELL`.
    pub fn detect(parent_name: Option<&str>, shell_var_last_component: Option<&str>) -> (r: Option<
        SupportedShell,
    >)
        ensures
            r == match parent_name {
                Some(n) if spec_shell_from_name(n@, true) is Some => spec_shell_from_name(n@, true),
                _ => match shell_var_last_component {
                    Some(s) => spec_shell_from_name(s@, true),
                    None => None,
                },
            },
    {
        match SupportedShell::from_parent_process(parent_name) {
            Some(shell) => Some(shell),
            None => SupportedShell::from_env(shell_var_last_component),
        }
    }

    /// The shell that the hook scripts announce in `$_CSM_SHELL`; its value must
    /// match a name exactly.
    pub fn from_csm_hook(csm_shell_var: Option<&str>) -> (r: Option<SupportedShell>)
        ensures
            r == match csm_shell_var {
                Some(n) => spec_shell_from_name(n@, false),
                None => None,
            },
    {
        match csm_shell_var {
            Some(n) => SupportedShell::from_name(n, false),
            None => None,
        }
    }

    /// Shell code that sets `key` to `value`.
    pub fn env_var_codegen(&self, key: &str, value: &str) -> (r: String)
        ensures
            r@ == spec_env_var_codegen(*self, key@, value@),
    {
        match self {
            SupportedShell::Bash | SupportedShell::Zsh => concat5("export ", key, "=\"", value, "\";"),
            SupportedShell::Fish => concat5("set -g ", key, " \"", value, "\";"),
            SupportedShell::Powershell => concat5("$env:", key, " = \"", value, "\";"),
        }
    }

    /// The name of the variable that saves the original value of `key`.
    pub fn backup_key(key: &str) -> (r: String)
        ensures
            r@ == spec_backup_key(key@),
    {
        concat3("_CSM_", key, "_ORIG")
    }

    /// Shell code that sets `key` to `new_value`, saving the current value of
    /// `key` in `backup_key(key)` first unless a saved value exists already.
    ///
    /// `saved` is the lookup of `backup_key(key)`, `current` that of `key`.
    pub fn set_env_var(&self, key: &str, new_value: &str, saved: VarLookup, current: VarLookup) -> (r:
        String)
        ensures
            r@ == spec_set_env_var(*self, key@, new_value@, saved, current),
    {
        let mut out = String::new();
        match saved {
            VarLookup::NotPresent => match current {
                VarLookup::Present(val) => {
                    let backup_key = SupportedShell::backup_key(key);
                    let code = self.env_var_codegen(backup_key.as_str(), val.as_str());
                    out.append(code.as_str());
                },
                _ => {},
            },
            _ => {},
        }
        let code = self.env_var_codegen(key, new_value);
        out.append(code.as_str());
        out
    }
}

/// How to hook `csm` into a shell.
pub struct ShellConfiguration {
    pub profile_file: &'static str,
    pub init_command: &'static str,
}

/// The profile file of each shell.
pub open spec fn spec_profile_file(shell: SupportedShell) -> Seq<char> {
    match shell {
        SupportedShell::Bash => "~/.bashrc"@,
        SupportedShell::Fish => "~/.config/fish/config.fish"@,
        SupportedShell::Powershell => "$PROFILE"@,
        SupportedShell::Zsh => "~/.zshrc"@,
    }
}

/// The command that loads the hook in each shell.
pub open spec fn spec_init_command(shell: SupportedShell) -> Seq<char> {
    match shell {
        SupportedShell::Bash => "eval \"$(csm init bash --code)\""@,
        SupportedShell::Fish => "csm init fish --code | source"@,
        SupportedShell::Powershell => "csm init powershell --code | Out-String | Invoke-Expression"@,
        SupportedShell::Zsh => "eval \"$(csm init zsh --code)\""@,
    }
}

/// The command that appends the init command to the profile file.
pub open spec fn spec_persist_command(init_command: Seq<char>, profile_file: Seq<char>) -> Seq<char> {
    "echo '"@ + init_command + "' >> "@ + profile_file
}

/// The instructions shown to the user for setting up the hook.
pub open spec fn spec_instructions(init_command: Seq<char>, profile_file: Seq<char>) -> Seq<char> {
    "To set up csm in your current shell session, run the following:\n    "@ + init_command
        + "\n\nIf you add it to your shell profile ("@ + profile_file
        + "), the hook should automatically be\nenabled for future shell sessions.\n\nYou could run the following command to add it automatically:\n\n    "@
        + spec_persist_command(init_command, profile_file)
}

impl ShellConfiguration {
    pub fn from_supported_shell(shell: &SupportedShell) -> (r: ShellConfiguration)
        ensures
            r.profile_file@ == spec_profile_file(*shell),
            r.init_command@ == spec_init_command(*shell),
    {
        match shell {
            SupportedShell::Bash => ShellConfiguration {
                profile_file: "~/.bashrc",
                init_command: "eval \"$(csm init bash --code)\"",
            },
            SupportedShell::Fish => ShellConfiguration {
                profile_file: "~/.config/fish/config.fish",
                init_command: "csm init fish --code | source",
            },
            SupportedShell::Powershell => ShellConfiguration {
                profile_file: "$PROFILE",
                init_command: "csm init powershell --code | Out-String | Invoke-Expression",
            },
            SupportedShell::Zsh => ShellConfiguration {
                profile_file: "~/.zshrc",
                init_command: "eval \"$(csm init zsh --code)\"",
            },
        }
    }

    /// The command that makes the hook permanent.
    pub fn persist_command(&self) -> (r: String)
        ensures
            r@ == spec_persist_command(self.init_command@, self.profile_file@),
    {
        let mut s = concat3("echo '", self.init_command, "' >> ");
        s.append(self.profile_file);
        s
    }

    /// The instructions for setting up the hook.
    pub fn instructions(&self) -> (r: String)
        ensures
            r@ == spec_instructions(self.init_command@, self.profile_file@),
    {
        let persist = self.persist_command();
        let mut s = concat5(
            "To set up csm in your current shell session, run the following:\n    ",
            self.init_command,
            "\n\nIf you add it to your shell profile (",
            self.profile_file,
            "), the hook should automatically be\nenabled for future shell sessions.\n\nYou could run the following command to add it automatically:\n\n    ",
        );
        s.append(persist.as_str());
        s
    }
}

proof fn lemma_name_differs(name: Seq<char>, n: Seq<char>, ic: bool)
    requires
        name.len() != n.len() || (name.len() > 0 && n.len() > 0 && ascii_lower_code(name[0])
            != ascii_lower_code(n[0])),
    ensures
        !name_matches(name, n, ic),
{
    if name.len() == n.len() {
        assert(name[0] != n[0]);
    }
}

proof fn lemma_not_this_shell(s: SupportedShell, n: Seq<char>, ic: bool)
    requires
        forall|i: int|
            0 <= i < spec_shell_names(s).len() ==> (#[trigger] spec_shell_names(s)[i]).len()
                != n.len() || (spec_shell_names(s)[i].len() > 0 && n.len() > 0 && ascii_lower_code(
                spec_shell_names(s)[i][0],
            ) != ascii_lower_code(n[0])),
    ensures
        !shell_matches(s, n, ic),
{
    assert forall|i: int| 0 <= i < spec_shell_names(s).len() implies !#[trigger] name_matches(
        spec_shell_names(s)[i],
        n,
        ic,
    ) by {
        lemma_name_differs(spec_shell_names(s)[i], n, ic);
    }
}

proof fn lemma_reveal_shell_names()
    ensures
        "bash"@ == seq!['b', 'a', 's', 'h'],
        "bash.exe"@ == seq!['b', 'a', 's', 'h', '.', 'e', 'x', 'e'],
        "fish"@ == seq!['f', 'i', 's', 'h'],
        "fish.exe"@ == seq!['f', 'i', 's', 'h', '.', 'e', 'x', 'e'],
        "powershell"@ == seq!['p', 'o', 'w', 'e', 'r', 's', 'h', 'e', 'l', 'l'],
        "pwsh"@ == seq!['p', 'w', 's', 'h'],
        "pwsh.exe"@ == seq!['p', 'w', 's', 'h', '.', 'e', 'x', 'e'],
        "powershell.exe"@ == seq![
            'p',
            'o',
            'w',
            'e',
            'r',
            's',
            'h',
            'e',
            'l',
            'l',
            '.',
            'e',
            'x',
            'e',
        ],
        "zsh"@ == seq!['z', 's', 'h'],
        "zsh.exe"@ == seq!['z', 's', 'h', '.', 'e', 'x', 'e'],
{
    reveal_strlit("bash");
    reveal_strlit("bash.exe");
    reveal_strlit("fish");
    reveal_strlit("fish.exe");
    reveal_strlit("powershell");
    reveal_strlit("pwsh");
    reveal_strlit("pwsh.exe");
    reveal_strlit("powershell.exe");
    reveal_strlit("zsh");
    reveal_strlit("zsh.exe");
    assert("bash"@ =~= seq!['b', 'a', 's', 'h']);
    assert("bash.exe"@ =~= seq!['b', 'a', 's', 'h', '.', 'e', 'x', 'e']);
    assert("fish"@ =~= seq!['f', 'i', 's', 'h']);
    assert("fish.exe"@ =~= seq!['f', 'i', 's', 'h', '.', 'e', 'x', 'e']);
    assert("powershell"@ =~= seq!['p', 'o', 'w', 'e', 'r', 's', 'h', 'e', 'l', 'l']);
    assert("pwsh"@ =~= seq!['p', 'w', 's', 'h']);
    assert("pwsh.exe"@ =~= seq!['p', 'w', 's', 'h', '.', 'e', 'x', 'e']);
    assert("powershell.exe"@ =~= seq![
        'p',
        'o',
        'w',
        'e',
        'r',
        's',
        'h',
        'e',
        'l',
        'l',
        '.',
        'e',
        'x',
        'e',
    ]);
    assert("zsh"@ =~= seq!['z', 's', 'h']);
    assert("zsh.exe"@ =~= seq!['z', 's', 'h', '.', 'e', 'x', 'e']);
}

/// Every shell is recognised by the name it is shown under, exactly and up to
/// ASCII case.
pub proof fn lemma_shell_name_roundtrip(shell: SupportedShell)
    ensures
        spec_shell_from_name(spec_shell_name(shell), false) == Some(shell),
        spec_shell_from_name(spec_shell_name(shell), true) == Some(shell),
{
    lemma_reveal_shell_names();
    let n = spec_shell_name(shell);
    assert(name_matches(spec_shell_names(shell)[0], n, false));
    assert(name_matches(spec_shell_names(shell)[0], n, true));
    let all = seq![
        SupportedShell::Bash,
        SupportedShell::Fish,
        SupportedShell::Powershell,
        SupportedShell::Zsh,
    ];
    assert forall|k: int, ic: bool| 0 <= k < 4 && all[k] != shell implies !#[trigger] shell_matches(
        all[k],
        n,
        ic,
    ) by {
        let s = all[k];
        assert forall|i: int| 0 <= i < spec_shell_names(s).len() implies (
        #[trigger] spec_shell_names(s)[i]).len() != n.len() || (spec_shell_names(s)[i].len() > 0
            && n.len() > 0 && ascii_lower_code(spec_shell_names(s)[i][0]) != ascii_lower_code(
            n[0],
        )) by {
            if i == 0 {
            } else if i == 1 {
            } else if i == 2 {
            } else {
            }
        }
        lemma_not_this_shell(s, n, ic);
    }
    assert(all[0] == SupportedShell::Bash);
    assert(all[1] == SupportedShell::Fish);
    assert(all[2] == SupportedShell::Powershell);
    assert(all[3] == SupportedShell::Zsh);
}

/// Once the original value of a variable has been saved, setting the variable
/// again never overwrites the saved value.
pub proof fn lemma_saved_value_kept(
    shell: SupportedShell,
    key: Seq<char>,
    new_value: Seq<char>,
    saved: VarLookup,
    current: VarLookup,
)
    requires
        !(saved is NotPresent),
    ensures
        spec_set_env_var(shell, key, new_value, saved, current) == spec_env_var_codegen(
            shell,
            key,
            new_value,
        ),
{
    assert(Seq::<char>::empty() + spec_env_var_codegen(shell, key, new_value) =~= spec_env_var_codegen(
        shell,
        key,
        new_value,
    ));
}

proof fn lemma_first_char_rules_out(n: Seq<char>, alias: Seq<char>, x: Seq<char>, ic: bool)
    requires
        alias.len() > 0,
        n.len() > 0,
        name_matches(alias, x, ic),
        ascii_lower_code(n[0]) != ascii_lower_code(alias[0]),
    ensures
        !name_matches(n, x, ic),
{
    if ic {
        assert(ascii_lower_code(alias[0]) == ascii_lower_code(x[0]));
        if name_matches(n, x, ic) {
            assert(ascii_lower_code(n[0]) == ascii_lower_code(x[0]));
        }
    } else {
        if name_matches(n, x, ic) {
            assert(n[0] == alias[0]);
        }
    }
}

proof fn lemma_other_shell_ruled_out(s: SupportedShell, alias: Seq<char>, x: Seq<char>, ic: bool)
    requires
        alias.len() > 0,
        name_matches(alias, x, ic),
        forall|i: int|
            0 <= i < spec_shell_names(s).len() ==> (#[trigger] spec_shell_names(s)[i]).len() > 0
                && ascii_lower_code(spec_shell_names(s)[i][0]) != ascii_lower_code(alias[0]),
    ensures
        !shell_matches(s, x, ic),
{
    assert forall|i: int| 0 <= i < spec_shell_names(s).len() implies !#[trigger] name_matches(
        spec_shell_names(s)[i],
        x,
        ic,
    ) by {
        lemma_first_char_rules_out(spec_shell_names(s)[i], alias, x, ic);
    }
}

/// Which shell an input naming `alias` is taken for, given that no name of
/// another shell begins with the same letter as `alias` (up to ASCII case).
proof fn lemma_alias_names_shell(shell: SupportedShell, k: int, alias: Seq<char>, x: Seq<char>, ic: bool)
    requires
        alias.len() > 0,
        0 <= k < spec_shell_names(shell).len(),
        spec_shell_names(shell)[k] == alias,
        name_matches(alias, x, ic),
        forall|s: SupportedShell, i: int|
            s != shell && 0 <= i < spec_shell_names(s).len() ==> (#[trigger] spec_shell_names(s)[i]).len() > 0
                && ascii_lower_code(spec_shell_names(s)[i][0]) != ascii_lower_code(alias[0]),
    ensures
        spec_shell_from_name(x, ic) == Some(shell),
{
    assert(name_matches(spec_shell_names(shell)[k], x, ic));
    assert(shell_matches(shell, x, ic));
    if shell != SupportedShell::Bash {
        lemma_other_shell_ruled_out(SupportedShell::Bash, alias, x, ic);
    }
    if shell != SupportedShell::Fish {
        lemma_other_shell_ruled_out(SupportedShell::Fish, alias, x, ic);
    }
    if shell != SupportedShell::Powershell {
        lemma_other_shell_ruled_out(SupportedShell::Powershell, alias, x, ic);
    }
}

proof fn lemma_first_letters()
    ensures
        forall|s: SupportedShell, i: int|
            0 <= i < spec_shell_names(s).len() ==> (#[trigger] spec_shell_names(s)[i]).len() > 0
                && spec_shell_names(s)[i][0] == match s {
                SupportedShell::Bash => 'b',
                SupportedShell::Fish => 'f',
                SupportedShell::Powershell => 'p',
                SupportedShell::Zsh => 'z',
            },
{
    lemma_reveal_shell_names();
    assert forall|s: SupportedShell, i: int|
        0 <= i < spec_shell_names(s).len() implies (#[trigger] spec_shell_names(s)[i]).len() > 0
            && spec_shell_names(s)[i][0] == match s {
            SupportedShell::Bash => 'b',
            SupportedShell::Fish => 'f',
            SupportedShell::Powershell => 'p',
            SupportedShell::Zsh => 'z',
        } by {
        if i == 0 {
        } else if i == 1 {
        } else if i == 2 {
        } else {
        }
    }
}

/// Every documented name and alias of a shell is recognised as that shell:
/// any input that matches it (exactly, or up to ASCII case when case is
/// ignored) names that shell.
pub proof fn lemma_aliases_recognised(x: Seq<char>, ic: bool)
    ensures
        name_matches("bash"@, x, ic) ==> spec_shell_from_name(x, ic) == Some(SupportedShell::Bash),
        name_matches("bash.exe"@, x, ic) ==> spec_shell_from_name(x, ic) == Some(SupportedShell::Bash),
        name_matches("fish"@, x, ic) ==> spec_shell_from_name(x, ic) == Some(SupportedShell::Fish),
        name_matches("fish.exe"@, x, ic) ==> spec_shell_from_name(x, ic) == Some(SupportedShell::Fish),
        name_matches("powershell"@, x, ic) ==> spec_shell_from_name(x, ic) == Some(SupportedShell::Powershell),
        name_matches("pwsh"@, x, ic) ==> spec_shell_from_name(x, ic) == Some(SupportedShell::Powershell),
        name_matches("pwsh.exe"@, x, ic) ==> spec_shell_from_name(x, ic) == Some(SupportedShell::Powershell),
        name_matches("powershell.exe"@, x, ic) ==> spec_shell_from_name(x, ic) == Some(SupportedShell::Powershell),
        name_matches("zsh"@, x, ic) ==> spec_shell_from_name(x, ic) == Some(SupportedShell::Zsh),
        name_matches("zsh.exe"@, x, ic) ==> spec_shell_from_name(x, ic) == Some(SupportedShell::Zsh),
{
    lemma_reveal_shell_names();
    lemma_first_letters();
    if name_matches("bash"@, x, ic) {
        lemma_alias_names_shell(SupportedShell::Bash, 0, "bash"@, x, ic);
    }
    if name_matches("bash.exe"@, x, ic) {
        lemma_alias_names_shell(SupportedShell::Bash, 1, "bash.exe"@, x, ic);
    }
    if name_matches("fish"@, x, ic) {
        lemma_alias_names_shell(SupportedShell::Fish, 0, "fish"@, x, ic);
    }
    if name_matches("fish.exe"@, x, ic) {
        lemma_alias_names_shell(SupportedShell::Fish, 1, "fish.exe"@, x, ic);
    }
    if name_matches("powershell"@, x, ic) {
        lemma_alias_names_shell(SupportedShell::Powershell, 0, "powershell"@, x, ic);
    }
    if name_matches("pwsh"@, x, ic) {
        lemma_alias_names_shell(SupportedShell::Powershell, 1, "pwsh"@, x, ic);
    }
    if name_matches("pwsh.exe"@, x, ic) {
        lemma_alias_names_shell(SupportedShell::Powershell, 2, "pwsh.exe"@, x, ic);
    }
    if name_matches("powershell.exe"@, x, ic) {
        lemma_alias_names_shell(SupportedShell::Powershell, 3, "powershell.exe"@, x, ic);
    }
    if name_matches("zsh"@, x, ic) {
        lemma_alias_names_shell(SupportedShell::Zsh, 0, "zsh"@, x, ic);
    }
    if name_matches("zsh.exe"@, x, ic) {
        lemma_alias_names_shell(SupportedShell::Zsh, 1, "zsh.exe"@, x, ic);
    }
}

/// Each shell has its own profile file and its own init command: no two shells
/// share either, so the hook of one shell is never written into another's
/// startup file.
pub proof fn lemma_profiles_distinct(s1: SupportedShell, s2: SupportedShell)
    ensures
        s1 != s2 ==> spec_profile_file(s1) != spec_profile_file(s2),
        s1 != s2 ==> spec_init_command(s1) != spec_init_command(s2),
{
    reveal_strlit("~/.bashrc");
    reveal_strlit("~/.config/fish/config.fish");
    reveal_strlit("$PROFILE");
    reveal_strlit("~/.zshrc");
    reveal_strlit("eval \"$(csm init bash --code)\"");
    reveal_strlit("csm init fish --code | source");
    reveal_strlit("csm init powershell --code | Out-String | Invoke-Expression");
    reveal_strlit("eval \"$(csm init zsh --code)\"");
    if s1 != s2 {
        let p1 = spec_profile_file(s1);
        let p2 = spec_profile_file(s2);
        if p1.len() == p2.len() {
            assert(p1[0] != p2[0] || p1[2] != p2[2] || p1[3] != p2[3]);
        }
        let c1 = spec_init_command(s1);
        let c2 = spec_init_command(s2);
        if c1.len() == c2.len() {
            assert(c1[0] != c2[0] || c1[14] != c2[14]);
        }
    }
}

/// `needle` occurs in `hay` as a contiguous piece.
pub open spec fn contains_text(hay: Seq<char>, needle: Seq<char>) -> bool {
    exists|i: int, j: int|
        0 <= i && j == i + needle.len() && j <= hay.len() && #[trigger] hay.subrange(i, j) == needle
}

/// The hook set-up of a shell belongs to that shell: its init command runs
/// `csm init` for that very shell, and the profile file of each POSIX-style
/// shell is the startup file named after it (PowerShell keeps its profile
/// path in `$PROFILE`).
pub proof fn lemma_hook_names_its_shell(shell: SupportedShell)
    ensures
        contains_text(spec_init_command(shell), "csm init "@ + spec_shell_name(shell) + " --code"@),
        shell != SupportedShell::Powershell ==> contains_text(spec_profile_file(shell), spec_shell_name(shell)),
        shell == SupportedShell::Powershell ==> spec_profile_file(shell) == "$PROFILE"@,
{
    reveal_strlit("~/.bashrc");
    reveal_strlit("~/.config/fish/config.fish");
    reveal_strlit("$PROFILE");
    reveal_strlit("~/.zshrc");
    reveal_strlit("eval \"$(csm init bash --code)\"");
    reveal_strlit("csm init fish --code | source");
    reveal_strlit("csm init powershell --code | Out-String | Invoke-Expression");
    reveal_strlit("eval \"$(csm init zsh --code)\"");
    reveal_strlit("csm init ");
    reveal_strlit(" --code");
    reveal_strlit("bash");
    reveal_strlit("fish");
    reveal_strlit("powershell");
    reveal_strlit("zsh");
    let cmd = spec_init_command(shell);
    let want = "csm init "@ + spec_shell_name(shell) + " --code"@;
    let prof = spec_profile_file(shell);
    let name = spec_shell_name(shell);
    match shell {
        SupportedShell::Bash => {
            assert(cmd.subrange(8, 8int + want.len()) =~= want);
            assert(prof.subrange(3, 3int + name.len()) =~= name);
        },
        SupportedShell::Fish => {
            assert(cmd.subrange(0, want.len() as int) =~= want);
            assert(prof.subrange(10, 10int + name.len()) =~= name);
        },
        SupportedShell::Powershell => {
            assert(cmd.subrange(0, want.len() as int) =~= want);
        },
        SupportedShell::Zsh => {
            assert(cmd.subrange(8, 8int + want.len()) =~= want);
            assert(prof.subrange(3, 3int + name.len()) =~= name);
        },
    }
}

/// The keyword with which each shell assigns an environment variable.
pub open spec fn spec_assignment_prefix(shell: SupportedShell) -> Seq<char> {
    match shell {
        SupportedShell::Bash | SupportedShell::Zsh => "export "@,
        SupportedShell::Fish => "set -g "@,
        SupportedShell::Powershell => "$env:"@,
    }
}

/// The code generated for a shell is in that shell's syntax throughout: every
/// assignment it holds begins with that shell's assignment keyword and ends
/// with `";`, and when the original value is saved first, the saving line is
/// an assignment of the same shell, to the backup variable, followed by the
/// assignment of the new value.
pub proof fn lemma_set_env_var_in_shell_syntax(
    shell: SupportedShell,
    key: Seq<char>,
    new_value: Seq<char>,
    saved: VarLookup,
    current: VarLookup,
)
    ensures
        spec_env_var_codegen(shell, key, new_value).take(spec_assignment_prefix(shell).len() as int)
            == spec_assignment_prefix(shell),
        spec_env_var_codegen(shell, key, new_value).len() >= spec_assignment_prefix(shell).len() + 2,
        spec_env_var_codegen(shell, key, new_value).skip(
            spec_env_var_codegen(shell, key, new_value).len() - 2,
        ) == "\";"@,
        current matches VarLookup::Present(v) ==> (saved is NotPresent ==> spec_set_env_var(
            shell,
            key,
            new_value,
            saved,
            current,
        ) == spec_env_var_codegen(shell, spec_backup_key(key), v@) + spec_env_var_codegen(
            shell,
            key,
            new_value,
        )),
        !(saved is NotPresent && current is Present) ==> spec_set_env_var(
            shell,
            key,
            new_value,
            saved,
            current,
        ) == spec_env_var_codegen(shell, key, new_value),
        spec_set_env_var(shell, key, new_value, saved, current).take(
            spec_assignment_prefix(shell).len() as int,
        ) == spec_assignment_prefix(shell),
{
    reveal_strlit("export ");
    reveal_strlit("set -g ");
    reveal_strlit("$env:");
    reveal_strlit("\";");
    let c = spec_env_var_codegen(shell, key, new_value);
    let p = spec_assignment_prefix(shell);
    let out = spec_set_env_var(shell, key, new_value, saved, current);
    match shell {
        SupportedShell::Bash | SupportedShell::Zsh => {
            assert(c =~= "export "@ + (key + "=\""@ + new_value + "\";"@));
        },
        SupportedShell::Fish => {
            assert(c =~= "set -g "@ + (key + " \""@ + new_value + "\";"@));
        },
        SupportedShell::Powershell => {
            assert(c =~= "$env:"@ + (key + " = \""@ + new_value + "\";"@));
        },
    }
    assert(c.take(p.len() as int) =~= p);
    assert(c.skip(c.len() - 2) =~= "\";"@);
    if saved is NotPresent && current is Present {
        let v = current->Present_0;
        let b = spec_env_var_codegen(shell, spec_backup_key(key), v@);
        match shell {
            SupportedShell::Bash | SupportedShell::Zsh => {
                assert(b =~= "export "@ + (spec_backup_key(key) + "=\""@ + v@ + "\";"@));
            },
            SupportedShell::Fish => {
                assert(b =~= "set -g "@ + (spec_backup_key(key) + " \""@ + v@ + "\";"@));
            },
            SupportedShell::Powershell => {
                assert(b =~= "$env:"@ + (spec_backup_key(key) + " = \""@ + v@ + "\";"@));
            },
        }
        assert(out =~= b + c);
        assert(out.take(p.len() as int) =~= p);
    } else {
        lemma_saved_or_absent(shell, key, new_value, saved, current);
        assert(out =~= c);
    }
}

proof fn lemma_saved_or_absent(
    shell: SupportedShell,
    key: Seq<char>,
    new_value: Seq<char>,
    saved: VarLookup,
    current: VarLookup,
)
    requires
        !(saved is NotPresent && current is Present),
    ensures
        spec_set_env_var(shell, key, new_value, saved, current) == spec_env_var_codegen(
            shell,
            key,
            new_value,
        ),
{
    assert(Seq::<char>::empty() + spec_env_var_codegen(shell, key, new_value) =~= spec_env_var_codegen(
        shell,
        key,
        new_value,
    ));
}

} // verus!
