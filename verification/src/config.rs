//! The saved settings: which backend to drive and how to gain root.

use vstd::prelude::*;
use crate::backend::{backend_description, backend_id, parse_spec, Backend};
use crate::text::{pad_right, pad_to, same_text};
use vstd::string::StringSliceAdditionalSpecFns;

verus! {

/// The settings kept in the configuration file.
#[derive(Debug, Clone)]
pub struct Config {
    /// The package manager driven unless a single command overrides it.
    pub backend: String,
    /// How to gain root: sudo, doas, run0, or "none" to never escalate.
    pub escalator: String,
}

impl View for Config {
    /// The backend setting and the escalator setting.
    type V = (Seq<char>, Seq<char>);

    open spec fn view(&self) -> (Seq<char>, Seq<char>) {
        (self.backend@, self.escalator@)
    }
}

/// Why the settings cannot be used or changed as asked.
#[derive(Debug, Clone, PartialEq, Eq)]
pub enum ConfigError {
    /// The backend given on the command line is not one this library knows.
    UnknownBackend(String),
    /// The backend in the configuration file is not one this library knows.
    BadConfiguredBackend(String),
    /// The key is neither `backend` nor `escalator`.
    UnknownKey(String),
    /// There is no configuration yet.
    NotConfigured,
    /// The configuration would be saved without a backend.
    NoBackend,
}

/// The escalator used when the configuration names none.
pub open spec fn default_escalator_spec() -> Seq<char> {
    "sudo"@
}

/// The escalation command an escalator setting stands for: none for "none" or an
/// empty setting, else the setting itself.
pub open spec fn escalator_spec(setting: Seq<char>) -> Option<Seq<char>> {
    if setting == "none"@ || setting.len() == 0 {
        None
    } else {
        Some(setting)
    }
}

/// The escalator used when the configuration names none.
pub fn default_escalator() -> (r: String)
    ensures
        r@ == default_escalator_spec(),
{
    "sudo".to_owned()
}

impl Config {
    /// The configured backend, or an error naming the unknown setting.
    pub fn resolve_backend(&self) -> (r: Result<Backend, ConfigError>)
        ensures
            match r {
                Ok(b) => parse_spec(self.backend@) == Some(b),
                Err(e) => parse_spec(self.backend@) is None && (e matches ConfigError::BadConfiguredBackend(
                    name,
                ) && name@ == self.backend@),
            },
    {
        match Backend::parse(self.backend.as_str()) {
            Some(b) => Ok(b),
            None => Err(ConfigError::BadConfiguredBackend(self.backend.clone())),
        }
    }

    /// The escalation command, or None when escalation is disabled.
    pub fn escalator(&self) -> (r: Option<&str>)
        ensures
            r is Some == escalator_spec(self.escalator@) is Some,
            r is Some ==> r->0@ == escalator_spec(self.escalator@)->0,
    {
        let e = self.escalator.as_str();
        if same_text(e, "none") || e.is_empty() {
            None
        } else {
            Some(e)
        }
    }
}

/// The path separator, `/`.
pub open spec fn separator() -> u8 {
    47u8
}

/// `base` with `component` pushed onto it, as a path: a separator goes between
/// them unless `base` is empty or already ends with one.
pub open spec fn join_path(base: Seq<u8>, component: Seq<u8>) -> Seq<u8> {
    if base.len() > 0 && base.last() != separator() {
        base + seq![separator()] + component
    } else {
        base + component
    }
}

/// Where the configuration file lives: the file the override names, else
/// `pkg/pkg.conf` under the XDG configuration directory, else under
/// `$HOME/.config`, else under a relative `.config`.
pub open spec fn config_path_spec(
    override_file: Option<Seq<u8>>,
    xdg_config_home: Option<Seq<u8>>,
    home: Option<Seq<u8>>,
) -> Seq<u8> {
    match override_file {
        Some(p) => p,
        None => {
            let base = match xdg_config_home {
                Some(x) => x,
                None => match home {
                    Some(h) => join_path(h, ".config".spec_bytes()),
                    None => ".config".spec_bytes(),
                },
            };
            join_path(join_path(base, "pkg".spec_bytes()), "pkg.conf".spec_bytes())
        },
    }
}

/// `base` with `component` pushed onto it as a path.
fn push_path(base: &mut Vec<u8>, component: &[u8])
    ensures
        final(base)@ == join_path(old(base)@, component@),
{
    let n = base.len();
    if n > 0 && base[n - 1] != 47u8 {
        base.push(47u8);
    }
    let m = component.len();
    let ghost start = base@;
    let mut i: usize = 0;
    while i < m
        invariant
            m == component@.len(),
            0 <= i <= m,
            base@ == start + component@.take(i as int),
        decreases m - i,
    {
        base.push(component[i]);
        assert(base@ =~= start + component@.take(i + 1));
        i = i + 1;
    }
    assert(component@.take(m as int) =~= component@);
}

/// Where the configuration file lives, given the values of `PKG_CONFIG_FILE`,
/// `XDG_CONFIG_HOME` and `HOME` (as raw bytes) in the environment.
pub fn config_path(
    override_file: Option<Vec<u8>>,
    xdg_config_home: Option<Vec<u8>>,
    home: Option<Vec<u8>>,
) -> (r: Vec<u8>)
    ensures
        r@ == config_path_spec(
            match override_file {
                Some(p) => Some(p@),
                None => None,
            },
            match xdg_config_home {
                Some(x) => Some(x@),
                None => None,
            },
            match home {
                Some(h) => Some(h@),
                None => None,
            },
        ),
{
    match override_file {
        Some(p) => p,
        None => {
            let mut base = match xdg_config_home {
                Some(x) => x,
                None => match home {
                    Some(h) => {
                        let mut h = h;
                        push_path(&mut h, ".config".as_bytes());
                        h
                    },
                    None => {
                        let mut b: Vec<u8> = Vec::new();
                        push_path(&mut b, ".config".as_bytes());
                        assert(b@ =~= ".config".spec_bytes());
                        b
                    },
                },
            };
            push_path(&mut base, "pkg".as_bytes());
            push_path(&mut base, "pkg.conf".as_bytes());
            base
        },
    }
}

/// What first-run setup does with the package managers it found.
#[derive(Clone, Copy, Debug, PartialEq, Eq, Structural)]
pub enum Onboarding {
    /// None was found: fail, listing the supported ones.
    NoneFound,
    /// Exactly one was found: use it without asking.
    Only(Backend),
    /// Several were found but there is no terminal to ask on: fail with instructions.
    CannotPrompt,
    /// Several were found: ask which to use.
    Ask,
}

/// What first-run setup does, given the managers found in detection order and
/// whether standard input is a terminal.
pub open spec fn onboarding_spec(found: Seq<Backend>, interactive: bool) -> Onboarding {
    if found.len() == 0 {
        Onboarding::NoneFound
    } else if found.len() == 1 {
        Onboarding::Only(found[0])
    } else if interactive {
        Onboarding::Ask
    } else {
        Onboarding::CannotPrompt
    }
}

/// Decides what first-run setup does with the package managers found.
pub fn onboarding(found: &[Backend], interactive: bool) -> (r: Onboarding)
    ensures
        r == onboarding_spec(found@, interactive),
{
    if found.len() == 0 {
        Onboarding::NoneFound
    } else if found.len() == 1 {
        Onboarding::Only(found[0])
    } else if interactive {
        Onboarding::Ask
    } else {
        Onboarding::CannotPrompt
    }
}

/// The line offered for one backend in the picker: its name in a column of
/// eight, then what it manages.
pub open spec fn picker_label(b: Backend) -> Seq<char> {
    pad_right(backend_id(b), 8) + " "@ + backend_description(b)
}

/// The picker's lines, one per backend found, in the same order.
pub fn picker_labels(found: &[Backend]) -> (r: Vec<String>)
    ensures
        r@.len() == found@.len(),
        forall|i: int| 0 <= i < found@.len() ==> #[trigger] r@[i]@ == picker_label(found@[i]),
{
    let mut out: Vec<String> = Vec::new();
    let n = found.len();
    let mut i: usize = 0;
    while i < n
        invariant
            n == found@.len(),
            0 <= i <= n,
            out@.len() == i,
            forall|j: int| 0 <= j < i ==> #[trigger] out@[j]@ == picker_label(found@[j]),
        decreases n - i,
    {
        let b = found[i];
        let mut line = pad_to(b.id(), 8);
        line.append(" ");
        line.append(b.describe());
        out.push(line);
        i = i + 1;
    }
    out
}

/// The configuration saved once a backend has been chosen.
pub fn onboard_config(chosen: Backend) -> (r: Config)
    ensures
        r@ == (backend_id(chosen), default_escalator_spec()),
{
    Config { backend: chosen.id().to_owned(), escalator: default_escalator() }
}

/// Whenever the override names a file, the configuration path is exactly that
/// file, whatever the XDG directory and the home directory are.
pub proof fn lemma_override_wins(
    file: Seq<u8>,
    xdg_config_home: Option<Seq<u8>>,
    home: Option<Seq<u8>>,
)
    ensures
        config_path_spec(Some(file), xdg_config_home, home) == file,
{
}

/// A single package manager found is used without asking, whether or not there
/// is a terminal; the picker is shown only when at least two were found, and
/// setup fails for want of a choice only when none was found or several were
/// found without a terminal.
pub proof fn lemma_single_manager_used_without_asking(
    found: Seq<Backend>,
    b: Backend,
    interactive: bool,
)
    ensures
        onboarding_spec(seq![b], interactive) == Onboarding::Only(b),
        onboarding_spec(found, interactive) == Onboarding::Ask ==> found.len() >= 2 && interactive,
        onboarding_spec(found, interactive) == Onboarding::NoneFound <==> found.len() == 0,
        onboarding_spec(found, interactive) == Onboarding::CannotPrompt ==> found.len() >= 2
            && !interactive,
        found.len() == 1 ==> onboarding_spec(found, interactive) == Onboarding::Only(found[0]),
{
}

/// An escalator setting disables escalation only when it is "none" or empty;
/// any other setting, such as the default "sudo", is itself the command that
/// gains root.
pub proof fn lemma_escalator_setting(setting: Seq<char>)
    ensures
        escalator_spec(setting) is None <==> (setting == "none"@ || setting.len() == 0),
        setting != "none"@ && setting.len() > 0 ==> escalator_spec(setting) == Some(setting),
        escalator_spec(default_escalator_spec()) == Some("sudo"@),
        escalator_spec("doas"@) == Some("doas"@),
{
    reveal_strlit("sudo");
    reveal_strlit("none");
    reveal_strlit("doas");
    assert("sudo"@.len() > 0);
    assert("sudo"@ != "none"@) by {
        assert("sudo"@[0] != "none"@[0]);
    }
    assert("doas"@ != "none"@) by {
        assert("doas"@[0] != "none"@[0]);
    }
}

/// Without an override, the XDG directory, when set, decides the path whatever
/// the home directory is; without it, the path is the one the XDG directory
/// `$HOME/.config` would give; the file always ends in `pkg.conf` under a
/// `pkg` directory of the chosen base, which the path begins with.
pub proof fn lemma_config_path_bases(x: Seq<u8>, h: Seq<u8>, other_home: Option<Seq<u8>>)
    ensures
        config_path_spec(None, Some(x), Some(h)) == config_path_spec(None, Some(x), other_home),
        config_path_spec(None, None, Some(h)) == config_path_spec(
            None,
            Some(join_path(h, ".config".spec_bytes())),
            other_home,
        ),
        config_path_spec(None, Some(x), other_home).subrange(0, x.len() as int) == x,
        ({
            let p = config_path_spec(None, Some(x), other_home);
            let f = "pkg.conf".spec_bytes();
            f.len() <= p.len() && p.subrange(p.len() - f.len(), p.len() as int) == f
        }),
{
    let d = join_path(x, "pkg".spec_bytes());
    let p = join_path(d, "pkg.conf".spec_bytes());
    let f = "pkg.conf".spec_bytes();
    assert(d.subrange(0, x.len() as int) =~= x);
    assert(p.subrange(0, d.len() as int) =~= d);
    assert(p.subrange(0, x.len() as int) =~= d.subrange(0, x.len() as int));
    assert(p.subrange(p.len() - f.len(), p.len() as int) =~= f);
}

} // verus!
