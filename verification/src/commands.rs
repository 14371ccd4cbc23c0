//! The decisions behind each command: which action an update is, which backend
//! a command uses, and how the settings are read and changed.

use vstd::prelude::*;
use crate::backend::{all_backends, backend_id, parse_spec, Action, Backend, ALL};
use crate::config::{default_escalator, Config, ConfigError};
use crate::text::{join, join_strings, same_text, starts_with_char, texts, first_char_is};

verus! {

/// Whether an update names at least one package, as opposed to only flags.
pub open spec fn names_a_package(args: Seq<Seq<char>>) -> bool {
    exists|i: int| 0 <= i < args.len() && !starts_with_char(#[trigger] args[i], '-')
}

/// `update` with at least one operand that is not a flag updates those
/// packages; with none it refreshes and upgrades everything.
pub fn update_action(args: &[String]) -> (r: Action)
    ensures
        r == (if names_a_package(texts(args@)) {
            Action::Update
        } else {
            Action::UpdateAll
        }),
{
    let n = args.len();
    let mut i: usize = 0;
    while i < n
        invariant
            n == args@.len(),
            0 <= i <= n,
            forall|j: int| 0 <= j < i ==> starts_with_char(#[trigger] texts(args@)[j], '-'),
        decreases n - i,
    {
        if !first_char_is(args[i].as_str(), '-') {
            assert(!starts_with_char(texts(args@)[i as int], '-'));
            return Action::Update;
        }
        i = i + 1;
    }
    Action::UpdateAll
}

/// The backend a command uses: the one given on the command line when there
/// is one, else the configured one.
pub fn choose_backend(with: Option<&str>, cfg: &Config) -> (r: Result<Backend, ConfigError>)
    ensures
        match with {
            Some(name) => match r {
                Ok(b) => parse_spec(name@) == Some(b),
                Err(e) => parse_spec(name@) is None && (e matches ConfigError::UnknownBackend(n)
                    && n@ == name@),
            },
            None => match r {
                Ok(b) => parse_spec(cfg.backend@) == Some(b),
                Err(e) => parse_spec(cfg.backend@) is None && (e matches ConfigError::BadConfiguredBackend(
                    n,
                ) && n@ == cfg.backend@),
            },
        },
{
    match with {
        Some(name) => match Backend::parse(name) {
            Some(b) => Ok(b),
            None => Err(ConfigError::UnknownBackend(name.to_owned())),
        },
        None => cfg.resolve_backend(),
    }
}

/// The names of `bs`, in order.
pub open spec fn ids(bs: Seq<Backend>) -> Seq<Seq<char>> {
    bs.map_values(|b: Backend| backend_id(b))
}

/// The names of `bs` separated by commas.
pub fn id_list(bs: &[Backend]) -> (r: String)
    ensures
        r@ == join(ids(bs@), ", "@),
{
    let mut names: Vec<String> = Vec::new();
    let n = bs.len();
    let mut i: usize = 0;
    while i < n
        invariant
            n == bs@.len(),
            0 <= i <= n,
            texts(names@) == ids(bs@).take(i as int),
        decreases n - i,
    {
        let ghost prev = names@;
        let name = bs[i].id().to_owned();
        assert(name@ == ids(bs@)[i as int]);
        names.push(name);
        assert(texts(names@) =~= texts(prev).push(ids(bs@)[i as int]));
        assert(texts(names@) =~= ids(bs@).take(i + 1));
        i = i + 1;
    }
    assert(ids(bs@).take(n as int) =~= ids(bs@));
    join_strings(&names, ", ")
}

/// Every supported backend's name, in detection order, separated by commas.
pub fn supported_list() -> (r: String)
    ensures
        r@ == join(ids(all_backends()), ", "@),
{
    let all = ALL;
    assert(all@ == all_backends());
    id_list(&all)
}

/// The names of the backends found, or "none" when none was.
pub fn detected_list(found: &[Backend]) -> (r: String)
    ensures
        r@ == (if found@.len() == 0 {
            "none"@
        } else {
            join(ids(found@), ", "@)
        }),
{
    if found.len() == 0 {
        "none".to_owned()
    } else {
        id_list(found)
    }
}

/// The value of setting `key`, if it names one.
pub open spec fn setting_of(c: (Seq<char>, Seq<char>), key: Seq<char>) -> Option<Seq<char>> {
    if key == "backend"@ {
        Some(c.0)
    } else if key == "escalator"@ {
        Some(c.1)
    } else {
        None
    }
}

/// The settings after setting `key` to `value`, if that is allowed: a backend
/// must be a known one, any escalator is taken, and no other key exists.
pub open spec fn after_setting(c: (Seq<char>, Seq<char>), key: Seq<char>, value: Seq<char>) -> Option<
    (Seq<char>, Seq<char>),
> {
    if key == "backend"@ {
        match parse_spec(value) {
            Some(b) => Some((backend_id(b), c.1)),
            None => None,
        }
    } else if key == "escalator"@ {
        Some((c.0, value))
    } else {
        None
    }
}

/// The settings a change starts from: the saved ones, else no backend and the
/// default escalator.
pub open spec fn starting_point(loaded: Option<Config>) -> (Seq<char>, Seq<char>) {
    match loaded {
        Some(c) => c@,
        None => (Seq::empty(), "sudo"@),
    }
}

/// Whether an escalator is one of the usual ones.
pub open spec fn usual_escalator(value: Seq<char>) -> bool {
    value == "sudo"@ || value == "doas"@ || value == "run0"@ || value == "none"@
}

/// What a change of setting was.
#[derive(Clone, Copy, Debug, PartialEq, Eq, Structural)]
pub enum Setting {
    /// The backend became this one.
    Backend(Backend),
    /// The escalator changed; `usual` tells whether it is one of sudo, doas, run0, none.
    Escalator { usual: bool },
}

/// The value of one setting of the saved configuration.
pub fn config_get(cfg: Option<&Config>, key: &str) -> (r: Result<String, ConfigError>)
    ensures
        match cfg {
            None => r == Err::<String, ConfigError>(ConfigError::NotConfigured),
            Some(c) => match setting_of(c@, key@) {
                Some(v) => r is Ok && r->Ok_0@ == v,
                None => r matches Err(ConfigError::UnknownKey(k)) && k@ == key@,
            },
        },
{
    match cfg {
        None => Err(ConfigError::NotConfigured),
        Some(c) => {
            if same_text(key, "backend") {
                Ok(c.backend.clone())
            } else if same_text(key, "escalator") {
                Ok(c.escalator.clone())
            } else {
                Err(ConfigError::UnknownKey(key.to_owned()))
            }
        },
    }
}

/// Sets `key` to `value`, starting from the saved configuration if there is
/// one; a backend is stored under its canonical name.
pub fn apply_setting(loaded: Option<Config>, key: &str, value: &str) -> (r: Result<
    (Config, Setting),
    ConfigError,
>)
    ensures
        match after_setting(starting_point(loaded), key@, value@) {
            Some(c) => match r {
                Ok((cfg, setting)) => cfg@ == c && (if key@ == "backend"@ {
                    setting == Setting::Backend(parse_spec(value@)->0)
                } else {
                    setting == Setting::Escalator { usual: usual_escalator(value@) }
                }),
                Err(_) => false,
            },
            None => if key@ == "backend"@ {
                r matches Err(ConfigError::UnknownBackend(v)) && v@ == value@
            } else {
                r matches Err(ConfigError::UnknownKey(k)) && k@ == key@
            },
        },
{
    let mut cfg = match loaded {
        Some(c) => c,
        None => Config { backend: String::new(), escalator: default_escalator() },
    };
    if same_text(key, "backend") {
        match Backend::parse(value) {
            Some(b) => {
                cfg.backend = b.id().to_owned();
                Ok((cfg, Setting::Backend(b)))
            },
            None => Err(ConfigError::UnknownBackend(value.to_owned())),
        }
    } else if same_text(key, "escalator") {
        let usual = same_text(value, "sudo") || same_text(value, "doas") || same_text(value, "run0")
            || same_text(value, "none");
        cfg.escalator = value.to_owned();
        Ok((cfg, Setting::Escalator { usual }))
    } else {
        Err(ConfigError::UnknownKey(key.to_owned()))
    }
}

/// A configuration can be saved only once it names a backend.
pub fn ready_to_save(cfg: &Config) -> (r: Result<(), ConfigError>)
    ensures
        r is Ok <==> cfg.backend@.len() > 0,
        r is Err ==> r == Err::<(), ConfigError>(ConfigError::NoBackend),
{
    if cfg.backend.as_str().is_empty() {
        Err(ConfigError::NoBackend)
    } else {
        Ok(())
    }
}

/// Reading a setting back gives what was just set: the backend's canonical
/// name, which is the value given, or the escalator as given; the other
/// setting is left as it was.
pub proof fn lemma_set_then_get(c: (Seq<char>, Seq<char>), key: Seq<char>, value: Seq<char>)
    requires
        after_setting(c, key, value) is Some,
    ensures
        setting_of(after_setting(c, key, value)->0, key) == Some(value),
        key == "backend"@ ==> (after_setting(c, key, value)->0).1 == c.1,
        key == "escalator"@ ==> (after_setting(c, key, value)->0).0 == c.0,
{
    reveal_strlit("backend");
    reveal_strlit("escalator");
    assert("backend"@.len() != "escalator"@.len());
    if key == "backend"@ {
        let b = parse_spec(value)->0;
        assert(backend_id(b) == value);
    }
}

/// An update names a package exactly when some argument does not begin with
/// `-`: an argument whose first character is anything else (or an empty one)
/// names a package whatever it holds later, and only when every argument begins
/// with `-` is the update one of everything.
pub proof fn lemma_update_names_a_package(args: Seq<Seq<char>>)
    ensures
        forall|i: int|
            0 <= i < args.len() && ((#[trigger] args[i]).len() == 0 || args[i][0] != '-')
                ==> names_a_package(args),
        (forall|i: int| 0 <= i < args.len() ==> (#[trigger] args[i]).len() > 0 && args[i][0] == '-')
            ==> !names_a_package(args),
        args.len() == 0 ==> !names_a_package(args),
{
    assert forall|i: int|
        0 <= i < args.len() && ((#[trigger] args[i]).len() == 0 || args[i][0] != '-')
            implies names_a_package(args) by {
        assert(!starts_with_char(args[i], '-'));
    }
    if forall|i: int| 0 <= i < args.len() ==> (#[trigger] args[i]).len() > 0 && args[i][0] == '-' {
        assert forall|i: int| 0 <= i < args.len() implies starts_with_char(#[trigger] args[i], '-') by {
        }
    }
}

} // verus!
