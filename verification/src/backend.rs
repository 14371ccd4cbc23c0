//! Backends, actions, and the translation of an action into a backend's own commands.

use vstd::prelude::*;
use crate::text::{copy_strings, has_char, first_char_is, join, join_strings, same_text, starts_with_char, texts};

verus! {

/// A package manager this library knows how to drive.
#[derive(Clone, Copy, Debug, PartialEq, Eq, Hash, Structural)]
pub enum Backend {
    Pacman,
    Apt,
    Dnf,
    Yay,
    Paru,
    Flatpak,
    Snap,
    Brew,
    Nix,
}

/// Detection order: native managers first, then AUR helpers, then universal ones.
pub const ALL: [Backend; 9] = [
    Backend::Pacman,
    Backend::Apt,
    Backend::Dnf,
    Backend::Yay,
    Backend::Paru,
    Backend::Flatpak,
    Backend::Snap,
    Backend::Brew,
    Backend::Nix,
];

/// The backends in detection order.
pub open spec fn all_backends() -> Seq<Backend> {
    seq![
        Backend::Pacman,
        Backend::Apt,
        Backend::Dnf,
        Backend::Yay,
        Backend::Paru,
        Backend::Flatpak,
        Backend::Snap,
        Backend::Brew,
        Backend::Nix,
    ]
}

/// The name a backend goes by, which is also the executable it runs.
pub open spec fn backend_id(b: Backend) -> Seq<char> {
    match b {
        Backend::Pacman => "pacman"@,
        Backend::Apt => "apt"@,
        Backend::Dnf => "dnf"@,
        Backend::Yay => "yay"@,
        Backend::Paru => "paru"@,
        Backend::Flatpak => "flatpak"@,
        Backend::Snap => "snap"@,
        Backend::Brew => "brew"@,
        Backend::Nix => "nix"@,
    }
}

/// One line that says what a backend manages.
pub open spec fn backend_description(b: Backend) -> Seq<char> {
    match b {
        Backend::Pacman => "Arch Linux native packages"@,
        Backend::Apt => "Debian / Ubuntu native packages"@,
        Backend::Dnf => "Fedora / RHEL native packages"@,
        Backend::Yay => "Arch repos + AUR (yay)"@,
        Backend::Paru => "Arch repos + AUR (paru)"@,
        Backend::Flatpak => "Flatpak sandboxed apps"@,
        Backend::Snap => "Snap packages"@,
        Backend::Brew => "Homebrew (user-level)"@,
        Backend::Nix => "Nix profiles (user-level)"@,
    }
}

/// The backend whose name is `s`, if there is one.
pub open spec fn parse_spec(s: Seq<char>) -> Option<Backend> {
    if exists|b: Backend| backend_id(b) == s {
        Some(choose|b: Backend| backend_id(b) == s)
    } else {
        None
    }
}

/// Whether mutating operations on this backend run as root: yay and paru call
/// sudo themselves, flatpak authenticates through polkit, brew and nix are user-level.
pub open spec fn escalates(b: Backend) -> bool {
    b == Backend::Pacman || b == Backend::Apt || b == Backend::Dnf || b == Backend::Snap
}

/// The flag that suppresses a backend's confirmation prompts, if it has one.
pub open spec fn yes_flag_spec(b: Backend) -> Option<Seq<char>> {
    match b {
        Backend::Pacman | Backend::Yay | Backend::Paru => Some("--noconfirm"@),
        Backend::Apt | Backend::Dnf | Backend::Flatpak => Some("-y"@),
        Backend::Snap | Backend::Brew | Backend::Nix => None,
    }
}

impl Backend {
    pub fn id(self) -> (r: &'static str)
        ensures
            r@ == backend_id(self),
    {
        match self {
            Backend::Pacman => "pacman",
            Backend::Apt => "apt",
            Backend::Dnf => "dnf",
            Backend::Yay => "yay",
            Backend::Paru => "paru",
            Backend::Flatpak => "flatpak",
            Backend::Snap => "snap",
            Backend::Brew => "brew",
            Backend::Nix => "nix",
        }
    }

    /// The executable that is looked for on PATH and ultimately run.
    pub fn binary(self) -> (r: &'static str)
        ensures
            r@ == backend_id(self),
    {
        self.id()
    }

    pub fn describe(self) -> (r: &'static str)
        ensures
            r@ == backend_description(self),
    {
        match self {
            Backend::Pacman => "Arch Linux native packages",
            Backend::Apt => "Debian / Ubuntu native packages",
            Backend::Dnf => "Fedora / RHEL native packages",
            Backend::Yay => "Arch repos + AUR (yay)",
            Backend::Paru => "Arch repos + AUR (paru)",
            Backend::Flatpak => "Flatpak sandboxed apps",
            Backend::Snap => "Snap packages",
            Backend::Brew => "Homebrew (user-level)",
            Backend::Nix => "Nix profiles (user-level)",
        }
    }

    /// The backend named `s`: the first of `ALL` whose id is `s`.
    pub fn parse(s: &str) -> (r: Option<Backend>)
        ensures
            r == parse_spec(s@),
    {
        let mut i: usize = 0;
        while i < 9
            invariant
                0 <= i <= 9,
                ALL@ == all_backends(),
                forall|j: int| 0 <= j < i ==> backend_id(#[trigger] all_backends()[j]) != s@,
            decreases 9 - i,
        {
            let b = ALL[i];
            if same_text(b.id(), s) {
                proof {
                    lemma_id_injective(b);
                }
                return Some(b);
            }
            i = i + 1;
        }
        proof {
            assert forall|b: Backend| backend_id(b) != s@ by {
                lemma_all_backends_complete(b);
            }
        }
        None
    }

    /// Whether mutating operations on this backend need privilege escalation.
    pub fn needs_escalation(self) -> (r: bool)
        ensures
            r == escalates(self),
    {
        matches!(self, Backend::Pacman | Backend::Apt | Backend::Dnf | Backend::Snap)
    }

    /// The flag that suppresses this backend's confirmation prompts, if it has one.
    fn yes_flag(self) -> (r: Option<&'static str>)
        ensures
            r is Some == yes_flag_spec(self) is Some,
            r is Some ==> r->0@ == yes_flag_spec(self)->0,
    {
        match self {
            Backend::Pacman | Backend::Yay | Backend::Paru => Some("--noconfirm"),
            Backend::Apt | Backend::Dnf | Backend::Flatpak => Some("-y"),
            Backend::Snap | Backend::Brew | Backend::Nix => None,
        }
    }
}

/// Every backend stands in `ALL`.
pub proof fn lemma_all_backends_complete(b: Backend)
    ensures
        all_backends().contains(b),
        exists|j: int| 0 <= j < 9 && all_backends()[j] == b,
{
    match b {
        Backend::Pacman => assert(all_backends()[0] == b),
        Backend::Apt => assert(all_backends()[1] == b),
        Backend::Dnf => assert(all_backends()[2] == b),
        Backend::Yay => assert(all_backends()[3] == b),
        Backend::Paru => assert(all_backends()[4] == b),
        Backend::Flatpak => assert(all_backends()[5] == b),
        Backend::Snap => assert(all_backends()[6] == b),
        Backend::Brew => assert(all_backends()[7] == b),
        Backend::Nix => assert(all_backends()[8] == b),
    }
}

/// No two backends share a name.
pub proof fn lemma_id_injective(b: Backend)
    ensures
        forall|c: Backend| backend_id(c) == backend_id(b) ==> c == b,
{
    assert forall|c: Backend| backend_id(c) == backend_id(b) implies c == b by {
        reveal_strlit("pacman");
        reveal_strlit("apt");
        reveal_strlit("dnf");
        reveal_strlit("yay");
        reveal_strlit("paru");
        reveal_strlit("flatpak");
        reveal_strlit("snap");
        reveal_strlit("brew");
        reveal_strlit("nix");
        assert(backend_id(c).len() == backend_id(b).len());
        assert(backend_id(c)[0] == backend_id(b)[0]);
    }
}

/// What the user asked for, before it is translated to a backend.
#[derive(Clone, Copy, Debug, PartialEq, Eq, Structural)]
pub enum Action {
    Install,
    Search,
    /// Update with no packages: refresh metadata and upgrade everything.
    UpdateAll,
    /// Update the named packages.
    Update,
    Remove,
    List,
    Info,
}

/// The actions that change the system; the others only read.
pub open spec fn is_mutating(a: Action) -> bool {
    a == Action::Install || a == Action::UpdateAll || a == Action::Update || a == Action::Remove
}

impl Action {
    fn mutating(self) -> (r: bool)
        ensures
            r == is_mutating(self),
    {
        matches!(self, Action::Install | Action::UpdateAll | Action::Update | Action::Remove)
    }
}

/// The words each step of a backend's translation of an action starts with, one
/// sequence of words per step, in the order the steps run.
pub open spec fn verb_args(b: Backend, a: Action) -> Seq<Seq<Seq<char>>> {
    match b {
        // Arch has no supported partial upgrade, so updating one package
        // upgrades the system too.
        Backend::Pacman => match a {
            Action::Install => seq![seq!["-S"@]],
            Action::Search => seq![seq!["-Ss"@]],
            Action::UpdateAll => seq![seq!["-Syu"@]],
            Action::Update => seq![seq!["-Syu"@]],
            Action::Remove => seq![seq!["-Rns"@]],
            Action::List => seq![seq!["-Q"@]],
            Action::Info => seq![seq!["-Si"@]],
        },
        // An AUR helper resolves the current version of one package without
        // a sync-database refresh, leaving the rest of the system where it is.
        Backend::Yay | Backend::Paru => match a {
            Action::Install => seq![seq!["-S"@]],
            Action::Search => seq![seq!["-Ss"@]],
            Action::UpdateAll => seq![seq!["-Syu"@]],
            Action::Update => seq![seq!["-S"@]],
            Action::Remove => seq![seq!["-Rns"@]],
            Action::List => seq![seq!["-Q"@]],
            Action::Info => seq![seq!["-Si"@]],
        },
        Backend::Apt => match a {
            Action::Install => seq![seq!["install"@]],
            Action::Search => seq![seq!["search"@]],
            Action::UpdateAll => seq![seq!["update"@], seq!["upgrade"@]],
            Action::Update => seq![seq!["update"@], seq!["install"@, "--only-upgrade"@]],
            Action::Remove => seq![seq!["remove"@]],
            Action::List => seq![seq!["list"@, "--installed"@]],
            Action::Info => seq![seq!["show"@]],
        },
        Backend::Dnf => match a {
            Action::Install => seq![seq!["install"@]],
            Action::Search => seq![seq!["search"@]],
            Action::UpdateAll => seq![seq!["upgrade"@, "--refresh"@]],
            Action::Update => seq![seq!["upgrade"@, "--refresh"@]],
            Action::Remove => seq![seq!["remove"@]],
            Action::List => seq![seq!["list"@, "--installed"@]],
            Action::Info => seq![seq!["info"@]],
        },
        Backend::Flatpak => match a {
            Action::Install => seq![seq!["install"@]],
            Action::Search => seq![seq!["search"@]],
            Action::UpdateAll => seq![seq!["update"@]],
            Action::Update => seq![seq!["update"@]],
            Action::Remove => seq![seq!["uninstall"@]],
            Action::List => seq![seq!["list"@]],
            Action::Info => seq![seq!["info"@]],
        },
        Backend::Snap => match a {
            Action::Install => seq![seq!["install"@]],
            Action::Search => seq![seq!["find"@]],
            Action::UpdateAll => seq![seq!["refresh"@]],
            Action::Update => seq![seq!["refresh"@]],
            Action::Remove => seq![seq!["remove"@]],
            Action::List => seq![seq!["list"@]],
            Action::Info => seq![seq!["info"@]],
        },
        Backend::Brew => match a {
            Action::Install => seq![seq!["install"@]],
            Action::Search => seq![seq!["search"@]],
            Action::UpdateAll => seq![seq!["update"@], seq!["upgrade"@]],
            Action::Update => seq![seq!["update"@], seq!["upgrade"@]],
            Action::Remove => seq![seq!["uninstall"@]],
            Action::List => seq![seq!["list"@]],
            Action::Info => seq![seq!["info"@]],
        },
        // nix has no info verb; its search is the closest.
        Backend::Nix => match a {
            Action::Install => seq![seq!["profile"@, "install"@]],
            Action::Search => seq![seq!["search"@, "nixpkgs"@]],
            Action::UpdateAll => seq![seq!["profile"@, "upgrade"@, "--all"@]],
            Action::Update => seq![seq!["profile"@, "upgrade"@]],
            Action::Remove => seq![seq!["profile"@, "remove"@]],
            Action::List => seq![seq!["profile"@, "list"@]],
            Action::Info => seq![seq!["search"@, "nixpkgs"@]],
        },
    }
}

/// The words of each step in `v`.
pub open spec fn step_words(v: Seq<Vec<String>>) -> Seq<Seq<Seq<char>>> {
    v.map_values(|w: Vec<String>| texts(w@))
}

fn words1(a: &str) -> (r: Vec<String>)
    ensures
        texts(r@) == seq![a@],
{
    let mut v: Vec<String> = Vec::new();
    v.push(a.to_owned());
    assert(texts(v@) =~= seq![a@]);
    v
}

fn words2(a: &str, b: &str) -> (r: Vec<String>)
    ensures
        texts(r@) == seq![a@, b@],
{
    let mut v: Vec<String> = Vec::new();
    v.push(a.to_owned());
    v.push(b.to_owned());
    assert(texts(v@) =~= seq![a@, b@]);
    v
}

fn words3(a: &str, b: &str, c: &str) -> (r: Vec<String>)
    ensures
        texts(r@) == seq![a@, b@, c@],
{
    let mut v: Vec<String> = Vec::new();
    v.push(a.to_owned());
    v.push(b.to_owned());
    v.push(c.to_owned());
    assert(texts(v@) =~= seq![a@, b@, c@]);
    v
}

fn one_step(w: Vec<String>) -> (r: Vec<Vec<String>>)
    ensures
        step_words(r@) == seq![texts(w@)],
{
    let mut v: Vec<Vec<String>> = Vec::new();
    v.push(w);
    assert(step_words(v@) =~= seq![texts(w@)]);
    v
}

fn two_steps(w1: Vec<String>, w2: Vec<String>) -> (r: Vec<Vec<String>>)
    ensures
        step_words(r@) == seq![texts(w1@), texts(w2@)],
{
    let mut v: Vec<Vec<String>> = Vec::new();
    v.push(w1);
    v.push(w2);
    assert(step_words(v@) =~= seq![texts(w1@), texts(w2@)]);
    v
}

/// The words each step of the translation of `action` on `backend` starts with.
fn verb_words(backend: Backend, action: Action) -> (r: Vec<Vec<String>>)
    ensures
        step_words(r@) == verb_args(backend, action),
{
    match backend {
        Backend::Pacman => match action {
            Action::Install => one_step(words1("-S")),
            Action::Search => one_step(words1("-Ss")),
            Action::UpdateAll => one_step(words1("-Syu")),
            Action::Update => one_step(words1("-Syu")),
            Action::Remove => one_step(words1("-Rns")),
            Action::List => one_step(words1("-Q")),
            Action::Info => one_step(words1("-Si")),
        },
        Backend::Yay | Backend::Paru => match action {
            Action::Install => one_step(words1("-S")),
            Action::Search => one_step(words1("-Ss")),
            Action::UpdateAll => one_step(words1("-Syu")),
            Action::Update => one_step(words1("-S")),
            Action::Remove => one_step(words1("-Rns")),
            Action::List => one_step(words1("-Q")),
            Action::Info => one_step(words1("-Si")),
        },
        Backend::Apt => match action {
            Action::Install => one_step(words1("install")),
            Action::Search => one_step(words1("search")),
            Action::UpdateAll => two_steps(words1("update"), words1("upgrade")),
            Action::Update => two_steps(words1("update"), words2("install", "--only-upgrade")),
            Action::Remove => one_step(words1("remove")),
            Action::List => one_step(words2("list", "--installed")),
            Action::Info => one_step(words1("show")),
        },
        Backend::Dnf => match action {
            Action::Install => one_step(words1("install")),
            Action::Search => one_step(words1("search")),
            Action::UpdateAll => one_step(words2("upgrade", "--refresh")),
            Action::Update => one_step(words2("upgrade", "--refresh")),
            Action::Remove => one_step(words1("remove")),
            Action::List => one_step(words2("list", "--installed")),
            Action::Info => one_step(words1("info")),
        },
        Backend::Flatpak => match action {
            Action::Install => one_step(words1("install")),
            Action::Search => one_step(words1("search")),
            Action::UpdateAll => one_step(words1("update")),
            Action::Update => one_step(words1("update")),
            Action::Remove => one_step(words1("uninstall")),
            Action::List => one_step(words1("list")),
            Action::Info => one_step(words1("info")),
        },
        Backend::Snap => match action {
            Action::Install => one_step(words1("install")),
            Action::Search => one_step(words1("find")),
            Action::UpdateAll => one_step(words1("refresh")),
            Action::Update => one_step(words1("refresh")),
            Action::Remove => one_step(words1("remove")),
            Action::List => one_step(words1("list")),
            Action::Info => one_step(words1("info")),
        },
        Backend::Brew => match action {
            Action::Install => one_step(words1("install")),
            Action::Search => one_step(words1("search")),
            Action::UpdateAll => two_steps(words1("update"), words1("upgrade")),
            Action::Update => two_steps(words1("update"), words1("upgrade")),
            Action::Remove => one_step(words1("uninstall")),
            Action::List => one_step(words1("list")),
            Action::Info => one_step(words1("info")),
        },
        Backend::Nix => match action {
            Action::Install => one_step(words2("profile", "install")),
            Action::Search => one_step(words2("search", "nixpkgs")),
            Action::UpdateAll => one_step(words3("profile", "upgrade", "--all")),
            Action::Update => one_step(words2("profile", "upgrade")),
            Action::Remove => one_step(words2("profile", "remove")),
            Action::List => one_step(words2("profile", "list")),
            Action::Info => one_step(words2("search", "nixpkgs")),
        },
    }
}

/// One concrete process invocation. One action can expand to several
/// (`apt update` then `apt upgrade`), run in order, stopping at the first failure.
#[derive(Debug, Clone, PartialEq, Eq)]
pub struct Step {
    pub program: String,
    pub args: Vec<String>,
    pub needs_root: bool,
}

impl View for Step {
    /// The program, its arguments, and whether it runs as root.
    type V = (Seq<char>, Seq<Seq<char>>, bool);

    open spec fn view(&self) -> (Seq<char>, Seq<Seq<char>>, bool) {
        (self.program@, texts(self.args@), self.needs_root)
    }
}

/// The characters of an optional text.
pub open spec fn opt_text(o: Option<&str>) -> Option<Seq<char>> {
    match o {
        Some(s) => Some(s@),
        None => None,
    }
}

/// The words of the command line echoed for a step: the escalator first when
/// there is one and the step runs as root, then the program, then its arguments.
pub open spec fn shown_words(
    step: (Seq<char>, Seq<Seq<char>>, bool),
    escalator: Option<Seq<char>>,
) -> Seq<Seq<char>> {
    (if escalator is Some && step.2 {
        seq![escalator->0]
    } else {
        Seq::empty()
    }) + seq![step.0] + step.1
}

impl Step {
    fn new(backend: Backend, action: Action, args: Vec<String>) -> (r: Step)
        ensures
            r@ == (backend_id(backend), texts(args@), is_mutating(action) && escalates(backend)),
    {
        Step {
            program: backend.binary().to_owned(),
            args,
            needs_root: action.mutating() && backend.needs_escalation(),
        }
    }

    /// The command as it would be typed in a shell, for the echo line.
    pub fn display(&self, escalator: Option<&str>) -> (r: String)
        ensures
            r@ == join(shown_words(self@, opt_text(escalator)), " "@),
    {
        let mut parts: Vec<String> = Vec::new();
        match escalator {
            Some(e) => {
                if self.needs_root {
                    parts.push(e.to_owned());
                }
            },
            None => {},
        }
        parts.push(self.program.clone());
        let mut rest = copy_strings(&self.args);
        parts.append(&mut rest);
        assert(texts(parts@) =~= shown_words(self@, opt_text(escalator)));
        join_strings(&parts, " ")
    }
}

/// How one operand of `nix profile install` is passed on: a bare name becomes a
/// reference into nixpkgs; a flag, or anything already qualified, is left alone.
pub open spec fn nix_reference(arg: Seq<char>) -> Seq<char> {
    if starts_with_char(arg, '-') || arg.contains('#') || arg.contains(':') {
        arg
    } else {
        "nixpkgs#"@ + arg
    }
}

/// The operands and passthrough flags as they are handed to the backend.
pub open spec fn operands(b: Backend, a: Action, rest: Seq<Seq<char>>) -> Seq<Seq<char>> {
    if b == Backend::Nix && a == Action::Install {
        rest.map_values(|x: Seq<char>| nix_reference(x))
    } else {
        rest
    }
}

/// `nix profile install` wants flake references, not bare names.
fn normalize_operands(backend: Backend, action: Action, rest: &[String]) -> (r: Vec<String>)
    ensures
        texts(r@) == operands(backend, action, texts(rest@)),
{
    let nix_install = backend == Backend::Nix && action == Action::Install;
    let mut out: Vec<String> = Vec::new();
    let n = rest.len();
    let mut i: usize = 0;
    while i < n
        invariant
            n == rest@.len(),
            0 <= i <= n,
            nix_install == (backend == Backend::Nix && action == Action::Install),
            texts(out@) == operands(backend, action, texts(rest@)).take(i as int),
        decreases n - i,
    {
        let arg = rest[i].as_str();
        let item = if !nix_install || first_char_is(arg, '-') || has_char(arg, '#') || has_char(
            arg,
            ':',
        ) {
            arg.to_owned()
        } else {
            let mut qualified = "nixpkgs#".to_owned();
            qualified.append(arg);
            qualified
        };
        assert(texts(rest@)[i as int] == arg@);
        assert(item@ == operands(backend, action, texts(rest@))[i as int]);
        let ghost prev = out@;
        let ghost item_text = item@;
        out.push(item);
        assert(texts(out@) =~= texts(prev).push(item_text));
        assert(operands(backend, action, texts(rest@)).len() == n);
        assert(texts(out@) =~= operands(backend, action, texts(rest@)).take(i + 1));
        i = i + 1;
    }
    assert(operands(backend, action, texts(rest@)).take(n as int) =~= operands(
        backend,
        action,
        texts(rest@),
    ));
    out
}

/// The arguments of step `i`: its own words, then the backend's yes flag when
/// asked for, then, on the last step only, the operands.
pub open spec fn step_args(b: Backend, a: Action, rest: Seq<Seq<char>>, yes: bool, i: int) -> Seq<
    Seq<char>,
> {
    let base = verb_args(b, a)[i];
    let flagged = if yes && yes_flag_spec(b) is Some {
        base.push(yes_flag_spec(b)->0)
    } else {
        base
    };
    if i == verb_args(b, a).len() - 1 {
        flagged + operands(b, a, rest)
    } else {
        flagged
    }
}

/// The steps that carry out action `a` on backend `b`.
pub open spec fn plan_spec(b: Backend, a: Action, rest: Seq<Seq<char>>, yes: bool) -> Seq<
    (Seq<char>, Seq<Seq<char>>, bool),
> {
    Seq::new(
        verb_args(b, a).len(),
        |i: int| (backend_id(b), step_args(b, a, rest, yes, i), is_mutating(a) && escalates(b)),
    )
}

/// Translates an action into the backend's own commands.
///
/// `rest` is everything typed after the verb: package names plus any flags that
/// were not recognised, which are forwarded to the backend verbatim.
pub fn plan(backend: Backend, action: Action, rest: &[String], yes: bool) -> (steps: Vec<Step>)
    ensures
        steps@.len() == plan_spec(backend, action, texts(rest@), yes).len(),
        forall|i: int|
            0 <= i < steps@.len() ==> #[trigger] steps@[i]@ == plan_spec(
                backend,
                action,
                texts(rest@),
                yes,
            )[i],
{
    let mut ops = normalize_operands(backend, action, rest);
    let words = verb_words(backend, action);
    let flag = backend.yes_flag();
    let ghost spec = plan_spec(backend, action, texts(rest@), yes);
    let n = words.len();
    let mut steps: Vec<Step> = Vec::new();
    let mut i: usize = 0;
    while i < n
        invariant
            n == words@.len(),
            step_words(words@) == verb_args(backend, action),
            spec == plan_spec(backend, action, texts(rest@), yes),
            flag is Some == yes_flag_spec(backend) is Some,
            flag is Some ==> flag->0@ == yes_flag_spec(backend)->0,
            0 <= i <= n,
            i < n ==> texts(ops@) == operands(backend, action, texts(rest@)),
            steps@.len() == i,
            forall|j: int| 0 <= j < i ==> #[trigger] steps@[j]@ == spec[j],
        decreases n - i,
    {
        let mut args = copy_strings(&words[i]);
        assert(texts(args@) == verb_args(backend, action)[i as int]);
        if yes {
            match flag {
                Some(f) => {
                    args.push(f.to_owned());
                },
                None => {},
            }
        }
        if i + 1 == n {
            args.append(&mut ops);
        }
        assert(texts(args@) =~= step_args(backend, action, texts(rest@), yes, i as int));
        steps.push(Step::new(backend, action, args));
        i = i + 1;
    }
    steps
}

/// Which of `ALL` count as installed: the first `k` backends of `ALL` whose
/// entry in `installed` is true, in detection order (a missing entry counts as false).
pub open spec fn detected_prefix(installed: Seq<bool>, k: int) -> Seq<Backend>
    decreases k,
{
    if k <= 0 {
        Seq::empty()
    } else {
        detected_prefix(installed, k - 1) + if k - 1 < installed.len() && installed[k - 1] {
            seq![all_backends()[k - 1]]
        } else {
            Seq::empty()
        }
    }
}

/// Every backend whose executable was found, in detection order; `installed[i]`
/// tells whether the executable of `ALL[i]` is on PATH.
pub fn detect(installed: &[bool]) -> (r: Vec<Backend>)
    ensures
        r@ == detected_prefix(installed@, 9),
{
    let mut out: Vec<Backend> = Vec::new();
    let mut i: usize = 0;
    while i < 9
        invariant
            0 <= i <= 9,
            ALL@ == all_backends(),
            out@ == detected_prefix(installed@, i as int),
        decreases 9 - i,
    {
        if i < installed.len() && installed[i] {
            out.push(ALL[i]);
        }
        assert(out@ =~= detected_prefix(installed@, i + 1));
        i = i + 1;
    }
    out
}

/// Every action on every backend takes one or two steps, and every step runs
/// the backend's own executable.
pub proof fn lemma_plan_shape(b: Backend, a: Action, rest: Seq<Seq<char>>, yes: bool)
    ensures
        1 <= plan_spec(b, a, rest, yes).len() <= 2,
        forall|i: int|
            0 <= i < plan_spec(b, a, rest, yes).len() ==> (#[trigger] plan_spec(
                b,
                a,
                rest,
                yes,
            )[i]).0 == backend_id(b),
{
}

/// Operands and passthrough flags go on the last step only: every earlier step
/// is the same whatever was typed after the verb, and the last step ends with
/// the operands, in the order they were given.
pub proof fn lemma_operands_on_last_step_only(
    b: Backend,
    a: Action,
    rest: Seq<Seq<char>>,
    other: Seq<Seq<char>>,
    yes: bool,
)
    ensures
        forall|i: int|
            0 <= i < plan_spec(b, a, rest, yes).len() - 1 ==> #[trigger] plan_spec(
                b,
                a,
                rest,
                yes,
            )[i] == plan_spec(b, a, other, yes)[i],
        ({
            let p = plan_spec(b, a, rest, yes);
            let last = p[p.len() - 1].1;
            let ops = operands(b, a, rest);
            ops.len() <= last.len() && last.subrange(last.len() - ops.len(), last.len() as int)
                == ops
        }),
{
    let p = plan_spec(b, a, rest, yes);
    let last = p[p.len() - 1].1;
    let ops = operands(b, a, rest);
    assert(last.subrange(last.len() - ops.len(), last.len() as int) =~= ops);
}

/// Anything after the verb is forwarded verbatim, except bare names given to
/// `nix profile install`, and there each operand is still passed on, in order.
pub proof fn lemma_operands_forwarded(b: Backend, a: Action, rest: Seq<Seq<char>>)
    ensures
        operands(b, a, rest).len() == rest.len(),
        !(b == Backend::Nix && a == Action::Install) ==> operands(b, a, rest) == rest,
        forall|i: int|
            0 <= i < rest.len() && (starts_with_char(rest[i], '-') || rest[i].contains('#')
                || rest[i].contains(':')) ==> #[trigger] operands(b, a, rest)[i] == rest[i],
{
}

/// Read-only actions never run as root, and only the backends that need root
/// ever do; a mutating action on such a backend runs every step as root.
pub proof fn lemma_escalation(b: Backend, a: Action, rest: Seq<Seq<char>>, yes: bool)
    ensures
        forall|i: int|
            0 <= i < plan_spec(b, a, rest, yes).len() ==> ((#[trigger] plan_spec(
                b,
                a,
                rest,
                yes,
            )[i]).2 <==> is_mutating(a) && escalates(b)),
        !is_mutating(a) ==> forall|i: int|
            0 <= i < plan_spec(b, a, rest, yes).len() ==> !(#[trigger] plan_spec(
                b,
                a,
                rest,
                yes,
            )[i]).2,
{
}

/// With yes asked for, every step carries the backend's own yes flag right
/// after its verb words; without it, or on a backend that never prompts, no
/// flag is added to any step.
pub proof fn lemma_yes_flag(b: Backend, a: Action, rest: Seq<Seq<char>>, yes: bool)
    ensures
        yes && yes_flag_spec(b) is Some ==> forall|i: int|
            0 <= i < plan_spec(b, a, rest, yes).len() ==> (#[trigger] plan_spec(
                b,
                a,
                rest,
                yes,
            )[i]).1[verb_args(b, a)[i].len() as int] == yes_flag_spec(b)->0,
        !yes || yes_flag_spec(b) is None ==> forall|i: int|
            0 <= i < plan_spec(b, a, rest, yes).len() ==> (#[trigger] plan_spec(
                b,
                a,
                rest,
                yes,
            )[i]).1.subrange(0, verb_args(b, a)[i].len() as int) == verb_args(b, a)[i]
                && (i < plan_spec(b, a, rest, yes).len() - 1 ==> plan_spec(b, a, rest, yes)[i].1
                == verb_args(b, a)[i]),
{
    let p = plan_spec(b, a, rest, yes);
    assert forall|i: int| 0 <= i < p.len() implies (#[trigger] p[i]).1.subrange(
        0,
        verb_args(b, a)[i].len() as int,
    ) == verb_args(b, a)[i] by {
        assert(p[i].1.subrange(0, verb_args(b, a)[i].len() as int) =~= verb_args(b, a)[i]);
    }
}

/// Updating one package on pacman upgrades the whole system with it, since Arch
/// supports no partial upgrade.
pub proof fn lemma_pacman_update_is_full_upgrade(rest: Seq<Seq<char>>, yes: bool)
    ensures
        plan_spec(Backend::Pacman, Action::Update, rest, yes).len() == 1,
        plan_spec(Backend::Pacman, Action::Update, rest, yes)[0].1[0] == "-Syu"@,
{
}

/// The escalator shows in the echoed command only for a step that runs as root.
pub proof fn lemma_escalator_shown_only_when_root(
    step: (Seq<char>, Seq<Seq<char>>, bool),
    escalator: Seq<char>,
)
    ensures
        step.2 ==> shown_words(step, Some(escalator)) == seq![escalator] + shown_words(
            step,
            None,
        ),
        !step.2 ==> shown_words(step, Some(escalator)) == shown_words(step, None),
{
    assert(shown_words(step, None) =~= seq![step.0] + step.1);
    if step.2 {
        assert(shown_words(step, Some(escalator)) =~= seq![escalator] + shown_words(step, None));
    } else {
        assert(shown_words(step, Some(escalator)) =~= shown_words(step, None));
    }
}

/// Every backend's name parses back to that backend.
pub proof fn lemma_id_round_trip(b: Backend)
    ensures
        parse_spec(backend_id(b)) == Some(b),
{
    lemma_id_injective(b);
}

/// The backends found are those of `ALL` marked installed, each once, in detection order.
pub proof fn lemma_detect_in_order(installed: Seq<bool>, k: int)
    requires
        0 <= k <= 9,
    ensures
        forall|b: Backend|
            #[trigger] detected_prefix(installed, k).contains(b) <==> exists|j: int|
                0 <= j < k && j < installed.len() && installed[j] && all_backends()[j] == b,
        forall|x: int, y: int|
            0 <= x < y < detected_prefix(installed, k).len() ==> detected_prefix(installed, k)[x]
                != detected_prefix(installed, k)[y],
    decreases k,
{
    if k > 0 {
        lemma_detect_in_order(installed, k - 1);
        let prev = detected_prefix(installed, k - 1);
        let cur = detected_prefix(installed, k);
        assert forall|b: Backend| #[trigger] cur.contains(b) <==> exists|j: int|
            0 <= j < k && j < installed.len() && installed[j] && all_backends()[j] == b by {
            if cur.contains(b) {
                let t = choose|t: int| 0 <= t < cur.len() && cur[t] == b;
                if t < prev.len() {
                    assert(prev[t] == b);
                    assert(prev.contains(b));
                } else {
                    assert(all_backends()[k - 1] == b);
                }
            }
            if exists|j: int| 0 <= j < k && j < installed.len() && installed[j] && all_backends()[j] == b {
                let j = choose|j: int| 0 <= j < k && j < installed.len() && installed[j] && all_backends()[j] == b;
                if j < k - 1 {
                    assert(prev.contains(b));
                    let t = choose|t: int| 0 <= t < prev.len() && prev[t] == b;
                    assert(cur[t] == b);
                } else {
                    assert(cur[cur.len() - 1] == b);
                }
            }
        }
        assert forall|x: int, y: int| 0 <= x < y < cur.len() implies cur[x] != cur[y] by {
            if y >= prev.len() {
                // cur[y] is ALL[k - 1], which no earlier backend of ALL equals.
                assert(cur[y] == all_backends()[k - 1]);
                assert(prev.contains(cur[x]));
                let j = choose|j: int| 0 <= j < k - 1 && j < installed.len() && installed[j] && all_backends()[j] == cur[x];
                assert(all_backends()[j] != all_backends()[k - 1]);
            } else {
                assert(cur[x] == prev[x] && cur[y] == prev[y]);
            }
        }
    }
}

/// Every action that changes the system (install, update of named packages,
/// update of everything, remove) runs every one of its steps as root on the
/// backends that need root (pacman, apt, dnf, snap), and the actions that only
/// read (search, list, info) never do, on any backend.
pub proof fn lemma_changing_actions_run_as_root(
    b: Backend,
    a: Action,
    rest: Seq<Seq<char>>,
    yes: bool,
)
    ensures
        (b == Backend::Pacman || b == Backend::Apt || b == Backend::Dnf || b == Backend::Snap)
            && (a == Action::Install || a == Action::Update || a == Action::UpdateAll || a
            == Action::Remove) ==> forall|i: int|
            0 <= i < plan_spec(b, a, rest, yes).len() ==> (#[trigger] plan_spec(
                b,
                a,
                rest,
                yes,
            )[i]).2,
        (a == Action::Search || a == Action::List || a == Action::Info || b == Backend::Yay || b
            == Backend::Paru || b == Backend::Flatpak || b == Backend::Brew || b == Backend::Nix)
            ==> forall|i: int|
            0 <= i < plan_spec(b, a, rest, yes).len() ==> !(#[trigger] plan_spec(
                b,
                a,
                rest,
                yes,
            )[i]).2,
        plan_spec(Backend::Apt, Action::UpdateAll, rest, yes).len() == 2,
        plan_spec(Backend::Apt, Action::UpdateAll, rest, yes)[0].2,
        plan_spec(Backend::Apt, Action::UpdateAll, rest, yes)[1].2,
{
}

} // verus!
