use pkg::backend::{detect, plan, Action, Backend, ALL};
use pkg::commands::{
    apply_setting, choose_backend, config_get, detected_list, id_list, ready_to_save,
    supported_list, update_action, Setting,
};
use pkg::config::{
    config_path, default_escalator, onboard_config, onboarding, picker_labels, Config,
    ConfigError, Onboarding,
};
use pkg::exec::{effective_escalator, invocation, step_outcome};
use pkg::install_hint::{hint_lines, shell_advice};
use pkg::text::{has_char, join_strings, pad_to, same_text, text_ends_with};

fn strings(v: &[&str]) -> Vec<String> {
    v.iter().map(|s| s.to_string()).collect()
}

fn cfg(backend: &str, escalator: &str) -> Config {
    Config { backend: backend.to_string(), escalator: escalator.to_string() }
}

#[test]
fn ids_descriptions_and_binaries() {
    assert_eq!(Backend::Pacman.id(), "pacman");
    assert_eq!(Backend::Flatpak.binary(), "flatpak");
    assert_eq!(Backend::Yay.describe(), "Arch repos + AUR (yay)");
    assert_eq!(Backend::Nix.describe(), "Nix profiles (user-level)");
    assert_eq!(Backend::parse("Pacman"), None);
    assert_eq!(Backend::parse(""), None);
    assert_eq!(Backend::parse("nix"), Some(Backend::Nix));
}

#[test]
fn escalation_per_backend() {
    let escalating: Vec<Backend> = ALL.iter().copied().filter(|b| b.needs_escalation()).collect();
    assert_eq!(escalating, vec![Backend::Pacman, Backend::Apt, Backend::Dnf, Backend::Snap]);
}

#[test]
fn yes_flag_goes_on_both_steps_and_operands_on_the_last() {
    let steps = plan(Backend::Brew, Action::Update, &strings(&["wget", "--force"]), true);
    assert_eq!(steps.len(), 2);
    assert_eq!(steps[0].display(None), "brew update");
    assert_eq!(steps[1].display(None), "brew upgrade wget --force");
    let steps = plan(Backend::Apt, Action::Update, &strings(&["vim"]), true);
    assert_eq!(steps[0].display(None), "apt update -y");
    assert_eq!(steps[1].display(None), "apt install --only-upgrade -y vim");
    assert!(steps.iter().all(|s| s.needs_root && s.program == "apt"));
}

#[test]
fn nix_flags_and_qualified_names_are_kept() {
    let steps = plan(Backend::Nix, Action::Install, &strings(&["-L", "hello", "flake:x", "a#b"]), false);
    assert_eq!(
        steps[0].display(None),
        "nix profile install -L nixpkgs#hello flake:x a#b"
    );
    // Only install qualifies names.
    let steps = plan(Backend::Nix, Action::Remove, &strings(&["hello"]), false);
    assert_eq!(steps[0].display(None), "nix profile remove hello");
}

#[test]
fn escalator_is_not_shown_for_a_user_level_step() {
    let steps = plan(Backend::Yay, Action::Install, &strings(&["x"]), false);
    assert_eq!(steps[0].display(Some("sudo")), "yay -S x");
    let steps = plan(Backend::Dnf, Action::List, &[], true);
    assert_eq!(steps[0].display(Some("sudo")), "dnf list --installed -y");
}

#[test]
fn detection_keeps_order_and_skips_missing() {
    let installed = [false, true, false, true, false, false, false, false, true];
    assert_eq!(detect(&installed), vec![Backend::Apt, Backend::Yay, Backend::Nix]);
    assert_eq!(detect(&[true]), vec![Backend::Pacman]);
    assert_eq!(detect(&[]), Vec::<Backend>::new());
}

#[test]
fn lists_of_names() {
    assert_eq!(
        supported_list(),
        "pacman, apt, dnf, yay, paru, flatpak, snap, brew, nix"
    );
    assert_eq!(detected_list(&[]), "none");
    assert_eq!(detected_list(&[Backend::Yay, Backend::Paru]), "yay, paru");
    assert_eq!(id_list(&[Backend::Brew]), "brew");
}

#[test]
fn update_with_only_flags_updates_everything() {
    assert_eq!(update_action(&[]), Action::UpdateAll);
    assert_eq!(update_action(&strings(&["--devel", "-v"])), Action::UpdateAll);
    assert_eq!(update_action(&strings(&["--devel", "ripgrep"])), Action::Update);
}

#[test]
fn backend_choice_prefers_the_override() {
    let c = cfg("apt", "sudo");
    assert_eq!(choose_backend(None, &c), Ok(Backend::Apt));
    assert_eq!(choose_backend(Some("flatpak"), &c), Ok(Backend::Flatpak));
    assert_eq!(
        choose_backend(Some("portage"), &c),
        Err(ConfigError::UnknownBackend("portage".to_string()))
    );
    let bad = cfg("emerge", "sudo");
    assert_eq!(
        choose_backend(None, &bad),
        Err(ConfigError::BadConfiguredBackend("emerge".to_string()))
    );
    assert_eq!(bad.resolve_backend(), Err(ConfigError::BadConfiguredBackend("emerge".to_string())));
}

#[test]
fn escalator_setting() {
    assert_eq!(cfg("apt", "none").escalator(), None);
    assert_eq!(cfg("apt", "").escalator(), None);
    assert_eq!(cfg("apt", "doas").escalator(), Some("doas"));
    assert_eq!(default_escalator(), "sudo");
    assert_eq!(effective_escalator(true, &cfg("apt", "doas")), None);
    assert_eq!(effective_escalator(false, &cfg("apt", "doas")), Some("doas"));
}

#[test]
fn settings_read_back_what_was_set() {
    let (c, s) = apply_setting(Some(cfg("apt", "sudo")), "backend", "paru").unwrap();
    assert_eq!(s, Setting::Backend(Backend::Paru));
    assert_eq!(config_get(Some(&c), "backend"), Ok("paru".to_string()));
    assert_eq!(config_get(Some(&c), "escalator"), Ok("sudo".to_string()));

    let (c, s) = apply_setting(Some(c), "escalator", "pkexec").unwrap();
    assert_eq!(s, Setting::Escalator { usual: false });
    assert_eq!(config_get(Some(&c), "escalator"), Ok("pkexec".to_string()));
    assert_eq!(config_get(Some(&c), "backend"), Ok("paru".to_string()));

    let (_, s) = apply_setting(None, "escalator", "run0").unwrap();
    assert_eq!(s, Setting::Escalator { usual: true });
}

#[test]
fn settings_errors() {
    assert_eq!(config_get(None, "backend"), Err(ConfigError::NotConfigured));
    assert_eq!(
        config_get(Some(&cfg("apt", "sudo")), "colour"),
        Err(ConfigError::UnknownKey("colour".to_string()))
    );
    assert_eq!(
        apply_setting(None, "backend", "portage").unwrap_err(),
        ConfigError::UnknownBackend("portage".to_string())
    );
    assert_eq!(
        apply_setting(None, "colour", "red").unwrap_err(),
        ConfigError::UnknownKey("colour".to_string())
    );
    let (c, _) = apply_setting(None, "escalator", "doas").unwrap();
    assert_eq!(c.backend, "");
    assert_eq!(ready_to_save(&c), Err(ConfigError::NoBackend));
    assert_eq!(ready_to_save(&cfg("dnf", "doas")), Ok(()));
}

#[test]
fn config_file_location() {
    let b = |s: &str| s.as_bytes().to_vec();
    assert_eq!(config_path(Some(b("/tmp/x.conf")), Some(b("/xdg")), Some(b("/home/u"))), b("/tmp/x.conf"));
    assert_eq!(config_path(None, Some(b("/xdg")), Some(b("/home/u"))), b("/xdg/pkg/pkg.conf"));
    assert_eq!(config_path(None, Some(b("/xdg/")), None), b("/xdg/pkg/pkg.conf"));
    assert_eq!(config_path(None, None, Some(b("/home/u"))), b("/home/u/.config/pkg/pkg.conf"));
    assert_eq!(config_path(None, None, None), b(".config/pkg/pkg.conf"));
    assert_eq!(config_path(None, Some(b("")), None), b("pkg/pkg.conf"));
    assert_eq!(config_path(None, Some(vec![0xff, 0x2f]), None), vec![0xff, 0x2f, b'p', b'k', b'g', b'/', b'p', b'k', b'g', b'.', b'c', b'o', b'n', b'f']);
}

#[test]
fn first_run_decisions() {
    assert_eq!(onboarding(&[], true), Onboarding::NoneFound);
    assert_eq!(onboarding(&[Backend::Brew], false), Onboarding::Only(Backend::Brew));
    assert_eq!(onboarding(&[Backend::Pacman, Backend::Yay], false), Onboarding::CannotPrompt);
    assert_eq!(onboarding(&[Backend::Pacman, Backend::Yay], true), Onboarding::Ask);
    assert_eq!(
        picker_labels(&[Backend::Pacman, Backend::Yay]),
        vec!["pacman   Arch Linux native packages".to_string(), "yay      Arch repos + AUR (yay)".to_string()]
    );
    let c = onboard_config(Backend::Dnf);
    assert_eq!((c.backend.as_str(), c.escalator.as_str()), ("dnf", "sudo"));
}

#[test]
fn launching_a_step() {
    let steps = plan(Backend::Pacman, Action::Remove, &strings(&["vim"]), false);
    let inv = invocation(&steps[0], Some("doas"));
    assert!(inv.escalated);
    assert_eq!(inv.program, "doas");
    assert_eq!(inv.args, strings(&["pacman", "-Rns", "vim"]));
    assert_eq!(inv.echo, "doas pacman -Rns vim");
    let inv = invocation(&steps[0], None);
    assert!(!inv.escalated);
    assert_eq!(inv.program, "pacman");
    assert_eq!(inv.args, strings(&["-Rns", "vim"]));
    let steps = plan(Backend::Pacman, Action::Search, &strings(&["vim"]), false);
    let inv = invocation(&steps[0], Some("doas"));
    assert!(!inv.escalated);
    assert_eq!(inv.echo, "pacman -Ss vim");
}

#[test]
fn running_stops_at_the_first_failure() {
    assert_eq!(step_outcome(true, Some(0)), None);
    assert_eq!(step_outcome(false, Some(100)), Some(100));
    assert_eq!(step_outcome(false, None), Some(1));
}

#[test]
fn shell_names_follow_path_rules() {
    assert_eq!(shell_advice("zsh", false).0, "~/.zshrc");
    assert_eq!(shell_advice("/usr/bin/zsh/", false).0, "~/.zshrc");
    assert_eq!(shell_advice("/usr/bin/fish/.", false).0, "~/.config/fish/config.fish");
    assert_eq!(shell_advice("/usr/bin/zsh/..", false).0, "your shell startup file");
    assert_eq!(shell_advice("", false), ("your shell startup file", None));
    assert_eq!(shell_advice("/bin/zshx", false).0, "your shell startup file");
}

#[test]
fn path_hints_per_shell() {
    assert_eq!(
        hint_lines("/opt/pkg", "/bin/bash", false),
        strings(&[
            "",
            "pkg: /opt/pkg is not on your PATH, so `pkg` only works by full path.",
            "     Fix it with:\n",
            "         echo 'export PATH=\"/opt/pkg:$PATH\"' >> ~/.bashrc",
            "         source ~/.bashrc",
            "         hash -r",
            "",
        ])
    );
    assert_eq!(
        hint_lines("/opt/pkg", "/usr/bin/fish", false),
        strings(&[
            "",
            "pkg: /opt/pkg is not on your PATH, so `pkg` only works by full path.",
            "     Fix it with:\n",
            "         fish_add_path /opt/pkg",
            "",
        ])
    );
}

#[test]
fn text_helpers() {
    assert_eq!(join_strings(&strings(&["a", "b", "c"]), ", "), "a, b, c");
    assert_eq!(join_strings(&strings(&[]), ", "), "");
    assert!(same_text("ä", "ä"));
    assert!(!same_text("a", "b"));
    assert!(has_char("a#b", '#'));
    assert!(!has_char("ab", '#'));
    assert!(text_ends_with("config.fish", "fish"));
    assert!(!text_ends_with("sh", "fish"));
    assert_eq!(pad_to("ab", 4), "ab  ");
    assert_eq!(pad_to("abcdef", 4), "abcdef");
}
