use remote_bootstrap::connect::{
    credentials, resolve, resolve_auth, resolve_auth_with_home, resolve_target, tilde_with_context,
    AuthSource, Config, ConnectError, Credentials, Ssh,
};

fn home() -> Option<String> {
    Some("/home/u".to_string())
}

fn with_password(p: &str) -> Ssh {
    Ssh { remote_password: Some(p.to_string()), ..Ssh::default() }
}

fn config(ssh: Ssh) -> Config {
    Config { ssh: Some(ssh) }
}

#[test]
fn tilde_leaves_other_paths() {
    assert_eq!(tilde_with_context("/etc/ssh/key", home()), "/etc/ssh/key");
    assert_eq!(tilde_with_context("", home()), "");
    assert_eq!(tilde_with_context("a~/b", home()), "a~/b");
}

#[test]
fn tilde_alone_is_home() {
    assert_eq!(tilde_with_context("~", home()), "/home/u");
}

#[test]
fn tilde_slash_prefixes_home() {
    assert_eq!(tilde_with_context("~/.ssh/id_rsa", home()), "/home/u/.ssh/id_rsa");
    assert_eq!(tilde_with_context("~/", home()), "/home/u/");
}

#[test]
fn tilde_without_home_is_unchanged() {
    assert_eq!(tilde_with_context("~", None), "~");
    assert_eq!(tilde_with_context("~/x", None), "~/x");
}

#[test]
fn tilde_other_user_is_unchanged() {
    assert_eq!(tilde_with_context("~bob/rest", home()), "~bob/rest");
}

#[test]
fn tilde_keeps_non_ascii_rest() {
    assert_eq!(tilde_with_context("~/clé", Some("/hôme".to_string())), "/hôme/clé");
}

#[test]
fn config_password_beats_argument_password() {
    let r = resolve_auth(&with_password("argpw"), &config(with_password("cfgpw")));
    assert!(matches!(r, Ok(AuthSource::Password(p)) if p == "cfgpw"));
}

#[test]
fn argument_password_fills_missing_config_password() {
    let r = resolve_auth(&with_password("argpw"), &config(Ssh::default()));
    assert!(matches!(r, Ok(AuthSource::Password(p)) if p == "argpw"));
}

#[test]
fn argument_password_used_without_config_section() {
    let r = resolve_auth(&with_password("argpw"), &Config::default());
    assert!(matches!(r, Ok(AuthSource::Password(p)) if p == "argpw"));
}

#[test]
fn no_password_and_no_key_fails() {
    let r = resolve_auth(&Ssh::default(), &Config::default());
    assert!(matches!(r, Err(ConnectError::NoKeyFile)));
    let r = resolve_auth(&Ssh::default(), &config(Ssh::default()));
    assert!(matches!(r, Err(ConnectError::NoKeyFile)));
}

#[test]
fn empty_config_password_falls_to_key_file() {
    let cfg = config(Ssh {
        remote_password: Some(String::new()),
        remote_key_file: Some("/k".to_string()),
        ..Ssh::default()
    });
    let r = resolve_auth_with_home(&with_password("argpw"), &cfg, home());
    assert!(matches!(r, Ok(AuthSource::KeyFile(p)) if p == "/k"));
}

#[test]
fn config_key_file_beats_argument_and_expands() {
    let args = Ssh { remote_key_file: Some("/arg/key".to_string()), ..Ssh::default() };
    let cfg = config(Ssh { remote_key_file: Some("~/.ssh/id".to_string()), ..Ssh::default() });
    let r = resolve_auth_with_home(&args, &cfg, home());
    assert!(matches!(r, Ok(AuthSource::KeyFile(p)) if p == "/home/u/.ssh/id"));
}

#[test]
fn argument_key_file_used_without_config_section() {
    let args = Ssh { remote_key_file: Some("~/id".to_string()), ..Ssh::default() };
    let r = resolve_auth_with_home(&args, &Config::default(), home());
    assert!(matches!(r, Ok(AuthSource::KeyFile(p)) if p == "/home/u/id"));
    let args = Ssh { remote_key_file: Some("/abs/id".to_string()), ..Ssh::default() };
    let r = resolve_auth(&args, &Config::default());
    assert!(matches!(r, Ok(AuthSource::KeyFile(p)) if p == "/abs/id"));
}

#[test]
fn config_host_with_argument_port() {
    let args = Ssh {
        remote_host: Some("b".to_string()),
        remote_port: Some(2222),
        ..Ssh::default()
    };
    let cfg = config(Ssh { remote_host: Some("a".to_string()), ..Ssh::default() });
    let t = resolve_target(&args, &cfg);
    assert_eq!(t.host, "a");
    assert_eq!(t.port, 2222);
    assert_eq!(t.username, "");
}

#[test]
fn target_from_arguments_without_config_section() {
    let args = Ssh {
        remote_host: Some("b".to_string()),
        remote_user: Some("root".to_string()),
        ..Ssh::default()
    };
    let t = resolve_target(&args, &Config::default());
    assert_eq!(t.host, "b");
    assert_eq!(t.port, 22);
    assert_eq!(t.username, "root");
}

#[test]
fn target_defaults_when_nothing_set() {
    let t = resolve_target(&Ssh::default(), &config(Ssh::default()));
    assert_eq!(t.host, "");
    assert_eq!(t.port, 22);
    assert_eq!(t.username, "");
}

#[test]
fn config_port_and_user_win() {
    let args = Ssh {
        remote_port: Some(2222),
        remote_user: Some("arg".to_string()),
        ..Ssh::default()
    };
    let cfg = config(Ssh {
        remote_port: Some(2022),
        remote_user: Some("cfg".to_string()),
        ..Ssh::default()
    });
    let t = resolve_target(&args, &cfg);
    assert_eq!(t.port, 2022);
    assert_eq!(t.username, "cfg");
}

#[test]
fn resolve_picks_by_priority() {
    assert_eq!(resolve(Some(1), Some(2), 3), 1);
    assert_eq!(resolve(None, Some(2), 3), 2);
    assert_eq!(resolve::<i32>(None, None, 3), 3);
}

#[test]
fn credentials_from_password() {
    let r = credentials(AuthSource::Password("pw".to_string()), None);
    assert!(matches!(r, Ok(Credentials::Password(p)) if p == "pw"));
}

#[test]
fn credentials_from_key_contents() {
    let r = credentials(AuthSource::KeyFile("/k".to_string()), Some("KEY".to_string()));
    assert!(matches!(
        r,
        Ok(Credentials::PrivateKey { contents, passphrase: None }) if contents == "KEY"
    ));
}

#[test]
fn unreadable_key_names_path() {
    let r = credentials(AuthSource::KeyFile("/k".to_string()), None);
    assert!(matches!(r, Err(ConnectError::KeyUnreadable(p)) if p == "/k"));
}
