//! How to reach and authenticate against the remote host: every setting is
//! taken from the configuration where it sets one, else from the invocation
//! arguments, else from a default.
use vstd::prelude::*;

verus! {

/// The SSH settings that either source may give; every field is optional.
#[derive(Debug, Clone, Default)]
pub struct Ssh {
    pub remote_password: Option<String>,
    pub remote_key_file: Option<String>,
    pub remote_host: Option<String>,
    pub remote_port: Option<u16>,
    pub remote_user: Option<String>,
}

/// The loaded configuration; its SSH section may be missing altogether.
#[derive(Debug, Clone, Default)]
pub struct Config {
    pub ssh: Option<Ssh>,
}

/// Where the session goes and as whom.
#[derive(Debug, Clone)]
pub struct ConnectionTarget {
    pub host: String,
    pub port: u16,
    pub username: String,
}

/// The authentication method chosen, before any file has been read.
#[derive(Debug)]
pub enum AuthSource {
    Password(String),
    /// The private key is to be read from this path, already expanded.
    KeyFile(String),
}

/// What is handed to the SSH handshake.
#[derive(Debug)]
pub enum Credentials {
    Password(String),
    PrivateKey { contents: String, passphrase: Option<String> },
}

#[derive(Debug)]
pub enum ConnectError {
    /// Neither a password nor a private-key file was given by either source.
    NoKeyFile,
    /// The private-key file at this path could not be read.
    KeyUnreadable(String),
    /// The handshake with the host failed, for the reason given.
    ConnectFailed(String),
}

/// The default SSH port.
pub const DEFAULT_PORT: u16 = 22;

/// The configuration's SSH section; a missing section sets nothing.
pub open spec fn section(cfg: Config) -> Ssh {
    match cfg.ssh {
        Some(s) => s,
        None => Ssh {
            remote_password: None,
            remote_key_file: None,
            remote_host: None,
            remote_port: None,
            remote_user: None,
        },
    }
}

/// The value that wins: the configuration's where it sets one, else the argument's.
pub open spec fn prefer<T>(cfg_value: Option<T>, arg_value: Option<T>) -> Option<T> {
    if cfg_value is Some {
        cfg_value
    } else {
        arg_value
    }
}

/// The text of an optional value; empty where it is unset.
pub open spec fn text_or_empty(o: Option<String>) -> Seq<char> {
    match o {
        Some(s) => s@,
        None => Seq::empty(),
    }
}

/// The characters of an optional string.
pub open spec fn opt_view(o: Option<String>) -> Option<Seq<char>> {
    match o {
        Some(s) => Some(s@),
        None => None,
    }
}

/// The host to connect to.
pub open spec fn effective_host(args: Ssh, cfg: Config) -> Seq<char> {
    text_or_empty(prefer(section(cfg).remote_host, args.remote_host))
}

/// The user name to log in as.
pub open spec fn effective_user(args: Ssh, cfg: Config) -> Seq<char> {
    text_or_empty(prefer(section(cfg).remote_user, args.remote_user))
}

/// The port to connect to; 22 where neither source sets one.
pub open spec fn effective_port(args: Ssh, cfg: Config) -> u16 {
    match prefer(section(cfg).remote_port, args.remote_port) {
        Some(p) => p,
        None => DEFAULT_PORT,
    }
}

/// The password; empty where neither source sets one.
pub open spec fn effective_password(args: Ssh, cfg: Config) -> Seq<char> {
    text_or_empty(prefer(section(cfg).remote_password, args.remote_password))
}

/// The private-key path as given, before `~` is expanded.
pub open spec fn effective_key_file(args: Ssh, cfg: Config) -> Option<String> {
    prefer(section(cfg).remote_key_file, args.remote_key_file)
}

/// A path that names the current user's home: `~` alone or `~/...`.
pub open spec fn names_home(s: Seq<char>) -> bool {
    s.len() > 0 && s[0] == '~' && (s.len() == 1 || s[1] == '/')
}

/// `s` with a leading `~` replaced by `home`, where `s` names the home
/// directory and `home` is known; otherwise `s` itself.
pub open spec fn expand_tilde(s: Seq<char>, home: Option<Seq<char>>) -> Seq<char> {
    if names_home(s) && home is Some {
        home.unwrap() + s.skip(1)
    } else {
        s
    }
}

/// Picks the configuration's value where it has one, else the argument's,
/// else `default`.
pub fn resolve<T>(cfg_value: Option<T>, arg_value: Option<T>, default: T) -> (r: T)
    ensures
        r == match prefer(cfg_value, arg_value) {
            Some(v) => v,
            None => default,
        },
{
    match cfg_value {
        Some(v) => v,
        None => match arg_value {
            Some(v) => v,
            None => default,
        },
    }
}

fn prefer_value<T>(cfg_value: Option<T>, arg_value: Option<T>) -> (r: Option<T>)
    ensures
        r == prefer(cfg_value, arg_value),
{
    match cfg_value {
        Some(v) => Some(v),
        None => arg_value,
    }
}

fn copy_text(o: &Option<String>) -> (r: Option<String>)
    ensures
        r == *o,
{
    match o {
        Some(s) => Some(s.clone()),
        None => None,
    }
}

/// A copy of the configuration's SSH section, with every field unset where
/// the section is missing.
pub fn section_of(cfg: &Config) -> (r: Ssh)
    ensures
        r == section(*cfg),
{
    match &cfg.ssh {
        Some(s) => Ssh {
            remote_password: copy_text(&s.remote_password),
            remote_key_file: copy_text(&s.remote_key_file),
            remote_host: copy_text(&s.remote_host),
            remote_port: s.remote_port,
            remote_user: copy_text(&s.remote_user),
        },
        None => Ssh {
            remote_password: None,
            remote_key_file: None,
            remote_host: None,
            remote_port: None,
            remote_user: None,
        },
    }
}

/// Host, port and user name, each from the configuration where it sets one,
/// else from the arguments, else empty (port 22).
pub fn resolve_target(args: &Ssh, cfg: &Config) -> (r: ConnectionTarget)
    ensures
        r.host@ == effective_host(*args, *cfg),
        r.port == effective_port(*args, *cfg),
        r.username@ == effective_user(*args, *cfg),
{
    let s = section_of(cfg);
    let host = resolve(s.remote_host, copy_text(&args.remote_host), String::new());
    let port = resolve(s.remote_port, args.remote_port, DEFAULT_PORT);
    let username = resolve(s.remote_user, copy_text(&args.remote_user), String::new());
    ConnectionTarget { host, port, username }
}

/// Replaces a leading `~` by the home directory `home`, for `~` alone and
/// for `~/...`; any other input, or an unknown home, leaves it unchanged.
pub fn tilde_with_context(input: &str, home: Option<String>) -> (r: String)
    ensures
        r@ == expand_tilde(input@, opt_view(home)),
        !(input@.len() > 0 && input@[0] == '~') ==> r@ == input@,
        home is None ==> r@ == input@,
        names_home(input@) && home is Some ==> r@ == home.unwrap()@ + input@.skip(1),
{
    let n = input.unicode_len();
    let names = n > 0 && input.get_char(0) == '~' && (n == 1 || input.get_char(1) == '/');
    match home {
        Some(h) => {
            if names {
                let mut out = h.clone();
                out.append(input.substring_char(1, n));
                out
            } else {
                input.to_owned()
            }
        },
        None => input.to_owned(),
    }
}

/// Relies on `dirs::home_dir`: the current user's home directory, where the
/// platform knows one; it depends on the environment.
#[verifier::external_body]
fn home_dir_text() -> (r: Option<String>) {
    match dirs::home_dir() {
        Some(p) => Some(p.display().to_string()),
        None => None,
    }
}

/// The password that either source gives, configuration first; empty where
/// neither does.
fn password_of(args: &Ssh, cfg: &Config) -> (r: String)
    ensures
        r@ == effective_password(*args, *cfg),
{
    let s = section_of(cfg);
    resolve(s.remote_password, copy_text(&args.remote_password), String::new())
}

/// Chooses the authentication method, with `home` as the home directory: a
/// password wherever either source gives a non-empty one, else the private
/// key file that either source names, with `~` expanded; with neither, it
/// fails with `NoKeyFile`.
pub fn resolve_auth_with_home(args: &Ssh, cfg: &Config, home: Option<String>) -> (r: Result<
    AuthSource,
    ConnectError,
>)
    ensures
        effective_password(*args, *cfg).len() > 0 ==> (r matches Ok(AuthSource::Password(p))
            && p@ == effective_password(*args, *cfg)),
        effective_password(*args, *cfg).len() == 0 && effective_key_file(*args, *cfg) is None
            ==> r matches Err(ConnectError::NoKeyFile),
        effective_password(*args, *cfg).len() == 0 && effective_key_file(*args, *cfg) is Some
            ==> (r matches Ok(AuthSource::KeyFile(path)) && path@ == expand_tilde(
            effective_key_file(*args, *cfg).unwrap()@,
            opt_view(home),
        )),
{
    let password = password_of(args, cfg);
    if !password.as_str().is_empty() {
        return Ok(AuthSource::Password(password));
    }
    let s = section_of(cfg);
    match prefer_value(s.remote_key_file, copy_text(&args.remote_key_file)) {
        Some(raw) => Ok(AuthSource::KeyFile(tilde_with_context(raw.as_str(), home))),
        None => Err(ConnectError::NoKeyFile),
    }
}

/// Chooses the authentication method as `resolve_auth_with_home` does, with
/// the current user's home directory, looked up only when a key path needs it.
pub fn resolve_auth(args: &Ssh, cfg: &Config) -> (r: Result<AuthSource, ConnectError>)
    ensures
        effective_password(*args, *cfg).len() > 0 ==> (r matches Ok(AuthSource::Password(p))
            && p@ == effective_password(*args, *cfg)),
        effective_password(*args, *cfg).len() == 0 && effective_key_file(*args, *cfg) is None
            ==> r matches Err(ConnectError::NoKeyFile),
        effective_password(*args, *cfg).len() == 0 && effective_key_file(*args, *cfg) is Some
            ==> (r matches Ok(AuthSource::KeyFile(path)) && exists|home: Option<String>|
            path@ == expand_tilde(effective_key_file(*args, *cfg).unwrap()@, opt_view(home))),
{
    let home = if password_of(args, cfg).as_str().is_empty() {
        home_dir_text()
    } else {
        None
    };
    let r = resolve_auth_with_home(args, cfg, home);
    proof {
        if let Ok(AuthSource::KeyFile(path)) = &r {
            assert(path@ == expand_tilde(effective_key_file(*args, *cfg).unwrap()@, opt_view(home)));
        }
    }
    r
}

/// The credentials for the handshake: the password as it is, or a private
/// key from the file's contents `key_text` (no passphrase); where the file
/// could not be read (`None`), the error names its path.
pub fn credentials(source: AuthSource, key_text: Option<String>) -> (r: Result<
    Credentials,
    ConnectError,
>)
    ensures
        source matches AuthSource::Password(p) ==> (r matches Ok(Credentials::Password(q)) && q
            == p),
        source matches AuthSource::KeyFile(path) ==> match key_text {
            Some(c) => (r matches Ok(Credentials::PrivateKey { contents, passphrase }) && contents
                == c && passphrase is None),
            None => (r matches Err(ConnectError::KeyUnreadable(q)) && q == path),
        },
{
    match source {
        AuthSource::Password(p) => Ok(Credentials::Password(p)),
        AuthSource::KeyFile(path) => match key_text {
            Some(c) => Ok(Credentials::PrivateKey { contents: c, passphrase: None }),
            None => Err(ConnectError::KeyUnreadable(path)),
        },
    }
}

} // verus!
