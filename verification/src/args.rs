//! The configuration of a probe: the variables it is read from, the values
//! they may hold, and the URL it stands for.

use crate::decimal::{decimal, parse_bounded, parse_unsigned, push_decimal};
use crate::env::Env;
use crate::text::same_text;
use crate::url::{is_probe_url, lemma_url_is_well_written};
use vstd::prelude::*;

verus! {

/// Names the variable that holds the port. Unset, the port is read from
/// [`PORT_VAR`].
pub const PORT_NAME_VAR: &'static str = "THC_PORT_NAME";

/// The port to connect to, `0` to `65535`.
pub const PORT_VAR: &'static str = "THC_PORT";

/// The path to request.
pub const PATH_VAR: &'static str = "THC_PATH";

/// Seconds allowed for establishing the connection.
pub const CONN_TIMEOUT_VAR: &'static str = "THC_CONN_TIMEOUT";

/// Seconds allowed for the whole exchange.
pub const REQ_TIMEOUT_VAR: &'static str = "THC_REQ_TIMEOUT";

/// `http` or `https`.
pub const SCHEME_VAR: &'static str = "THC_SCHEME";

/// `true` to address the host by number, `false` to address it by name.
pub const LOOPBACK_VAR: &'static str = "THC_USE_LOOPBACK_ADDRESS";

/// The port where none is set.
pub const DEFAULT_PORT: u16 = 8080;

/// The connect timeout where none is set, in seconds.
pub const DEFAULT_CONNECT_TIMEOUT: u64 = 10;

/// The request timeout where none is set, in seconds.
pub const DEFAULT_REQUEST_TIMEOUT: u64 = 15;

/// The host by name.
pub const LOOPBACK_NAME: &'static str = "localhost";

/// The host by number.
pub const LOOPBACK_ADDRESS: &'static str = "127.0.0.1";

/// The exit status when arguments were given: usage is shown, nothing is
/// probed, and nothing went wrong.
pub const EXIT_USAGE: i32 = 0;

/// The exit status when a variable holds a value that cannot be used. It
/// differs from that of a probe that ran and failed.
pub const EXIT_CONFIG_ERROR: i32 = 101;

/// What is shown when arguments are given.
pub const USAGE: &'static str = "USAGE:\n\
\tthc\n\
\n\
PRE ENV:\n\
\n\
\tTHC_PORT_NAME sets port environment variable name that is going to be used for the port, default: THC_PORT\n\
\n\
ENV:\n\
\n\
\tTHC_PORT sets the port to which a connection will be made, default: 8080\n\
\tTHC_PATH sets the path to which a connection will be made, default: `/`\n\
\tTHC_CONN_TIMEOUT sets the connection timeout, default: 10\n\
\tTHC_REQ_TIMEOUT sets the request timeout, default: 15\n\
\tTHC_SCHEME 'http' or 'https', default: `http`\n\
\tTHC_USE_LOOPBACK_ADDRESS 'true' to use 127.0.0.1 in place of 'localhost', default: `false`\n\
\n\
\t**NOTE** Host is not configurable and will always be localhost (or 127.0.0.1)\n\
\n";

/// The protocol of the probe.
#[derive(Clone, Copy, Debug, PartialEq, Eq, Structural)]
pub enum Scheme {
    Http,
    Https,
}

impl Scheme {
    /// The scheme as it stands in a URL.
    pub open spec fn text(self) -> Seq<char> {
        match self {
            Scheme::Http => "http"@,
            Scheme::Https => "https"@,
        }
    }

    /// The scheme that `s` names: exactly `http` or `https`, nothing else.
    pub open spec fn named(s: Seq<char>) -> Option<Scheme> {
        if s == "http"@ {
            Some(Scheme::Http)
        } else if s == "https"@ {
            Some(Scheme::Https)
        } else {
            None
        }
    }

    /// The scheme as it stands in a URL.
    pub fn as_str(&self) -> (s: &'static str)
        ensures
            s@ == self.text(),
    {
        match self {
            Scheme::Http => "http",
            Scheme::Https => "https",
        }
    }

    /// The scheme that `s` names, if it names one.
    pub fn parse(s: &str) -> (r: Option<Scheme>)
        ensures
            r == Scheme::named(s@),
    {
        if same_text(s, "http") {
            Some(Scheme::Http)
        } else if same_text(s, "https") {
            Some(Scheme::Https)
        } else {
            None
        }
    }
}

/// The truth value that `s` names: exactly `true` or `false`, nothing else.
pub open spec fn flag_named(s: Seq<char>) -> Option<bool> {
    if s == "true"@ {
        Some(true)
    } else if s == "false"@ {
        Some(false)
    } else {
        None
    }
}

/// The truth value that `s` names, if it names one.
pub fn parse_flag(s: &str) -> (r: Option<bool>)
    ensures
        r == flag_named(s@),
{
    if same_text(s, "true") {
        Some(true)
    } else if same_text(s, "false") {
        Some(false)
    } else {
        None
    }
}

/// `p` with a `/` in front, unless it has one already.
pub open spec fn normalized_path(p: Seq<char>) -> Seq<char> {
    if p.len() > 0 && p[0] == '/' {
        p
    } else {
        seq!['/'] + p
    }
}

/// `p` with a `/` in front, unless it has one already. What comes back
/// begins with `/`, so that doing it again changes nothing.
pub fn normalize_path(p: &str) -> (r: String)
    ensures
        r@ == normalized_path(p@),
        normalized_path(r@) == r@,
{
    if !p.is_empty() && p.get_char(0) == '/' {
        String::from_str(p)
    } else {
        root_path().concat(p)
    }
}

/// The path of a service that names none: `/`.
fn root_path() -> (r: String)
    ensures
        r@ == seq!['/'],
{
    proof {
        reveal_strlit("/");
    }
    assert("/"@ =~= seq!['/']);
    String::from_str("/")
}

/// Normalizing a path a second time changes nothing.
pub proof fn lemma_normalize_path_idempotent(p: Seq<char>)
    ensures
        normalized_path(normalized_path(p)) == normalized_path(p),
{
}

/// Why no configuration could be made.
#[derive(Debug, PartialEq, Eq)]
pub enum ConfigError {
    /// Arguments were given, and the probe takes none.
    UnexpectedArguments,
    /// The port is not a number within `0..=65535`. Holds the name of the
    /// variable that it was read from.
    InvalidPort(String),
    /// The connect timeout is not a number of seconds.
    InvalidConnectTimeout,
    /// The request timeout is not a number of seconds.
    InvalidRequestTimeout,
    /// The scheme is neither `http` nor `https`.
    InvalidScheme,
    /// The loopback flag is neither `true` nor `false`.
    InvalidLoopbackFlag,
}

/// A [`ConfigError`] in terms of plain text.
pub enum ConfigErrorView {
    UnexpectedArguments,
    InvalidPort(Seq<char>),
    InvalidConnectTimeout,
    InvalidRequestTimeout,
    InvalidScheme,
    InvalidLoopbackFlag,
}

impl View for ConfigError {
    type V = ConfigErrorView;

    open spec fn view(&self) -> ConfigErrorView {
        match self {
            ConfigError::UnexpectedArguments => ConfigErrorView::UnexpectedArguments,
            ConfigError::InvalidPort(variable) => ConfigErrorView::InvalidPort(variable@),
            ConfigError::InvalidConnectTimeout => ConfigErrorView::InvalidConnectTimeout,
            ConfigError::InvalidRequestTimeout => ConfigErrorView::InvalidRequestTimeout,
            ConfigError::InvalidScheme => ConfigErrorView::InvalidScheme,
            ConfigError::InvalidLoopbackFlag => ConfigErrorView::InvalidLoopbackFlag,
        }
    }
}

impl ConfigErrorView {
    /// The variable whose value was refused, if one was.
    pub open spec fn variable(self) -> Option<Seq<char>> {
        match self {
            ConfigErrorView::UnexpectedArguments => None,
            ConfigErrorView::InvalidPort(variable) => Some(variable),
            ConfigErrorView::InvalidConnectTimeout => Some(CONN_TIMEOUT_VAR@),
            ConfigErrorView::InvalidRequestTimeout => Some(REQ_TIMEOUT_VAR@),
            ConfigErrorView::InvalidScheme => Some(SCHEME_VAR@),
            ConfigErrorView::InvalidLoopbackFlag => Some(LOOPBACK_VAR@),
        }
    }

    /// The diagnostic for the error stream; it names the variable at fault.
    /// Unexpected arguments get none: usage is shown in its place.
    pub open spec fn text(self) -> Option<Seq<char>> {
        match self {
            ConfigErrorView::UnexpectedArguments => None,
            ConfigErrorView::InvalidPort(variable) => Some("invalid port in "@ + variable),
            ConfigErrorView::InvalidConnectTimeout => Some(
                "invalid connection timeout in "@ + CONN_TIMEOUT_VAR@,
            ),
            ConfigErrorView::InvalidRequestTimeout => Some(
                "invalid request timeout in "@ + REQ_TIMEOUT_VAR@,
            ),
            ConfigErrorView::InvalidScheme => Some(
                SCHEME_VAR@ + " must be 'http' or 'https' if specified"@,
            ),
            ConfigErrorView::InvalidLoopbackFlag => Some(
                LOOPBACK_VAR@ + " must be 'true' or 'false' if specified"@,
            ),
        }
    }

    /// The exit status that the error calls for.
    pub open spec fn status(self) -> i32 {
        match self {
            ConfigErrorView::UnexpectedArguments => EXIT_USAGE,
            _ => EXIT_CONFIG_ERROR,
        }
    }
}

impl ConfigError {
    /// The variable whose value was refused, if one was.
    pub fn variable(&self) -> (variable: Option<String>)
        ensures
            match variable {
                Some(name) => self@.variable() == Some(name@),
                None => self@.variable() is None,
            },
    {
        match self {
            ConfigError::UnexpectedArguments => None,
            ConfigError::InvalidPort(variable) => Some(variable.clone()),
            ConfigError::InvalidConnectTimeout => Some(String::from_str(CONN_TIMEOUT_VAR)),
            ConfigError::InvalidRequestTimeout => Some(String::from_str(REQ_TIMEOUT_VAR)),
            ConfigError::InvalidScheme => Some(String::from_str(SCHEME_VAR)),
            ConfigError::InvalidLoopbackFlag => Some(String::from_str(LOOPBACK_VAR)),
        }
    }

    /// The diagnostic for the error stream, if the error has one.
    pub fn message(&self) -> (message: Option<String>)
        ensures
            match message {
                Some(line) => self@.text() == Some(line@),
                None => self@.text() is None,
            },
    {
        match self {
            ConfigError::UnexpectedArguments => None,
            ConfigError::InvalidPort(variable) => Some(
                String::from_str("invalid port in ").concat(variable.as_str()),
            ),
            ConfigError::InvalidConnectTimeout => Some(
                String::from_str("invalid connection timeout in ").concat(CONN_TIMEOUT_VAR),
            ),
            ConfigError::InvalidRequestTimeout => Some(
                String::from_str("invalid request timeout in ").concat(REQ_TIMEOUT_VAR),
            ),
            ConfigError::InvalidScheme => Some(
                String::from_str(SCHEME_VAR).concat(" must be 'http' or 'https' if specified"),
            ),
            ConfigError::InvalidLoopbackFlag => Some(
                String::from_str(LOOPBACK_VAR).concat(" must be 'true' or 'false' if specified"),
            ),
        }
    }

    /// The exit status that the error calls for.
    pub fn exit_code(&self) -> (code: i32)
        ensures
            code == self@.status(),
    {
        match self {
            ConfigError::UnexpectedArguments => EXIT_USAGE,
            _ => EXIT_CONFIG_ERROR,
        }
    }
}

/// A [`Config`] in terms of plain text and numbers.
pub struct ConfigView {
    pub scheme: Scheme,
    pub use_loopback_addr: bool,
    pub port: u16,
    pub path: Seq<char>,
    pub connect_timeout: u64,
    pub request_timeout: u64,
}

impl ConfigView {
    /// The path begins with `/`.
    pub open spec fn wf(self) -> bool {
        self.path.len() > 0 && self.path[0] == '/'
    }

    /// The host to connect to: always this machine, by number or by name.
    pub open spec fn host(self) -> Seq<char> {
        if self.use_loopback_addr {
            LOOPBACK_ADDRESS@
        } else {
            LOOPBACK_NAME@
        }
    }

    /// The URL to probe: scheme, host, port and path.
    pub open spec fn url(self) -> Seq<char> {
        self.scheme.text() + "://"@ + self.host() + ":"@ + decimal(self.port as nat) + self.path
    }
}

/// The environment as the configuration sees it: each variable that is set,
/// with its value.
pub type Vars = Map<Seq<char>, Seq<char>>;

/// The name of the variable that holds the port.
pub open spec fn port_variable(vars: Vars) -> Seq<char> {
    if vars.contains_key(PORT_NAME_VAR@) {
        vars[PORT_NAME_VAR@]
    } else {
        PORT_VAR@
    }
}

/// The number that the variable `name` gives: `default` where it is unset,
/// `None` where it is set to anything but a number within `0..=max`.
pub open spec fn number_in(vars: Vars, name: Seq<char>, default: nat, max: nat) -> Option<nat> {
    if vars.contains_key(name) {
        parse_unsigned(vars[name], max)
    } else {
        Some(default)
    }
}

/// The path that the environment gives: `/` where none is set.
pub open spec fn path_in(vars: Vars) -> Seq<char> {
    if vars.contains_key(PATH_VAR@) {
        normalized_path(vars[PATH_VAR@])
    } else {
        seq!['/']
    }
}

/// The scheme that the environment gives: `http` where none is set.
pub open spec fn scheme_in(vars: Vars) -> Option<Scheme> {
    if vars.contains_key(SCHEME_VAR@) {
        Scheme::named(vars[SCHEME_VAR@])
    } else {
        Some(Scheme::Http)
    }
}

/// Whether the environment asks for the host by number: `false` where it
/// does not say.
pub open spec fn loopback_in(vars: Vars) -> Option<bool> {
    if vars.contains_key(LOOPBACK_VAR@) {
        flag_named(vars[LOOPBACK_VAR@])
    } else {
        Some(false)
    }
}

/// The configuration that a command line of `argc` words (the program's name
/// among them) and the variables `vars` give, or the first reason why they
/// give none. A value that is set and cannot be used is an error; its default
/// never takes its place.
pub open spec fn resolve(argc: nat, vars: Vars) -> Result<ConfigView, ConfigErrorView> {
    let port = number_in(vars, port_variable(vars), DEFAULT_PORT as nat, u16::MAX as nat);
    let connect = number_in(
        vars,
        CONN_TIMEOUT_VAR@,
        DEFAULT_CONNECT_TIMEOUT as nat,
        u64::MAX as nat,
    );
    let request = number_in(
        vars,
        REQ_TIMEOUT_VAR@,
        DEFAULT_REQUEST_TIMEOUT as nat,
        u64::MAX as nat,
    );
    let scheme = scheme_in(vars);
    let loopback = loopback_in(vars);
    if argc > 1 {
        Err(ConfigErrorView::UnexpectedArguments)
    } else if port is None {
        Err(ConfigErrorView::InvalidPort(port_variable(vars)))
    } else if connect is None {
        Err(ConfigErrorView::InvalidConnectTimeout)
    } else if request is None {
        Err(ConfigErrorView::InvalidRequestTimeout)
    } else if scheme is None {
        Err(ConfigErrorView::InvalidScheme)
    } else if loopback is None {
        Err(ConfigErrorView::InvalidLoopbackFlag)
    } else {
        Ok(
            ConfigView {
                scheme: scheme->0,
                use_loopback_addr: loopback->0,
                port: port->0 as u16,
                path: path_in(vars),
                connect_timeout: connect->0 as u64,
                request_timeout: request->0 as u64,
            },
        )
    }
}

/// Which variable the port is read from. Needed only while a [`Config`] is
/// being made.
#[derive(Debug, PartialEq, Eq)]
pub struct Preconfig {
    port: String,
}

impl Preconfig {
    /// The name of the variable that holds the port.
    pub closed spec fn port_name(&self) -> Seq<char> {
        self.port@
    }

    /// Finds out which variable holds the port.
    pub fn new(env: &Env) -> (preconfig: Preconfig)
        ensures
            preconfig.port_name() == port_variable(env@),
    {
        match env.get(PORT_NAME_VAR) {
            Some(name) => Preconfig { port: name.clone() },
            None => Preconfig { port: String::from_str(PORT_VAR) },
        }
    }

    /// The name of the variable that holds the port.
    pub fn port(&self) -> (name: &String)
        ensures
            name@ == self.port_name(),
    {
        &self.port
    }
}

/// Where and how to probe. It is made once from the environment and only
/// read after that. Nothing relates the two timeouts: a connect timeout above
/// the request timeout is taken as it is.
#[derive(Debug, PartialEq, Eq)]
pub struct Config {
    scheme: Scheme,
    port: u16,
    path: String,
    connect_timeout: u64,
    request_timeout: u64,
    use_loopback_addr: bool,
}

impl View for Config {
    type V = ConfigView;

    closed spec fn view(&self) -> ConfigView {
        ConfigView {
            scheme: self.scheme,
            use_loopback_addr: self.use_loopback_addr,
            port: self.port,
            path: self.path@,
            connect_timeout: self.connect_timeout,
            request_timeout: self.request_timeout,
        }
    }
}

impl Config {
    /// Every configuration there is has a path that begins with `/`.
    #[verifier::type_invariant]
    spec fn well_formed(self) -> bool {
        self@.wf()
    }
}

/// What a result of [`Config::new`] says in terms of plain text and numbers.
pub open spec fn resolved(r: Result<Config, ConfigError>) -> Result<ConfigView, ConfigErrorView> {
    match r {
        Ok(config) => Ok(config@),
        Err(error) => Err(error@),
    }
}

/// The value of a number variable, as [`number_in`] defines it.
fn read_number(env: &Env, name: &str, default: u64, max: u64) -> (r: Option<u64>)
    ensures
        match r {
            Some(v) => number_in(env@, name@, default as nat, max as nat) == Some(v as nat),
            None => number_in(env@, name@, default as nat, max as nat) is None,
        },
{
    match env.get(name) {
        Some(text) => parse_bounded(text.as_str(), max),
        None => Some(default),
    }
}

impl Config {
    /// Reads the configuration from the environment. `args` is the command
    /// line, the program's name first; anything after the name is refused
    /// before a variable is looked at.
    pub fn new(args: &[String], env: &Env) -> (r: Result<Config, ConfigError>)
        ensures
            resolved(r) == resolve(args@.len(), env@),
            r matches Ok(config) ==> config@.wf(),
    {
        if args.len() > 1 {
            return Err(ConfigError::UnexpectedArguments);
        }
        let preconfig = Preconfig::new(env);
        let port = match read_number(
            env,
            preconfig.port.as_str(),
            DEFAULT_PORT as u64,
            u16::MAX as u64,
        ) {
            Some(port) => port as u16,
            None => {
                return Err(ConfigError::InvalidPort(preconfig.port));
            },
        };
        let path = match env.get(PATH_VAR) {
            Some(path) => normalize_path(path.as_str()),
            None => root_path(),
        };
        let connect_timeout = match read_number(
            env,
            CONN_TIMEOUT_VAR,
            DEFAULT_CONNECT_TIMEOUT,
            u64::MAX,
        ) {
            Some(seconds) => seconds,
            None => {
                return Err(ConfigError::InvalidConnectTimeout);
            },
        };
        let request_timeout = match read_number(
            env,
            REQ_TIMEOUT_VAR,
            DEFAULT_REQUEST_TIMEOUT,
            u64::MAX,
        ) {
            Some(seconds) => seconds,
            None => {
                return Err(ConfigError::InvalidRequestTimeout);
            },
        };
        let scheme = match env.get(SCHEME_VAR) {
            Some(text) => match Scheme::parse(text.as_str()) {
                Some(scheme) => scheme,
                None => {
                    return Err(ConfigError::InvalidScheme);
                },
            },
            None => Scheme::Http,
        };
        let use_loopback_addr = match env.get(LOOPBACK_VAR) {
            Some(text) => match parse_flag(text.as_str()) {
                Some(flag) => flag,
                None => {
                    return Err(ConfigError::InvalidLoopbackFlag);
                },
            },
            None => false,
        };
        Ok(Config { scheme, port, path, connect_timeout, request_timeout, use_loopback_addr })
    }

    /// The URL to probe.
    pub fn url(&self) -> (url: String)
        ensures
            url@ == self@.url(),
            self@.wf(),
            is_probe_url(url@),
    {
        proof {
            use_type_invariant(self);
            lemma_url_is_well_written(self@);
        }
        let host = if self.use_loopback_addr {
            LOOPBACK_ADDRESS
        } else {
            LOOPBACK_NAME
        };
        let mut url = String::from_str(self.scheme.as_str());
        url.append("://");
        url.append(host);
        url.append(":");
        push_decimal(&mut url, self.port as u64);
        url.append(self.path.as_str());
        url
    }

    /// The text that tells how the probe is configured.
    pub fn usage() -> (text: String)
        ensures
            text@ == USAGE@,
    {
        String::from_str(USAGE)
    }

    /// Seconds allowed for establishing the connection.
    pub fn connect_timeout(&self) -> (seconds: u64)
        ensures
            seconds == self@.connect_timeout,
    {
        self.connect_timeout
    }

    /// Seconds allowed for the whole exchange.
    pub fn request_timeout(&self) -> (seconds: u64)
        ensures
            seconds == self@.request_timeout,
    {
        self.request_timeout
    }
}

} // verus!
