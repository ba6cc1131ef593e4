use crate::config::args::{Args, ArgsView};
use crate::config::error::{ConfigError, ConfigErrorView};
use crate::config::text::{
    all_alphanumeric, all_graphic, is_all_alphanumeric, is_all_graphic, parse_port, parse_u16,
    has_no_colon, lemma_split_rejoins, lemma_trim_idempotent, split_at_colon, split_at_first_colon, trim, trimmed,
};
use crate::outside::{regex_is_match, regex_matches, server_name, server_name_text};
use vstd::prelude::*;
use vstd::string::*;

verus! {

/// Where the client connects: the tunnel server, the local service it
/// exposes, and the credentials it logs in with. Host names are held as the
/// text of a validated server name.
pub struct Config {
    pub tunnel_host: String,
    pub tunnel_host_port: u16,
    pub tunnel_service: String,
    pub tunnel_service_port: u16,
    pub tunnel_user: Option<String>,
    pub tunnel_password: Option<String>,
    pub tunnel_token: Option<String>,
    pub tunnel_disable_certificate_check: bool,
}

pub struct ConfigView {
    pub tunnel_host: Seq<char>,
    pub tunnel_host_port: u16,
    pub tunnel_service: Seq<char>,
    pub tunnel_service_port: u16,
    pub tunnel_user: Option<Seq<char>>,
    pub tunnel_password: Option<Seq<char>>,
    pub tunnel_token: Option<Seq<char>>,
    pub tunnel_disable_certificate_check: bool,
}

impl View for Config {
    type V = ConfigView;

    open spec fn view(&self) -> ConfigView {
        ConfigView {
            tunnel_host: self.tunnel_host@,
            tunnel_host_port: self.tunnel_host_port,
            tunnel_service: self.tunnel_service@,
            tunnel_service_port: self.tunnel_service_port,
            tunnel_user: self.tunnel_user.deep_view(),
            tunnel_password: self.tunnel_password.deep_view(),
            tunnel_token: self.tunnel_token.deep_view(),
            tunnel_disable_certificate_check: self.tunnel_disable_certificate_check,
        }
    }
}

/// The environment variables that configure the client: `AQUEDUCT_HOST`,
/// `AQUEDUCT_SERVICE`, `AQUEDUCT_USER`, `AQUEDUCT_PASSWORD`, `AQUEDUCT_TOKEN`
/// (`None` where a variable is not set).
pub struct ConfigEnv {
    pub host: Option<String>,
    pub service: Option<String>,
    pub user: Option<String>,
    pub password: Option<String>,
    pub token: Option<String>,
}

pub struct ConfigEnvView {
    pub host: Option<Seq<char>>,
    pub service: Option<Seq<char>>,
    pub user: Option<Seq<char>>,
    pub password: Option<Seq<char>>,
    pub token: Option<Seq<char>>,
}

impl View for ConfigEnv {
    type V = ConfigEnvView;

    open spec fn view(&self) -> ConfigEnvView {
        ConfigEnvView {
            host: self.host.deep_view(),
            service: self.service.deep_view(),
            user: self.user.deep_view(),
            password: self.password.deep_view(),
            token: self.token.deep_view(),
        }
    }
}

/// Credentials entered at the prompt.
pub enum TunnelCredential {
    Password(String, String),
    Token(String),
}

pub const DEFAULT_HOST_PORT: u16 = 30330;

pub const DEFAULT_SERVICE_PORT: u16 = 80;

pub open spec fn loopback() -> Seq<char> {
    seq!['1', '2', '7', '.', '0', '.', '0', '.', '1']
}

/// The configuration before any variable or argument is read.
pub open spec fn default_config() -> ConfigView {
    ConfigView {
        tunnel_host: loopback(),
        tunnel_host_port: DEFAULT_HOST_PORT,
        tunnel_service: loopback(),
        tunnel_service_port: DEFAULT_SERVICE_PORT,
        tunnel_user: None,
        tunnel_password: None,
        tunnel_token: None,
        tunnel_disable_certificate_check: false,
    }
}

/// The error for a service argument without a port.
pub open spec fn service_without_port() -> ConfigErrorView {
    ConfigErrorView::InvalidValue("service"@, "AQUEDUCT_SERVICE"@)
}

/// The server name and port that `value` (`name` or `name:port`) gives.
/// Where `value` has no `:`, the port is `default_port`, or an error is
/// `missing` where there is no default. The name is checked before the port.
pub open spec fn endpoint_of(
    value: Seq<char>,
    default_port: Option<u16>,
    missing: ConfigErrorView,
) -> Result<(Seq<char>, u16), ConfigErrorView> {
    let parts = split_at_colon(value);
    match server_name_text(parts.0) {
        None => Err(ConfigErrorView::InvalidDNSName),
        Some(name) => match parts.1 {
            None => match default_port {
                Some(port) => Ok((name, port)),
                None => Err(missing),
            },
            Some(text) => match parse_u16(text) {
                Some(port) => Ok((name, port)),
                None => Err(ConfigErrorView::InvalidPort(text)),
            },
        },
    }
}

/// Sets the tunnel host from `value` where there is one.
pub open spec fn with_host(c: ConfigView, value: Option<Seq<char>>) -> Result<
    ConfigView,
    ConfigErrorView,
> {
    match value {
        None => Ok(c),
        Some(v) => match endpoint_of(v, Some(DEFAULT_HOST_PORT), service_without_port()) {
            Ok(e) => Ok(ConfigView { tunnel_host: e.0, tunnel_host_port: e.1, ..c }),
            Err(err) => Err(err),
        },
    }
}

/// Sets the service from `value` where there is one; `default_port` as in
/// `endpoint_of`.
pub open spec fn with_service(
    c: ConfigView,
    value: Option<Seq<char>>,
    default_port: Option<u16>,
) -> Result<ConfigView, ConfigErrorView> {
    match value {
        None => Ok(c),
        Some(v) => match endpoint_of(v, default_port, service_without_port()) {
            Ok(e) => Ok(ConfigView { tunnel_service: e.0, tunnel_service_port: e.1, ..c }),
            Err(err) => Err(err),
        },
    }
}

/// Replaces each credential for which a value is given.
pub open spec fn with_credentials(
    c: ConfigView,
    user: Option<Seq<char>>,
    password: Option<Seq<char>>,
    token: Option<Seq<char>>,
) -> ConfigView {
    ConfigView {
        tunnel_user: if user is Some {
            user
        } else {
            c.tunnel_user
        },
        tunnel_password: if password is Some {
            password
        } else {
            c.tunnel_password
        },
        tunnel_token: if token is Some {
            token
        } else {
            c.tunnel_token
        },
        ..c
    }
}

/// An empty value counts as none.
pub open spec fn non_empty(v: Option<Seq<char>>) -> Option<Seq<char>> {
    match v {
        Some(s) => if s.len() == 0 {
            None
        } else {
            v
        },
        None => None,
    }
}

pub open spec fn cleaned(c: ConfigView) -> ConfigView {
    ConfigView {
        tunnel_user: non_empty(c.tunnel_user),
        tunnel_password: non_empty(c.tunnel_password),
        tunnel_token: non_empty(c.tunnel_token),
        ..c
    }
}

/// No credential is held as an empty string.
pub open spec fn credentials_clean(c: ConfigView) -> bool {
    &&& !(c.tunnel_user matches Some(s) && s.len() == 0)
    &&& !(c.tunnel_password matches Some(s) && s.len() == 0)
    &&& !(c.tunnel_token matches Some(s) && s.len() == 0)
}

/// The configuration that the defaults, then the environment, then the
/// command line give, each overriding the one before; a service given on
/// the command line must name its port.
pub open spec fn resolved_config(env: ConfigEnvView, args: ArgsView) -> Result<
    ConfigView,
    ConfigErrorView,
> {
    match with_host(default_config(), env.host) {
        Err(e) => Err(e),
        Ok(c1) => match with_service(c1, env.service, Some(DEFAULT_SERVICE_PORT)) {
            Err(e) => Err(e),
            Ok(c2) => {
                let c3 = with_credentials(c2, env.user, env.password, env.token);
                match with_host(c3, args.host) {
                    Err(e) => Err(e),
                    Ok(c4) => match with_service(c4, args.service, None) {
                        Err(e) => Err(e),
                        Ok(c5) => {
                            let c6 = with_credentials(c5, args.username, args.password, args.token);
                            let c7 = ConfigView {
                                tunnel_disable_certificate_check: c6.tunnel_disable_certificate_check
                                    || args.insecure_tls,
                                ..c6
                            };
                            Ok(cleaned(c7))
                        },
                    },
                }
            },
        },
    }
}

/// Neither a token nor both a user name and a password are set.
pub open spec fn lacks_credentials(c: ConfigView) -> bool {
    c.tunnel_token is None && (c.tunnel_user is None || c.tunnel_password is None)
}

/// The configuration once the credentials entered at the prompt (if any
/// were needed) are in.
pub open spec fn completed_config(c: ConfigView, entered: Option<TunnelCredential>) -> Result<
    ConfigView,
    ConfigErrorView,
> {
    if !lacks_credentials(c) {
        Ok(c)
    } else {
        match entered {
            None => Err(ConfigErrorView::AuthenticationRequired),
            Some(TunnelCredential::Token(t)) => Ok(ConfigView { tunnel_token: Some(t@), ..c }),
            Some(TunnelCredential::Password(u, p)) => Ok(
                ConfigView { tunnel_user: Some(u@), tunnel_password: Some(p@), ..c },
            ),
        }
    }
}

pub open spec fn config_result_is(
    r: Result<Config, ConfigError>,
    s: Result<ConfigView, ConfigErrorView>,
) -> bool {
    match (r, s) {
        (Ok(c), Ok(v)) => c@ == v,
        (Err(e), Err(v)) => e@ == v,
        _ => false,
    }
}

pub open spec fn endpoint_result_is(
    r: Result<(String, u16), ConfigError>,
    s: Result<(Seq<char>, u16), ConfigErrorView>,
) -> bool {
    match (r, s) {
        (Ok(e), Ok(v)) => e.0@ == v.0 && e.1 == v.1,
        (Err(e), Err(v)) => e@ == v,
        _ => false,
    }
}

fn service_error() -> (e: ConfigError)
    ensures
        e@ == service_without_port(),
{
    ConfigError::InvalidValue((String::from_str("service"), String::from_str("AQUEDUCT_SERVICE")))
}

/// Reads `value` (`name` or `name:port`) as a server name and port, as
/// `endpoint_of` says; `port_required` where a missing port is an error.
pub fn parse_endpoint(value: &str, default_port: u16, port_required: bool) -> (r: Result<
    (String, u16),
    ConfigError,
>)
    ensures
        endpoint_result_is(
            r,
            endpoint_of(
                value@,
                if port_required {
                    None
                } else {
                    Some(default_port)
                },
                service_without_port(),
            ),
        ),
{
    let (head, tail) = split_at_first_colon(value);
    let name = server_name(head.as_str());
    endpoint_from_parts(name, tail, default_port, port_required)
}

/// The endpoint made of a checked server name (`None` where the name was
/// refused) and the text after the first `:` (`None` where there was none).
pub fn endpoint_from_parts(
    name: Option<String>,
    port_text: Option<String>,
    default_port: u16,
    port_required: bool,
) -> (r: Result<(String, u16), ConfigError>)
    ensures
        endpoint_result_is(
            r,
            match name.deep_view() {
                None => Err(ConfigErrorView::InvalidDNSName),
                Some(n) => match port_text.deep_view() {
                    None => if port_required {
                        Err(service_without_port())
                    } else {
                        Ok((n, default_port))
                    },
                    Some(text) => match parse_u16(text) {
                        Some(port) => Ok((n, port)),
                        None => Err(ConfigErrorView::InvalidPort(text)),
                    },
                },
            },
        ),
{
    let name = match name {
        Some(name) => name,
        None => return Err(ConfigError::InvalidDNSName),
    };
    match port_text {
        None => {
            if port_required {
                Err(service_error())
            } else {
                Ok((name, default_port))
            }
        },
        Some(text) => match parse_port(text.as_str()) {
            Some(port) => Ok((name, port)),
            None => Err(ConfigError::InvalidPort(text)),
        },
    }
}

fn clone_option(v: &Option<String>) -> (r: Option<String>)
    ensures
        r.deep_view() == v.deep_view(),
{
    match v {
        Some(s) => Some(s.clone()),
        None => None,
    }
}

fn keep_non_empty(v: Option<String>) -> (r: Option<String>)
    ensures
        r.deep_view() == non_empty(v.deep_view()),
{
    match v {
        Some(s) => if s.as_str().unicode_len() == 0 {
            None
        } else {
            Some(s)
        },
        None => None,
    }
}

fn set_host(config: Config, value: &Option<String>) -> (r: Result<Config, ConfigError>)
    ensures
        config_result_is(r, with_host(config@, value.deep_view())),
{
    match value {
        None => Ok(config),
        Some(v) => match parse_endpoint(v.as_str(), DEFAULT_HOST_PORT, false) {
            Ok((host, port)) => {
                let mut config = config;
                config.tunnel_host = host;
                config.tunnel_host_port = port;
                Ok(config)
            },
            Err(e) => Err(e),
        },
    }
}

fn set_service(config: Config, value: &Option<String>, port_required: bool) -> (r: Result<
    Config,
    ConfigError,
>)
    ensures
        config_result_is(
            r,
            with_service(
                config@,
                value.deep_view(),
                if port_required {
                    None
                } else {
                    Some(DEFAULT_SERVICE_PORT)
                },
            ),
        ),
{
    match value {
        None => Ok(config),
        Some(v) => match parse_endpoint(v.as_str(), DEFAULT_SERVICE_PORT, port_required) {
            Ok((service, port)) => {
                let mut config = config;
                config.tunnel_service = service;
                config.tunnel_service_port = port;
                Ok(config)
            },
            Err(e) => Err(e),
        },
    }
}

fn set_credentials(
    config: Config,
    user: &Option<String>,
    password: &Option<String>,
    token: &Option<String>,
) -> (r: Config)
    ensures
        r@ == with_credentials(config@, user.deep_view(), password.deep_view(), token.deep_view()),
{
    let mut config = config;
    if user.is_some() {
        config.tunnel_user = clone_option(user);
    }
    if password.is_some() {
        config.tunnel_password = clone_option(password);
    }
    if token.is_some() {
        config.tunnel_token = clone_option(token);
    }
    config
}

fn initial_config() -> (r: Config)
    ensures
        r@ == default_config(),
{
    let host = String::from_str("127.0.0.1");
    let service = String::from_str("127.0.0.1");
    proof {
        reveal_strlit("127.0.0.1");
        assert("127.0.0.1"@ =~= loopback());
    }
    Config {
        tunnel_host: host,
        tunnel_host_port: DEFAULT_HOST_PORT,
        tunnel_service: service,
        tunnel_service_port: DEFAULT_SERVICE_PORT,
        tunnel_user: None,
        tunnel_password: None,
        tunnel_token: None,
        tunnel_disable_certificate_check: false,
    }
}

/// Reads the configuration from the environment and the command line:
/// defaults first (`127.0.0.1:30330` and `127.0.0.1:80`), then the
/// environment, then the command line, each value overriding the one
/// before. Empty credentials are dropped.
pub fn resolve_config(env: &ConfigEnv, args: &Args) -> (r: Result<Config, ConfigError>)
    ensures
        config_result_is(r, resolved_config(env@, args@)),
        r matches Ok(c) ==> credentials_clean(c@),
{
    let c1 = match set_host(initial_config(), &env.host) {
        Ok(c) => c,
        Err(e) => return Err(e),
    };
    let c2 = match set_service(c1, &env.service, false) {
        Ok(c) => c,
        Err(e) => return Err(e),
    };
    let c3 = set_credentials(c2, &env.user, &env.password, &env.token);
    let c4 = match set_host(c3, &args.host) {
        Ok(c) => c,
        Err(e) => return Err(e),
    };
    let c5 = match set_service(c4, &args.service, true) {
        Ok(c) => c,
        Err(e) => return Err(e),
    };
    let mut c = set_credentials(c5, &args.username, &args.password, &args.token);
    if args.insecure_tls {
        c.tunnel_disable_certificate_check = true;
    }
    c.tunnel_user = keep_non_empty(c.tunnel_user);
    c.tunnel_password = keep_non_empty(c.tunnel_password);
    c.tunnel_token = keep_non_empty(c.tunnel_token);
    Ok(c)
}

/// Whether the credentials must be asked for: there is no token, and the
/// user name or the password is missing.
pub fn credentials_missing(config: &Config) -> (r: bool)
    ensures
        r == lacks_credentials(config@),
        r <==> (config.tunnel_token is None && (config.tunnel_user is None
            || config.tunnel_password is None)),
{
    config.tunnel_token.is_none() && (config.tunnel_user.is_none()
        || config.tunnel_password.is_none())
}

/// Puts in the credentials entered at the prompt where they were needed;
/// without them the configuration is refused with `AuthenticationRequired`.
pub fn complete_config(config: Config, entered: Option<TunnelCredential>) -> (r: Result<
    Config,
    ConfigError,
>)
    ensures
        config_result_is(r, completed_config(config@, entered)),
        r matches Ok(c) ==> !lacks_credentials(c@),
        r matches Ok(c) ==> (c.tunnel_token is Some || (c.tunnel_user is Some
            && c.tunnel_password is Some)),
        entered is None && config.tunnel_token is None && (config.tunnel_user is None
            || config.tunnel_password is None) ==> r is Err,
        !(config@.tunnel_token matches Some(t) && t.len() == 0) && (entered matches Some(
            TunnelCredential::Token(t),
        ) ==> has_token_form(t@)) ==> (r matches Ok(c) ==> !(c@.tunnel_token matches Some(t)
            && t.len() == 0)),
{
    if !credentials_missing(&config) {
        return Ok(config);
    }
    let mut config = config;
    match entered {
        None => Err(ConfigError::AuthenticationRequired),
        Some(TunnelCredential::Token(token)) => {
            config.tunnel_token = Some(token);
            Ok(config)
        },
        Some(TunnelCredential::Password(user, password)) => {
            config.tunnel_user = Some(user);
            config.tunnel_password = Some(password);
            Ok(config)
        },
    }
}

/// The value that wins between a command-line value and an environment
/// value: the command line first.
pub open spec fn first_given(arg: Option<Seq<char>>, env: Option<Seq<char>>) -> Option<Seq<char>> {
    if arg is Some {
        arg
    } else {
        env
    }
}

/// Precedence: in a configuration that was read, each setting comes from
/// the command line where it is given there, else from the environment,
/// else from the default. The host and the service are the endpoints that
/// the winning text names (a service from the environment defaults to port
/// 80, one from the command line must give its port); a credential is the
/// winning text unless that is empty; certificate checks are off exactly
/// when the command line asks so.
pub proof fn lemma_settings_precedence(env: ConfigEnvView, args: ArgsView)
    requires
        resolved_config(env, args) is Ok,
    ensures
        ({
            let c = resolved_config(env, args)->Ok_0;
            &&& match first_given(args.host, env.host) {
                Some(h) => endpoint_of(h, Some(DEFAULT_HOST_PORT), service_without_port()) == Ok::<
                    (Seq<char>, u16),
                    ConfigErrorView,
                >((c.tunnel_host, c.tunnel_host_port)),
                None => c.tunnel_host == loopback() && c.tunnel_host_port == DEFAULT_HOST_PORT,
            }
            &&& match args.service {
                Some(s) => endpoint_of(s, None, service_without_port()) == Ok::<
                    (Seq<char>, u16),
                    ConfigErrorView,
                >((c.tunnel_service, c.tunnel_service_port)),
                None => match env.service {
                    Some(s) => endpoint_of(s, Some(DEFAULT_SERVICE_PORT), service_without_port())
                        == Ok::<(Seq<char>, u16), ConfigErrorView>(
                        (c.tunnel_service, c.tunnel_service_port),
                    ),
                    None => c.tunnel_service == loopback() && c.tunnel_service_port
                        == DEFAULT_SERVICE_PORT,
                },
            }
            &&& c.tunnel_user == non_empty(first_given(args.username, env.user))
            &&& c.tunnel_password == non_empty(first_given(args.password, env.password))
            &&& c.tunnel_token == non_empty(first_given(args.token, env.token))
            &&& c.tunnel_disable_certificate_check == args.insecure_tls
        }),
{
}

/// The form of a token: `aq_` followed by 43 or 44 characters of the
/// base58 alphabet.
pub const TOKEN_PATTERN: &'static str = "^aq_[1-9A-HJ-NP-Za-km-z]{43,44}$";

/// What the credential prompt asks for next.
pub enum CredentialStage {
    /// Password-based (`1`) or token-based (`2`) login.
    SelectMethod,
    Username,
    /// The password, for the user name already entered.
    Password(String),
    Token,
}

/// What the prompt does after a line was read.
pub enum DialogStep {
    /// Ask for this.
    Ask(CredentialStage),
    /// Say that the line was refused, and ask for this again.
    Retry(CredentialStage),
    /// The credentials are complete.
    Done(TunnelCredential),
    /// The prompt was interrupted or failed: no credentials.
    Abort,
}

/// A character of the base58 alphabet: the digits and letters without
/// `0`, `O`, `I` and `l`.
pub open spec fn is_base58(c: char) -> bool {
    ||| ('1' <= c && c <= '9')
    ||| ('A' <= c && c <= 'H')
    ||| ('J' <= c && c <= 'N')
    ||| ('P' <= c && c <= 'Z')
    ||| ('a' <= c && c <= 'k')
    ||| ('m' <= c && c <= 'z')
}

/// The token form: `aq_` followed by 43 or 44 base58 characters, and
/// nothing else.
pub open spec fn has_token_form(s: Seq<char>) -> bool {
    &&& 46 <= s.len() <= 47
    &&& s[0] == 'a'
    &&& s[1] == 'q'
    &&& s[2] == '_'
    &&& forall|i: int| 3 <= i < s.len() ==> is_base58(#[trigger] s[i])
}

/// Whether `token` is accepted as a token: whether `regex` matches
/// `TOKEN_PATTERN` in it, which is exactly when it has the token form.
pub open spec fn token_accepted(token: Seq<char>) -> bool {
    regex_matches(TOKEN_PATTERN@, token) == Some(true)
}

/// The step that the prompt takes at `stage` on the line `line` (`None`
/// where reading failed), given whether that line, trimmed, has the form
/// of a token. Every line is trimmed of white space first.
pub open spec fn dialog_step_is(
    stage: CredentialStage,
    line: Option<Seq<char>>,
    line_is_token: bool,
    r: DialogStep,
) -> bool {
    match line {
        None => r is Abort,
        Some(raw) => {
            let l = trimmed(raw);
            match stage {
                CredentialStage::SelectMethod => if l == seq!['1'] {
                    r == DialogStep::Ask(CredentialStage::Username)
                } else if l == seq!['2'] {
                    r == DialogStep::Ask(CredentialStage::Token)
                } else {
                    r == DialogStep::Ask(CredentialStage::SelectMethod)
                },
                CredentialStage::Username => if all_alphanumeric(l) {
                    r matches DialogStep::Ask(CredentialStage::Password(u)) && u@ == l
                } else {
                    r == DialogStep::Retry(CredentialStage::Username)
                },
                CredentialStage::Password(user) => if all_graphic(l) {
                    r matches DialogStep::Done(TunnelCredential::Password(u, p)) && u@ == user@
                        && p@ == l
                } else {
                    r matches DialogStep::Retry(CredentialStage::Password(u)) && u@ == user@
                },
                CredentialStage::Token => if line_is_token {
                    r matches DialogStep::Done(TunnelCredential::Token(t)) && t@ == l
                } else {
                    r == DialogStep::Retry(CredentialStage::Token)
                },
            }
        },
    }
}

/// A stage holds only what was accepted: a trimmed user name of ASCII
/// letters and digits.
pub open spec fn stage_sound(stage: CredentialStage) -> bool {
    match stage {
        CredentialStage::Password(u) => all_alphanumeric(u@) && trimmed(u@) == u@,
        _ => true,
    }
}

/// A step leads to a sound stage, and completes only with trimmed
/// credentials of the accepted forms: a user name of ASCII letters and digits
/// with a password of printable ASCII characters, or a token of the token
/// form.
pub open spec fn step_sound(step: DialogStep) -> bool {
    match step {
        DialogStep::Ask(s) => stage_sound(s),
        DialogStep::Retry(s) => stage_sound(s),
        DialogStep::Done(TunnelCredential::Password(u, p)) => {
            &&& all_alphanumeric(u@)
            &&& trimmed(u@) == u@
            &&& all_graphic(p@)
            &&& trimmed(p@) == p@
        },
        DialogStep::Done(TunnelCredential::Token(t)) => {
            &&& token_accepted(t@)
            &&& has_token_form(t@)
            &&& trimmed(t@) == t@
        },
        DialogStep::Abort => true,
    }
}

/// Whether `token` has the token form.
pub fn is_token(token: &str) -> (r: bool)
    ensures
        r == token_accepted(token@),
        r == has_token_form(token@),
{
    match regex_is_match(TOKEN_PATTERN, token) {
        Some(m) => m,
        None => false,
    }
}

/// The step after a token was entered: done where it has the token form,
/// else the token is asked for again.
pub fn token_entered(token: String, accepted: bool) -> (r: DialogStep)
    ensures
        accepted ==> (r matches DialogStep::Done(TunnelCredential::Token(t)) && t@ == token@),
        !accepted ==> r == DialogStep::Retry(CredentialStage::Token),
{
    if accepted {
        DialogStep::Done(TunnelCredential::Token(token))
    } else {
        DialogStep::Retry(CredentialStage::Token)
    }
}

fn is_single_char(s: &str, c: char) -> (r: bool)
    ensures
        r == (s@ == seq![c]),
{
    if s.unicode_len() == 1 && s.get_char(0) == c {
        assert(s@ =~= seq![c]);
        true
    } else {
        false
    }
}

/// One step of the credential prompt: `line` is what was read at `stage`,
/// `None` where reading was interrupted or failed.
pub fn credential_step(stage: CredentialStage, line: Option<String>) -> (r: DialogStep)
    ensures
        dialog_step_is(
            stage,
            line.deep_view(),
            line.deep_view() matches Some(l) && token_accepted(trimmed(l)),
            r,
        ),
        dialog_step_is(
            stage,
            line.deep_view(),
            line.deep_view() matches Some(l) && has_token_form(trimmed(l)),
            r,
        ),
        stage_sound(stage) ==> step_sound(r),
        match (stage, line) {
            (CredentialStage::Password(user), Some(l)) => all_graphic(trimmed(l@)) ==> (r matches DialogStep::Done(
                TunnelCredential::Password(u, p),
            ) && u@ == user@ && p@ == trimmed(l@)),
            _ => true,
        },
{
    let raw = match line {
        Some(raw) => raw,
        None => return DialogStep::Abort,
    };
    let l = trim(raw.as_str());
    proof {
        lemma_trim_idempotent(raw@);
    }
    match stage {
        CredentialStage::SelectMethod => {
            if is_single_char(l.as_str(), '1') {
                DialogStep::Ask(CredentialStage::Username)
            } else if is_single_char(l.as_str(), '2') {
                DialogStep::Ask(CredentialStage::Token)
            } else {
                DialogStep::Ask(CredentialStage::SelectMethod)
            }
        },
        CredentialStage::Username => {
            if is_all_alphanumeric(l.as_str()) {
                DialogStep::Ask(CredentialStage::Password(l))
            } else {
                DialogStep::Retry(CredentialStage::Username)
            }
        },
        CredentialStage::Password(user) => {
            if is_all_graphic(l.as_str()) {
                DialogStep::Done(TunnelCredential::Password(user, l))
            } else {
                DialogStep::Retry(CredentialStage::Password(user))
            }
        },
        CredentialStage::Token => {
            let accepted = is_token(l.as_str());
            token_entered(l, accepted)
        },
    }
}

/// The stage that a step leads to, where the prompt goes on.
pub open spec fn next_stage(step: DialogStep) -> Option<CredentialStage> {
    match step {
        DialogStep::Ask(s) => Some(s),
        DialogStep::Retry(s) => Some(s),
        _ => None,
    }
}

proof fn lemma_prompt_sound_at(stages: Seq<CredentialStage>, steps: Seq<DialogStep>, i: int)
    requires
        stages.len() == steps.len(),
        stages.len() > 0,
        stages[0] == CredentialStage::SelectMethod,
        forall|j: int|
            0 <= j < steps.len() ==> (stage_sound(#[trigger] stages[j]) ==> step_sound(steps[j])),
        forall|j: int|
            0 <= j < steps.len() - 1 ==> next_stage(#[trigger] steps[j]) == Some(stages[j + 1]),
        0 <= i < stages.len(),
    ensures
        stage_sound(stages[i]),
        step_sound(steps[i]),
    decreases i,
{
    if i > 0 {
        lemma_prompt_sound_at(stages, steps, i - 1);
        assert(next_stage(steps[i - 1]) == Some(stages[i]));
    }
    assert(stage_sound(stages[i]) ==> step_sound(steps[i]));
}

/// Over a whole run of the credential prompt: starting from the menu, where
/// each step is what `credential_step` gave at its stage and each following
/// stage is the one that step asked for, every stage reached holds only an
/// accepted user name, and every step, the last one included, is sound. So
/// a finished credential is a trimmed user name of ASCII letters and digits
/// with a trimmed printable-ASCII password, or a trimmed token of the token
/// form (`aq_` and 43 or 44 base58 characters, never empty).
pub proof fn lemma_prompt_run(stages: Seq<CredentialStage>, steps: Seq<DialogStep>)
    requires
        stages.len() == steps.len(),
        stages.len() > 0,
        stages[0] == CredentialStage::SelectMethod,
        forall|j: int|
            0 <= j < steps.len() ==> (stage_sound(#[trigger] stages[j]) ==> step_sound(steps[j])),
        forall|j: int|
            0 <= j < steps.len() - 1 ==> next_stage(#[trigger] steps[j]) == Some(stages[j + 1]),
    ensures
        forall|j: int|
            0 <= j < stages.len() ==> stage_sound(#[trigger] stages[j]) && step_sound(steps[j]),
{
    assert forall|j: int| 0 <= j < stages.len() implies stage_sound(#[trigger] stages[j])
        && step_sound(steps[j]) by {
        lemma_prompt_sound_at(stages, steps, j);
    }
}

/// A host given on the command line as a name without `:` never makes the
/// configuration fail where it would succeed without that argument: the
/// result then holds that host, as the server name makes of it, at the
/// default port.
pub proof fn lemma_host_argument_without_port(
    env: ConfigEnvView,
    args: ArgsView,
    host: Seq<char>,
    name: Seq<char>,
)
    requires
        args.host == Some(host),
        has_no_colon(host),
        server_name_text(host) == Some(name),
        resolved_config(env, ArgsView { host: None, ..args }) is Ok,
    ensures
        resolved_config(env, args) is Ok,
        resolved_config(env, args)->Ok_0.tunnel_host == name,
        resolved_config(env, args)->Ok_0.tunnel_host_port == DEFAULT_HOST_PORT,
{
    lemma_split_rejoins(host);
    let parts = split_at_colon(host);
    if parts.1 is Some {
        let rest = parts.1->Some_0;
        assert(host == parts.0 + seq![':'] + rest);
        assert(host[parts.0.len() as int] == ':');
    }
    assert(parts.0 == host);
}

/// At the password stage, a line whose trimmed text is all printable ASCII
/// completes the prompt with exactly that trimmed text as the password,
/// whatever its length, and the user name entered before.
pub proof fn lemma_password_is_whole_line(
    user: String,
    line: Seq<char>,
    line_is_token: bool,
    r: DialogStep,
)
    requires
        dialog_step_is(CredentialStage::Password(user), Some(line), line_is_token, r),
        all_graphic(trimmed(line)),
    ensures
        r matches DialogStep::Done(TunnelCredential::Password(u, p)) && u@ == user@ && p@
            == trimmed(line),
{
}

/// Credentials count as missing exactly when there is no token and the user
/// name or the password is absent; so a configuration with a user name but
/// no password (and no token) is refused when nothing is entered.
pub proof fn lemma_missing_credentials(c: ConfigView)
    ensures
        lacks_credentials(c) <==> (c.tunnel_token is None && (c.tunnel_user is None
            || c.tunnel_password is None)),
        c.tunnel_token is None && c.tunnel_password is None ==> completed_config(c, None)
            == Err::<ConfigView, ConfigErrorView>(ConfigErrorView::AuthenticationRequired),
        completed_config(c, None) matches Ok(d) ==> (d.tunnel_token is Some || (d.tunnel_user is Some
            && d.tunnel_password is Some)),
{
}

} // verus!
