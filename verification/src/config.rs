//! The relay's settings: where the daemon is, how long to wait for it, and
//! how many calls may run at once.

use vstd::prelude::*;
use vstd::string::*;

use reqwest::Url;

use crate::admission::MAX_PERMITS;
use crate::number::{parse_u64, parsed_u64};
use crate::url::{
    fits_path, parse_outcome, parse_url, parsed_url, replace_path, url_as_str, url_with_path,
    MAX_PATH_LEN, MAX_URL_LEN,
};

verus! {

/// The settings as the environment gives them: `None` where one is not set.
#[derive(Clone, Debug, PartialEq, Eq)]
pub struct Environment {
    pub daemon_url: Option<String>,
    pub health_path: Option<String>,
    pub voices_path: Option<String>,
    pub tts_path: Option<String>,
    pub connect_timeout_ms: Option<String>,
    pub request_timeout_ms: Option<String>,
    pub max_concurrency: Option<String>,
}

/// A setting that holds a number.
#[derive(Clone, Copy, Debug, PartialEq, Eq, Structural)]
pub enum Setting {
    ConnectTimeout,
    RequestTimeout,
    MaxConcurrency,
}

/// Why the settings were refused.
#[derive(Clone, Debug, PartialEq, Eq)]
pub enum ConfigError {
    /// The daemon's address is no absolute URL; `reason` is what the URL
    /// parser says of it.
    InvalidUrl { reason: String },
    /// A setting does not write an unsigned 64-bit number.
    InvalidNumber(Setting),
    /// The number of concurrent calls is more than a semaphore has permits.
    ConcurrencyOutOfRange,
    /// The number of concurrent calls is zero.
    ZeroConcurrency,
}

/// An error as plain values.
pub enum ConfigErrorView {
    InvalidUrl { reason: Seq<char> },
    InvalidNumber(Setting),
    ConcurrencyOutOfRange,
    ZeroConcurrency,
}

impl View for ConfigError {
    type V = ConfigErrorView;

    open spec fn view(&self) -> ConfigErrorView {
        match *self {
            ConfigError::InvalidUrl { reason } => ConfigErrorView::InvalidUrl { reason: reason@ },
            ConfigError::InvalidNumber(setting) => ConfigErrorView::InvalidNumber(setting),
            ConfigError::ConcurrencyOutOfRange => ConfigErrorView::ConcurrencyOutOfRange,
            ConfigError::ZeroConcurrency => ConfigErrorView::ZeroConcurrency,
        }
    }
}

/// The characters of an optional string.
pub open spec fn optional_text(value: Option<String>) -> Option<Seq<char>> {
    match value {
        Some(s) => Some(s@),
        None => None,
    }
}

/// The number of a setting: the default where it is not set, else what its
/// text writes, if that is a number.
pub open spec fn setting_value(raw: Option<Seq<char>>, default: u64) -> Option<u64> {
    match raw {
        Some(text) => parsed_u64(text),
        None => Some(default),
    }
}

/// A path with a leading slash: the path itself where it begins with one,
/// else the path behind one.
pub open spec fn with_leading_slash(path: Seq<char>) -> Seq<char> {
    if path.len() > 0 && path[0] == '/' {
        path
    } else {
        seq!['/'] + path
    }
}

/// The path of a setting: the default where it is not set, with a leading
/// slash in either case.
pub open spec fn setting_path(raw: Option<Seq<char>>, default: Seq<char>) -> Seq<char> {
    with_leading_slash(
        match raw {
            Some(path) => path,
            None => default,
        },
    )
}

/// Settings that were accepted, as plain values.
pub struct StateView {
    pub daemon_url: Url,
    pub health_path: Seq<char>,
    pub voices_path: Seq<char>,
    pub tts_path: Seq<char>,
    pub connect_timeout_ms: u64,
    pub request_timeout_ms: u64,
    pub max_concurrency: usize,
}

/// The environment as plain values.
pub struct EnvironmentView {
    pub daemon_url: Option<Seq<char>>,
    pub health_path: Option<Seq<char>>,
    pub voices_path: Option<Seq<char>>,
    pub tts_path: Option<Seq<char>>,
    pub connect_timeout_ms: Option<Seq<char>>,
    pub request_timeout_ms: Option<Seq<char>>,
    pub max_concurrency: Option<Seq<char>>,
}

impl View for Environment {
    type V = EnvironmentView;

    open spec fn view(&self) -> EnvironmentView {
        EnvironmentView {
            daemon_url: optional_text(self.daemon_url),
            health_path: optional_text(self.health_path),
            voices_path: optional_text(self.voices_path),
            tts_path: optional_text(self.tts_path),
            connect_timeout_ms: optional_text(self.connect_timeout_ms),
            request_timeout_ms: optional_text(self.request_timeout_ms),
            max_concurrency: optional_text(self.max_concurrency),
        }
    }
}

/// The number of concurrent calls that a setting allows: at least one, and
/// no more than an admission semaphore has permits.
pub open spec fn concurrency(raw: Option<Seq<char>>) -> Result<usize, ConfigErrorView> {
    match setting_value(raw, 32) {
        None => Err(ConfigErrorView::InvalidNumber(Setting::MaxConcurrency)),
        Some(n) => if n > MAX_PERMITS {
            Err(ConfigErrorView::ConcurrencyOutOfRange)
        } else if n == 0 {
            Err(ConfigErrorView::ZeroConcurrency)
        } else {
            Ok(n as usize)
        },
    }
}

/// The text of the daemon's address: the default where it is not set.
pub open spec fn daemon_address(env: EnvironmentView) -> Seq<char> {
    match env.daemon_url {
        Some(text) => text,
        None => "http://127.0.0.1:9000"@,
    }
}

/// What an environment resolves to, given what its address parsed to. The
/// address is looked at first, then the two timeouts, then the number of
/// concurrent calls; the first of them that is wrong decides the error.
pub open spec fn resolved_with(parsed: Result<Url, Seq<char>>, env: EnvironmentView) -> Result<
    StateView,
    ConfigErrorView,
> {
    match (
        parsed,
        setting_value(env.connect_timeout_ms, 500),
        setting_value(env.request_timeout_ms, 10_000),
        concurrency(env.max_concurrency),
    ) {
        (Err(reason), _, _, _) => Err(ConfigErrorView::InvalidUrl { reason }),
        (Ok(_), None, _, _) => Err(ConfigErrorView::InvalidNumber(Setting::ConnectTimeout)),
        (Ok(_), Some(_), None, _) => Err(ConfigErrorView::InvalidNumber(Setting::RequestTimeout)),
        (Ok(_), Some(_), Some(_), Err(e)) => Err(e),
        (Ok(daemon_url), Some(connect_timeout_ms), Some(request_timeout_ms), Ok(max_concurrency)) => Ok(
            StateView {
                daemon_url,
                health_path: setting_path(env.health_path, "/health"@),
                voices_path: setting_path(env.voices_path, "/voices"@),
                tts_path: setting_path(env.tts_path, "/tts"@),
                connect_timeout_ms,
                request_timeout_ms,
                max_concurrency,
            },
        ),
    }
}

/// What an environment resolves to.
pub open spec fn resolved(env: EnvironmentView) -> Result<StateView, ConfigErrorView> {
    resolved_with(parsed_url(daemon_address(env)), env)
}

/// The message of an error: for an address, what the URL parser says of it.
pub open spec fn config_message(error: ConfigErrorView) -> Seq<char> {
    match error {
        ConfigErrorView::InvalidUrl { reason } => reason,
        ConfigErrorView::InvalidNumber(Setting::ConnectTimeout) => {
            "GWENT_CONNECT_TIMEOUT_MS is not an unsigned number"@
        },
        ConfigErrorView::InvalidNumber(Setting::RequestTimeout) => {
            "GWENT_REQUEST_TIMEOUT_MS is not an unsigned number"@
        },
        ConfigErrorView::InvalidNumber(Setting::MaxConcurrency) => {
            "GWENT_MAX_CONCURRENCY is not an unsigned number"@
        },
        ConfigErrorView::ConcurrencyOutOfRange => "GWENT_MAX_CONCURRENCY is out of range"@,
        ConfigErrorView::ZeroConcurrency => "GWENT_MAX_CONCURRENCY must be greater than 0"@,
    }
}

impl ConfigError {
    /// The error in words.
    pub fn message(&self) -> (text: String)
        ensures
            text@ == config_message(self@),
    {
        match self {
            ConfigError::InvalidUrl { reason } => reason.clone(),
            ConfigError::InvalidNumber(Setting::ConnectTimeout) => String::from_str(
                "GWENT_CONNECT_TIMEOUT_MS is not an unsigned number",
            ),
            ConfigError::InvalidNumber(Setting::RequestTimeout) => String::from_str(
                "GWENT_REQUEST_TIMEOUT_MS is not an unsigned number",
            ),
            ConfigError::InvalidNumber(Setting::MaxConcurrency) => String::from_str(
                "GWENT_MAX_CONCURRENCY is not an unsigned number",
            ),
            ConfigError::ConcurrencyOutOfRange => String::from_str(
                "GWENT_MAX_CONCURRENCY is out of range",
            ),
            ConfigError::ZeroConcurrency => String::from_str(
                "GWENT_MAX_CONCURRENCY must be greater than 0",
            ),
        }
    }
}

/// Reads the number of a setting.
pub fn parse_env_u64(raw: &Option<String>, default: u64) -> (value: Option<u64>)
    ensures
        value == setting_value(optional_text(*raw), default),
{
    match raw {
        Some(text) => parse_u64(text.as_str()),
        None => Some(default),
    }
}

/// Puts a slash before a path that does not begin with one.
pub fn normalize_path(path: &str) -> (normal: String)
    ensures
        normal@ == with_leading_slash(path@),
{
    proof {
        reveal_strlit("/");
    }
    if !path.is_empty() && path.get_char(0) == '/' {
        String::from_str(path)
    } else {
        let normal = String::from_str("/").concat(path);
        assert(normal@ =~= seq!['/'] + path@);
        normal
    }
}

/// Reads the path of a setting.
pub fn env_path(raw: &Option<String>, default: &str) -> (path: String)
    ensures
        path@ == setting_path(optional_text(*raw), default@),
{
    match raw {
        Some(path) => normalize_path(path.as_str()),
        None => normalize_path(default),
    }
}

/// The relay's settings, once accepted.
#[derive(Debug)]
pub struct State {
    daemon_url: Url,
    health_path: String,
    voices_path: String,
    tts_path: String,
    connect_timeout_ms: u64,
    request_timeout_ms: u64,
    max_concurrency: usize,
}

impl View for State {
    type V = StateView;

    closed spec fn view(&self) -> StateView {
        StateView {
            daemon_url: self.daemon_url,
            health_path: self.health_path@,
            voices_path: self.voices_path@,
            tts_path: self.tts_path@,
            connect_timeout_ms: self.connect_timeout_ms,
            request_timeout_ms: self.request_timeout_ms,
            max_concurrency: self.max_concurrency,
        }
    }
}

impl State {
    #[verifier::type_invariant]
    spec fn admits_a_call(&self) -> bool {
        1 <= self.max_concurrency <= MAX_PERMITS
    }

    /// Resolves the settings, or says which of them is wrong. Nothing is
    /// sent anywhere: an environment is refused before any request is made.
    pub fn new(env: &Environment) -> (state: Result<State, ConfigError>)
        ensures
            match state {
                Ok(s) => resolved(env@) == Ok::<StateView, ConfigErrorView>(s@),
                Err(e) => resolved(env@) == Err::<StateView, ConfigErrorView>(e@),
            },
    {
        let parsed = match &env.daemon_url {
            Some(text) => parse_url(text.as_str()),
            None => parse_url("http://127.0.0.1:9000"),
        };
        State::from_parsed(parsed, env)
    }

    /// Resolves the settings for an address that was parsed already: an
    /// error stands for an address that is no absolute URL, and holds what
    /// is wrong with it.
    pub fn from_parsed(parsed: Result<Url, String>, env: &Environment) -> (state: Result<
        State,
        ConfigError,
    >)
        ensures
            match state {
                Ok(s) => resolved_with(parse_outcome(parsed), env@) == Ok::<
                    StateView,
                    ConfigErrorView,
                >(s@),
                Err(e) => resolved_with(parse_outcome(parsed), env@) == Err::<
                    StateView,
                    ConfigErrorView,
                >(e@),
            },
    {
        let daemon_url = match parsed {
            Ok(url) => url,
            Err(reason) => {
                return Err(ConfigError::InvalidUrl { reason });
            },
        };
        let connect_timeout_ms = match parse_env_u64(&env.connect_timeout_ms, 500) {
            Some(n) => n,
            None => {
                return Err(ConfigError::InvalidNumber(Setting::ConnectTimeout));
            },
        };
        let request_timeout_ms = match parse_env_u64(&env.request_timeout_ms, 10_000) {
            Some(n) => n,
            None => {
                return Err(ConfigError::InvalidNumber(Setting::RequestTimeout));
            },
        };
        let wanted = match parse_env_u64(&env.max_concurrency, 32) {
            Some(n) => n,
            None => {
                return Err(ConfigError::InvalidNumber(Setting::MaxConcurrency));
            },
        };
        if wanted > MAX_PERMITS as u64 {
            return Err(ConfigError::ConcurrencyOutOfRange);
        }
        if wanted == 0 {
            return Err(ConfigError::ZeroConcurrency);
        }
        Ok(
            State {
                daemon_url,
                health_path: env_path(&env.health_path, "/health"),
                voices_path: env_path(&env.voices_path, "/voices"),
                tts_path: env_path(&env.tts_path, "/tts"),
                connect_timeout_ms,
                request_timeout_ms,
                max_concurrency: wanted as usize,
            },
        )
    }

    /// The daemon's address.
    pub fn daemon_url(&self) -> (url: &Url)
        ensures
            *url == self@.daemon_url,
    {
        &self.daemon_url
    }

    /// The path of the health check.
    pub fn health_path(&self) -> (path: &str)
        ensures
            path@ == self@.health_path,
    {
        self.health_path.as_str()
    }

    /// The path of the list of voices.
    pub fn voices_path(&self) -> (path: &str)
        ensures
            path@ == self@.voices_path,
    {
        self.voices_path.as_str()
    }

    /// The path of synthesis.
    pub fn tts_path(&self) -> (path: &str)
        ensures
            path@ == self@.tts_path,
    {
        self.tts_path.as_str()
    }

    /// How long to wait for a connection, in milliseconds.
    pub fn connect_timeout_ms(&self) -> (ms: u64)
        ensures
            ms == self@.connect_timeout_ms,
    {
        self.connect_timeout_ms
    }

    /// How long to wait for a whole answer, in milliseconds.
    pub fn request_timeout_ms(&self) -> (ms: u64)
        ensures
            ms == self@.request_timeout_ms,
    {
        self.request_timeout_ms
    }

    /// How many calls may run at once: at least one, and no more than a
    /// semaphore has permits.
    pub fn max_concurrency(&self) -> (n: usize)
        ensures
            n == self@.max_concurrency,
            1 <= n <= MAX_PERMITS,
    {
        proof {
            use_type_invariant(self);
        }
        self.max_concurrency
    }

    /// The daemon's address with `path` in place of its own path.
    pub fn endpoint_url(&self, path: &str) -> (url: Url)
        requires
            fits_path(self@.daemon_url, path@),
        ensures
            url == url_with_path(self@.daemon_url, path@),
    {
        replace_path(&self.daemon_url, path)
    }

    /// The daemon's address with `path` in place of its own path, where the
    /// two are short enough for that, and `None` where they are not.
    pub fn checked_endpoint_url(&self, path: &str) -> (url: Option<Url>)
        ensures
            url == if fits_path(self@.daemon_url, path@) {
                Some(url_with_path(self@.daemon_url, path@))
            } else {
                None
            },
    {
        let address = url_as_str(&self.daemon_url);
        if address.as_bytes().len() <= MAX_URL_LEN && path.as_bytes().len() <= MAX_PATH_LEN {
            Some(self.endpoint_url(path))
        } else {
            None
        }
    }
}

/// Settings that ask for no concurrent call, or for a negative number of
/// them, are refused; where the settings before it are in order, for that
/// very reason.
pub proof fn lemma_no_concurrency_is_refused(env: EnvironmentView)
    requires
        env.max_concurrency matches Some(text) && (parsed_u64(text) == Some(0u64) || (text.len()
            > 0 && text[0] == '-')),
    ensures
        resolved(env) is Err,
        parsed_url(daemon_address(env)) is Ok && setting_value(env.connect_timeout_ms, 500)
            is Some && setting_value(env.request_timeout_ms, 10_000) is Some ==> resolved(env)
            == Err::<StateView, ConfigErrorView>(
            if parsed_u64(env.max_concurrency->Some_0) == Some(0u64) {
                ConfigErrorView::ZeroConcurrency
            } else {
                ConfigErrorView::InvalidNumber(Setting::MaxConcurrency)
            },
        ),
{
    let text = env.max_concurrency->Some_0;
    if text.len() > 0 && text[0] == '-' {
        let body = crate::number::unsigned_body(text);
        assert(body == text);
        assert(!crate::number::is_digit(body[0]));
        assert(parsed_u64(text) is None);
    }
}

/// Settings that are accepted admit at least one call, and no more calls
/// than a semaphore has permits.
pub proof fn lemma_accepted_settings_admit_a_call(env: EnvironmentView)
    ensures
        resolved(env) matches Ok(state) ==> 1 <= state.max_concurrency <= MAX_PERMITS,
{
}

/// Settings that ask for more concurrent calls than a semaphore has permits
/// are refused; where the settings before it are in order, for that very
/// reason.
pub proof fn lemma_too_much_concurrency_is_refused(env: EnvironmentView)
    requires
        env.max_concurrency matches Some(text) && (parsed_u64(text) matches Some(n) && n
            > MAX_PERMITS),
    ensures
        resolved(env) is Err,
        parsed_url(daemon_address(env)) is Ok && setting_value(env.connect_timeout_ms, 500)
            is Some && setting_value(env.request_timeout_ms, 10_000) is Some ==> resolved(env)
            == Err::<StateView, ConfigErrorView>(ConfigErrorView::ConcurrencyOutOfRange),
{
}

} // verus!
