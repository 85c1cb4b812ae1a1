//! The plugin's configuration and the rules that normalise it.
use vstd::prelude::*;
use vstd::string::StrSliceExecFns;
use vstd::string::StringExecFns;

verus! {

/// Smallest number of worker threads the plugin accepts.
pub const MIN_THREADS: usize = 1;

/// Largest number of worker threads the plugin accepts.
pub const MAX_THREADS: usize = 4;

/// Settings specific to the routing logic.
#[derive(Debug, Clone)]
pub struct LiquidRouteConfig {
    /// Whether token accounts are tracked.
    pub track_token_accounts: bool,
    /// Number of worker threads.
    pub thread_count: usize,
}

/// `n` brought into `[MIN_THREADS, MAX_THREADS]`.
pub open spec fn clamp_threads(n: usize) -> usize {
    if n < MIN_THREADS {
        MIN_THREADS
    } else if n > MAX_THREADS {
        MAX_THREADS
    } else {
        n
    }
}

/// Clamping lands in `[MIN_THREADS, MAX_THREADS]`, raises zero to one, caps
/// larger counts at four, and keeps a count already in range.
pub proof fn lemma_clamp_threads(n: usize)
    ensures
        MIN_THREADS <= clamp_threads(n) <= MAX_THREADS,
        n == 0 ==> clamp_threads(n) == 1,
        n > 4 ==> clamp_threads(n) == 4,
        1 <= n <= 4 ==> clamp_threads(n) == n,
        clamp_threads(clamp_threads(n)) == clamp_threads(n),
{
}

impl LiquidRouteConfig {
    /// Whether every value lies in its accepted range.
    pub open spec fn is_valid(&self) -> bool {
        MIN_THREADS <= self.thread_count <= MAX_THREADS
    }

    /// Clamps the values to their accepted ranges; nothing else changes.
    pub fn validate(&mut self)
        ensures
            final(self).thread_count == clamp_threads(old(self).thread_count),
            final(self).track_token_accounts == old(self).track_token_accounts,
            final(self).is_valid(),
    {
        if self.thread_count == 0 {
            self.thread_count = MIN_THREADS;
        } else if self.thread_count > MAX_THREADS {
            self.thread_count = MAX_THREADS;
        }
    }
}


/// Logging settings.
#[derive(Debug, Clone)]
pub struct LogConfig {
    /// Log level (info, debug, warn, error, ...).
    pub level: String,
    /// Optional log file path.
    pub file: Option<String>,
}

/// The whole plugin configuration.
#[derive(Debug, Clone)]
pub struct Config {
    /// Path to the plugin's shared library.
    pub libpath: String,
    /// Logging settings.
    pub log: LogConfig,
    /// Routing settings.
    pub liquidroute: LiquidRouteConfig,
}

/// The level used when the document names none.
pub open spec fn default_level_spec() -> Seq<char> {
    seq!['i', 'n', 'f', 'o']
}

/// Log level used when the document names none: `info`.
pub fn default_log_level() -> (r: String)
    ensures
        r@ == default_level_spec(),
{
    proof {
        reveal_strlit("info");
    }
    String::from_str("info")
}

/// Logging settings used when the document has no `log` section.
pub fn default_log_config() -> (r: LogConfig)
    ensures
        r.level@ == default_level_spec(),
        r.file is None,
{
    LogConfig { level: default_log_level(), file: None }
}

/// Token accounts are tracked unless the document says otherwise.
pub fn default_track_token_accounts() -> (r: bool)
    ensures
        r,
{
    true
}

/// One worker thread unless the document says otherwise.
pub fn default_thread_count() -> (r: usize)
    ensures
        r == 1,
{
    1
}

/// The `log` section as written in a document: absent keys stay `None`.
#[derive(Debug, Clone)]
pub struct RawLogConfig {
    pub level: Option<String>,
    pub file: Option<String>,
}

/// The routing section as written in a document: absent keys stay `None`.
#[derive(Debug, Clone)]
pub struct RawLiquidRouteConfig {
    pub track_token_accounts: Option<bool>,
    pub thread_count: Option<usize>,
}

/// A configuration document as decoded, before defaults and validation.
#[derive(Debug, Clone)]
pub struct RawConfig {
    pub libpath: String,
    pub log: Option<RawLogConfig>,
    pub liquidroute: Option<RawLiquidRouteConfig>,
}

/// The level that a decoded document yields.
pub open spec fn level_of(raw: RawConfig) -> Seq<char> {
    match raw.log {
        Some(l) => match l.level {
            Some(v) => v@,
            None => default_level_spec(),
        },
        None => default_level_spec(),
    }
}

/// The log file that a decoded document yields.
pub open spec fn log_file_of(raw: RawConfig) -> Option<Seq<char>> {
    match raw.log {
        Some(l) => match l.file {
            Some(f) => Some(f@),
            None => None,
        },
        None => None,
    }
}

/// Whether a decoded document tracks token accounts.
pub open spec fn track_of(raw: RawConfig) -> bool {
    match raw.liquidroute {
        Some(r) => match r.track_token_accounts {
            Some(b) => b,
            None => true,
        },
        None => true,
    }
}

/// The thread count that a decoded document asks for, before clamping.
pub open spec fn requested_threads(raw: RawConfig) -> usize {
    match raw.liquidroute {
        Some(r) => match r.thread_count {
            Some(n) => n,
            None => 1,
        },
        None => 1,
    }
}

/// The view of an optional string.
pub open spec fn opt_view(o: Option<String>) -> Option<Seq<char>> {
    match o {
        Some(s) => Some(s@),
        None => None,
    }
}

/// What a configuration holds, as plain values.
pub struct ConfigView {
    pub libpath: Seq<char>,
    pub level: Seq<char>,
    pub file: Option<Seq<char>>,
    pub track_token_accounts: bool,
    pub thread_count: usize,
}

impl View for Config {
    type V = ConfigView;

    open spec fn view(&self) -> ConfigView {
        ConfigView {
            libpath: self.libpath@,
            level: self.log.level@,
            file: opt_view(self.log.file),
            track_token_accounts: self.liquidroute.track_token_accounts,
            thread_count: self.liquidroute.thread_count,
        }
    }
}

/// The configuration that a decoded document describes: defaults filled in,
/// values clamped.
pub open spec fn decode(raw: RawConfig) -> ConfigView {
    ConfigView {
        libpath: raw.libpath@,
        level: level_of(raw),
        file: log_file_of(raw),
        track_token_accounts: track_of(raw),
        thread_count: clamp_threads(requested_threads(raw)),
    }
}

impl Config {
    /// Fills in the defaults of a decoded document and clamps its values.
    pub fn from_raw(raw: RawConfig) -> (r: Config)
        ensures
            r@ == decode(raw),
            r.liquidroute.is_valid(),
    {
        let ghost raw0 = raw;
        let log = match raw.log {
            Some(l) => LogConfig {
                level: match l.level {
                    Some(v) => v,
                    None => default_log_level(),
                },
                file: l.file,
            },
            None => default_log_config(),
        };
        let mut liquidroute = match raw.liquidroute {
            Some(lr) => LiquidRouteConfig {
                track_token_accounts: match lr.track_token_accounts {
                    Some(b) => b,
                    None => default_track_token_accounts(),
                },
                thread_count: match lr.thread_count {
                    Some(n) => n,
                    None => default_thread_count(),
                },
            },
            None => LiquidRouteConfig {
                track_token_accounts: default_track_token_accounts(),
                thread_count: default_thread_count(),
            },
        };
        liquidroute.validate();
        Config { libpath: raw.libpath, log, liquidroute }
    }
}

/// Why a configuration candidate could not be used.
#[derive(Debug, Clone)]
pub enum ConfigError {
    /// The file does not exist or cannot be opened.
    FileOpen(String),
    /// Reading the file failed part way.
    FileRead(String),
    /// Neither the strict nor the lenient parser accepted the text; holds the
    /// strict parser's diagnostic.
    Parse(String),
    /// The path is malformed; checked before any file access.
    InvalidPath(String),
}

/// An error as plain values.
pub enum ConfigErrorView {
    FileOpen(Seq<char>),
    FileRead(Seq<char>),
    Parse(Seq<char>),
    InvalidPath(Seq<char>),
}

impl View for ConfigError {
    type V = ConfigErrorView;

    open spec fn view(&self) -> ConfigErrorView {
        match self {
            ConfigError::FileOpen(m) => ConfigErrorView::FileOpen(m@),
            ConfigError::FileRead(m) => ConfigErrorView::FileRead(m@),
            ConfigError::Parse(m) => ConfigErrorView::Parse(m@),
            ConfigError::InvalidPath(m) => ConfigErrorView::InvalidPath(m@),
        }
    }
}

/// The words that open the message of each error.
pub open spec fn error_prefix(e: ConfigError) -> Seq<char> {
    match e {
        ConfigError::FileOpen(_) => "Failed to open config file: "@,
        ConfigError::FileRead(_) => "Failed to read config file: "@,
        ConfigError::Parse(_) => "Failed to parse config file: "@,
        ConfigError::InvalidPath(_) => "Invalid config file path: "@,
    }
}

/// The detail an error carries.
pub open spec fn error_detail(e: ConfigError) -> Seq<char> {
    match e {
        ConfigError::FileOpen(m) => m@,
        ConfigError::FileRead(m) => m@,
        ConfigError::Parse(m) => m@,
        ConfigError::InvalidPath(m) => m@,
    }
}

impl ConfigError {
    /// A copy of this error.
    pub fn duplicate(&self) -> (r: ConfigError)
        ensures
            r@ == self@,
    {
        match self {
            ConfigError::FileOpen(m) => ConfigError::FileOpen(m.clone()),
            ConfigError::FileRead(m) => ConfigError::FileRead(m.clone()),
            ConfigError::Parse(m) => ConfigError::Parse(m.clone()),
            ConfigError::InvalidPath(m) => ConfigError::InvalidPath(m.clone()),
        }
    }

    /// A one-line human-readable description.
    pub fn message(&self) -> (r: String)
        ensures
            r@ == error_prefix(*self) + error_detail(*self),
    {
        let (prefix, detail) = match self {
            ConfigError::FileOpen(m) => ("Failed to open config file: ", m),
            ConfigError::FileRead(m) => ("Failed to read config file: ", m),
            ConfigError::Parse(m) => ("Failed to parse config file: ", m),
            ConfigError::InvalidPath(m) => ("Invalid config file path: ", m),
        };
        String::from_str(prefix).concat(detail.as_str())
    }
}

/// A path is well formed when it is not empty and holds no NUL character.
pub open spec fn is_well_formed_path(p: Seq<char>) -> bool {
    &&& p.len() > 0
    &&& forall|i: int| 0 <= i < p.len() ==> p[i] != '\0'
}

/// Rejects a malformed path before any file access.
pub fn check_path(path: &str) -> (r: Result<(), ConfigError>)
    ensures
        r is Ok <==> is_well_formed_path(path@),
        r is Err ==> r->Err_0@ == ConfigErrorView::InvalidPath(path@),
{
    let n = path.unicode_len();
    let mut i: usize = 0;
    let mut ok = n > 0;
    while i < n
        invariant
            n == path@.len(),
            i <= n,
            ok <==> (n > 0 && forall|j: int| 0 <= j < i ==> path@[j] != '\0'),
        decreases n - i,
    {
        if path.get_char(i) == '\0' {
            ok = false;
        }
        i = i + 1;
    }
    if ok {
        Ok(())
    } else {
        Err(ConfigError::InvalidPath(String::from_str(path)))
    }
}

} // verus!
