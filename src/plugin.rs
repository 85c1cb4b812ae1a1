//! The plugin handle that the host drives: the live plugin, the inert
//! fallback put in its place when start-up fails, and the choice between them.
use vstd::prelude::*;
use vstd::string::StringExecFns;
use std::sync::atomic::{AtomicBool, AtomicU64, Ordering};
use std::sync::Arc;
use crate::config::{Config, ConfigError, LiquidRouteConfig};
use crate::lifecycle::{
    callback_notes, callback_notes_spec, event_notes, notes_view, unload_notes,
    unload_notes_spec, HostEvent, LifecycleState,
};
use crate::text::{padded_decimal, two_digit_string};

verus! {

/// tokio's `Runtime`, carried opaque: the live plugin keeps one for
/// asynchronous work and never looks inside.
#[verifier::external_type_specification]
#[verifier::external_body]
pub struct ExRuntime(tokio::runtime::Runtime);

/// std's `io::Error`, carried opaque until it is turned into text.
#[verifier::external_type_specification]
#[verifier::external_body]
pub struct ExIoError(std::io::Error);

/// The name of the `id`-th worker thread of the plugin's runtime.
pub open spec fn thread_name_spec(id: u64) -> Seq<char> {
    "liquidRouteGeyser"@ + padded_decimal(id as nat, 2)
}

/// Names the `id`-th worker thread: the prefix, then `id` with two digits at least.
pub fn thread_name(id: u64) -> (r: String)
    ensures
        r@ == thread_name_spec(id),
{
    String::from_str("liquidRouteGeyser").concat(two_digit_string(id).as_str())
}

/// Names the next worker thread, numbering the threads from `counter`.
pub fn get_thread_name(counter: &AtomicU64) -> (r: String)
    ensures
        exists|id: u64| r@ == thread_name_spec(id),
{
    let id = counter.fetch_add(1, Ordering::Relaxed);
    thread_name(id)
}

/// Relies on tokio's `Builder::new_current_thread().enable_all()
/// .thread_name_fn(..).build()`: a single-threaded runtime, or the I/O error
/// that kept it from being built. Threads it spawns are named by
/// `get_thread_name`, numbered from the process-wide `thread_ids`.
#[verifier::external_body]
fn build_runtime(thread_ids: &'static AtomicU64) -> (r: Result<
    tokio::runtime::Runtime,
    std::io::Error,
>) {
    tokio::runtime::Builder::new_current_thread().enable_all().thread_name_fn(
        move || get_thread_name(thread_ids),
    ).build()
}

/// Why the plugin could not be started or set up.
#[derive(Debug, Clone)]
pub enum PluginError {
    /// The execution context could not be created.
    RuntimeCreation(String),
    /// The host's logger could not be installed.
    LoggerSetup(String),
}

/// The words that open a runtime-creation error.
pub open spec fn runtime_error_prefix() -> Seq<char> {
    "Failed to create tokio runtime: "@
}

/// The state shared by every handle of one live plugin.
#[derive(Debug)]
pub struct PluginInner {
    /// Reserved for asynchronous work; no handler uses it yet.
    #[allow(dead_code)]
    runtime: tokio::runtime::Runtime,
    /// Set once, on unload; read before every callback.
    is_shutdown: AtomicBool,
    config: LiquidRouteConfig,
}

/// The live plugin.
#[derive(Debug)]
pub struct LiquidRoutePlugin {
    inner: Arc<PluginInner>,
}

impl LiquidRoutePlugin {
    /// The settings the plugin was built with.
    pub closed spec fn config_spec(&self) -> LiquidRouteConfig {
        self.inner.config
    }

    /// Builds a live plugin on a validated configuration; its runtime's
    /// threads are numbered from `thread_ids`. Fails only when the execution
    /// context cannot be created.
    pub fn new(config: Config, thread_ids: &'static AtomicU64) -> (r: Result<
        LiquidRoutePlugin,
        PluginError,
    >)
        ensures
            r matches Ok(p) ==> p.config_spec() == config.liquidroute,
            r matches Err(e) ==> e matches PluginError::RuntimeCreation(m)
                && runtime_error_prefix().is_prefix_of(m@),
    {
        match build_runtime(thread_ids) {
            Ok(runtime) => {
                let inner = PluginInner {
                    runtime,
                    is_shutdown: AtomicBool::new(false),
                    config: config.liquidroute,
                };
                Ok(LiquidRoutePlugin { inner: Arc::new(inner) })
            },
            Err(e) => {
                let detail = e.to_string();
                let m = String::from_str("Failed to create tokio runtime: ").concat(
                    detail.as_str(),
                );
                proof {
                    assert(m@.subrange(0, runtime_error_prefix().len() as int)
                        =~= runtime_error_prefix());
                }
                Err(PluginError::RuntimeCreation(m))
            },
        }
    }

    /// The settings the plugin was built with.
    pub fn config(&self) -> (r: &LiquidRouteConfig)
        ensures
            *r == self.config_spec(),
    {
        &self.inner.config
    }

    /// The name the host knows the plugin by.
    pub fn name(&self) -> (r: &'static str)
        ensures
            r@ == "LiquidRoutePlugin"@,
    {
        "LiquidRoutePlugin"
    }

    /// Where the plugin stands, as the shutdown flag says now.
    pub fn state(&self) -> LifecycleState {
        if self.inner.is_shutdown.load(Ordering::SeqCst) {
            LifecycleState::ShutDown
        } else {
            LifecycleState::Active
        }
    }

    /// Runs a host callback behind the shutdown check and returns the notes
    /// it writes: those of an active plugin, or none once unloaded.
    pub fn handle(&self, ev: &HostEvent) -> (r: Vec<String>)
        ensures
            notes_view(r) == callback_notes_spec(LifecycleState::Active, self.config_spec(), *ev)
                || notes_view(r) == callback_notes_spec(
                LifecycleState::ShutDown,
                self.config_spec(),
                *ev,
            ),
    {
        let state = self.state();
        callback_notes(state, &self.inner.config, ev)
    }

    /// Shuts the plugin down, for good. Only the call that makes the
    /// transition writes a note.
    pub fn on_unload(&self) -> (r: Vec<String>)
        ensures
            notes_view(r) == unload_notes_spec(LifecycleState::Active) || notes_view(r)
                == unload_notes_spec(LifecycleState::ShutDown),
    {
        let was_shut = self.inner.is_shutdown.swap(true, Ordering::SeqCst);
        let before = if was_shut {
            LifecycleState::ShutDown
        } else {
            LifecycleState::Active
        };
        unload_notes(before)
    }

    /// Account updates are wanted.
    pub fn account_data_notifications_enabled(&self) -> (r: bool)
        ensures
            r,
    {
        true
    }

    /// Transactions are wanted.
    pub fn transaction_notifications_enabled(&self) -> (r: bool)
        ensures
            r,
    {
        true
    }

    /// Entries are not wanted.
    pub fn entry_notifications_enabled(&self) -> (r: bool)
        ensures
            !r,
    {
        false
    }
}

/// The inert plugin handed to the host when start-up fails: it accepts every
/// callback, does nothing, and wants no notifications.
#[derive(Debug, Clone, Copy)]
pub struct FallbackPlugin;

/// The note the fallback writes when loaded.
pub open spec fn fallback_load_note() -> Seq<char> {
    "Dummy plugin loaded - this indicates a configuration error"@
}

/// The notes of the fallback for a callback: only a load leaves one.
pub open spec fn fallback_notes_spec(ev: HostEvent) -> Seq<Seq<char>> {
    match ev {
        HostEvent::Load { .. } => seq![fallback_load_note()],
        _ => Seq::empty(),
    }
}

impl FallbackPlugin {
    /// The name the host knows the fallback by.
    pub fn name(&self) -> (r: &'static str)
        ensures
            r@ == "DummyPlugin"@,
    {
        "DummyPlugin"
    }

    /// Accepts a callback and does nothing but note a load.
    pub fn handle(&self, ev: &HostEvent) -> (r: Vec<String>)
        ensures
            notes_view(r) == fallback_notes_spec(*ev),
    {
        let mut v: Vec<String> = Vec::new();
        match ev {
            HostEvent::Load { .. } => {
                v.push(
                    String::from_str("Dummy plugin loaded - this indicates a configuration error"),
                );
            },
            _ => {},
        }
        proof {
            assert(notes_view(v) =~= fallback_notes_spec(*ev));
        }
        v
    }

    /// Notes the unload.
    pub fn on_unload(&self) -> (r: Vec<String>)
        ensures
            notes_view(r) == seq!["Unloading dummy plugin"@],
    {
        let mut v: Vec<String> = Vec::new();
        v.push(String::from_str("Unloading dummy plugin"));
        proof {
            assert(notes_view(v) =~= seq!["Unloading dummy plugin"@]);
        }
        v
    }

    /// No account updates are wanted.
    pub fn account_data_notifications_enabled(&self) -> (r: bool)
        ensures
            !r,
    {
        false
    }

    /// No transactions are wanted.
    pub fn transaction_notifications_enabled(&self) -> (r: bool)
        ensures
            !r,
    {
        false
    }

    /// No entries are wanted.
    pub fn entry_notifications_enabled(&self) -> (r: bool)
        ensures
            !r,
    {
        false
    }
}

/// How a call into instrumentation that may panic ended, as seen from
/// behind the catch boundary around it.
#[derive(Debug, Clone, Copy, PartialEq, Eq, Structural)]
pub enum InstrumentOutcome {
    Completed,
    Panicked,
}

/// How the attempt to install the host's logger ended.
#[derive(Debug, Clone)]
pub enum LoggerRegistration {
    /// The logger is installed.
    Installed,
    /// A logger was already installed; holds the reason given.
    Refused(String),
    /// The attempt panicked; the panic was caught.
    Panicked,
}

/// The words that open a logger-setup error.
pub open spec fn logger_error_prefix() -> Seq<char> {
    "Failed to set logger: "@
}

/// Whether logger setup reports success for a registration outcome.
pub open spec fn spec_setup_logger_ok(reg: LoggerRegistration) -> bool {
    !(reg is Refused)
}

/// What the host is told about logger setup: a refusal is an error; a panic
/// is contained and setup counts as done, the diagnostic log remaining.
pub fn setup_logger_result(reg: &LoggerRegistration) -> (r: Result<(), PluginError>)
    ensures
        r is Ok <==> spec_setup_logger_ok(*reg),
        reg matches LoggerRegistration::Refused(m) ==> r matches Err(PluginError::LoggerSetup(e))
            && e@ == logger_error_prefix() + m@,
{
    match reg {
        LoggerRegistration::Refused(m) => Err(
            PluginError::LoggerSetup(String::from_str("Failed to set logger: ").concat(m.as_str())),
        ),
        _ => Ok(()),
    }
}

/// The note written when a logger registration panicked.
pub open spec fn logger_panic_note() -> Seq<char> {
    "Logger setup caused a panic, continuing with debug file logging only"@
}

/// The notes of a logger registration.
pub open spec fn setup_logger_notes_spec(reg: LoggerRegistration) -> Seq<Seq<char>> {
    match reg {
        LoggerRegistration::Installed => Seq::empty(),
        LoggerRegistration::Refused(m) => seq![logger_error_prefix() + m@],
        LoggerRegistration::Panicked => seq![logger_panic_note()],
    }
}

/// The notes written about a logger registration.
pub fn setup_logger_notes(reg: &LoggerRegistration) -> (r: Vec<String>)
    ensures
        notes_view(r) == setup_logger_notes_spec(*reg),
{
    let mut v: Vec<String> = Vec::new();
    match reg {
        LoggerRegistration::Installed => {},
        LoggerRegistration::Refused(m) => {
            v.push(String::from_str("Failed to set logger: ").concat(m.as_str()));
        },
        LoggerRegistration::Panicked => {
            v.push(
                String::from_str(
                    "Logger setup caused a panic, continuing with debug file logging only",
                ),
            );
        },
    }
    proof {
        assert(notes_view(v) =~= setup_logger_notes_spec(*reg));
    }
    v
}

/// The note written when start-up logging panicked.
pub open spec fn logging_panic_note() -> Seq<char> {
    "Logging initialization caused a panic, continuing without standard logging"@
}

/// The notes about start-up logging during construction.
pub open spec fn construction_notes_spec(logging: InstrumentOutcome) -> Seq<Seq<char>> {
    match logging {
        InstrumentOutcome::Completed => Seq::empty(),
        InstrumentOutcome::Panicked => seq![logging_panic_note()],
    }
}

/// The notes written about start-up logging during construction; a panic
/// there is noted and construction goes on.
pub fn construction_notes(logging: InstrumentOutcome) -> (r: Vec<String>)
    ensures
        notes_view(r) == construction_notes_spec(logging),
{
    let mut v: Vec<String> = Vec::new();
    if logging == InstrumentOutcome::Panicked {
        v.push(
            String::from_str(
                "Logging initialization caused a panic, continuing without standard logging",
            ),
        );
    }
    proof {
        assert(notes_view(v) =~= construction_notes_spec(logging));
    }
    v
}

/// Over the spec functions of logger setup and of the lifecycle model: a
/// panicked registration counts as success and yields the panic note, and,
/// registration not being a lifecycle command, an `Active` state keeps the
/// notes it always yields.
pub proof fn lemma_logger_panic_contained(config: LiquidRouteConfig, ev: HostEvent)
    ensures
        spec_setup_logger_ok(LoggerRegistration::Panicked),
        setup_logger_notes_spec(LoggerRegistration::Panicked) == seq![logger_panic_note()],
        callback_notes_spec(LifecycleState::Active, config, ev) == event_notes(config, ev),
{
}

/// The handle given to the host: the live plugin, or the fallback.
#[derive(Debug)]
pub enum PluginHandle {
    Live(LiquidRoutePlugin),
    Fallback(FallbackPlugin),
}

/// The words that open the note of a failed resolution.
pub open spec fn no_config_prefix() -> Seq<char> {
    "Failed to read config from any location. Last error: "@
}

/// The words that open the note of a failed construction.
pub open spec fn no_plugin_prefix() -> Seq<char> {
    "Failed to create plugin: "@
}

/// The text of a plugin error.
pub open spec fn plugin_error_text(e: PluginError) -> Seq<char> {
    match e {
        PluginError::RuntimeCreation(m) => m@,
        PluginError::LoggerSetup(m) => m@,
    }
}

impl PluginError {
    /// A one-line human-readable description.
    pub fn message(&self) -> (r: String)
        ensures
            r@ == plugin_error_text(*self),
    {
        match self {
            PluginError::RuntimeCreation(m) => m.clone(),
            PluginError::LoggerSetup(m) => m.clone(),
        }
    }
}

/// The notes of a successful construction.
pub open spec fn live_notes() -> Seq<Seq<char>> {
    seq!["Successfully created tokio runtime"@, "LiquidRoute plugin initialization complete"@]
}

/// Turns the outcome of configuration resolution into the handle for the
/// host; a live plugin's runtime threads are numbered from `thread_ids`. A
/// resolution error, or a failure to build the live plugin, yields the
/// fallback, with notes saying why; a handle is always returned.
pub fn create_plugin(resolved: Result<Config, ConfigError>, thread_ids: &'static AtomicU64) -> (r: (
    PluginHandle,
    Vec<String>,
))
    ensures
        resolved is Err ==> r.0 is Fallback,
        resolved matches Err(e) ==> notes_view(r.1) == seq![
            no_config_prefix() + (crate::config::error_prefix(e) + crate::config::error_detail(e)),
        ],
        r.0 matches PluginHandle::Live(p) ==> resolved matches Ok(c) && p.config_spec()
            == c.liquidroute && notes_view(r.1) == live_notes(),
        resolved is Ok && r.0 is Fallback ==> r.1@.len() == 2 && runtime_error_prefix().is_prefix_of(
            r.1@[0]@,
        ) && r.1@[1]@ == no_plugin_prefix() + r.1@[0]@ && (no_plugin_prefix()
            + runtime_error_prefix()).is_prefix_of(r.1@[1]@),
{
    match resolved {
        Err(e) => {
            let mut v: Vec<String> = Vec::new();
            v.push(
                String::from_str("Failed to read config from any location. Last error: ").concat(
                    e.message().as_str(),
                ),
            );
            proof {
                assert(notes_view(v) =~= seq![
                    no_config_prefix() + (crate::config::error_prefix(e)
                        + crate::config::error_detail(e)),
                ]);
            }
            (PluginHandle::Fallback(FallbackPlugin), v)
        },
        Ok(config) => match LiquidRoutePlugin::new(config, thread_ids) {
            Ok(p) => {
                let mut v: Vec<String> = Vec::new();
                v.push(String::from_str("Successfully created tokio runtime"));
                v.push(String::from_str("LiquidRoute plugin initialization complete"));
                proof {
                    assert(notes_view(v) =~= live_notes());
                }
                (PluginHandle::Live(p), v)
            },
            Err(err) => {
                let mut v: Vec<String> = Vec::new();
                let first = err.message();
                let note = String::from_str("Failed to create plugin: ").concat(first.as_str());
                proof {
                    let np = no_plugin_prefix();
                    let rp = runtime_error_prefix();
                    assert(rp.is_prefix_of(first@));
                    assert(note@.subrange(0, (np + rp).len() as int) =~= np + rp) by {
                        assert forall|i: int| 0 <= i < (np + rp).len() implies note@[i] == (np
                            + rp)[i] by {
                            if i >= np.len() {
                                assert(first@[i - np.len()] == rp[i - np.len()]);
                            }
                        }
                    }
                }
                v.push(first);
                v.push(note);
                (PluginHandle::Fallback(FallbackPlugin), v)
            },
        },
    }
}

impl PluginHandle {
    /// The name the host knows the handle by.
    pub fn name(&self) -> (r: &'static str)
        ensures
            self is Live ==> r@ == "LiquidRoutePlugin"@,
            self is Fallback ==> r@ == "DummyPlugin"@,
    {
        match self {
            PluginHandle::Live(p) => p.name(),
            PluginHandle::Fallback(f) => f.name(),
        }
    }

    /// Runs a host callback; the notes it returns are for the diagnostic log.
    pub fn handle(&self, ev: &HostEvent) -> (r: Vec<String>)
        ensures
            self matches PluginHandle::Fallback(_) ==> notes_view(r) == fallback_notes_spec(*ev),
            self matches PluginHandle::Live(p) ==> (notes_view(r) == callback_notes_spec(
                LifecycleState::Active,
                p.config_spec(),
                *ev,
            ) || notes_view(r) == callback_notes_spec(
                LifecycleState::ShutDown,
                p.config_spec(),
                *ev,
            )),
    {
        match self {
            PluginHandle::Live(p) => p.handle(ev),
            PluginHandle::Fallback(f) => f.handle(ev),
        }
    }

    /// Unloads the plugin behind the handle.
    pub fn on_unload(&self) -> (r: Vec<String>)
        ensures
            self is Fallback ==> notes_view(r) == seq!["Unloading dummy plugin"@],
            self is Live ==> (notes_view(r) == unload_notes_spec(LifecycleState::Active)
                || notes_view(r) == unload_notes_spec(LifecycleState::ShutDown)),
    {
        match self {
            PluginHandle::Live(p) => p.on_unload(),
            PluginHandle::Fallback(f) => f.on_unload(),
        }
    }

    /// Whether account updates are wanted.
    pub fn account_data_notifications_enabled(&self) -> (r: bool)
        ensures
            r <==> self is Live,
    {
        match self {
            PluginHandle::Live(p) => p.account_data_notifications_enabled(),
            PluginHandle::Fallback(f) => f.account_data_notifications_enabled(),
        }
    }

    /// Whether transactions are wanted.
    pub fn transaction_notifications_enabled(&self) -> (r: bool)
        ensures
            r <==> self is Live,
    {
        match self {
            PluginHandle::Live(p) => p.transaction_notifications_enabled(),
            PluginHandle::Fallback(f) => f.transaction_notifications_enabled(),
        }
    }

    /// Whether entries are wanted: never.
    pub fn entry_notifications_enabled(&self) -> (r: bool)
        ensures
            !r,
    {
        match self {
            PluginHandle::Live(p) => p.entry_notifications_enabled(),
            PluginHandle::Fallback(f) => f.entry_notifications_enabled(),
        }
    }
}

} // verus!
