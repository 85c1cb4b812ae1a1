//! The plugin's lifecycle as a state machine, and the diagnostic notes that
//! each host callback produces.
//!
//! A plugin starts `Active` and becomes `ShutDown` once, for good, when the
//! host unloads it. Every callback first looks at the state: after unload it
//! returns at once and leaves no trace.
use vstd::prelude::*;
use vstd::string::StringExecFns;
use crate::config::LiquidRouteConfig;
use crate::text::{decimal, decimal_string};

verus! {

/// Whether the plugin still does work.
#[derive(Debug, Clone, Copy, PartialEq, Eq, Structural)]
pub enum LifecycleState {
    Active,
    ShutDown,
}

/// The status of a slot, as the host reports it.
#[derive(Debug, Clone)]
pub enum SlotStatusKind {
    Processed,
    Rooted,
    Confirmed,
    FirstShredReceived,
    Completed,
    CreatedBank,
    /// The slot is dead, for the given reason.
    Dead(String),
}

/// A notification from the host, with the parts of its payload that the
/// plugin reads.
#[derive(Debug, Clone)]
pub enum HostEvent {
    /// The plugin was (re)loaded from a configuration file.
    Load { config_file: String, is_reload: bool },
    AccountUpdate { slot: u64, is_startup: bool },
    SlotStatusUpdate { slot: u64, parent: Option<u64>, status: SlotStatusKind },
    BlockMetadata,
    Transaction { slot: u64 },
    Entry,
    EndOfStartup,
}

/// The text of a boolean.
pub open spec fn bool_text(b: bool) -> Seq<char> {
    if b {
        "true"@
    } else {
        "false"@
    }
}

/// The text of an optional slot number.
pub open spec fn parent_text(p: Option<u64>) -> Seq<char> {
    match p {
        Some(n) => "Some("@ + decimal(n as nat) + ")"@,
        None => "None"@,
    }
}

/// What `{:?}` writes for a string: the text quoted, with escapes.
pub uninterp spec fn debug_text_of(s: Seq<char>) -> Seq<char>;

/// Relies on the `Debug` impl of `str` (through `format!("{:?}", ..)`): the
/// quoted, escaped form of the text, a function of the text alone.
#[verifier::external_body]
fn debug_text(s: &str) -> (r: String)
    ensures
        r@ == debug_text_of(s@),
{
    format!("{:?}", s)
}

/// A slot status as its `Debug` form writes it; a dead slot shows its
/// quoted reason.
pub open spec fn status_text(s: SlotStatusKind) -> Seq<char> {
    match s {
        SlotStatusKind::Processed => "Processed"@,
        SlotStatusKind::Rooted => "Rooted"@,
        SlotStatusKind::Confirmed => "Confirmed"@,
        SlotStatusKind::FirstShredReceived => "FirstShredReceived"@,
        SlotStatusKind::Completed => "Completed"@,
        SlotStatusKind::CreatedBank => "CreatedBank"@,
        SlotStatusKind::Dead(reason) => "Dead("@ + debug_text_of(reason@) + ")"@,
    }
}

/// The note that says what a slot status means for `slot`.
pub open spec fn status_note(slot: u64, s: SlotStatusKind) -> Seq<char> {
    let n = decimal(slot as nat);
    match s {
        SlotStatusKind::Processed => "Processed slot: "@ + n,
        SlotStatusKind::Rooted => "Rooted slot: "@ + n,
        SlotStatusKind::Confirmed => "Confirmed slot: "@ + n,
        SlotStatusKind::FirstShredReceived => "First shred received for slot: "@ + n,
        SlotStatusKind::Completed => "Completed slot: "@ + n,
        SlotStatusKind::CreatedBank => "Created bank for slot: "@ + n,
        SlotStatusKind::Dead(reason) => "Dead slot: "@ + n + ", reason: "@ + reason@,
    }
}

/// The note that announces token-account processing.
pub open spec fn token_note() -> Seq<char> {
    "Processing token account update (placeholder)"@
}

/// The notes an active plugin writes for an event.
pub open spec fn event_notes(config: LiquidRouteConfig, ev: HostEvent) -> Seq<Seq<char>> {
    match ev {
        HostEvent::Load { config_file, is_reload } => seq![
            "Loading LiquidRoute plugin from config: "@ + config_file@ + ", reload: "@ + bool_text(
                is_reload,
            ),
        ],
        HostEvent::AccountUpdate { slot, is_startup } => {
            let first = "Account update received for slot: "@ + decimal(slot as nat)
                + ", startup: "@ + bool_text(is_startup);
            if config.track_token_accounts {
                seq![first, token_note()]
            } else {
                seq![first]
            }
        },
        HostEvent::SlotStatusUpdate { slot, parent, status } => seq![
            "Slot status update: slot="@ + decimal(slot as nat) + ", parent="@ + parent_text(parent)
                + ", status="@ + status_text(status),
            status_note(slot, status),
        ],
        HostEvent::BlockMetadata => seq!["Block metadata notification received"@],
        HostEvent::Transaction { slot } => seq![
            "Transaction notification for slot: "@ + decimal(slot as nat),
        ],
        HostEvent::Entry => seq!["Entry notification received"@],
        HostEvent::EndOfStartup => seq!["End of startup notification received"@],
    }
}

/// The notes a plugin in `state` writes for an event: none after unload.
pub open spec fn callback_notes_spec(
    state: LifecycleState,
    config: LiquidRouteConfig,
    ev: HostEvent,
) -> Seq<Seq<char>> {
    match state {
        LifecycleState::Active => event_notes(config, ev),
        LifecycleState::ShutDown => Seq::empty(),
    }
}

/// The views of a vector of strings.
pub open spec fn notes_view(v: Vec<String>) -> Seq<Seq<char>> {
    v@.map_values(|s: String| s@)
}

fn bool_str(b: bool) -> (r: &'static str)
    ensures
        r@ == bool_text(b),
{
    if b {
        "true"
    } else {
        "false"
    }
}

fn parent_string(p: Option<u64>) -> (r: String)
    ensures
        r@ == parent_text(p),
{
    match p {
        Some(n) => String::from_str("Some(").concat(decimal_string(n).as_str()).concat(")"),
        None => String::from_str("None"),
    }
}

/// Renders a slot status as its `Debug` form does.
pub fn status_debug_string(s: &SlotStatusKind) -> (r: String)
    ensures
        r@ == status_text(*s),
{
    match s {
        SlotStatusKind::Processed => String::from_str("Processed"),
        SlotStatusKind::Rooted => String::from_str("Rooted"),
        SlotStatusKind::Confirmed => String::from_str("Confirmed"),
        SlotStatusKind::FirstShredReceived => String::from_str("FirstShredReceived"),
        SlotStatusKind::Completed => String::from_str("Completed"),
        SlotStatusKind::CreatedBank => String::from_str("CreatedBank"),
        SlotStatusKind::Dead(reason) => String::from_str("Dead(").concat(
            debug_text(reason.as_str()).as_str(),
        ).concat(")"),
    }
}

fn status_note_string(slot: u64, s: &SlotStatusKind) -> (r: String)
    ensures
        r@ == status_note(slot, *s),
{
    let n = decimal_string(slot);
    match s {
        SlotStatusKind::Processed => String::from_str("Processed slot: ").concat(n.as_str()),
        SlotStatusKind::Rooted => String::from_str("Rooted slot: ").concat(n.as_str()),
        SlotStatusKind::Confirmed => String::from_str("Confirmed slot: ").concat(n.as_str()),
        SlotStatusKind::FirstShredReceived => String::from_str(
            "First shred received for slot: ",
        ).concat(n.as_str()),
        SlotStatusKind::Completed => String::from_str("Completed slot: ").concat(n.as_str()),
        SlotStatusKind::CreatedBank => String::from_str("Created bank for slot: ").concat(
            n.as_str(),
        ),
        SlotStatusKind::Dead(reason) => String::from_str("Dead slot: ").concat(n.as_str()).concat(
            ", reason: ",
        ).concat(reason.as_str()),
    }
}

/// The notes an active plugin writes for an event.
pub fn event_notes_of(config: &LiquidRouteConfig, ev: &HostEvent) -> (r: Vec<String>)
    ensures
        notes_view(r) == event_notes(*config, *ev),
{
    let mut v: Vec<String> = Vec::new();
    match ev {
        HostEvent::Load { config_file, is_reload } => {
            v.push(
                String::from_str("Loading LiquidRoute plugin from config: ").concat(
                    config_file.as_str(),
                ).concat(", reload: ").concat(bool_str(*is_reload)),
            );
        },
        HostEvent::AccountUpdate { slot, is_startup } => {
            v.push(
                String::from_str("Account update received for slot: ").concat(
                    decimal_string(*slot).as_str(),
                ).concat(", startup: ").concat(bool_str(*is_startup)),
            );
            if config.track_token_accounts {
                v.push(String::from_str("Processing token account update (placeholder)"));
            }
        },
        HostEvent::SlotStatusUpdate { slot, parent, status } => {
            v.push(
                String::from_str("Slot status update: slot=").concat(
                    decimal_string(*slot).as_str(),
                ).concat(", parent=").concat(parent_string(*parent).as_str()).concat(
                    ", status=",
                ).concat(status_debug_string(status).as_str()),
            );
            v.push(status_note_string(*slot, status));
        },
        HostEvent::BlockMetadata => {
            v.push(String::from_str("Block metadata notification received"));
        },
        HostEvent::Transaction { slot } => {
            v.push(
                String::from_str("Transaction notification for slot: ").concat(
                    decimal_string(*slot).as_str(),
                ),
            );
        },
        HostEvent::Entry => {
            v.push(String::from_str("Entry notification received"));
        },
        HostEvent::EndOfStartup => {
            v.push(String::from_str("End of startup notification received"));
        },
    }
    proof {
        assert(notes_view(v) =~= event_notes(*config, *ev));
    }
    v
}

/// Every callback passes here first: a shut-down plugin does nothing.
pub fn callback_notes(state: LifecycleState, config: &LiquidRouteConfig, ev: &HostEvent) -> (r: Vec<
    String,
>)
    ensures
        notes_view(r) == callback_notes_spec(state, *config, *ev),
{
    match state {
        LifecycleState::ShutDown => {
            let v: Vec<String> = Vec::new();
            proof {
                assert(notes_view(v) =~= Seq::<Seq<char>>::empty());
            }
            v
        },
        LifecycleState::Active => event_notes_of(config, ev),
    }
}

/// What the host asks of the plugin: a callback, or to unload.
pub enum LifecycleCommand {
    Callback(HostEvent),
    Unload,
}

/// The note an active plugin writes when it is unloaded.
pub open spec fn unload_note() -> Seq<char> {
    "Unloading LiquidRoute plugin"@
}

/// The notes of an unload request: none when already shut down.
pub open spec fn unload_notes_spec(state: LifecycleState) -> Seq<Seq<char>> {
    match state {
        LifecycleState::Active => seq![unload_note()],
        LifecycleState::ShutDown => Seq::empty(),
    }
}

/// The state after a command: unload shuts down, nothing else changes it.
pub open spec fn state_after(state: LifecycleState, cmd: LifecycleCommand) -> LifecycleState {
    match cmd {
        LifecycleCommand::Unload => LifecycleState::ShutDown,
        LifecycleCommand::Callback(_) => state,
    }
}

/// The notes of one command in `state`.
pub open spec fn command_notes(
    state: LifecycleState,
    config: LiquidRouteConfig,
    cmd: LifecycleCommand,
) -> Seq<Seq<char>> {
    match cmd {
        LifecycleCommand::Unload => unload_notes_spec(state),
        LifecycleCommand::Callback(ev) => callback_notes_spec(state, config, ev),
    }
}

/// The notes of each command of a run, in order, starting in `state`.
pub open spec fn run_notes(
    state: LifecycleState,
    config: LiquidRouteConfig,
    cmds: Seq<LifecycleCommand>,
) -> Seq<Seq<Seq<char>>>
    decreases cmds.len(),
{
    if cmds.len() == 0 {
        Seq::empty()
    } else {
        seq![command_notes(state, config, cmds[0])] + run_notes(
            state_after(state, cmds[0]),
            config,
            cmds.drop_first(),
        )
    }
}

/// The state at the end of a run.
pub open spec fn run_state(state: LifecycleState, cmds: Seq<LifecycleCommand>) -> LifecycleState
    decreases cmds.len(),
{
    if cmds.len() == 0 {
        state
    } else {
        run_state(state_after(state, cmds[0]), cmds.drop_first())
    }
}

/// In the lifecycle model (`state_after`, `run_notes`): from `ShutDown` the
/// state stays `ShutDown` and no command of a run yields a note.
pub proof fn lemma_shut_down_is_final(config: LiquidRouteConfig, cmds: Seq<LifecycleCommand>)
    ensures
        run_state(LifecycleState::ShutDown, cmds) == LifecycleState::ShutDown,
        run_notes(LifecycleState::ShutDown, config, cmds).len() == cmds.len(),
        forall|j: int|
            0 <= j < cmds.len() ==> (#[trigger] run_notes(LifecycleState::ShutDown, config, cmds)[j]).len()
                == 0,
    decreases cmds.len(),
{
    if cmds.len() > 0 {
        let rest = cmds.drop_first();
        lemma_shut_down_is_final(config, rest);
        assert forall|j: int| 0 <= j < cmds.len() implies (#[trigger] run_notes(
            LifecycleState::ShutDown,
            config,
            cmds,
        )[j]).len() == 0 by {
            if j > 0 {
                assert(run_notes(LifecycleState::ShutDown, config, cmds)[j] == run_notes(
                    LifecycleState::ShutDown,
                    config,
                    rest,
                )[j - 1]);
            }
        }
    }
}

/// In the lifecycle model (`state_after`, `run_notes`): after an `Unload`
/// command, every later command of the run yields no note, and the run ends
/// in `ShutDown`.
pub proof fn lemma_no_work_after_unload(
    state: LifecycleState,
    config: LiquidRouteConfig,
    cmds: Seq<LifecycleCommand>,
    i: int,
)
    requires
        0 <= i < cmds.len(),
        cmds[i] is Unload,
    ensures
        run_notes(state, config, cmds).len() == cmds.len(),
        forall|j: int|
            i < j < cmds.len() ==> (#[trigger] run_notes(state, config, cmds)[j]).len() == 0,
        run_state(state, cmds) == LifecycleState::ShutDown,
    decreases cmds.len(),
{
    let rest = cmds.drop_first();
    let s2 = state_after(state, cmds[0]);
    lemma_run_notes_len(state, config, cmds);
    if i == 0 {
        lemma_shut_down_is_final(config, rest);
    } else {
        assert(rest[i - 1] == cmds[i]);
        lemma_no_work_after_unload(s2, config, rest, i - 1);
    }
    assert forall|j: int| i < j < cmds.len() implies (#[trigger] run_notes(
        state,
        config,
        cmds,
    )[j]).len() == 0 by {
        assert(run_notes(state, config, cmds)[j] == run_notes(s2, config, rest)[j - 1]);
    }
}

/// One entry of notes per command.
pub proof fn lemma_run_notes_len(
    state: LifecycleState,
    config: LiquidRouteConfig,
    cmds: Seq<LifecycleCommand>,
)
    ensures
        run_notes(state, config, cmds).len() == cmds.len(),
    decreases cmds.len(),
{
    if cmds.len() > 0 {
        lemma_run_notes_len(state_after(state, cmds[0]), config, cmds.drop_first());
    }
}

/// The notes of an unload request in `state`.
pub fn unload_notes(state: LifecycleState) -> (r: Vec<String>)
    ensures
        notes_view(r) == unload_notes_spec(state),
{
    let mut v: Vec<String> = Vec::new();
    if state == LifecycleState::Active {
        v.push(String::from_str("Unloading LiquidRoute plugin"));
    }
    proof {
        assert(notes_view(v) =~= unload_notes_spec(state));
    }
    v
}

} // verus!
