//! Decisions of the process-wide diagnostic log.
//!
//! The log is best effort. A write is skipped once the log has disabled
//! itself, dropped when another writer holds the lock (a write never waits),
//! and otherwise appended; the first failed append disables the log for the
//! rest of the process. The caller owns the flag, the lock and the file; the
//! functions here say what to do with them.
use vstd::prelude::*;
use vstd::string::StringExecFns;
use crate::text::{decimal, decimal_string};

verus! {

/// The log file used when no override is given.
pub open spec fn default_log_path_spec() -> Seq<char> {
    "/tmp/liquidroute_debug.log"@
}

/// The log file path: the override when there is one, else the default.
pub fn resolve_log_path(env_override: Option<String>) -> (r: String)
    ensures
        r@ == (match env_override {
            Some(p) => p@,
            None => default_log_path_spec(),
        }),
{
    match env_override {
        Some(p) => p,
        None => String::from_str("/tmp/liquidroute_debug.log"),
    }
}

/// The marker written once when the log is set up.
pub fn startup_marker() -> (r: String)
    ensures
        r@ == "LiquidRoute plugin debug log initialized"@,
{
    String::from_str("LiquidRoute plugin debug log initialized")
}

/// One line of the log file: the time in milliseconds, then the message.
pub open spec fn entry_line(millis: nat, message: Seq<char>) -> Seq<char> {
    "["@ + decimal(millis) + " ms] "@ + message + "\n"@
}

/// Renders one entry of the log file.
pub fn format_entry(millis: u64, message: &str) -> (r: String)
    ensures
        r@ == entry_line(millis as nat, message@),
{
    let digits = decimal_string(millis);
    let r = String::from_str("[").concat(digits.as_str()).concat(" ms] ").concat(message).concat(
        "\n",
    );
    proof {
        assert(r@ =~= entry_line(millis as nat, message@));
    }
    r
}

/// What a write does. None of these waits.
#[derive(Debug, Clone, Copy, PartialEq, Eq, Structural)]
pub enum WritePlan {
    /// The log has disabled itself: nothing is attempted.
    Skip,
    /// Another writer holds the lock: the message is dropped.
    Drop,
    /// The lock was taken: the entry is appended.
    Append,
}

/// The plan of a write, given whether the log is enabled and whether the
/// non-blocking attempt on the lock succeeded.
pub open spec fn plan_of(enabled: bool, lock_acquired: bool) -> WritePlan {
    if !enabled {
        WritePlan::Skip
    } else if !lock_acquired {
        WritePlan::Drop
    } else {
        WritePlan::Append
    }
}

/// Decides what a write does.
pub fn write_plan(enabled: bool, lock_acquired: bool) -> (r: WritePlan)
    ensures
        r == plan_of(enabled, lock_acquired),
{
    if !enabled {
        WritePlan::Skip
    } else if !lock_acquired {
        WritePlan::Drop
    } else {
        WritePlan::Append
    }
}

/// Whether the log stays enabled after a write that followed `plan` and,
/// when it appended, succeeded or not.
pub open spec fn enabled_after_spec(enabled: bool, plan: WritePlan, append_ok: bool) -> bool {
    match plan {
        WritePlan::Append => enabled && append_ok,
        _ => enabled,
    }
}

/// The enabled flag after a write: a failed append clears it, nothing sets it.
pub fn enabled_after(enabled: bool, plan: WritePlan, append_ok: bool) -> (r: bool)
    ensures
        r == enabled_after_spec(enabled, plan, append_ok),
        r ==> enabled,
{
    match plan {
        WritePlan::Append => enabled && append_ok,
        _ => enabled,
    }
}

/// How one write went: whether the lock was taken and, if the entry was
/// appended, whether the append succeeded.
pub struct WriteAttempt {
    pub lock_acquired: bool,
    pub append_ok: bool,
}

/// The enabled flag after a sequence of writes.
pub open spec fn enabled_after_all(enabled: bool, attempts: Seq<WriteAttempt>) -> bool
    decreases attempts.len(),
{
    if attempts.len() == 0 {
        enabled
    } else {
        let a = attempts[0];
        enabled_after_all(
            enabled_after_spec(enabled, plan_of(enabled, a.lock_acquired), a.append_ok),
            attempts.drop_first(),
        )
    }
}

/// The plans of a sequence of writes made one after another.
pub open spec fn plans_of(enabled: bool, attempts: Seq<WriteAttempt>) -> Seq<WritePlan>
    decreases attempts.len(),
{
    if attempts.len() == 0 {
        Seq::empty()
    } else {
        let a = attempts[0];
        let p = plan_of(enabled, a.lock_acquired);
        seq![p] + plans_of(enabled_after_spec(enabled, p, a.append_ok), attempts.drop_first())
    }
}

/// A disabled log stays disabled and attempts nothing, whatever writes follow.
pub proof fn lemma_disabled_log_stays_inert(attempts: Seq<WriteAttempt>)
    ensures
        !enabled_after_all(false, attempts),
        plans_of(false, attempts).len() == attempts.len(),
        forall|j: int| 0 <= j < attempts.len() ==> plans_of(false, attempts)[j] == WritePlan::Skip,
    decreases attempts.len(),
{
    if attempts.len() > 0 {
        lemma_disabled_log_stays_inert(attempts.drop_first());
        assert forall|j: int| 0 <= j < attempts.len() implies plans_of(false, attempts)[j]
            == WritePlan::Skip by {
            if j > 0 {
                assert(plans_of(false, attempts)[j] == plans_of(false, attempts.drop_first())[j
                    - 1]);
            }
        }
    }
}

/// Once an append fails, every later write in the sequence is skipped: no
/// further I/O is attempted for the rest of the process.
pub proof fn lemma_failed_append_disables_for_good(
    enabled: bool,
    attempts: Seq<WriteAttempt>,
    i: int,
)
    requires
        0 <= i < attempts.len(),
        plans_of(enabled, attempts)[i] == WritePlan::Append,
        !attempts[i].append_ok,
    ensures
        plans_of(enabled, attempts).len() == attempts.len(),
        forall|j: int|
            i < j < attempts.len() ==> #[trigger] plans_of(enabled, attempts)[j] == WritePlan::Skip,
        !enabled_after_all(enabled, attempts),
    decreases attempts.len(),
{
    lemma_plans_len(enabled, attempts);
    let a = attempts[0];
    let p = plan_of(enabled, a.lock_acquired);
    let rest = attempts.drop_first();
    let e2 = enabled_after_spec(enabled, p, a.append_ok);
    lemma_plans_len(e2, rest);
    if i == 0 {
        assert(!e2);
        lemma_disabled_log_stays_inert(rest);
        assert forall|j: int| i < j < attempts.len() implies #[trigger] plans_of(
            enabled,
            attempts,
        )[j] == WritePlan::Skip by {
            assert(plans_of(enabled, attempts)[j] == plans_of(e2, rest)[j - 1]);
        }
    } else {
        assert(plans_of(e2, rest)[i - 1] == plans_of(enabled, attempts)[i]);
        assert(rest[i - 1] == attempts[i]);
        lemma_failed_append_disables_for_good(e2, rest, i - 1);
        assert forall|j: int| i < j < attempts.len() implies #[trigger] plans_of(
            enabled,
            attempts,
        )[j] == WritePlan::Skip by {
            assert(plans_of(enabled, attempts)[j] == plans_of(e2, rest)[j - 1]);
        }
    }
}

/// One plan per write.
pub proof fn lemma_plans_len(enabled: bool, attempts: Seq<WriteAttempt>)
    ensures
        plans_of(enabled, attempts).len() == attempts.len(),
    decreases attempts.len(),
{
    if attempts.len() > 0 {
        let a = attempts[0];
        let p = plan_of(enabled, a.lock_acquired);
        lemma_plans_len(enabled_after_spec(enabled, p, a.append_ok), attempts.drop_first());
    }
}

/// Two writers contending for the lock: one of them takes it, so at most one
/// of the two messages is dropped, and neither write waits.
pub proof fn lemma_contention_drops_at_most_one(enabled: bool, first_acquired: bool, second_acquired: bool)
    requires
        first_acquired || second_acquired,
    ensures
        !(plan_of(enabled, first_acquired) == WritePlan::Drop && plan_of(enabled, second_acquired)
            == WritePlan::Drop),
        enabled ==> (plan_of(enabled, first_acquired) == WritePlan::Append || plan_of(
            enabled,
            second_acquired,
        ) == WritePlan::Append),
{
}

} // verus!
