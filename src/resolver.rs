//! Resolution of the configuration over an ordered list of candidate paths.
//!
//! The resolver decides; the caller does the file work. It asks for one thing
//! at a time (read a file, parse strictly, parse leniently) and is told how
//! that went. The first candidate that yields a configuration ends the
//! search; when every candidate fails, the last error is the one reported.
use vstd::prelude::*;
use vstd::string::StringExecFns;
use crate::config::{
    check_path, decode, is_well_formed_path, Config, ConfigError, ConfigErrorView, ConfigView,
    RawConfig,
};

verus! {

/// Where the resolver stands within the current candidate.
#[derive(Debug, Clone, Copy, PartialEq, Eq, Structural)]
pub enum Phase {
    /// Waiting for the current candidate's file to be opened and read.
    Reading,
    /// Waiting for the strict parse of the text that was read.
    Strict,
    /// Waiting for the lenient parse, after the strict one failed.
    Lenient,
    /// The search is over.
    Done,
}

/// What the caller learned from carrying out the requested action.
pub enum ResolveEvent {
    /// The file could not be opened.
    OpenFailed(String),
    /// The file opened but reading it failed.
    ReadFailed(String),
    /// The whole file was read; the caller keeps its text.
    ContentsRead,
    /// The strict JSON parser decoded the text.
    StrictParsed(RawConfig),
    /// The strict JSON parser rejected the text, with this diagnostic.
    StrictFailed(String),
    /// The lenient parser decoded the text.
    LenientParsed(RawConfig),
    /// The lenient parser rejected the text as well.
    LenientFailed,
}

/// What the resolver asks the caller to do next.
pub enum ResolveAction {
    /// Open and read this file completely.
    ReadFile(String),
    /// Parse the text just read as strict JSON.
    ParseStrict,
    /// Parse the same text with the lenient JSON-superset parser.
    ParseLenient,
    /// The search is over; take the result.
    Finished,
}

/// The resolver's state as plain values.
pub struct ResolverState {
    pub candidates: Seq<Seq<char>>,
    pub index: int,
    pub phase: Phase,
    pub strict_error: Seq<char>,
    pub last_error: Option<ConfigErrorView>,
    pub outcome: Option<Result<ConfigView, ConfigErrorView>>,
}

/// The error reported when every candidate failed.
pub open spec fn final_error(last: Option<ConfigErrorView>) -> ConfigErrorView {
    match last {
        Some(e) => e,
        None => ConfigErrorView::InvalidPath(Seq::empty()),
    }
}

/// From candidate `s.index` on: skip malformed paths, each becoming the last
/// error, and stop at the first well-formed one, or finish when none is left.
pub open spec fn settle(s: ResolverState) -> ResolverState
    decreases s.candidates.len() - s.index,
{
    if s.index < 0 || s.index >= s.candidates.len() {
        ResolverState {
            phase: Phase::Done,
            outcome: Some(Err(final_error(s.last_error))),
            ..s
        }
    } else if !is_well_formed_path(s.candidates[s.index]) {
        settle(
            ResolverState {
                index: s.index + 1,
                last_error: Some(ConfigErrorView::InvalidPath(s.candidates[s.index])),
                ..s
            },
        )
    } else {
        ResolverState { phase: Phase::Reading, ..s }
    }
}

/// The current candidate failed with `e`: move on to the next one.
pub open spec fn fail(s: ResolverState, e: ConfigErrorView) -> ResolverState {
    settle(ResolverState { index: s.index + 1, last_error: Some(e), ..s })
}

/// The search ends with the configuration `c`.
pub open spec fn succeed(s: ResolverState, c: ConfigView) -> ResolverState {
    ResolverState { phase: Phase::Done, outcome: Some(Ok(c)), ..s }
}

/// The state at the start of a search over `candidates`.
pub open spec fn initial(candidates: Seq<Seq<char>>) -> ResolverState {
    settle(
        ResolverState {
            candidates,
            index: 0,
            phase: Phase::Reading,
            strict_error: Seq::empty(),
            last_error: None,
            outcome: None,
        },
    )
}

/// How the state moves on an event. An event that does not answer the
/// pending action changes nothing.
pub open spec fn next(s: ResolverState, ev: ResolveEvent) -> ResolverState {
    match s.phase {
        Phase::Reading => match ev {
            ResolveEvent::OpenFailed(m) => fail(s, ConfigErrorView::FileOpen(m@)),
            ResolveEvent::ReadFailed(m) => fail(s, ConfigErrorView::FileRead(m@)),
            ResolveEvent::ContentsRead => ResolverState { phase: Phase::Strict, ..s },
            _ => s,
        },
        Phase::Strict => match ev {
            ResolveEvent::StrictParsed(raw) => succeed(s, decode(raw)),
            ResolveEvent::StrictFailed(m) => ResolverState {
                phase: Phase::Lenient,
                strict_error: m@,
                ..s
            },
            _ => s,
        },
        Phase::Lenient => match ev {
            ResolveEvent::LenientParsed(raw) => succeed(s, decode(raw)),
            ResolveEvent::LenientFailed => fail(s, ConfigErrorView::Parse(s.strict_error)),
            _ => s,
        },
        Phase::Done => s,
    }
}

/// Drives the search for a configuration over candidate paths in order.
pub struct ConfigResolver {
    candidates: Vec<String>,
    index: usize,
    phase: Phase,
    strict_error: String,
    last_error: Option<ConfigError>,
    outcome: Option<Result<Config, ConfigError>>,
}

/// The view of each string in a vector.
pub open spec fn views(v: Seq<String>) -> Seq<Seq<char>> {
    v.map_values(|s: String| s@)
}

/// The view of an optional error.
pub open spec fn error_opt_view(e: Option<ConfigError>) -> Option<ConfigErrorView> {
    match e {
        Some(x) => Some(x@),
        None => None,
    }
}

/// The view of an optional result.
pub open spec fn outcome_view(o: Option<Result<Config, ConfigError>>) -> Option<
    Result<ConfigView, ConfigErrorView>,
> {
    match o {
        Some(Ok(c)) => Some(Ok(c@)),
        Some(Err(e)) => Some(Err(e@)),
        None => None,
    }
}

impl View for ConfigResolver {
    type V = ResolverState;

    closed spec fn view(&self) -> ResolverState {
        ResolverState {
            candidates: views(self.candidates@),
            index: self.index as int,
            phase: self.phase,
            strict_error: self.strict_error@,
            last_error: error_opt_view(self.last_error),
            outcome: outcome_view(self.outcome),
        }
    }
}

impl ConfigResolver {
    /// Whether the fields agree with one another.
    pub closed spec fn wf(&self) -> bool {
        &&& self.index <= self.candidates.len()
        &&& (self.phase == Phase::Done) <==> self.outcome is Some
        &&& self.phase != Phase::Done ==> self.index < self.candidates.len()
    }

    /// Moves past malformed paths from the current index on.
    fn settle_here(&mut self)
        requires
            old(self).index <= old(self).candidates.len(),
            old(self).outcome is None,
        ensures
            final(self)@ == settle(old(self)@),
            final(self).wf(),
    {
        let n = self.candidates.len();
        while self.index < n
            invariant
                n == self.candidates.len(),
                self.index <= n,
                self.outcome is None,
                settle(self@) == settle(old(self)@),
            decreases n - self.index,
        {
            assert(self@.candidates[self.index as int] == self.candidates@[self.index as int]@);
            match check_path(self.candidates[self.index].as_str()) {
                Ok(()) => {
                    assert(settle(self@) == ResolverState { phase: Phase::Reading, ..self@ });
                    self.phase = Phase::Reading;
                    return;
                },
                Err(e) => {
                    self.last_error = Some(e);
                    self.index = self.index + 1;
                },
            }
        }
        let err = match &self.last_error {
            Some(e) => e.duplicate(),
            None => ConfigError::InvalidPath(String::new()),
        };
        self.phase = Phase::Done;
        self.outcome = Some(Err(err));
    }

    /// Starts a search over `candidates`, tried in order.
    pub fn new(candidates: Vec<String>) -> (r: ConfigResolver)
        ensures
            r.wf(),
            r@ == initial(views(candidates@)),
    {
        let mut r = ConfigResolver {
            candidates,
            index: 0,
            phase: Phase::Reading,
            strict_error: String::new(),
            last_error: None,
            outcome: None,
        };
        r.settle_here();
        r
    }

    /// What the caller should do next.
    pub fn action(&self) -> (r: ResolveAction)
        requires
            self.wf(),
        ensures
            self@.phase == Phase::Reading <==> r is ReadFile,
            r matches ResolveAction::ReadFile(p) ==> p@ == self@.candidates[self@.index],
            self@.phase == Phase::Strict <==> r is ParseStrict,
            self@.phase == Phase::Lenient <==> r is ParseLenient,
            self@.phase == Phase::Done <==> r is Finished,
    {
        match self.phase {
            Phase::Reading => {
                proof {
                    assert(self@.candidates[self.index as int] == self.candidates@[self.index as int]@);
                }
                ResolveAction::ReadFile(self.candidates[self.index].clone())
            },
            Phase::Strict => ResolveAction::ParseStrict,
            Phase::Lenient => ResolveAction::ParseLenient,
            Phase::Done => ResolveAction::Finished,
        }
    }

    /// Ends the current candidate with `e` and moves to the next one.
    fn fail_with(&mut self, e: ConfigError)
        requires
            old(self).wf(),
            old(self).phase != Phase::Done,
        ensures
            final(self).wf(),
            final(self)@ == fail(old(self)@, e@),
    {
        self.last_error = Some(e);
        self.index = self.index + 1;
        self.settle_here();
    }

    /// Takes in the result of the action last asked for.
    pub fn advance(&mut self, ev: ResolveEvent)
        requires
            old(self).wf(),
        ensures
            final(self).wf(),
            final(self)@ == next(old(self)@, ev),
    {
        match self.phase {
            Phase::Reading => match ev {
                ResolveEvent::OpenFailed(m) => self.fail_with(ConfigError::FileOpen(m)),
                ResolveEvent::ReadFailed(m) => self.fail_with(ConfigError::FileRead(m)),
                ResolveEvent::ContentsRead => {
                    self.phase = Phase::Strict;
                },
                _ => {},
            },
            Phase::Strict => match ev {
                ResolveEvent::StrictParsed(raw) => {
                    self.outcome = Some(Ok(Config::from_raw(raw)));
                    self.phase = Phase::Done;
                },
                ResolveEvent::StrictFailed(m) => {
                    self.strict_error = m;
                    self.phase = Phase::Lenient;
                },
                _ => {},
            },
            Phase::Lenient => match ev {
                ResolveEvent::LenientParsed(raw) => {
                    self.outcome = Some(Ok(Config::from_raw(raw)));
                    self.phase = Phase::Done;
                },
                ResolveEvent::LenientFailed => {
                    let m = self.strict_error.clone();
                    self.fail_with(ConfigError::Parse(m));
                },
                _ => {},
            },
            Phase::Done => {},
        }
    }

    /// The outcome of a finished search: the first configuration found, or
    /// the last error met. `None` while the search goes on.
    pub fn result(self) -> (r: Option<Result<Config, ConfigError>>)
        requires
            self.wf(),
        ensures
            outcome_view(r) == self@.outcome,
            r is Some <==> self@.phase == Phase::Done,
    {
        self.outcome
    }
}

/// The fixed places a configuration is looked for, in order, after the
/// override.
pub open spec fn fixed_candidates() -> Seq<Seq<char>> {
    seq!["config/liquidroute.json"@, "/etc/agave/liquidroute.json"@, "liquidroute.json"@]
}

/// The candidate paths: the override first when there is one, then the
/// fixed places.
pub open spec fn candidate_paths_spec(env_override: Option<Seq<char>>) -> Seq<Seq<char>> {
    match env_override {
        Some(p) => seq![p] + fixed_candidates(),
        None => fixed_candidates(),
    }
}

/// Lists the candidate paths for a resolution.
pub fn candidate_paths(env_override: Option<String>) -> (r: Vec<String>)
    ensures
        views(r@) == candidate_paths_spec(crate::config::opt_view(env_override)),
{
    let mut v: Vec<String> = Vec::new();
    let ghost o = crate::config::opt_view(env_override);
    match env_override {
        Some(p) => v.push(p),
        None => {},
    }
    v.push(String::from_str("config/liquidroute.json"));
    v.push(String::from_str("/etc/agave/liquidroute.json"));
    v.push(String::from_str("liquidroute.json"));
    proof {
        assert(views(v@) =~= candidate_paths_spec(o));
    }
    v
}

/// How trying one well-formed candidate went, end to end.
pub enum CandidateAttempt {
    /// The file could not be opened.
    OpenFails(String),
    /// Reading the file failed.
    ReadFails(String),
    /// The strict parser decoded the text.
    StrictOk(RawConfig),
    /// The strict parser failed with this diagnostic; the lenient one decoded
    /// the text.
    LenientOk(String, RawConfig),
    /// Both parsers failed; the strict parser gave this diagnostic.
    Unparsable(String),
}

/// The events the caller reports while trying a candidate.
pub open spec fn attempt_events(a: CandidateAttempt) -> Seq<ResolveEvent> {
    match a {
        CandidateAttempt::OpenFails(m) => seq![ResolveEvent::OpenFailed(m)],
        CandidateAttempt::ReadFails(m) => seq![ResolveEvent::ReadFailed(m)],
        CandidateAttempt::StrictOk(raw) => seq![
            ResolveEvent::ContentsRead,
            ResolveEvent::StrictParsed(raw),
        ],
        CandidateAttempt::LenientOk(m, raw) => seq![
            ResolveEvent::ContentsRead,
            ResolveEvent::StrictFailed(m),
            ResolveEvent::LenientParsed(raw),
        ],
        CandidateAttempt::Unparsable(m) => seq![
            ResolveEvent::ContentsRead,
            ResolveEvent::StrictFailed(m),
            ResolveEvent::LenientFailed,
        ],
    }
}

/// What one candidate yields on its own: a malformed path is an
/// `InvalidPath` error whatever the file system holds.
pub open spec fn candidate_outcome(path: Seq<char>, a: CandidateAttempt) -> Result<
    ConfigView,
    ConfigErrorView,
> {
    if !is_well_formed_path(path) {
        Err(ConfigErrorView::InvalidPath(path))
    } else {
        match a {
            CandidateAttempt::OpenFails(m) => Err(ConfigErrorView::FileOpen(m@)),
            CandidateAttempt::ReadFails(m) => Err(ConfigErrorView::FileRead(m@)),
            CandidateAttempt::StrictOk(raw) => Ok(decode(raw)),
            CandidateAttempt::LenientOk(_, raw) => Ok(decode(raw)),
            CandidateAttempt::Unparsable(m) => Err(ConfigErrorView::Parse(m@)),
        }
    }
}

/// The events of candidates `k..`; a malformed path is tried without any.
pub open spec fn events_from(
    cands: Seq<Seq<char>>,
    attempts: Seq<CandidateAttempt>,
    k: int,
) -> Seq<ResolveEvent>
    decreases cands.len() - k,
{
    if k < 0 || k >= cands.len() {
        Seq::empty()
    } else {
        let mine = if is_well_formed_path(cands[k]) {
            attempt_events(attempts[k])
        } else {
            Seq::empty()
        };
        mine + events_from(cands, attempts, k + 1)
    }
}

/// The result over candidates `k..`, with `last` the error met so far: the
/// first candidate that yields a configuration, else the last error.
pub open spec fn resolve_from(
    cands: Seq<Seq<char>>,
    attempts: Seq<CandidateAttempt>,
    k: int,
    last: Option<ConfigErrorView>,
) -> Result<ConfigView, ConfigErrorView>
    decreases cands.len() - k,
{
    if k < 0 || k >= cands.len() {
        Err(final_error(last))
    } else {
        match candidate_outcome(cands[k], attempts[k]) {
            Ok(c) => Ok(c),
            Err(e) => resolve_from(cands, attempts, k + 1, Some(e)),
        }
    }
}

/// The state after a sequence of events.
pub open spec fn run_events(s: ResolverState, evs: Seq<ResolveEvent>) -> ResolverState
    decreases evs.len(),
{
    if evs.len() == 0 {
        s
    } else {
        run_events(next(s, evs[0]), evs.drop_first())
    }
}

proof fn lemma_run_concat(s: ResolverState, a: Seq<ResolveEvent>, b: Seq<ResolveEvent>)
    ensures
        run_events(s, a + b) == run_events(run_events(s, a), b),
    decreases a.len(),
{
    if a.len() > 0 {
        assert((a + b).drop_first() =~= a.drop_first() + b);
        lemma_run_concat(next(s, a[0]), a.drop_first(), b);
    } else {
        assert(a + b =~= b);
    }
}

proof fn lemma_done_is_final(s: ResolverState, evs: Seq<ResolveEvent>)
    requires
        s.phase == Phase::Done,
    ensures
        run_events(s, evs) == s,
    decreases evs.len(),
{
    if evs.len() > 0 {
        lemma_done_is_final(next(s, evs[0]), evs.drop_first());
    }
}

proof fn lemma_resolve_suffix(
    s: ResolverState,
    attempts: Seq<CandidateAttempt>,
)
    requires
        0 <= s.index <= s.candidates.len(),
        attempts.len() == s.candidates.len(),
        s.outcome is None,
    ensures
        run_events(settle(s), events_from(s.candidates, attempts, s.index)).phase == Phase::Done,
        run_events(settle(s), events_from(s.candidates, attempts, s.index)).outcome == Some(
            resolve_from(s.candidates, attempts, s.index, s.last_error),
        ),
    decreases s.candidates.len() - s.index,
{
    let cands = s.candidates;
    let k = s.index;
    if k >= cands.len() {
        assert(events_from(cands, attempts, k) =~= Seq::<ResolveEvent>::empty());
    } else if !is_well_formed_path(cands[k]) {
        let s2 = ResolverState {
            index: k + 1,
            last_error: Some(ConfigErrorView::InvalidPath(cands[k])),
            ..s
        };
        assert(events_from(cands, attempts, k) =~= events_from(cands, attempts, k + 1));
        lemma_resolve_suffix(s2, attempts);
    } else {
        let st = settle(s);
        assert(st == ResolverState { phase: Phase::Reading, ..s });
        let rest = events_from(cands, attempts, k + 1);
        let mine = attempt_events(attempts[k]);
        assert(events_from(cands, attempts, k) == mine + rest);
        lemma_run_concat(st, mine, rest);
        let after = run_events(st, mine);
        match attempts[k] {
            CandidateAttempt::OpenFails(m) => {
                let e = ConfigErrorView::FileOpen(m@);
                assert(mine.drop_first() =~= Seq::<ResolveEvent>::empty());
                assert(mine[0] == ResolveEvent::OpenFailed(m));
                assert(run_events(next(st, mine[0]), mine.drop_first()) == next(st, mine[0]));
                assert(after == fail(st, e));
                lemma_resolve_suffix(
                    ResolverState { index: k + 1, last_error: Some(e), ..st },
                    attempts,
                );
            },
            CandidateAttempt::ReadFails(m) => {
                let e = ConfigErrorView::FileRead(m@);
                assert(mine.drop_first() =~= Seq::<ResolveEvent>::empty());
                assert(mine[0] == ResolveEvent::ReadFailed(m));
                assert(run_events(next(st, mine[0]), mine.drop_first()) == next(st, mine[0]));
                assert(after == fail(st, e));
                lemma_resolve_suffix(
                    ResolverState { index: k + 1, last_error: Some(e), ..st },
                    attempts,
                );
            },
            CandidateAttempt::StrictOk(raw) => {
                let s1 = next(st, ResolveEvent::ContentsRead);
                let m1 = mine.drop_first();
                assert(m1 =~= seq![ResolveEvent::StrictParsed(raw)]);
                assert(run_events(st, mine) == run_events(s1, m1));
                let s2 = next(s1, m1[0]);
                assert(m1.drop_first() =~= Seq::<ResolveEvent>::empty());
                assert(run_events(s1, m1) == run_events(s2, m1.drop_first()));
                assert(after == succeed(s1, decode(raw)));
                lemma_done_is_final(after, rest);
            },
            CandidateAttempt::LenientOk(m, raw) => {
                let s1 = next(st, ResolveEvent::ContentsRead);
                let m1 = mine.drop_first();
                assert(m1 =~= seq![ResolveEvent::StrictFailed(m), ResolveEvent::LenientParsed(raw)]);
                assert(run_events(st, mine) == run_events(s1, m1));
                let s2 = next(s1, m1[0]);
                let m2 = m1.drop_first();
                assert(m2 =~= seq![ResolveEvent::LenientParsed(raw)]);
                assert(run_events(s1, m1) == run_events(s2, m2));
                let s3 = next(s2, m2[0]);
                assert(m2.drop_first() =~= Seq::<ResolveEvent>::empty());
                assert(run_events(s2, m2) == run_events(s3, m2.drop_first()));
                assert(after == succeed(s2, decode(raw)));
                lemma_done_is_final(after, rest);
            },
            CandidateAttempt::Unparsable(m) => {
                let s1 = next(st, ResolveEvent::ContentsRead);
                let m1 = mine.drop_first();
                assert(m1 =~= seq![ResolveEvent::StrictFailed(m), ResolveEvent::LenientFailed]);
                assert(run_events(st, mine) == run_events(s1, m1));
                let s2 = next(s1, m1[0]);
                let m2 = m1.drop_first();
                assert(m2 =~= seq![ResolveEvent::LenientFailed]);
                assert(run_events(s1, m1) == run_events(s2, m2));
                let s3 = next(s2, m2[0]);
                assert(m2.drop_first() =~= Seq::<ResolveEvent>::empty());
                assert(run_events(s2, m2) == run_events(s3, m2.drop_first()));
                let e = ConfigErrorView::Parse(m@);
                assert(after == fail(s2, e));
                lemma_resolve_suffix(
                    ResolverState { index: k + 1, last_error: Some(e), ..s2 },
                    attempts,
                );
            },
        }
    }
}

/// Trying every candidate in order, the resolver ends with the configuration
/// of the first candidate that yields one (later candidates are not looked
/// at), and, when none does, with the error of the last candidate.
pub proof fn lemma_resolution_first_success_else_last_error(
    cands: Seq<Seq<char>>,
    attempts: Seq<CandidateAttempt>,
)
    requires
        attempts.len() == cands.len(),
    ensures
        run_events(initial(cands), events_from(cands, attempts, 0)).phase == Phase::Done,
        run_events(initial(cands), events_from(cands, attempts, 0)).outcome == Some(
            resolve_from(cands, attempts, 0, None),
        ),
{
    let s = ResolverState {
        candidates: cands,
        index: 0,
        phase: Phase::Reading,
        strict_error: Seq::empty(),
        last_error: None,
        outcome: None,
    };
    lemma_resolve_suffix(s, attempts);
}

proof fn lemma_settle_shape(s: ResolverState)
    ensures
        settle(s).phase == Phase::Reading || settle(s).phase == Phase::Done,
        settle(s).index >= s.index,
        settle(s).phase == Phase::Reading ==> settle(s).outcome == s.outcome,
        s.index >= s.candidates.len() ==> settle(s).outcome == Some(
            Err::<ConfigView, ConfigErrorView>(final_error(s.last_error)),
        ),
    decreases s.candidates.len() - s.index,
{
    if 0 <= s.index < s.candidates.len() && !is_well_formed_path(s.candidates[s.index]) {
        lemma_settle_shape(
            ResolverState {
                index: s.index + 1,
                last_error: Some(ConfigErrorView::InvalidPath(s.candidates[s.index])),
                ..s
            },
        );
    }
}

/// A candidate whose file cannot be opened is neither read further nor
/// parsed: the resolver moves past it, waiting on a later file or done, and
/// when it was the last candidate the search ends with its `FileOpen` error.
pub proof fn lemma_open_failure_skips_parsing(s: ResolverState, m: String)
    requires
        s.phase == Phase::Reading,
        0 <= s.index < s.candidates.len(),
    ensures
        next(s, ResolveEvent::OpenFailed(m)).phase == Phase::Reading || next(
            s,
            ResolveEvent::OpenFailed(m),
        ).phase == Phase::Done,
        next(s, ResolveEvent::OpenFailed(m)).index > s.index,
        s.index == s.candidates.len() - 1 ==> next(s, ResolveEvent::OpenFailed(m)).outcome == Some(
            Err::<ConfigView, ConfigErrorView>(ConfigErrorView::FileOpen(m@)),
        ),
{
    lemma_settle_shape(
        ResolverState { index: s.index + 1, last_error: Some(ConfigErrorView::FileOpen(m@)), ..s },
    );
}

} // verus!
