//! The listener lifecycle: whether the workers run, whether capture may enqueue,
//! the generation token that invalidates stale health checks, and the count of
//! events seen since the last start.

use crate::diagnostics::{DiagnosticErrorRecord, DiagnosticsState, MAX_ERROR_EVENTS};
use crate::event::{normalize_event, normalized, GlobalInputEvent, RawInput};
use crate::ring::bounded_push;
use vstd::prelude::*;

verus! {

/// The reason given by a negative health signal.
pub open spec fn spec_no_events_reason() -> Seq<char> {
    "no_events_detected"@
}

/// The lifecycle's state as plain values.
pub struct ListenerModel {
    pub running: bool,
    pub forwarding: bool,
    pub health_token: u64,
    pub events_seen: u64,
}

/// The token after a bump; it wraps as an atomic counter does.
pub open spec fn spec_next_token(t: u64) -> u64 {
    if t == u64::MAX {
        0
    } else {
        (t + 1) as u64
    }
}

/// The state after a start: a fresh token, the count reset, workers running and forwarding on.
pub open spec fn spec_start(s: ListenerModel) -> ListenerModel {
    ListenerModel { running: true, forwarding: true, health_token: spec_next_token(s.health_token), events_seen: 0 }
}

/// A start spawns workers only when none are running.
pub open spec fn spec_start_spawns(s: ListenerModel) -> bool {
    !s.running
}

/// The state after a stop: forwarding off and the token bumped; the workers drain
/// and clear `running` themselves.
pub open spec fn spec_stop(s: ListenerModel) -> ListenerModel {
    ListenerModel { forwarding: false, health_token: spec_next_token(s.health_token), ..s }
}

/// The state after a recognized event was observed by the capture source.
pub open spec fn spec_observe(s: ListenerModel) -> ListenerModel {
    ListenerModel { events_seen: if s.events_seen == u64::MAX { s.events_seen } else { (s.events_seen + 1) as u64 }, ..s }
}

/// The state after the workers ended, or could not be started: idle.
pub open spec fn spec_halt(s: ListenerModel) -> ListenerModel {
    ListenerModel { running: false, forwarding: false, ..s }
}

/// What a health check made with `token` reports: nothing when the token is stale,
/// else whether any event was seen since the start.
pub open spec fn spec_health_verdict(s: ListenerModel, token: u64) -> Option<bool> {
    if token != s.health_token {
        None
    } else {
        Some(s.events_seen != 0)
    }
}

/// The lifecycle operations, for statements over sequences of them.
pub enum ListenerOp {
    Start,
    Stop,
    Observe,
    Halt,
}

pub open spec fn spec_apply(s: ListenerModel, op: ListenerOp) -> ListenerModel {
    match op {
        ListenerOp::Start => spec_start(s),
        ListenerOp::Stop => spec_stop(s),
        ListenerOp::Observe => spec_observe(s),
        ListenerOp::Halt => spec_halt(s),
    }
}

pub open spec fn spec_apply_all(s: ListenerModel, ops: Seq<ListenerOp>) -> ListenerModel
    decreases ops.len(),
{
    if ops.len() == 0 {
        s
    } else {
        spec_apply(spec_apply_all(s, ops.drop_last()), ops.last())
    }
}

/// The health signal emitted once per start cycle.
#[derive(Clone, Debug)]
pub struct InputHealthPayload {
    pub ok: bool,
    pub reason: Option<String>,
    pub platform: String,
}

/// What a start asks of the caller: spawn the workers, or only refresh the flags.
/// Either way a health check is scheduled with `health_token`.
#[derive(Clone, Copy, Debug, PartialEq, Eq, Structural)]
pub enum StartPlan {
    SpawnWorkers { health_token: u64 },
    AlreadyRunning { health_token: u64 },
}

impl StartPlan {
    pub open spec fn token(self) -> u64 {
        match self {
            StartPlan::SpawnWorkers { health_token } => health_token,
            StartPlan::AlreadyRunning { health_token } => health_token,
        }
    }

    pub fn health_token(&self) -> (r: u64)
        ensures
            r == self.token(),
    {
        match self {
            StartPlan::SpawnWorkers { health_token } => *health_token,
            StartPlan::AlreadyRunning { health_token } => *health_token,
        }
    }

    /// The status reported to the caller of a start that did not fail.
    pub fn status(&self) -> (r: String)
        ensures
            self is SpawnWorkers ==> r@ == "listener started"@,
            self is AlreadyRunning ==> r@ == "listener already running"@,
    {
        proof {
            reveal_strlit("listener started");
            reveal_strlit("listener already running");
        }
        match self {
            StartPlan::SpawnWorkers { .. } => "listener started".to_string(),
            StartPlan::AlreadyRunning { .. } => "listener already running".to_string(),
        }
    }
}

/// The shared lifecycle state; callers that share it between threads hold it behind a lock.
pub struct InputListenerState {
    running: bool,
    forwarding: bool,
    health_token: u64,
    events_seen_since_start: u64,
}

impl View for InputListenerState {
    type V = ListenerModel;

    closed spec fn view(&self) -> ListenerModel {
        ListenerModel {
            running: self.running,
            forwarding: self.forwarding,
            health_token: self.health_token,
            events_seen: self.events_seen_since_start,
        }
    }
}

impl InputListenerState {
    pub fn new() -> (r: InputListenerState)
        ensures
            r@ == (ListenerModel { running: false, forwarding: false, health_token: 0, events_seen: 0 }),
    {
        InputListenerState { running: false, forwarding: false, health_token: 0, events_seen_since_start: 0 }
    }

    pub fn is_running(&self) -> (r: bool)
        ensures
            r == self@.running,
    {
        self.running
    }

    pub fn is_forwarding(&self) -> (r: bool)
        ensures
            r == self@.forwarding,
    {
        self.forwarding
    }

    pub fn health_token(&self) -> (r: u64)
        ensures
            r == self@.health_token,
    {
        self.health_token
    }

    pub fn events_seen_since_start(&self) -> (r: u64)
        ensures
            r == self@.events_seen,
    {
        self.events_seen_since_start
    }

    fn bump_token(&mut self)
        ensures
            final(self)@ == (ListenerModel { health_token: spec_next_token(old(self)@.health_token), ..old(self)@ }),
    {
        self.health_token = self.health_token.wrapping_add(1);
    }

    /// Returns the lifecycle to idle: the workers ended, or could not be started.
    pub fn halt(&mut self)
        ensures
            final(self)@ == spec_halt(old(self)@),
    {
        self.forwarding = false;
        self.running = false;
    }

    /// Counts an event observed by the capture source.
    pub fn observe_event(&mut self)
        ensures
            final(self)@ == spec_observe(old(self)@),
    {
        self.events_seen_since_start = self.events_seen_since_start.saturating_add(1);
    }

    /// Whether the forwarder goes on: while the workers run, or events remain queued.
    pub fn keep_forwarding(&self, channel_empty: bool) -> (r: bool)
        ensures
            r == (self@.running || !channel_empty),
    {
        self.running || !channel_empty
    }

    /// How long the forwarder waits for an event: briefly while forwarding, longer while paused.
    pub fn poll_interval_ms(&self) -> (r: u64)
        ensures
            self@.forwarding ==> r == crate::forwarder::FORWARDER_POLL_MS,
            !self@.forwarding ==> r == crate::forwarder::FORWARDER_IDLE_POLL_MS,
    {
        if self.forwarding {
            crate::forwarder::FORWARDER_POLL_MS
        } else {
            crate::forwarder::FORWARDER_IDLE_POLL_MS
        }
    }

    /// The health signal for a check scheduled with `token`: none when a stop or
    /// another start made the token stale; negative, with the reason, when no event
    /// was seen since the start; positive otherwise.
    pub fn health_check(&self, token: u64, platform: String) -> (r: Option<InputHealthPayload>)
        ensures
            spec_health_verdict(self@, token) is None ==> r is None,
            spec_health_verdict(self@, token) matches Some(ok) ==> r matches Some(p) && p.ok == ok
                && p.platform == platform && (if ok {
                p.reason is None
            } else {
                p.reason matches Some(m) && m@ == spec_no_events_reason()
            }),
    {
        if self.health_token != token {
            return None;
        }
        if self.events_seen_since_start == 0 {
            proof {
                reveal_strlit("no_events_detected");
            }
            return Some(
                InputHealthPayload { ok: false, reason: Some("no_events_detected".to_string()), platform },
            );
        }
        Some(InputHealthPayload { ok: true, reason: None, platform })
    }
}

impl Default for InputListenerState {
    fn default() -> (r: InputListenerState)
        ensures
            r@ == (ListenerModel { running: false, forwarding: false, health_token: 0, events_seen: 0 }),
    {
        InputListenerState::new()
    }
}

/// Starts the listener: bumps the token and resets the count for a new health check,
/// enables forwarding, and marks the workers running. When they already run, the
/// start only refreshes the flags. The caller spawns the workers for `SpawnWorkers`
/// and calls `halt` if that fails.
pub fn start_listener(state: &mut InputListenerState) -> (plan: StartPlan)
    ensures
        final(state)@ == spec_start(old(state)@),
        plan.token() == final(state)@.health_token,
        plan is SpawnWorkers <==> spec_start_spawns(old(state)@),
{
    state.bump_token();
    let health_token = state.health_token;
    state.events_seen_since_start = 0;
    if state.running {
        state.forwarding = true;
        return StartPlan::AlreadyRunning { health_token };
    }
    state.forwarding = true;
    state.running = true;
    StartPlan::SpawnWorkers { health_token }
}

/// Stops the listener: forwarding off, token bumped. The status says whether running
/// workers were told to stop.
pub fn stop_listener(state: &mut InputListenerState) -> (r: String)
    ensures
        final(state)@ == spec_stop(old(state)@),
        old(state)@.running ==> r@ == "listener stopped"@,
        !old(state)@.running ==> r@ == "listener not running"@,
{
    state.forwarding = false;
    state.bump_token();
    proof {
        reveal_strlit("listener stopped");
        reveal_strlit("listener not running");
    }
    if state.running {
        "listener stopped".to_string()
    } else {
        "listener not running".to_string()
    }
}

/// Handles one raw notification on the capture thread: a recognized event is counted
/// whether or not forwarding is on, and handed back for enqueueing only while it is.
pub fn capture_event(state: &mut InputListenerState, raw: &RawInput) -> (r: Option<GlobalInputEvent>)
    ensures
        normalized(*raw) is None ==> final(state)@ == old(state)@ && r is None,
        normalized(*raw) is Some ==> final(state)@ == spec_observe(old(state)@),
        r == (if old(state)@.forwarding { normalized(*raw) } else { None }),
{
    match normalize_event(raw) {
        Some(event) => {
            state.observe_event();
            if state.forwarding {
                Some(event)
            } else {
                None
            }
        },
        None => None,
    }
}

/// Handles the end of the capture subscription: the lifecycle goes idle, and a
/// failure is recorded as a high-severity (`error`) diagnostic with `failure` as its
/// message and no context.
pub fn capture_subscription_ended(
    state: &mut InputListenerState,
    diagnostics: &mut DiagnosticsState,
    failure: Option<String>,
)
    ensures
        final(state)@ == spec_halt(old(state)@),
        failure is None ==> final(diagnostics).errors() == old(diagnostics).errors(),
        failure matches Some(m) ==> final(diagnostics).errors().len() > 0
            && final(diagnostics).errors().last().level@ == "error"@
            && final(diagnostics).errors() == bounded_push(
            old(diagnostics).errors(),
            MAX_ERROR_EVENTS as nat,
            DiagnosticErrorRecord {
                level: final(diagnostics).errors().last().level,
                message: m,
                context: None,
                timestamp: final(diagnostics).errors().last().timestamp,
            },
        ),
        final(diagnostics).events() == old(diagnostics).events(),
        final(diagnostics).fps_bits() == old(diagnostics).fps_bits(),
        final(diagnostics).model_load_bits() == old(diagnostics).model_load_bits(),
{
    if let Some(message) = failure {
        proof {
            reveal_strlit("error");
        }
        diagnostics.record_error("error".to_string(), message, None);
    }
    state.halt();
}

/// A start followed by no observed event makes the check scheduled by that start
/// report a negative health signal.
pub proof fn lemma_start_without_events_reports_failure(s: ListenerModel)
    ensures
        spec_health_verdict(spec_start(s), spec_start(s).health_token) == Some(false),
{
}

/// Events observed after a start make its check report a positive health signal.
pub proof fn lemma_start_with_events_reports_success(s: ListenerModel, n: nat)
    requires
        n > 0,
    ensures
        spec_health_verdict(
            spec_apply_all(spec_start(s), Seq::new(n, |i: int| ListenerOp::Observe)),
            spec_start(s).health_token,
        ) == Some(true),
    decreases n,
{
    let ops = Seq::new(n, |i: int| ListenerOp::Observe);
    let s1 = spec_start(s);
    assert(ops.last() == ListenerOp::Observe);
    if n > 1 {
        lemma_start_with_events_reports_success(s, (n - 1) as nat);
        assert(ops.drop_last() =~= Seq::new((n - 1) as nat, |i: int| ListenerOp::Observe));
    } else {
        assert(ops.drop_last() =~= Seq::<ListenerOp>::empty());
        assert(spec_apply_all(s1, ops.drop_last()) == s1);
    }
    assert(spec_apply_all(s1, ops) == spec_observe(spec_apply_all(s1, ops.drop_last())));
}

/// Without wrapping, no operation lowers the token, and each start or stop raises it.
proof fn lemma_token_never_decreases(s: ListenerModel, ops: Seq<ListenerOp>)
    requires
        s.health_token + ops.len() <= u64::MAX,
    ensures
        spec_apply_all(s, ops).health_token >= s.health_token,
        spec_apply_all(s, ops).health_token <= s.health_token + ops.len(),
    decreases ops.len(),
{
    if ops.len() > 0 {
        lemma_token_never_decreases(s, ops.drop_last());
    }
}

/// A stop after a start makes the start's health check stale for good: whatever
/// operations follow, a check made with that start's token reports nothing (as long
/// as the token does not wrap around).
pub proof fn lemma_stop_invalidates_start_check(s: ListenerModel, later: Seq<ListenerOp>)
    requires
        s.health_token + 2 + later.len() <= u64::MAX,
    ensures
        spec_health_verdict(spec_apply_all(spec_stop(spec_start(s)), later), spec_start(s).health_token) is None,
{
    lemma_token_never_decreases(spec_stop(spec_start(s)), later);
}

/// A second start without a stop in between spawns no workers.
pub proof fn lemma_second_start_spawns_nothing(s: ListenerModel)
    ensures
        !spec_start_spawns(spec_start(s)),
        spec_start(spec_start(s)).running,
        spec_start(spec_start(s)).health_token != spec_start(s).health_token,
{
}

} // verus!
