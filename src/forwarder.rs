//! The forwarder's decisions: a pointer move is never emitted on arrival but held,
//! replacing any move held before it, and is flushed on a poll timeout once the
//! throttle window is open; discrete events pass in arrival order, each right behind the move held
//! before it, which is flushed first whatever the throttle says; and a final drain
//! flushes the held move unconditionally.
//!
//! Times are milliseconds on the forwarder's own monotonic clock.

use crate::diagnostics::{DiagnosticsState, MAX_INPUT_EVENTS};
use crate::event::{GlobalInputEvent, InputKind};
use crate::ring::bounded_push_all;
use vstd::prelude::*;

verus! {

pub const MOUSE_MOVE_THROTTLE_MS: u64 = 16;

pub const FORWARDER_POLL_MS: u64 = 4;

pub const FORWARDER_IDLE_POLL_MS: u64 = 80;

/// The forwarder's coalescing state.
pub struct ForwarderState {
    /// The most recent pointer move not yet emitted.
    pub pending_mouse_move: Option<GlobalInputEvent>,
    /// When a pointer move was last emitted; `None` before the first.
    pub last_mouse_emit: Option<u64>,
}

/// A held move may be emitted at `now`: a throttle window has passed since the last
/// move was emitted, or none was.
pub open spec fn spec_throttle_open(last_emit: Option<u64>, now: u64) -> bool {
    match last_emit {
        Some(t) => now >= t + MOUSE_MOVE_THROTTLE_MS,
        None => true,
    }
}

/// The state and the emitted move after a flush attempt at `now`.
pub open spec fn spec_flush(s: ForwarderState, now: u64, force: bool) -> (ForwarderState, Option<GlobalInputEvent>) {
    match s.pending_mouse_move {
        Some(e) => if force || spec_throttle_open(s.last_mouse_emit, now) {
            (ForwarderState { pending_mouse_move: None, last_mouse_emit: Some(now) }, Some(e))
        } else {
            (s, None)
        },
        None => (s, None),
    }
}

pub open spec fn spec_option_seq(e: Option<GlobalInputEvent>) -> Seq<GlobalInputEvent> {
    match e {
        Some(x) => seq![x],
        None => Seq::empty(),
    }
}

/// The state and the emitted events after `event` arrives at `now`: a move only
/// replaces the held one and nothing is emitted; any other event is emitted right
/// after the held move, which is flushed first unconditionally.
pub open spec fn spec_receive(s: ForwarderState, event: GlobalInputEvent, now: u64) -> (ForwarderState, Seq<GlobalInputEvent>) {
    if event.kind == InputKind::MouseMove {
        (ForwarderState { pending_mouse_move: Some(event), ..s }, Seq::empty())
    } else {
        let f = spec_flush(s, now, true);
        (f.0, spec_option_seq(f.1).push(event))
    }
}

impl ForwarderState {
    /// Only a pointer move is ever held.
    pub open spec fn wf(&self) -> bool {
        self.pending_mouse_move matches Some(e) ==> e.kind == InputKind::MouseMove
    }

    pub fn new() -> (r: ForwarderState)
        ensures
            r.wf(),
            r.pending_mouse_move is None,
            r.last_mouse_emit is None,
    {
        ForwarderState { pending_mouse_move: None, last_mouse_emit: None }
    }

    /// Takes the held move for emission if `force` is set or the throttle window is open.
    pub fn maybe_emit_pending_mouse_move(&mut self, now_ms: u64, force: bool) -> (r: Option<GlobalInputEvent>)
        requires
            old(self).wf(),
        ensures
            (*final(self), r) == spec_flush(*old(self), now_ms, force),
            final(self).wf(),
            r matches Some(e) ==> e.kind == InputKind::MouseMove,
    {
        if self.pending_mouse_move.is_none() {
            return None;
        }
        if !force {
            if let Some(last) = self.last_mouse_emit {
                if now_ms < last || now_ms - last < MOUSE_MOVE_THROTTLE_MS {
                    return None;
                }
            }
        }
        let payload = self.pending_mouse_move.take();
        self.last_mouse_emit = Some(now_ms);
        payload
    }

    /// Handles an event taken from the channel at `now_ms`; returns what to emit, in order.
    pub fn on_event(&mut self, event: GlobalInputEvent, now_ms: u64) -> (r: Vec<GlobalInputEvent>)
        requires
            old(self).wf(),
        ensures
            (*final(self), r@) == spec_receive(*old(self), event, now_ms),
            final(self).wf(),
    {
        let mut out: Vec<GlobalInputEvent> = Vec::new();
        if event.is_mouse_move() {
            self.pending_mouse_move = Some(event);
            assert(out@ =~= spec_receive(*old(self), event, now_ms).1);
            return out;
        }
        if let Some(e) = self.maybe_emit_pending_mouse_move(now_ms, true) {
            out.push(e);
        }
        out.push(event);
        assert(out@ =~= spec_receive(*old(self), event, now_ms).1);
        out
    }

    /// Handles a receive that timed out at `now_ms`.
    pub fn on_timeout(&mut self, now_ms: u64) -> (r: Option<GlobalInputEvent>)
        requires
            old(self).wf(),
        ensures
            (*final(self), r) == spec_flush(*old(self), now_ms, false),
            final(self).wf(),
            r matches Some(e) ==> e.kind == InputKind::MouseMove,
    {
        self.maybe_emit_pending_mouse_move(now_ms, false)
    }

    /// The final drain: the held move is emitted whatever the throttle says.
    pub fn finish(&mut self, now_ms: u64) -> (r: Option<GlobalInputEvent>)
        requires
            old(self).wf(),
        ensures
            (*final(self), r) == spec_flush(*old(self), now_ms, true),
            final(self).wf(),
            r matches Some(e) ==> e.kind == InputKind::MouseMove,
            r == old(self).pending_mouse_move,
            final(self).pending_mouse_move is None,
    {
        self.maybe_emit_pending_mouse_move(now_ms, true)
    }
}

/// Records emitted events in the diagnostics store, each once, in emission order.
pub fn record_emitted(diagnostics: &mut DiagnosticsState, emitted: &Vec<GlobalInputEvent>)
    ensures
        final(diagnostics).events() == bounded_push_all(old(diagnostics).events(), MAX_INPUT_EVENTS as nat, emitted@),
        final(diagnostics).errors() == old(diagnostics).errors(),
        final(diagnostics).fps_bits() == old(diagnostics).fps_bits(),
        final(diagnostics).model_load_bits() == old(diagnostics).model_load_bits(),
{
    let mut i: usize = 0;
    while i < emitted.len()
        invariant
            i <= emitted@.len(),
            diagnostics.events() == bounded_push_all(
                old(diagnostics).events(),
                MAX_INPUT_EVENTS as nat,
                emitted@.subrange(0, i as int),
            ),
            diagnostics.errors() == old(diagnostics).errors(),
            diagnostics.fps_bits() == old(diagnostics).fps_bits(),
            diagnostics.model_load_bits() == old(diagnostics).model_load_bits(),
        decreases emitted@.len() - i,
    {
        diagnostics.record_input_event(emitted[i].duplicate());
        proof {
            assert(emitted@.subrange(0, i + 1).drop_last() =~= emitted@.subrange(0, i as int));
        }
        i = i + 1;
    }
    assert(emitted@.subrange(0, i as int) =~= emitted@);
}

/// Two moves followed by a discrete event, whatever the state and the times: neither
/// move is emitted on arrival, and the discrete event brings out exactly the most
/// recent move followed by itself; the earlier move is never emitted.
pub proof fn lemma_latest_move_precedes_next_discrete(
    s: ForwarderState,
    first: GlobalInputEvent,
    second: GlobalInputEvent,
    discrete: GlobalInputEvent,
    t1: u64,
    t2: u64,
    t3: u64,
)
    requires
        s.wf(),
        first.kind == InputKind::MouseMove,
        second.kind == InputKind::MouseMove,
        discrete.kind != InputKind::MouseMove,
    ensures
        ({
            let r1 = spec_receive(s, first, t1);
            let r2 = spec_receive(r1.0, second, t2);
            let r3 = spec_receive(r2.0, discrete, t3);
            &&& r1.1.len() == 0
            &&& r2.1.len() == 0
            &&& r3.1 == seq![second, discrete]
            &&& r3.0.pending_mouse_move is None
        }),
{
    let r3 = spec_receive(spec_receive(spec_receive(s, first, t1).0, second, t2).0, discrete, t3);
    assert(r3.1 =~= seq![second, discrete]);
}

/// The state and the emitted moves after poll timeouts at each of `times`, in order.
pub open spec fn spec_timeouts(s: ForwarderState, times: Seq<u64>) -> (ForwarderState, Seq<GlobalInputEvent>)
    decreases times.len(),
{
    if times.len() == 0 {
        (s, Seq::empty())
    } else {
        let before = spec_timeouts(s, times.drop_last());
        let f = spec_flush(before.0, times.last(), false);
        (f.0, before.1 + spec_option_seq(f.1))
    }
}

/// While a move `m` is the only one received, any number of poll timeouts emit it at
/// most once, and whatever they did, `m` is held or was emitted, not both.
proof fn lemma_timeouts_emit_held_move_at_most_once(s: ForwarderState, m: GlobalInputEvent, times: Seq<u64>)
    requires
        s.pending_mouse_move == Some(m),
    ensures
        ({
            let r = spec_timeouts(s, times);
            ||| r.0.pending_mouse_move == Some(m) && r.1.len() == 0
            ||| r.0.pending_mouse_move is None && r.1 == seq![m]
        }),
    decreases times.len(),
{
    if times.len() > 0 {
        lemma_timeouts_emit_held_move_at_most_once(s, m, times.drop_last());
        let before = spec_timeouts(s, times.drop_last());
        let f = spec_flush(before.0, times.last(), false);
        assert(before.1 + spec_option_seq(f.1) =~= (if before.1.len() == 0 { spec_option_seq(f.1) } else { before.1 }));
    }
}

/// A move received with nothing held, followed by any number of poll timeouts and
/// then the final drain, is emitted exactly once over the whole run.
pub proof fn lemma_move_before_stop_emitted_once(
    s: ForwarderState,
    m: GlobalInputEvent,
    t0: u64,
    times: Seq<u64>,
    t_end: u64,
)
    requires
        s.pending_mouse_move is None,
        m.kind == InputKind::MouseMove,
    ensures
        ({
            let r0 = spec_receive(s, m, t0);
            let r1 = spec_timeouts(r0.0, times);
            let r2 = spec_flush(r1.0, t_end, true);
            &&& r0.1 + r1.1 + spec_option_seq(r2.1) == seq![m]
            &&& r2.0.pending_mouse_move is None
        }),
{
    let r0 = spec_receive(s, m, t0);
    lemma_timeouts_emit_held_move_at_most_once(r0.0, m, times);
    let r1 = spec_timeouts(r0.0, times);
    let r2 = spec_flush(r1.0, t_end, true);
    assert(r0.1 + r1.1 + spec_option_seq(r2.1) =~= seq![m]);
}

/// The final drain emits the held move, and a second drain emits nothing: a move held
/// at shutdown is emitted exactly once.
pub proof fn lemma_final_drain_emits_once(s: ForwarderState, t1: u64, t2: u64, force: bool)
    ensures
        spec_flush(s, t1, true).1 == s.pending_mouse_move,
        spec_flush(spec_flush(s, t1, true).0, t2, force).1 is None,
{
}

} // verus!
