//! Bounded diagnostics: recent input events, recent error records and the last
//! reported runtime metrics.

use crate::clock::now_timestamp_ms;
use crate::event::GlobalInputEvent;
use crate::metrics::{spec_updated_metric, update_metric, FPS_MAX_BITS, MODEL_LOAD_MS_MAX_BITS};
use crate::ring::{bounded_push, bounded_push_all, last_n, lemma_bounded_push_all_keeps_last, push_bounded};
use std::collections::VecDeque;
use vstd::prelude::*;

verus! {

pub const MAX_INPUT_EVENTS: usize = 50;

pub const MAX_ERROR_EVENTS: usize = 50;

/// An error or log record, timestamped when it was recorded.
#[derive(Clone, Debug)]
pub struct DiagnosticErrorRecord {
    pub level: String,
    pub message: String,
    pub context: Option<String>,
    pub timestamp: u64,
}

impl DiagnosticErrorRecord {
    /// A copy of the record, equal to it.
    pub fn duplicate(&self) -> (r: DiagnosticErrorRecord)
        ensures
            r == *self,
    {
        DiagnosticErrorRecord {
            level: self.level.clone(),
            message: self.message.clone(),
            context: crate::event::copy_text(&self.context),
            timestamp: self.timestamp,
        }
    }
}

/// A point-in-time copy of the diagnostics, oldest entries first. Metrics are
/// `f64` bit patterns.
#[derive(Clone, Debug)]
pub struct DiagnosticsSnapshot {
    pub input_events: Vec<GlobalInputEvent>,
    pub fps: Option<u64>,
    pub model_load_ms: Option<u64>,
    pub recent_errors: Vec<DiagnosticErrorRecord>,
}

/// The diagnostics store. Callers that share it between threads hold it behind a lock.
pub struct DiagnosticsState {
    input_events: VecDeque<GlobalInputEvent>,
    recent_errors: VecDeque<DiagnosticErrorRecord>,
    fps: Option<u64>,
    model_load_ms: Option<u64>,
}

impl DiagnosticsState {
    /// The recorded input events, oldest first.
    pub closed spec fn events(&self) -> Seq<GlobalInputEvent> {
        self.input_events@
    }

    /// The recorded error records, oldest first.
    pub closed spec fn errors(&self) -> Seq<DiagnosticErrorRecord> {
        self.recent_errors@
    }

    /// The last stored frame rate.
    pub closed spec fn fps_bits(&self) -> Option<u64> {
        self.fps
    }

    /// The last stored model load time in milliseconds.
    pub closed spec fn model_load_bits(&self) -> Option<u64> {
        self.model_load_ms
    }

    pub fn new() -> (r: DiagnosticsState)
        ensures
            r.events().len() == 0,
            r.errors().len() == 0,
            r.fps_bits() is None,
            r.model_load_bits() is None,
    {
        DiagnosticsState {
            input_events: VecDeque::new(),
            recent_errors: VecDeque::new(),
            fps: None,
            model_load_ms: None,
        }
    }

    /// Records an emitted input event, evicting the oldest beyond the bound.
    pub fn record_input_event(&mut self, event: GlobalInputEvent)
        ensures
            final(self).events() == bounded_push(old(self).events(), MAX_INPUT_EVENTS as nat, event),
            final(self).errors() == old(self).errors(),
            final(self).fps_bits() == old(self).fps_bits(),
            final(self).model_load_bits() == old(self).model_load_bits(),
    {
        push_bounded(&mut self.input_events, MAX_INPUT_EVENTS, event);
    }

    /// Records an error with the given timestamp, evicting the oldest beyond the bound.
    pub fn record_error_at(&mut self, level: String, message: String, context: Option<String>, timestamp: u64)
        ensures
            final(self).errors() == bounded_push(
                old(self).errors(),
                MAX_ERROR_EVENTS as nat,
                DiagnosticErrorRecord { level, message, context, timestamp },
            ),
            final(self).events() == old(self).events(),
            final(self).fps_bits() == old(self).fps_bits(),
            final(self).model_load_bits() == old(self).model_load_bits(),
    {
        let record = DiagnosticErrorRecord { level, message, context, timestamp };
        push_bounded(&mut self.recent_errors, MAX_ERROR_EVENTS, record);
    }

    /// Records an error timestamped with the current time.
    pub fn record_error(&mut self, level: String, message: String, context: Option<String>)
        ensures
            final(self).errors() == bounded_push(
                old(self).errors(),
                MAX_ERROR_EVENTS as nat,
                DiagnosticErrorRecord { level, message, context, timestamp: final(self).errors().last().timestamp },
            ),
            final(self).events() == old(self).events(),
            final(self).fps_bits() == old(self).fps_bits(),
            final(self).model_load_bits() == old(self).model_load_bits(),
    {
        let timestamp = now_timestamp_ms();
        self.record_error_at(level, message, context, timestamp);
    }

    /// Stores the reported metrics: a finite frame rate clamped to `[0, 1000]`, a
    /// finite load time clamped to `[0, 600000]` ms; a missing or non-finite reading
    /// keeps the value stored before.
    pub fn set_metrics(&mut self, fps: Option<u64>, model_load_ms: Option<u64>)
        ensures
            final(self).fps_bits() == spec_updated_metric(old(self).fps_bits(), fps, FPS_MAX_BITS),
            final(self).model_load_bits() == spec_updated_metric(
                old(self).model_load_bits(),
                model_load_ms,
                MODEL_LOAD_MS_MAX_BITS,
            ),
            final(self).events() == old(self).events(),
            final(self).errors() == old(self).errors(),
    {
        self.fps = update_metric(self.fps, fps, FPS_MAX_BITS);
        self.model_load_ms = update_metric(self.model_load_ms, model_load_ms, MODEL_LOAD_MS_MAX_BITS);
    }

    /// A copy of everything recorded, independent of the store afterwards.
    pub fn snapshot(&self) -> (r: DiagnosticsSnapshot)
        ensures
            r.input_events@ == self.events(),
            r.recent_errors@ == self.errors(),
            r.fps == self.fps_bits(),
            r.model_load_ms == self.model_load_bits(),
    {
        let mut input_events: Vec<GlobalInputEvent> = Vec::new();
        let mut i: usize = 0;
        while i < self.input_events.len()
            invariant
                i <= self.input_events@.len(),
                input_events@ == self.input_events@.subrange(0, i as int),
            decreases self.input_events@.len() - i,
        {
            input_events.push(self.input_events[i].duplicate());
            i = i + 1;
            assert(input_events@ =~= self.input_events@.subrange(0, i as int));
        }
        assert(input_events@ =~= self.input_events@);
        let mut recent_errors: Vec<DiagnosticErrorRecord> = Vec::new();
        let mut j: usize = 0;
        while j < self.recent_errors.len()
            invariant
                j <= self.recent_errors@.len(),
                recent_errors@ == self.recent_errors@.subrange(0, j as int),
            decreases self.recent_errors@.len() - j,
        {
            recent_errors.push(self.recent_errors[j].duplicate());
            j = j + 1;
            assert(recent_errors@ =~= self.recent_errors@.subrange(0, j as int));
        }
        assert(recent_errors@ =~= self.recent_errors@);
        DiagnosticsSnapshot { input_events, fps: self.fps, model_load_ms: self.model_load_ms, recent_errors }
    }
}

impl Default for DiagnosticsState {
    fn default() -> (r: DiagnosticsState)
        ensures
            r.events().len() == 0,
            r.errors().len() == 0,
            r.fps_bits() is None,
            r.model_load_bits() is None,
    {
        DiagnosticsState::new()
    }
}

/// What `str::to_lowercase` returns for a string: its Unicode lower-case mapping,
/// which may depend on a character's neighbours (final sigma) and may change the length.
pub uninterp spec fn lower_of(s: Seq<char>) -> Seq<char>;

/// Relies on `str::to_lowercase`: the result depends on the characters alone.
#[verifier::external_body]
fn lowercase(s: &str) -> (r: String)
    ensures
        r@ == lower_of(s@),
{
    s.to_lowercase()
}

/// The severity label that a frontend report is recorded under: the given label
/// lower-cased, or `error` when none is given.
pub open spec fn spec_level_label(level: Option<String>) -> Seq<char> {
    match level {
        Some(l) => lower_of(l@),
        None => "error"@,
    }
}

pub fn normalize_level(level: &Option<String>) -> (r: String)
    ensures
        r@ == spec_level_label(*level),
{
    match level {
        Some(l) => lowercase(l.as_str()),
        None => {
            proof {
                reveal_strlit("error");
            }
            "error".to_string()
        },
    }
}

/// Records an error reported by the presentation layer under its normalized level.
pub fn log_frontend_error(
    diagnostics: &mut DiagnosticsState,
    level: Option<String>,
    message: String,
    context: Option<String>,
) -> (r: Result<(), String>)
    ensures
        r is Ok,
        final(diagnostics).errors().len() > 0,
        final(diagnostics).errors().last().level@ == spec_level_label(level),
        final(diagnostics).errors() == bounded_push(
            old(diagnostics).errors(),
            MAX_ERROR_EVENTS as nat,
            DiagnosticErrorRecord {
                level: final(diagnostics).errors().last().level,
                message,
                context,
                timestamp: final(diagnostics).errors().last().timestamp,
            },
        ),
        final(diagnostics).events() == old(diagnostics).events(),
        final(diagnostics).fps_bits() == old(diagnostics).fps_bits(),
        final(diagnostics).model_load_bits() == old(diagnostics).model_load_bits(),
{
    let normalized_level = normalize_level(&level);
    diagnostics.record_error(normalized_level, message, context);
    Ok(())
}

/// Once more events than the bound have been recorded, the store holds exactly the
/// last `MAX_INPUT_EVENTS` of them in arrival order, whatever it held before.
pub proof fn lemma_recorded_events_keep_last(held: Seq<GlobalInputEvent>, recorded: Seq<GlobalInputEvent>)
    requires
        recorded.len() > MAX_INPUT_EVENTS,
    ensures
        bounded_push_all(held, MAX_INPUT_EVENTS as nat, recorded).len() == MAX_INPUT_EVENTS,
        bounded_push_all(held, MAX_INPUT_EVENTS as nat, recorded) == recorded.subrange(
            recorded.len() - MAX_INPUT_EVENTS,
            recorded.len() as int,
        ),
{
    let m = MAX_INPUT_EVENTS as nat;
    lemma_bounded_push_all_keeps_last(held, m, recorded);
    let all = held + recorded;
    assert(all.subrange(all.len() - m, all.len() as int) =~= recorded.subrange(
        recorded.len() - m,
        recorded.len() as int,
    ));
}

} // verus!
