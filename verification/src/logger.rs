//! The delivery pipeline: severity filter, envelope construction, and the two
//! delivery modes.
//!
//! A `Logger` owns the epoch clock, the configured threshold and delivery
//! mode, and the buffer of pending envelopes. Each record is filtered,
//! rendered and wrapped here; in immediate mode the envelope is handed back to
//! the caller for transmission, in buffered mode it is appended to the buffer
//! until a flush drains everything, in append order, as one batch.

use vstd::prelude::*;
use crate::clock::{elapsed_whole_secs, instant_now};
use crate::envelope::{build_envelope, spec_envelope, Envelope, EnvelopeView};
use crate::severity::{spec_enabled, Severity};

verus! {

/// Whether envelopes are transmitted one by one as they are produced, or
/// accumulated until a flush releases them as one batch.
#[derive(Clone, Copy, Debug, PartialEq, Eq, Structural)]
pub enum DeliveryMode {
    Immediate,
    Buffered,
}

/// What the pipeline did with one record.
pub enum Outcome {
    /// The record was accepted in immediate mode; the caller must transmit
    /// this envelope now.
    Emit(Envelope),
    /// The record was accepted in buffered mode and appended to the buffer.
    Buffered,
    /// The record's severity was below the threshold; nothing was produced.
    Filtered,
}

/// The mathematical content of an `Outcome`.
#[verifier::ext_equal]
pub enum OutcomeView {
    Emit(EnvelopeView),
    Buffered,
    Filtered,
}

impl View for Outcome {
    type V = OutcomeView;

    open spec fn view(&self) -> OutcomeView {
        match self {
            Outcome::Emit(e) => OutcomeView::Emit(e@),
            Outcome::Buffered => OutcomeView::Buffered,
            Outcome::Filtered => OutcomeView::Filtered,
        }
    }
}

/// The contents of a sequence of envelopes.
pub open spec fn envelope_views(s: Seq<Envelope>) -> Seq<EnvelopeView> {
    s.map_values(|e: Envelope| e@)
}

/// The mathematical state of a logger: its configuration and the contents of
/// its buffer, in append order.
#[verifier::ext_equal]
pub struct LoggerView {
    pub threshold: Severity,
    pub mode: DeliveryMode,
    pub buffer: Seq<EnvelopeView>,
}

/// One step of the pipeline: the state after handling a record of severity
/// `sev` with message `msg` at `total` elapsed seconds, and what was done
/// with the record. A record below the threshold changes nothing; an accepted
/// record becomes an envelope that is either handed out (immediate mode) or
/// appended to the buffer (buffered mode).
pub open spec fn spec_handle(st: LoggerView, sev: Severity, msg: Seq<char>, total: nat) -> (
    LoggerView,
    OutcomeView,
) {
    if !spec_enabled(sev, st.threshold) {
        (st, OutcomeView::Filtered)
    } else if st.mode == DeliveryMode::Immediate {
        (st, OutcomeView::Emit(spec_envelope(sev, msg, total)))
    } else {
        (
            LoggerView { buffer: st.buffer.push(spec_envelope(sev, msg, total)), ..st },
            OutcomeView::Buffered,
        )
    }
}

/// A flush: the buffer is emptied, and exactly its former contents, in append
/// order, form the batch.
pub open spec fn spec_flush(st: LoggerView) -> (LoggerView, Seq<EnvelopeView>) {
    (LoggerView { buffer: Seq::empty(), ..st }, st.buffer)
}

/// The capture-and-delivery pipeline for one execution context.
pub struct Logger {
    epoch: web_time::Instant,
    threshold: Severity,
    mode: DeliveryMode,
    buffer: Vec<Envelope>,
}

impl View for Logger {
    type V = LoggerView;

    closed spec fn view(&self) -> LoggerView {
        LoggerView {
            threshold: self.threshold,
            mode: self.mode,
            buffer: envelope_views(self.buffer@),
        }
    }
}

impl Logger {
    /// Creates a logger with the given threshold and delivery mode, an empty
    /// buffer, and an epoch clock captured at this moment.
    pub fn new(threshold: Severity, mode: DeliveryMode) -> (l: Logger)
        ensures
            l@ == (LoggerView { threshold, mode, buffer: Seq::<EnvelopeView>::empty() }),
    {
        let l = Logger { epoch: instant_now(), threshold, mode, buffer: Vec::new() };
        proof {
            assert(l@ =~= LoggerView { threshold, mode, buffer: Seq::<EnvelopeView>::empty() });
        }
        l
    }

    /// The configured threshold.
    pub fn threshold(&self) -> (t: Severity)
        ensures
            t == self@.threshold,
    {
        self.threshold
    }

    /// The configured delivery mode.
    pub fn mode(&self) -> (m: DeliveryMode)
        ensures
            m == self@.mode,
    {
        self.mode
    }

    /// How many envelopes are waiting in the buffer.
    pub fn pending(&self) -> (n: usize)
        ensures
            n == self@.buffer.len(),
    {
        self.buffer.len()
    }

    /// Handles one record whose elapsed-time stamp is `elapsed_secs`: drops it
    /// if its severity is below the threshold, otherwise builds its envelope
    /// and either hands it out (immediate mode) or appends it to the buffer
    /// (buffered mode).
    pub fn handle_record(&mut self, sev: Severity, msg: &str, elapsed_secs: u64) -> (out: Outcome)
        ensures
            final(self)@ == spec_handle(old(self)@, sev, msg@, elapsed_secs as nat).0,
            out@ == spec_handle(old(self)@, sev, msg@, elapsed_secs as nat).1,
    {
        if !sev.enabled_at(self.threshold) {
            return Outcome::Filtered;
        }
        let env = build_envelope(sev, msg, elapsed_secs);
        match self.mode {
            DeliveryMode::Immediate => Outcome::Emit(env),
            DeliveryMode::Buffered => {
                self.buffer.push(env);
                proof {
                    assert(self@ =~= spec_handle(old(self)@, sev, msg@, elapsed_secs as nat).0);
                }
                Outcome::Buffered
            },
        }
    }

    /// Handles one record stamped with the elapsed whole seconds read from
    /// this logger's epoch clock. The stamp depends on the moment of the
    /// call; everything else is as `handle_record` for that stamp.
    pub fn log(&mut self, sev: Severity, msg: &str) -> (out: Outcome)
        ensures
            exists|t: nat|
                final(self)@ == spec_handle(old(self)@, sev, msg@, t).0 && out@ == spec_handle(
                    old(self)@,
                    sev,
                    msg@,
                    t,
                ).1,
    {
        let secs = elapsed_whole_secs(&self.epoch);
        let out = self.handle_record(sev, msg, secs);
        proof {
            assert(final(self)@ == spec_handle(old(self)@, sev, msg@, secs as nat).0 && out@
                == spec_handle(old(self)@, sev, msg@, secs as nat).1);
        }
        out
    }

    /// Atomically drains the buffer: returns every pending envelope, in
    /// append order, and leaves the buffer empty.
    pub fn flush(&mut self) -> (batch: Vec<Envelope>)
        ensures
            final(self)@ == spec_flush(old(self)@).0,
            envelope_views(batch@) == spec_flush(old(self)@).1,
    {
        let mut batch: Vec<Envelope> = Vec::new();
        std::mem::swap(&mut batch, &mut self.buffer);
        proof {
            assert(final(self)@ =~= spec_flush(old(self)@).0);
        }
        batch
    }
}

} // verus!
