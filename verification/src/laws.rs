//! The pipeline's guarantees, stated and proved over the mathematical state
//! machine: filtering produces nothing, immediate mode never buffers, a flush
//! drains exactly what was appended in order, and a second flush is empty.

use vstd::prelude::*;
use crate::envelope::{spec_envelope, EnvelopeView};
use crate::logger::{spec_flush, spec_handle, DeliveryMode, LoggerView, OutcomeView};
use crate::render::{spec_line, spec_pad_to, spec_prefix, PREFIX_WIDTH};
use crate::severity::{spec_enabled, Severity};

verus! {

/// A record below the configured threshold is dropped before any formatting:
/// the logger's state is unchanged and no envelope is produced, in either
/// delivery mode.
pub proof fn lemma_filtered_record_produces_nothing(
    st: LoggerView,
    sev: Severity,
    msg: Seq<char>,
    total: nat,
)
    requires
        !spec_enabled(sev, st.threshold),
    ensures
        spec_handle(st, sev, msg, total).0 == st,
        spec_handle(st, sev, msg, total).1 == OutcomeView::Filtered,
{
}

/// In immediate mode nothing is ever buffered: handling any record leaves the
/// state unchanged, and each accepted record yields exactly one envelope,
/// handed out at once.
pub proof fn lemma_immediate_mode_never_buffers(
    st: LoggerView,
    sev: Severity,
    msg: Seq<char>,
    total: nat,
)
    requires
        st.mode == DeliveryMode::Immediate,
    ensures
        spec_handle(st, sev, msg, total).0 == st,
        spec_enabled(sev, st.threshold) ==> spec_handle(st, sev, msg, total).1
            == OutcomeView::Emit(spec_envelope(sev, msg, total)),
        !spec_enabled(sev, st.threshold) ==> spec_handle(st, sev, msg, total).1
            == OutcomeView::Filtered,
{
}

/// The rendered line opens with the prefix padded to at least `PREFIX_WIDTH`
/// characters: the prefix is never truncated, the message begins only after
/// the padding, and the whole line is exactly padded prefix plus message.
pub proof fn lemma_prefix_min_width(sev: Severity, msg: Seq<char>, total: nat)
    ensures
        spec_line(sev, msg, total) == spec_pad_to(spec_prefix(sev, total), PREFIX_WIDTH as nat)
            + msg,
        spec_pad_to(spec_prefix(sev, total), PREFIX_WIDTH as nat).len() >= PREFIX_WIDTH,
        forall|i: int|
            0 <= i < spec_prefix(sev, total).len() ==> spec_pad_to(
                spec_prefix(sev, total),
                PREFIX_WIDTH as nat,
            )[i] == spec_prefix(sev, total)[i],
{
}

/// One record as the pipeline sees it: a severity, a message, and the elapsed
/// whole-second stamp it carries.
pub struct RecordView {
    pub sev: Severity,
    pub msg: Seq<char>,
    pub total: nat,
}

/// The state after handling a sequence of records in order.
pub open spec fn spec_handle_all(st: LoggerView, recs: Seq<RecordView>) -> LoggerView
    decreases recs.len(),
{
    if recs.len() == 0 {
        st
    } else {
        spec_handle_all(
            spec_handle(st, recs[0].sev, recs[0].msg, recs[0].total).0,
            recs.drop_first(),
        )
    }
}

/// The envelopes of exactly those records that pass the threshold, in record
/// order.
pub open spec fn accepted_envelopes(threshold: Severity, recs: Seq<RecordView>) -> Seq<
    EnvelopeView,
>
    decreases recs.len(),
{
    if recs.len() == 0 {
        Seq::<EnvelopeView>::empty()
    } else if spec_enabled(recs[0].sev, threshold) {
        seq![spec_envelope(recs[0].sev, recs[0].msg, recs[0].total)] + accepted_envelopes(
            threshold,
            recs.drop_first(),
        )
    } else {
        accepted_envelopes(threshold, recs.drop_first())
    }
}

/// In buffered mode, records appended between two flushes are delivered by the
/// next flush exactly once and in append order: after handling any sequence of
/// records, the buffer holds the old contents followed by exactly the accepted
/// records' envelopes, a flush returns precisely that sequence, and the buffer
/// is empty immediately afterwards.
pub proof fn lemma_buffered_flush_delivers_all(st: LoggerView, recs: Seq<RecordView>)
    requires
        st.mode == DeliveryMode::Buffered,
    ensures
        spec_handle_all(st, recs).threshold == st.threshold,
        spec_handle_all(st, recs).mode == st.mode,
        spec_handle_all(st, recs).buffer == st.buffer + accepted_envelopes(st.threshold, recs),
        spec_flush(spec_handle_all(st, recs)).1 == st.buffer + accepted_envelopes(
            st.threshold,
            recs,
        ),
        spec_flush(spec_handle_all(st, recs)).0.buffer == Seq::<EnvelopeView>::empty(),
    decreases recs.len(),
{
    if recs.len() == 0 {
        assert(st.buffer + accepted_envelopes(st.threshold, recs) =~= st.buffer);
    } else {
        let st1 = spec_handle(st, recs[0].sev, recs[0].msg, recs[0].total).0;
        lemma_buffered_flush_delivers_all(st1, recs.drop_first());
        if spec_enabled(recs[0].sev, st.threshold) {
            let env = spec_envelope(recs[0].sev, recs[0].msg, recs[0].total);
            assert(st.buffer.push(env) + accepted_envelopes(st.threshold, recs.drop_first())
                =~= st.buffer + accepted_envelopes(st.threshold, recs));
        } else {
            assert(st.buffer + accepted_envelopes(st.threshold, recs.drop_first()) =~= st.buffer
                + accepted_envelopes(st.threshold, recs));
        }
    }
}

/// Flushing is idempotent: one flush returns the whole buffer, and a second
/// flush with no appends in between returns the empty batch — no envelope is
/// ever delivered twice.
pub proof fn lemma_flush_idempotent(st: LoggerView)
    ensures
        spec_flush(st).1 == st.buffer,
        spec_flush(st).0.buffer == Seq::<EnvelopeView>::empty(),
        spec_flush(spec_flush(st).0).1 == Seq::<EnvelopeView>::empty(),
{
}

} // verus!
