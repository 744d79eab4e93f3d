//! The transport envelope: the structured value delivered to the host for one
//! accepted record.
//!
//! An envelope carries exactly three fields: a constant `kind` tag that lets
//! the host route the message as a log, the severity's display name, and the
//! rendered line (padded prefix plus message).

use vstd::prelude::*;
use crate::render::{render_line, severity_name, spec_line, spec_severity_name};
use crate::severity::Severity;

verus! {

/// The constant tag that marks an envelope as a log message for host-side
/// routing.
pub open spec fn spec_log_tag() -> Seq<char> {
    seq!['l', 'o', 'g']
}

/// The constant tag that marks an envelope as a log message.
pub fn log_tag() -> (r: &'static str)
    ensures
        r@ == spec_log_tag(),
{
    proof {
        reveal_strlit("log");
        assert("log"@ =~= spec_log_tag());
    }
    "log"
}

/// The structured value delivered to the host for one accepted record.
pub struct Envelope {
    /// The constant routing tag; always the log tag.
    pub kind: String,
    /// The severity's display name.
    pub level: String,
    /// The rendered line: padded prefix followed by the record's message.
    pub message: String,
}

/// The mathematical content of an envelope: its three fields as character
/// sequences.
#[verifier::ext_equal]
pub struct EnvelopeView {
    pub kind: Seq<char>,
    pub level: Seq<char>,
    pub message: Seq<char>,
}

impl View for Envelope {
    type V = EnvelopeView;

    open spec fn view(&self) -> EnvelopeView {
        EnvelopeView { kind: self.kind@, level: self.level@, message: self.message@ }
    }
}

/// The envelope produced for a record of severity `sev` with message `msg`
/// at `total` elapsed seconds.
pub open spec fn spec_envelope(sev: Severity, msg: Seq<char>, total: nat) -> EnvelopeView {
    EnvelopeView {
        kind: spec_log_tag(),
        level: spec_severity_name(sev),
        message: spec_line(sev, msg, total),
    }
}

/// Builds the envelope for one record: the constant kind tag, the severity
/// name, and the rendered line.
pub fn build_envelope(sev: Severity, msg: &str, total: u64) -> (e: Envelope)
    ensures
        e@ == spec_envelope(sev, msg@, total as nat),
{
    let e = Envelope {
        kind: String::from_str(log_tag()),
        level: String::from_str(severity_name(sev)),
        message: render_line(sev, msg, total),
    };
    proof {
        assert(e@ =~= spec_envelope(sev, msg@, total as nat));
    }
    e
}

} // verus!
