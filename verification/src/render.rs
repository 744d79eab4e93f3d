//! Rendering of one record into its delivered line of text.
//!
//! The prefix is `[LEVEL] [HH:MM:SS]`. The full line is the prefix padded on
//! the right with spaces to a minimum width of 27 characters (never
//! truncated), followed immediately by the record's message.

use vstd::prelude::*;
use crate::severity::Severity;
use crate::timefmt::{format_elapsed, spec_time};

verus! {

/// The minimum width, in characters, that the prefix occupies before the
/// message text begins.
pub const PREFIX_WIDTH: usize = 27;

/// The display name of a severity, as it appears in prefixes and envelopes.
pub open spec fn spec_severity_name(s: Severity) -> Seq<char> {
    match s {
        Severity::Off => seq!['O', 'F', 'F'],
        Severity::Error => seq!['E', 'R', 'R', 'O', 'R'],
        Severity::Warn => seq!['W', 'A', 'R', 'N'],
        Severity::Info => seq!['I', 'N', 'F', 'O'],
        Severity::Debug => seq!['D', 'E', 'B', 'U', 'G'],
        Severity::Trace => seq!['T', 'R', 'A', 'C', 'E'],
    }
}

/// The unpadded prefix `[LEVEL] [HH:MM:SS]` for a severity and an elapsed
/// whole-second count.
pub open spec fn spec_prefix(sev: Severity, total: nat) -> Seq<char> {
    seq!['['] + spec_severity_name(sev) + seq![']', ' ', '['] + spec_time(total) + seq![']']
}

/// `s` padded on the right with spaces to at least `w` characters; a string
/// already `w` or wider is returned unchanged.
pub open spec fn spec_pad_to(s: Seq<char>, w: nat) -> Seq<char> {
    if s.len() >= w {
        s
    } else {
        s + Seq::new((w - s.len()) as nat, |i: int| ' ')
    }
}

/// The full delivered line for one record: the padded prefix followed
/// immediately by the message.
pub open spec fn spec_line(sev: Severity, msg: Seq<char>, total: nat) -> Seq<char> {
    spec_pad_to(spec_prefix(sev, total), PREFIX_WIDTH as nat) + msg
}

/// The display name of a severity.
pub fn severity_name(sev: Severity) -> (r: &'static str)
    ensures
        r@ == spec_severity_name(sev),
{
    proof {
        reveal_strlit("OFF");
        reveal_strlit("ERROR");
        reveal_strlit("WARN");
        reveal_strlit("INFO");
        reveal_strlit("DEBUG");
        reveal_strlit("TRACE");
    }
    let r = match sev {
        Severity::Off => "OFF",
        Severity::Error => "ERROR",
        Severity::Warn => "WARN",
        Severity::Info => "INFO",
        Severity::Debug => "DEBUG",
        Severity::Trace => "TRACE",
    };
    proof {
        assert(r@ =~= spec_severity_name(sev));
    }
    r
}

/// Builds the unpadded prefix `[LEVEL] [HH:MM:SS]`.
fn render_prefix(sev: Severity, total: u64) -> (r: String)
    ensures
        r@ == spec_prefix(sev, total as nat),
{
    proof {
        reveal_strlit("[");
        reveal_strlit("] [");
        reveal_strlit("]");
    }
    let mut r = String::from_str("[");
    r.append(severity_name(sev));
    r.append("] [");
    let t = format_elapsed(total);
    r.append(t.as_str());
    r.append("]");
    proof {
        assert(r@ =~= spec_prefix(sev, total as nat));
    }
    r
}

/// Pads `s` on the right with spaces to at least `PREFIX_WIDTH` characters.
fn pad_to_width(s: String) -> (r: String)
    ensures
        r@ == spec_pad_to(s@, PREFIX_WIDTH as nat),
{
    let ghost s0 = s@;
    let mut r = s;
    let n = r.as_str().unicode_len();
    proof {
        reveal_strlit(" ");
    }
    let mut i: usize = n;
    while i < PREFIX_WIDTH
        invariant
            n == s0.len(),
            n <= i,
            n >= PREFIX_WIDTH ==> i == n,
            n < PREFIX_WIDTH ==> i <= PREFIX_WIDTH,
            r@ == s0 + Seq::new((i - n) as nat, |j: int| ' '),
        decreases PREFIX_WIDTH - i,
    {
        r.append(" ");
        i = i + 1;
        proof {
            reveal_strlit(" ");
            assert(r@ =~= s0 + Seq::new((i - n) as nat, |j: int| ' '));
        }
    }
    proof {
        assert(r@ =~= spec_pad_to(s0, PREFIX_WIDTH as nat));
    }
    r
}

/// Renders the full delivered line for one record: the prefix for `sev` and
/// `total` elapsed seconds, padded to the minimum width, then `msg`.
pub fn render_line(sev: Severity, msg: &str, total: u64) -> (r: String)
    ensures
        r@ == spec_line(sev, msg@, total as nat),
{
    let prefix = render_prefix(sev, total);
    let mut r = pad_to_width(prefix);
    r.append(msg);
    r
}

} // verus!
