//! Scrubbing an error report before it leaves the machine: the identity
//! fields are dropped and every free text (message, exception values, file
//! names and paths of stack frames) has user names in home directory paths
//! replaced.

use vstd::prelude::*;
use crate::telemetry::{anonymize_from, anonymize_text};

verus! {

/// The anonymised form of a text.
pub open spec fn anon(s: Seq<char>) -> Seq<char> {
    anonymize_from(s, 0)
}

/// One frame of a stack trace.
#[derive(Debug)]
pub struct StackFrame {
    pub filename: Option<String>,
    pub abs_path: Option<String>,
}

/// One exception of a report, with its stack trace when it has one.
#[derive(Debug)]
pub struct ExceptionInfo {
    pub value: Option<String>,
    pub frames: Option<Vec<StackFrame>>,
}

/// The fields of an error report that scrubbing reads or clears.
#[derive(Debug)]
pub struct ReportFields {
    /// The reporting user's identity.
    pub user: Option<String>,
    /// The machine's name.
    pub server_name: Option<String>,
    /// The request the error happened in.
    pub request: Option<String>,
    pub message: Option<String>,
    pub exceptions: Vec<ExceptionInfo>,
}

/// An optional text, anonymised.
pub open spec fn opt_anon(s: Option<String>) -> Option<Seq<char>> {
    match s {
        Some(t) => Some(anon(t@)),
        None => None,
    }
}

/// The text of an optional string.
pub open spec fn opt_view(s: Option<String>) -> Option<Seq<char>> {
    match s {
        Some(t) => Some(t@),
        None => None,
    }
}

/// `out` is `f` with its texts anonymised.
pub open spec fn frame_scrubbed(f: StackFrame, out: StackFrame) -> bool {
    opt_view(out.filename) == opt_anon(f.filename) && opt_view(out.abs_path) == opt_anon(f.abs_path)
}

/// `out` is `e` with its texts anonymised and its frames kept in order.
pub open spec fn exception_scrubbed(e: ExceptionInfo, out: ExceptionInfo) -> bool {
    &&& opt_view(out.value) == opt_anon(e.value)
    &&& match (e.frames, out.frames) {
        (None, None) => true,
        (Some(a), Some(b)) => a@.len() == b@.len() && forall|i: int|
            0 <= i < a@.len() ==> #[trigger] frame_scrubbed(a@[i], b@[i]),
        _ => false,
    }
}

fn scrub_text(s: Option<String>) -> (r: Option<String>)
    ensures
        opt_view(r) == opt_anon(s),
{
    match s {
        Some(t) => Some(anonymize_text(t.as_str())),
        None => None,
    }
}

fn scrub_frames(frames: Vec<StackFrame>) -> (r: Vec<StackFrame>)
    ensures
        r@.len() == frames@.len(),
        forall|i: int| 0 <= i < frames@.len() ==> #[trigger] frame_scrubbed(frames@[i], r@[i]),
{
    let ghost all = frames@;
    let n = frames.len();
    let mut rest = frames;
    let mut out: Vec<StackFrame> = Vec::new();
    let mut k: usize = 0;
    while rest.len() > 0
        invariant
            all.len() == n,
            0 <= k <= n,
            rest@ == all.subrange(k as int, n as int),
            out@.len() == k,
            forall|i: int| 0 <= i < k ==> #[trigger] frame_scrubbed(all[i], out@[i]),
        decreases rest@.len(),
    {
        let f = rest.remove(0);
        proof {
            assert(f == all[k as int]);
        }
        let scrubbed = StackFrame { filename: scrub_text(f.filename), abs_path: scrub_text(f.abs_path) };
        out.push(scrubbed);
        k = k + 1;
        proof {
            assert(rest@ =~= all.subrange(k as int, n as int));
        }
    }
    out
}

fn scrub_exceptions(exceptions: Vec<ExceptionInfo>) -> (r: Vec<ExceptionInfo>)
    ensures
        r@.len() == exceptions@.len(),
        forall|i: int| 0 <= i < exceptions@.len() ==> #[trigger] exception_scrubbed(exceptions@[i], r@[i]),
{
    let ghost all = exceptions@;
    let n = exceptions.len();
    let mut rest = exceptions;
    let mut out: Vec<ExceptionInfo> = Vec::new();
    let mut k: usize = 0;
    while rest.len() > 0
        invariant
            all.len() == n,
            0 <= k <= n,
            rest@ == all.subrange(k as int, n as int),
            out@.len() == k,
            forall|i: int| 0 <= i < k ==> #[trigger] exception_scrubbed(all[i], out@[i]),
        decreases rest@.len(),
    {
        let e = rest.remove(0);
        proof {
            assert(e == all[k as int]);
        }
        let value = scrub_text(e.value);
        let frames = match e.frames {
            Some(fs) => Some(scrub_frames(fs)),
            None => None,
        };
        out.push(ExceptionInfo { value, frames });
        k = k + 1;
        proof {
            assert(rest@ =~= all.subrange(k as int, n as int));
        }
    }
    out
}

/// Scrubs a report before sending: no user, machine name or request, and
/// the message, exception values and stack frame file names and paths
/// anonymised, everything else as it was. The report is always sent.
pub fn anonymize_event(event: ReportFields) -> (r: Option<ReportFields>)
    ensures
        r matches Some(out) && {
            &&& out.user is None && out.server_name is None && out.request is None
            &&& opt_view(out.message) == opt_anon(event.message)
            &&& out.exceptions@.len() == event.exceptions@.len()
            &&& forall|i: int| 0 <= i < event.exceptions@.len() ==> #[trigger] exception_scrubbed(
                event.exceptions@[i],
                out.exceptions@[i],
            )
        },
{
    let message = scrub_text(event.message);
    let exceptions = scrub_exceptions(event.exceptions);
    Some(ReportFields { user: None, server_name: None, request: None, message, exceptions })
}

} // verus!
