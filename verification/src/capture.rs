//! Idea capture service: remote submission framing and the durable
//! offline fallback.
//!
//! A capture first goes to the remote gateway as a JSON body framed here.
//! When the gateway rejects the idea or cannot be reached, the idea is
//! appended to the local offline log instead, as one `[timestamp] content`
//! line, and the caller still sees a success — only a failing local append
//! surfaces as an error. The service keeps the in-process record of what
//! was acknowledged remotely and what was appended locally; the unverified
//! shell performs the actual POST and the actual file append and reports
//! each outcome back.

use vstd::prelude::*;
use vstd::string::StrSliceExecFns;
use vstd::string::StringExecFns;

verus! {

/// Hexadecimal digit for one nibble.
pub open spec fn hex_char(n: u8) -> char
    recommends
        n < 16,
{
    if n == 0 { '0' }
    else if n == 1 { '1' }
    else if n == 2 { '2' }
    else if n == 3 { '3' }
    else if n == 4 { '4' }
    else if n == 5 { '5' }
    else if n == 6 { '6' }
    else if n == 7 { '7' }
    else if n == 8 { '8' }
    else if n == 9 { '9' }
    else if n == 10 { 'a' }
    else if n == 11 { 'b' }
    else if n == 12 { 'c' }
    else if n == 13 { 'd' }
    else if n == 14 { 'e' }
    else { 'f' }
}

/// How one character appears inside a JSON string literal.
pub open spec fn json_escaped_char(c: char) -> Seq<char> {
    if c == '"' { seq!['\\', '"'] }
    else if c == '\\' { seq!['\\', '\\'] }
    else if c == '\n' { seq!['\\', 'n'] }
    else if c == '\r' { seq!['\\', 'r'] }
    else if c == '\t' { seq!['\\', 't'] }
    else if (c as u32) < 32 {
        seq!['\\', 'u', '0', '0', hex_char((c as u32 / 16) as u8), hex_char((c as u32 % 16) as u8)]
    } else {
        seq![c]
    }
}

/// A whole text as it appears inside a JSON string literal.
pub open spec fn json_escaped(s: Seq<char>) -> Seq<char>
    decreases s.len(),
{
    if s.len() == 0 {
        Seq::empty()
    } else {
        json_escaped(s.drop_last()) + json_escaped_char(s.last())
    }
}

/// The JSON body submitted to the remote gateway for one idea.
pub open spec fn spec_payload(content: Seq<char>, timestamp: Seq<char>) -> Seq<char> {
    "{\"content\":\""@ + json_escaped(content) + "\",\"source\":\"desktop_app\",\"timestamp\":\""@
        + json_escaped(timestamp) + "\"}"@
}

/// One line of the offline log.
pub open spec fn spec_entry(timestamp: Seq<char>, content: Seq<char>) -> Seq<char> {
    seq!['['] + timestamp + seq![']', ' '] + content + seq!['\n']
}

/// What a capture timestamp looks like: non-empty, and free of the
/// characters that would break the one-line log format.
pub open spec fn timestamp_wf(s: Seq<char>) -> bool {
    &&& s.len() > 0
    &&& forall|i: int| 0 <= i < s.len() ==> s[i] != '\n' && s[i] != '\r' && s[i] != ']'
}

/// Relies on chrono's `Utc::now().to_rfc3339()`: the current UTC instant
/// in RFC 3339 form. chrono writes it from ASCII digits and the
/// separators `-`, `:`, `T`, `.`, `+`, `Z` (a sign for out-of-range
/// years), so the result is never empty and never holds a newline, a
/// carriage return or `]`.
#[verifier::external_body]
fn now_rfc3339() -> (r: String)
    ensures
        timestamp_wf(r@),
{
    chrono::Utc::now().to_rfc3339()
}

fn hex_digit_str(n: u8) -> (r: &'static str)
    requires
        n < 16,
    ensures
        r@ == seq![hex_char(n)],
{
    proof {
        reveal_strlit("0");
        reveal_strlit("1");
        reveal_strlit("2");
        reveal_strlit("3");
        reveal_strlit("4");
        reveal_strlit("5");
        reveal_strlit("6");
        reveal_strlit("7");
        reveal_strlit("8");
        reveal_strlit("9");
        reveal_strlit("a");
        reveal_strlit("b");
        reveal_strlit("c");
        reveal_strlit("d");
        reveal_strlit("e");
        reveal_strlit("f");
    }
    let r = if n == 0 { "0" }
    else if n == 1 { "1" }
    else if n == 2 { "2" }
    else if n == 3 { "3" }
    else if n == 4 { "4" }
    else if n == 5 { "5" }
    else if n == 6 { "6" }
    else if n == 7 { "7" }
    else if n == 8 { "8" }
    else if n == 9 { "9" }
    else if n == 10 { "a" }
    else if n == 11 { "b" }
    else if n == 12 { "c" }
    else if n == 13 { "d" }
    else if n == 14 { "e" }
    else { "f" };
    proof {
        assert(r@ =~= seq![hex_char(n)]);
    }
    r
}

/// Escapes a text for use inside a JSON string literal.
pub fn json_escape(s: &str) -> (r: String)
    ensures
        r@ == json_escaped(s@),
{
    let len = s.unicode_len();
    let mut out = String::new();
    let mut i: usize = 0;
    while i < len
        invariant
            len == s@.len(),
            i <= len,
            out@ == json_escaped(s@.take(i as int)),
        decreases len - i,
    {
        let c = s.get_char(i);
        if c == '"' {
            proof { reveal_strlit("\\\""); }
            out.append("\\\"");
            proof { assert(out@ =~= json_escaped(s@.take(i as int)) + json_escaped_char(c)); }
        } else if c == '\\' {
            proof { reveal_strlit("\\\\"); }
            out.append("\\\\");
            proof { assert(out@ =~= json_escaped(s@.take(i as int)) + json_escaped_char(c)); }
        } else if c == '\n' {
            proof { reveal_strlit("\\n"); }
            out.append("\\n");
            proof { assert(out@ =~= json_escaped(s@.take(i as int)) + json_escaped_char(c)); }
        } else if c == '\r' {
            proof { reveal_strlit("\\r"); }
            out.append("\\r");
            proof { assert(out@ =~= json_escaped(s@.take(i as int)) + json_escaped_char(c)); }
        } else if c == '\t' {
            proof { reveal_strlit("\\t"); }
            out.append("\\t");
            proof { assert(out@ =~= json_escaped(s@.take(i as int)) + json_escaped_char(c)); }
        } else if (c as u32) < 32 {
            let code = c as u32;
            proof { reveal_strlit("\\u00"); }
            out.append("\\u00");
            out.append(hex_digit_str((code / 16) as u8));
            out.append(hex_digit_str((code % 16) as u8));
            proof { assert(out@ =~= json_escaped(s@.take(i as int)) + json_escaped_char(c)); }
        } else {
            let piece = s.substring_char(i, i + 1);
            out.append(piece);
            proof {
                assert(piece@ =~= seq![c]);
                assert(out@ =~= json_escaped(s@.take(i as int)) + json_escaped_char(c));
            }
        }
        proof {
            assert(s@.take(i + 1 as int).drop_last() =~= s@.take(i as int));
            assert(s@.take(i + 1 as int).last() == c);
        }
        i += 1;
    }
    proof {
        assert(s@.take(len as int) =~= s@);
    }
    out
}

/// Frames the JSON body `{content, source: "desktop_app", timestamp}`.
pub fn payload_json(content: &str, timestamp: &str) -> (r: String)
    ensures
        r@ == spec_payload(content@, timestamp@),
{
    let mut out = String::new();
    out.append("{\"content\":\"");
    let escaped_content = json_escape(content);
    out.append(escaped_content.as_str());
    out.append("\",\"source\":\"desktop_app\",\"timestamp\":\"");
    let escaped_ts = json_escape(timestamp);
    out.append(escaped_ts.as_str());
    out.append("\"}");
    proof {
        assert(out@ =~= spec_payload(content@, timestamp@));
    }
    out
}

/// Renders one offline log line, `[timestamp] content` plus a newline.
pub fn offline_entry(timestamp: &str, content: &str) -> (r: String)
    ensures
        r@ == spec_entry(timestamp@, content@),
{
    proof {
        reveal_strlit("[");
        reveal_strlit("] ");
        reveal_strlit("\n");
    }
    let mut out = String::new();
    out.append("[");
    out.append(timestamp);
    out.append("] ");
    out.append(content);
    out.append("\n");
    proof {
        assert(out@ =~= spec_entry(timestamp@, content@));
    }
    out
}

/// What the remote gateway did with one submission.
#[derive(Clone, Debug, PartialEq, Eq)]
pub enum RemoteOutcome {
    /// A 2xx answer; the field is the response body, returned verbatim.
    Accepted(String),
    /// The gateway answered outside 2xx; the field is the status code.
    Rejected(u16),
    /// Network failure or timeout: no answer at all.
    Unreachable,
}

/// Why a capture fell back to the offline log. Both causes degrade the
/// same way, but stay distinguishable for diagnostics.
#[derive(Clone, Copy, Debug, PartialEq, Eq, Structural)]
pub enum FallbackReason {
    RemoteRejected(u16),
    RemoteUnreachable,
}

/// What one capture reports to the caller.
#[derive(Clone, Debug, PartialEq, Eq)]
pub enum CaptureOutcome {
    /// The gateway accepted; the body it answered with, verbatim.
    Remote(String),
    /// The idea is durably in the offline log.
    StoredOffline(FallbackReason),
    /// Even the local append failed: the only hard failure.
    LocalStoreFailed,
}

/// The next move after the remote step of a capture.
#[derive(Clone, Debug, PartialEq, Eq)]
pub enum CaptureStep {
    /// The capture is finished.
    Done(CaptureOutcome),
    /// The shell must append `entry` to the offline log and report the
    /// result through `local_append_result`.
    StoreLocally { entry: String, timestamp: String, reason: FallbackReason },
}

/// The durable record a capture service has built up.
pub struct CaptureLog {
    /// Contents the remote gateway acknowledged, oldest first.
    pub acknowledged: Seq<Seq<char>>,
    /// Lines appended to the local offline log, oldest first.
    pub offline: Seq<Seq<char>>,
}

/// Transition of the remote step: an acknowledged content is recorded;
/// nothing else changes yet.
pub open spec fn spec_capture_idea(log: CaptureLog, content: Seq<char>, remote: RemoteOutcome) -> CaptureLog {
    match remote {
        RemoteOutcome::Accepted(_) => (CaptureLog {
            acknowledged: log.acknowledged.push(content),
            ..log
        }),
        _ => log,
    }
}

/// Transition of the local step: a successful append extends the offline
/// record; a failed one leaves everything untouched.
pub open spec fn spec_local_append(log: CaptureLog, entry: Seq<char>, appended: bool) -> CaptureLog {
    if appended {
        (CaptureLog { offline: log.offline.push(entry), ..log })
    } else {
        log
    }
}

/// Composes the idea capture protocol around the remote gateway and the
/// offline log.
pub struct CaptureService {
    /// Contents the remote gateway acknowledged, oldest first.
    pub acknowledged: Vec<String>,
    /// Lines this process appended to the offline log, oldest first.
    pub offline_log: Vec<String>,
}

impl CaptureService {
    /// The durable record as a mathematical log.
    pub open spec fn log(self) -> CaptureLog {
        (CaptureLog {
            acknowledged: self.acknowledged.deep_view(),
            offline: self.offline_log.deep_view(),
        })
    }

    pub fn new() -> (r: CaptureService)
        ensures
            r.log().acknowledged == Seq::<Seq<char>>::empty(),
            r.log().offline == Seq::<Seq<char>>::empty(),
    {
        let r = CaptureService { acknowledged: Vec::new(), offline_log: Vec::new() };
        proof {
            assert(r.log().acknowledged =~= Seq::<Seq<char>>::empty());
            assert(r.log().offline =~= Seq::<Seq<char>>::empty());
        }
        r
    }

    /// The remote step of one capture. On acceptance the capture is done
    /// and the response body is the result, verbatim. On rejection or an
    /// unreachable gateway the caller is handed the exact log line to
    /// append, stamped with the current time, and the cause; nothing has
    /// failed visibly yet.
    pub fn capture_idea(&mut self, content: &str, remote: &RemoteOutcome) -> (r: CaptureStep)
        ensures
            final(self).log() == spec_capture_idea(old(self).log(), content@, *remote),
            (*remote matches RemoteOutcome::Accepted(body) ==> (r matches CaptureStep::Done(
                CaptureOutcome::Remote(b),
            ) && b@ == body@)),
            (*remote matches RemoteOutcome::Rejected(status) ==> (r matches CaptureStep::StoreLocally {
                entry,
                timestamp,
                reason,
            } && entry@ == spec_entry(timestamp@, content@) && timestamp_wf(timestamp@) && reason
                == FallbackReason::RemoteRejected(status))),
            (*remote matches RemoteOutcome::Unreachable ==> (r matches CaptureStep::StoreLocally {
                entry,
                timestamp,
                reason,
            } && entry@ == spec_entry(timestamp@, content@) && timestamp_wf(timestamp@) && reason
                == FallbackReason::RemoteUnreachable)),
    {
        match remote {
            RemoteOutcome::Accepted(body) => {
                self.acknowledged.push(content.to_owned());
                proof {
                    assert(final(self).log().acknowledged =~= old(self).log().acknowledged.push(
                        content@,
                    ));
                    assert(final(self).log().offline =~= old(self).log().offline);
                }
                CaptureStep::Done(CaptureOutcome::Remote(body.clone()))
            },
            RemoteOutcome::Rejected(status) => {
                let timestamp = now_rfc3339();
                let entry = offline_entry(timestamp.as_str(), content);
                CaptureStep::StoreLocally {
                    entry,
                    timestamp,
                    reason: FallbackReason::RemoteRejected(*status),
                }
            },
            RemoteOutcome::Unreachable => {
                let timestamp = now_rfc3339();
                let entry = offline_entry(timestamp.as_str(), content);
                CaptureStep::StoreLocally {
                    entry,
                    timestamp,
                    reason: FallbackReason::RemoteUnreachable,
                }
            },
        }
    }

    /// The local step of one capture: the shell reports whether the file
    /// append succeeded. Success records the line and stays a non-error
    /// for the caller; failure is the one hard failure of a capture, and
    /// the record is left untouched.
    pub fn local_append_result(&mut self, entry: String, reason: FallbackReason, appended: bool) -> (r: CaptureOutcome)
        ensures
            final(self).log() == spec_local_append(old(self).log(), entry@, appended),
            appended ==> r == CaptureOutcome::StoredOffline(reason),
            !appended ==> r == CaptureOutcome::LocalStoreFailed,
    {
        if appended {
            self.offline_log.push(entry);
            proof {
                assert(final(self).log().offline =~= old(self).log().offline.push(entry@));
                assert(final(self).log().acknowledged =~= old(self).log().acknowledged);
            }
            CaptureOutcome::StoredOffline(reason)
        } else {
            CaptureOutcome::LocalStoreFailed
        }
    }
}

/// A capture never loses the idea: whenever the gateway accepted or the
/// local append succeeded, the content survives the two capture steps —
/// acknowledged remotely or embedded in an offline log line — and the
/// reported outcome is a success in exactly those runs.
pub proof fn lemma_capture_never_loses(
    log: CaptureLog,
    content: Seq<char>,
    timestamp: Seq<char>,
    remote: RemoteOutcome,
    appended: bool,
)
    requires
        matches!(remote, RemoteOutcome::Accepted(_)) || appended,
    ensures
        ({
            let mid = spec_capture_idea(log, content, remote);
            let fin = if matches!(remote, RemoteOutcome::Accepted(_)) {
                mid
            } else {
                spec_local_append(mid, spec_entry(timestamp, content), appended)
            };
            fin.acknowledged.contains(content) || fin.offline.contains(
                spec_entry(timestamp, content),
            )
        }),
{
    let mid = spec_capture_idea(log, content, remote);
    match remote {
        RemoteOutcome::Accepted(_) => {
            assert(mid.acknowledged.last() == content);
        },
        _ => {
            let fin = spec_local_append(mid, spec_entry(timestamp, content), appended);
            assert(fin.offline.last() == spec_entry(timestamp, content));
        },
    }
}

/// An offline log line embeds the captured content verbatim, between the
/// timestamp bracket and the final newline.
pub proof fn lemma_entry_embeds_content(timestamp: Seq<char>, content: Seq<char>)
    ensures
        spec_entry(timestamp, content).subrange(
            timestamp.len() as int + 3,
            timestamp.len() as int + 3 + content.len() as int,
        ) == content,
{
    assert(spec_entry(timestamp, content).subrange(
        timestamp.len() as int + 3,
        timestamp.len() as int + 3 + content.len() as int,
    ) =~= content);
}

/// With a well-formed timestamp and a single-line content, an offline log
/// line holds exactly one newline, at its very end: appends are whole
/// lines, never fragments.
pub proof fn lemma_entry_single_line(timestamp: Seq<char>, content: Seq<char>)
    requires
        timestamp_wf(timestamp),
        forall|i: int| 0 <= i < content.len() ==> content[i] != '\n',
    ensures
        spec_entry(timestamp, content).len() > 0,
        spec_entry(timestamp, content).last() == '\n',
        forall|i: int|
            0 <= i < spec_entry(timestamp, content).len() - 1 ==> spec_entry(
                timestamp,
                content,
            )[i] != '\n',
{
}

/// Offline durability: when the gateway fails twice, the two ideas end in
/// the offline record as exactly two new lines, in submission order, each
/// under its own timestamp, and nothing is acknowledged remotely.
pub proof fn lemma_offline_two_in_order(
    log: CaptureLog,
    first_content: Seq<char>,
    first_ts: Seq<char>,
    second_content: Seq<char>,
    second_ts: Seq<char>,
    first_remote: RemoteOutcome,
    second_remote: RemoteOutcome,
)
    requires
        !matches!(first_remote, RemoteOutcome::Accepted(_)),
        !matches!(second_remote, RemoteOutcome::Accepted(_)),
    ensures
        ({
            let after_first = spec_local_append(
                spec_capture_idea(log, first_content, first_remote),
                spec_entry(first_ts, first_content),
                true,
            );
            let after_second = spec_local_append(
                spec_capture_idea(after_first, second_content, second_remote),
                spec_entry(second_ts, second_content),
                true,
            );
            after_second.offline == log.offline + seq![
                spec_entry(first_ts, first_content),
                spec_entry(second_ts, second_content),
            ] && after_second.acknowledged == log.acknowledged
        }),
{
    let after_first = spec_local_append(
        spec_capture_idea(log, first_content, first_remote),
        spec_entry(first_ts, first_content),
        true,
    );
    let after_second = spec_local_append(
        spec_capture_idea(after_first, second_content, second_remote),
        spec_entry(second_ts, second_content),
        true,
    );
    assert(after_second.offline =~= log.offline + seq![
        spec_entry(first_ts, first_content),
        spec_entry(second_ts, second_content),
    ]);
}

} // verus!
