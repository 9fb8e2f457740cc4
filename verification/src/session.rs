//! Tracking-session control and leisure-balance accounting.
//!
//! Stopping a session is decided against the freshly resolved entities: a
//! missing session is a benign no-op, a session whose project or
//! description differs is left untouched, and only a matching session is
//! stopped.  A stopped session then drives the leisure balance: its
//! duration, scaled by the current leisure rate, is added for a productive
//! session and subtracted for an unproductive one.

use vstd::prelude::*;

verus! {

/// The currently running session as reported by the target system, reduced
/// to the fields the stop decision and the accounting read.
pub struct SessionInfo {
    pub id: i64,
    pub project_id: Option<i64>,
    pub description: String,
    pub workspace_id: Option<i64>,
    /// Start instant as the remote reports it, an RFC 3339 timestamp.
    pub start: String,
    pub tags: Vec<String>,
}

/// What stop-tracking decides once the running session (if any) is known.
#[derive(Debug, PartialEq, Eq, Structural)]
pub enum StopOutcome {
    /// No session is running: report success with nothing to stop.
    NothingToStop,
    /// The running session belongs to another task: leave it untouched and
    /// report a benign mismatch.
    Mismatch,
    /// The running session carries no workspace identifier, so no stop
    /// call can be addressed: a data error.
    MissingWorkspace,
    /// Stop the session: the entry and workspace identifiers to address
    /// the stop call with.
    Stop { entry_id: i64, workspace_id: i64 },
}

/// Decides whether the running session is the one the stop request is
/// about: it must carry exactly the resolved project identifier and
/// exactly the resolved description.
pub fn stop_decision(
    resolved_project: Option<i64>,
    resolved_description: &str,
    current: &Option<SessionInfo>,
) -> (r: StopOutcome)
    ensures
        (match current {
            None => r == StopOutcome::NothingToStop,
            Some(s) => {
                if s.project_id != resolved_project || s.description@ != resolved_description@ {
                    r == StopOutcome::Mismatch
                } else {
                    match s.workspace_id {
                        None => r == StopOutcome::MissingWorkspace,
                        Some(w) => r == (StopOutcome::Stop { entry_id: s.id, workspace_id: w }),
                    }
                }
            },
        }),
{
    match current {
        None => StopOutcome::NothingToStop,
        Some(s) => {
            let project_matches = match (s.project_id, resolved_project) {
                (Some(a), Some(b)) => a == b,
                (None, None) => true,
                _ => false,
            };
            let description_matches = crate::hierarchy::str_eq(
                s.description.as_str(),
                resolved_description,
            );
            if !project_matches || !description_matches {
                StopOutcome::Mismatch
            } else {
                match s.workspace_id {
                    None => StopOutcome::MissingWorkspace,
                    Some(w) => StopOutcome::Stop { entry_id: s.id, workspace_id: w },
                }
            }
        },
    }
}

/// Whether some string in `ss` reads exactly `t`.
pub open spec fn contains_title(ss: Seq<String>, t: Seq<char>) -> bool {
    exists|i: int| 0 <= i < ss.len() && ss[i]@ == t
}

fn contains_title_exec(ss: &Vec<String>, t: &str) -> (b: bool)
    ensures
        b == contains_title(ss@, t@),
{
    let n = ss.len();
    let mut i: usize = 0;
    while i < n
        invariant
            n == ss@.len(),
            0 <= i <= n,
            forall|j: int| 0 <= j < i ==> ss@[j]@ != t@,
        decreases n - i,
    {
        if crate::hierarchy::str_eq(ss[i].as_str(), t) {
            return true;
        }
        i += 1;
    }
    false
}

/// The binary classification read off a pair of marks: one mark alone
/// decides, both together or neither is neutral.
pub open spec fn class_of(positive: bool, negative: bool) -> Option<bool> {
    if positive && !negative {
        Some(true)
    } else if negative && !positive {
        Some(false)
    } else {
        None
    }
}

/// The productivity classification of a session.  The task's label titles
/// are scanned for the two override marks, which force the classification
/// when present (both at once overriding to neutral); otherwise the
/// session's own tags "productive" and "unproductive" decide in the same
/// way.
pub open spec fn session_class(labels: Seq<String>, tags: Seq<String>) -> Option<bool> {
    let over_p = contains_title(labels, "productiveOverride"@);
    let over_u = contains_title(labels, "unproductiveOverride"@);
    if over_p || over_u {
        class_of(over_p, over_u)
    } else {
        class_of(contains_title(tags, "productive"@), contains_title(tags, "unproductive"@))
    }
}

/// Classifies a session from the task's label titles and the session's own
/// tags.
pub fn classify_session(labels: &Vec<String>, tags: &Vec<String>) -> (c: Option<bool>)
    ensures
        c == session_class(labels@, tags@),
{
    let over_p = contains_title_exec(labels, "productiveOverride");
    let over_u = contains_title_exec(labels, "unproductiveOverride");
    if over_p || over_u {
        if over_p && !over_u {
            Some(true)
        } else if over_u && !over_p {
            Some(false)
        } else {
            None
        }
    } else {
        let tag_p = contains_title_exec(tags, "productive");
        let tag_u = contains_title_exec(tags, "unproductive");
        if tag_p && !tag_u {
            Some(true)
        } else if tag_u && !tag_p {
            Some(false)
        } else {
            None
        }
    }
}

/// The milliseconds credited or debited for a stopped session: its
/// duration scaled by the leisure rate (in thousandths), rounded toward
/// zero.
pub open spec fn delta_magnitude(duration_ms: u64, rate_milli: u32) -> int {
    (duration_ms as int) * (rate_milli as int) / 1000
}

/// The signed change a stopped session applies to the leisure balance.
pub open spec fn leisure_delta_spec(duration_ms: u64, rate_milli: u32, class: Option<
    bool,
>) -> int {
    match class {
        Some(true) => delta_magnitude(duration_ms, rate_milli),
        Some(false) => -delta_magnitude(duration_ms, rate_milli),
        None => 0,
    }
}

/// Computes the signed leisure-balance change for a stopped session.
pub fn leisure_delta(duration_ms: u64, rate_milli: u32, class: Option<bool>) -> (d: i64)
    requires
        delta_magnitude(duration_ms, rate_milli) <= i64::MAX as int,
    ensures
        d as int == leisure_delta_spec(duration_ms, rate_milli, class),
{
    match class {
        None => 0,
        Some(productive) => {
            assert((duration_ms as int) * (rate_milli as int) <= (u64::MAX as int) * (
            u32::MAX as int)) by (nonlinear_arith)
                requires
                    duration_ms <= u64::MAX,
                    rate_milli <= u32::MAX,
            ;
            let p: u128 = (duration_ms as u128) * (rate_milli as u128);
            let m: u128 = p / 1000;
            let magnitude: i64 = m as i64;
            if productive {
                magnitude
            } else {
                -magnitude
            }
        },
    }
}

/// The process-wide leisure accounting state: an accumulated signed
/// millisecond balance and the leisure rate in thousandths.
pub struct LeisureLedger {
    pub balance: i64,
    pub rate_milli: u32,
}

/// Division by 1000 rounding toward zero, as balance milliseconds are
/// reported in whole seconds.
pub open spec fn div_1000_toward_zero(b: int) -> int {
    if b >= 0 {
        b / 1000
    } else {
        -((-b) / 1000)
    }
}

impl LeisureLedger {
    /// A fresh ledger: the balance starts at zero.
    pub fn new(rate_milli: u32) -> (l: LeisureLedger)
        ensures
            l.balance == 0,
            l.rate_milli == rate_milli,
    {
        LeisureLedger { balance: 0, rate_milli }
    }

    /// Resets the balance to zero; the rate is untouched.
    pub fn reset(&mut self)
        ensures
            final(self).balance == 0,
            final(self).rate_milli == old(self).rate_milli,
    {
        self.balance = 0;
    }

    /// Adds a signed amount of milliseconds to the balance.
    pub fn add(&mut self, amount: i64)
        requires
            i64::MIN <= old(self).balance + amount <= i64::MAX,
        ensures
            final(self).balance == old(self).balance + amount,
            final(self).rate_milli == old(self).rate_milli,
    {
        self.balance = self.balance + amount;
    }

    /// Replaces the leisure rate; the balance is untouched.
    pub fn set_rate(&mut self, rate_milli: u32)
        ensures
            final(self).balance == old(self).balance,
            final(self).rate_milli == rate_milli,
    {
        self.rate_milli = rate_milli;
    }

    /// The balance in whole seconds, rounded toward zero.
    pub fn balance_seconds(&self) -> (r: i64)
        ensures
            r as int == div_1000_toward_zero(self.balance as int),
    {
        if self.balance >= 0 {
            let q = (self.balance as u64) / 1000;
            q as i64
        } else {
            let neg: i128 = -(self.balance as i128);
            let magq: u128 = (neg as u128) / 1000;
            -(magq as i64)
        }
    }

    /// Settles a stopped session against the balance: adds the scaled
    /// duration for a productive session, subtracts it for an unproductive
    /// one, and leaves the balance alone for a neutral one.
    pub fn settle(&mut self, duration_ms: u64, class: Option<bool>)
        requires
            delta_magnitude(duration_ms, old(self).rate_milli) <= i64::MAX as int,
            i64::MIN <= old(self).balance + leisure_delta_spec(
                duration_ms,
                old(self).rate_milli,
                class,
            ) <= i64::MAX,
        ensures
            final(self).balance == old(self).balance + leisure_delta_spec(
                duration_ms,
                old(self).rate_milli,
                class,
            ),
            final(self).rate_milli == old(self).rate_milli,
    {
        let d = leisure_delta(duration_ms, self.rate_milli, class);
        self.add(d);
    }
}

/// The milliseconds elapsed from `start_ms` to `now_ms`, clamped below at
/// zero so that a clock running behind the remote start stamp yields an
/// empty duration rather than a negative one.
pub fn session_duration_ms(start_ms: i64, now_ms: i64) -> (d: u64)
    ensures
        d as int == (if now_ms >= start_ms {
            now_ms - start_ms
        } else {
            0
        }),
{
    if now_ms >= start_ms {
        let diff: i128 = (now_ms as i128) - (start_ms as i128);
        diff as u64
    } else {
        0
    }
}

/// The milliseconds since the Unix epoch that an RFC 3339 timestamp
/// denotes, or nothing when the text is not a valid timestamp.  Opaque:
/// trusted calls relate their results to it.
pub uninterp spec fn rfc3339_epoch_ms(s: Seq<char>) -> Option<i64>;

/// Relies on chrono's `DateTime::parse_from_rfc3339` and
/// `timestamp_millis`: both depend on the characters of the input alone,
/// the former parsing the timestamp with its own offset and the latter
/// converting it to non-leap milliseconds since the Unix epoch.
#[verifier::external_body]
fn parse_rfc3339_ms(s: &str) -> (r: Option<i64>)
    ensures
        r == rfc3339_epoch_ms(s@),
{
    match chrono::DateTime::parse_from_rfc3339(s) {
        Ok(stamp) => Some(stamp.timestamp_millis()),
        Err(_) => None,
    }
}

/// How long a session that started at the instant `start` denotes has been
/// running at `now_ms`: nothing when the start stamp does not parse,
/// otherwise the clamped elapsed time.
pub fn session_elapsed_ms(start: &str, now_ms: i64) -> (r: Option<u64>)
    ensures
        (match rfc3339_epoch_ms(start@) {
            None => r is None,
            Some(t) => r matches Some(d) && d as int == (if now_ms >= t {
                now_ms - t
            } else {
                0
            }),
        }),
{
    match parse_rfc3339_ms(start) {
        None => None,
        Some(t) => Some(session_duration_ms(t, now_ms)),
    }
}

} // verus!
