//! Subagents Codex runs as workers, and the timestamps rows carry.

use crate::text::{concat3, concat_str, decimal, decimal_string, opt_str_view, opt_string_view, trim, trim_non_empty, trimmed_non_empty};
use crate::transition::model::SubagentStatus;
use vstd::prelude::*;

verus! {

// ---------------------------------------------------------------------------
// Subagents
// ---------------------------------------------------------------------------

/// The state Codex reports for an agent.
#[derive(Debug, Clone)]
pub enum AgentStatus {
    PendingInit,
    Running,
    Interrupted,
    Completed(Option<String>),
    Errored(String),
    Shutdown,
    NotFound,
}

/// A subagent's status, end time, result and error as a worker reports
/// them: a finished agent ends `now`; a completed one keeps its trimmed
/// summary, an errored one its trimmed message.
pub open spec fn worker_status(status: AgentStatus, now: Seq<char>) -> (
    SubagentStatus,
    Option<Seq<char>>,
    Option<Seq<char>>,
    Option<Seq<char>>,
) {
    match status {
        AgentStatus::PendingInit => (SubagentStatus::Pending, None, None, None),
        AgentStatus::Running => (SubagentStatus::Running, None, None, None),
        AgentStatus::Interrupted => (SubagentStatus::Interrupted, None, None, None),
        AgentStatus::Completed(summary) => (
            SubagentStatus::Completed,
            Some(now),
            trimmed_non_empty(opt_string_view(summary)),
            None,
        ),
        AgentStatus::Errored(message) => (
            SubagentStatus::Failed,
            Some(now),
            None,
            Some(trim(message@)),
        ),
        AgentStatus::Shutdown => (SubagentStatus::Shutdown, Some(now), None, None),
        AgentStatus::NotFound => (
            SubagentStatus::NotFound,
            Some(now),
            None,
            Some("Agent not found"@),
        ),
    }
}

/// The status, end time, result and error of a worker subagent.
pub fn map_agent_status(status: &AgentStatus, now: &str) -> (r: (
    SubagentStatus,
    Option<String>,
    Option<String>,
    Option<String>,
))
    ensures
        (r.0, opt_string_view(r.1), opt_string_view(r.2), opt_string_view(r.3)) == worker_status(
            *status,
            now@,
        ),
{
    match status {
        AgentStatus::PendingInit => (SubagentStatus::Pending, None, None, None),
        AgentStatus::Running => (SubagentStatus::Running, None, None, None),
        AgentStatus::Interrupted => (SubagentStatus::Interrupted, None, None, None),
        AgentStatus::Completed(summary) => (
            SubagentStatus::Completed,
            Some(now.to_string()),
            match summary {
                Some(s) => trim_non_empty(Some(s.as_str())),
                None => None,
            },
            None,
        ),
        AgentStatus::Errored(message) => (
            SubagentStatus::Failed,
            Some(now.to_string()),
            None,
            Some(crate::text::trim_str(message.as_str())),
        ),
        AgentStatus::Shutdown => (SubagentStatus::Shutdown, Some(now.to_string()), None, None),
        AgentStatus::NotFound => (
            SubagentStatus::NotFound,
            Some(now.to_string()),
            None,
            Some("Agent not found".to_string()),
        ),
    }
}

/// As `worker_status`, for a subagent read back from a rollout file: an
/// errored one keeps its trimmed message only when it is not blank.
pub open spec fn rollout_status(status: AgentStatus, now: Seq<char>) -> (
    SubagentStatus,
    Option<Seq<char>>,
    Option<Seq<char>>,
    Option<Seq<char>>,
) {
    match status {
        AgentStatus::Errored(message) => (
            SubagentStatus::Failed,
            Some(now),
            None,
            trimmed_non_empty(Some(message@)),
        ),
        _ => worker_status(status, now),
    }
}

/// The status, end time, result and error of a subagent read back from a
/// rollout file.
pub fn map_rollout_agent_status(status: &AgentStatus, now: &str) -> (r: (
    SubagentStatus,
    Option<String>,
    Option<String>,
    Option<String>,
))
    ensures
        (r.0, opt_string_view(r.1), opt_string_view(r.2), opt_string_view(r.3)) == rollout_status(
            *status,
            now@,
        ),
{
    match status {
        AgentStatus::Errored(message) => (
            SubagentStatus::Failed,
            Some(now.to_string()),
            None,
            trim_non_empty(Some(message.as_str())),
        ),
        _ => map_agent_status(status, now),
    }
}

/// A subagent's label: its trimmed nickname, else its trimmed role, else
/// its id.
pub open spec fn agent_label(nickname: Option<Seq<char>>, role: Option<Seq<char>>, id: Seq<char>) -> Seq<char> {
    match trimmed_non_empty(nickname) {
        Some(n) => n,
        None => match trimmed_non_empty(role) {
            Some(r) => r,
            None => id,
        },
    }
}

/// A subagent's label; there always is one.
pub fn normalized_agent_label(nickname: Option<&str>, role: Option<&str>, id: &str) -> (r: Option<String>)
    ensures
        opt_string_view(r) == Some(agent_label(opt_str_view(nickname), opt_str_view(role), id@)),
{
    match trim_non_empty(nickname) {
        Some(n) => Some(n),
        None => match trim_non_empty(role) {
            Some(r) => Some(r),
            None => Some(id.to_string()),
        },
    }
}

// ---------------------------------------------------------------------------
// Timestamps
// ---------------------------------------------------------------------------

/// Whether a year of the Gregorian calendar is a leap year.
pub open spec fn is_leap_year(year: int) -> bool {
    year % 4 == 0 && (year % 100 != 0 || year % 400 == 0)
}

/// The number of days of a year.
pub open spec fn days_in_year(year: int) -> int {
    if is_leap_year(year) {
        366
    } else {
        365
    }
}

/// The year a day falls in, counting `days` from the start of `year`, and
/// the day within it.
pub open spec fn year_of_day(days: int, year: int) -> (int, int)
    decreases days,
{
    if days < 0 || days < days_in_year(year) {
        (year, days)
    } else {
        year_of_day(days - days_in_year(year), year + 1)
    }
}

/// The number of days of month `m` (1 to 12).
pub open spec fn days_in_month(m: int, leap: bool) -> int {
    if m == 2 {
        if leap {
            29
        } else {
            28
        }
    } else if m == 4 || m == 6 || m == 9 || m == 11 {
        30
    } else {
        31
    }
}

/// The month a day of the year falls in, counting from month `m`, and the
/// day within it.
pub open spec fn month_of_day(days: int, m: int, leap: bool) -> (int, int)
    decreases 13 - m,
{
    if m >= 13 || days < days_in_month(m, leap) {
        (m, days)
    } else {
        month_of_day(days - days_in_month(m, leap), m + 1, leap)
    }
}

/// A number in decimal, padded with zeros to `width` digits.
pub open spec fn padded(n: nat, width: nat) -> Seq<char> {
    let d = decimal(n);
    if d.len() < width {
        Seq::new((width - d.len()) as nat, |i: int| '0') + d
    } else {
        d
    }
}

/// The UTC time `secs` seconds after the Unix epoch, as
/// `YYYY-MM-DDTHH:MM:SSZ`.
pub open spec fn iso_time(secs: nat) -> Seq<char> {
    let day = secs / 86400;
    let time = secs % 86400;
    let yd = year_of_day(day as int, 1970);
    let md = month_of_day(yd.1, 1, is_leap_year(yd.0));
    padded(yd.0 as nat, 4) + "-"@ + padded(md.0 as nat, 2) + "-"@ + padded((md.1 + 1) as nat, 2)
        + "T"@ + padded(time / 3600, 2) + ":"@ + padded((time % 3600) / 60, 2) + ":"@ + padded(
        time % 60,
        2,
    ) + "Z"@
}

fn pad_number(n: u64, width: usize) -> (r: String)
    ensures
        r@ == padded(n as nat, width as nat),
{
    let d = decimal_string(n);
    let len = d.as_str().unicode_len();
    if len >= width {
        return d;
    }
    let mut zeros: Vec<char> = Vec::new();
    let mut i: usize = 0;
    while i < width - len
        invariant
            i <= width - len,
            zeros@ =~= Seq::new(i as nat, |j: int| '0'),
        decreases width - len - i,
    {
        zeros.push('0');
        i = i + 1;
    }
    let z = crate::text::from_chars(zeros.as_slice());
    concat_str(z.as_str(), d.as_str())
}

fn year_length(year: u64) -> (r: u64)
    ensures
        r == days_in_year(year as int),
{
    if year % 4 == 0 && (year % 100 != 0 || year % 400 == 0) {
        366
    } else {
        365
    }
}

fn month_length(month: u64, leap: bool) -> (r: u64)
    ensures
        r == days_in_month(month as int, leap),
{
    if month == 2 {
        if leap {
            29
        } else {
            28
        }
    } else if month == 4 || month == 6 || month == 9 || month == 11 {
        30
    } else {
        31
    }
}

fn year_and_day(days_since_epoch: u64) -> (r: (u64, u64))
    requires
        days_since_epoch <= u64::MAX / 86400,
    ensures
        (r.0 as int, r.1 as int) == year_of_day(days_since_epoch as int, 1970),
        r.1 < 366,
{
    let mut days = days_since_epoch;
    let mut year: u64 = 1970;
    while days >= year_length(year)
        invariant
            days_since_epoch <= u64::MAX / 86400,
            1970 <= year <= 1970 + days_since_epoch - days,
            days <= days_since_epoch,
            year_of_day(days as int, year as int) == year_of_day(days_since_epoch as int, 1970),
        decreases days,
    {
        let d = year_length(year);
        days = days - d;
        year = year + 1;
    }
    (year, days)
}

fn month_and_day(day_of_year: u64, leap: bool) -> (r: (u64, u64))
    requires
        day_of_year < 366,
    ensures
        (r.0 as int, r.1 as int) == month_of_day(day_of_year as int, 1, leap),
        r.0 <= 13,
        r.1 < 366,
{
    let mut days = day_of_year;
    let mut month: u64 = 1;
    while month < 13 && days >= month_length(month, leap)
        invariant
            1 <= month <= 13,
            days < 366,
            month_of_day(days as int, month as int, leap) == month_of_day(day_of_year as int, 1, leap),
        decreases 13 - month,
    {
        let m = month_length(month, leap);
        days = days - m;
        month = month + 1;
    }
    (month, days)
}

/// The UTC time `secs` seconds after the Unix epoch, as
/// `YYYY-MM-DDTHH:MM:SSZ`.
pub fn iso_from_epoch_secs(secs: u64) -> (r: String)
    ensures
        r@ == iso_time(secs as nat),
{
    let day = secs / 86400;
    let time = secs % 86400;
    let (year, day_of_year) = year_and_day(day);
    let leap = year % 4 == 0 && (year % 100 != 0 || year % 400 == 0);
    let (month, day_of_month) = month_and_day(day_of_year, leap);
    let y = pad_number(year, 4);
    let mo = pad_number(month, 2);
    let d = pad_number(day_of_month + 1, 2);
    let h = pad_number(time / 3600, 2);
    let mi = pad_number((time % 3600) / 60, 2);
    let s = pad_number(time % 60, 2);
    let a = concat3(y.as_str(), "-", mo.as_str());
    let b = concat3(a.as_str(), "-", d.as_str());
    let c = concat3(b.as_str(), "T", h.as_str());
    let e = concat3(c.as_str(), ":", mi.as_str());
    let f = concat3(e.as_str(), ":", s.as_str());
    concat_str(f.as_str(), "Z")
}

} // verus!
