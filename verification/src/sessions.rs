//! The sessions drawer: the recent operating sessions with their start,
//! name and state, which one is active, and whether it can be ended.
use vstd::prelude::*;

use crate::datetime::{seconds_from, date_dashed, seconds_between, two_digits, UtcDateTime};
use crate::ids::{format_uuid, uuid_text, OperatingSessionId};
use crate::import::opt_view;
use crate::station::OperatingSession;
use crate::text::{dec, dec_chars_padded, dec_string, string_from_chars};
use crate::value::string_of;

verus! {

/// `%Y-%m-%d %H:%M`.
pub open spec fn started_text(t: UtcDateTime) -> Seq<char> {
    date_dashed(t) + seq![' '] + two_digits(t.hour as nat) + seq![':'] + two_digits(t.minute as nat)
}

/// The start of a session as the drawer shows it.
pub fn started_label(t: &UtcDateTime) -> (r: String)
    ensures
        r@ == started_text(*t),
{
    let d = t.date_dashed();
    let mut v: Vec<char> = Vec::new();
    v.push(' ');
    let mut h = dec_chars_padded(t.hour as u64, 2);
    v.append(&mut h);
    v.push(':');
    let mut m = dec_chars_padded(t.minute as u64, 2);
    v.append(&mut m);
    let tail = string_from_chars(v.as_slice());
    let mut r = d;
    r.append(tail.as_str());
    assert(r@ =~= started_text(*t));
    r
}

/// The whole minutes of `secs` seconds, none below zero.
pub open spec fn whole_minutes(secs: int) -> nat {
    if secs <= 0 {
        0
    } else {
        (secs / 60) as nat
    }
}

/// How long a closed session ran: `Hh Mm` from an hour on, `Mm` below.
pub open spec fn duration_text(secs: int) -> Seq<char> {
    let mins = whole_minutes(secs);
    if mins >= 60 {
        dec(mins / 60) + "h "@ + dec(mins % 60) + "m"@
    } else {
        dec(mins) + "m"@
    }
}

/// The running time of a closed session, `secs` seconds long.
pub fn duration_label(secs: i64) -> (r: String)
    ensures
        r@ == duration_text(secs as int),
{
    let mins: u64 = if secs <= 0 {
        0
    } else {
        (secs / 60) as u64
    };
    assert(mins == whole_minutes(secs as int));
    if mins >= 60 {
        let mut r = dec_string(mins / 60);
        r.append("h ");
        r.append(dec_string(mins % 60).as_str());
        r.append("m");
        r
    } else {
        let mut r = dec_string(mins);
        r.append("m");
        r
    }
}

/// The seconds a closed session ran, from its start to its end; none
/// while it has no end. An instant that is no valid date and time
/// counts as no time run.
pub open spec fn elapsed_secs(s: OperatingSession) -> Option<i64> {
    match s.ended_at {
        Some(e) => Some(
            match seconds_from(s.started_at, e) {
                Some(x) => x,
                None => 0,
            },
        ),
        None => None,
    }
}

/// The state of a session: `● active` for the active one, its running
/// time once it ended, `(orphaned)` when it was never closed.
pub open spec fn status_text(active: bool, elapsed: Option<i64>) -> Seq<char> {
    if active {
        "● active"@
    } else {
        match elapsed {
            Some(secs) => duration_text(secs as int),
            None => "(orphaned)"@,
        }
    }
}

/// One session of the drawer: when it started, its name (`(unnamed)`
/// without one) and its state.
#[derive(Debug, Clone)]
pub struct SessionLine {
    pub started: String,
    pub name: String,
    pub status: String,
}

/// The sessions drawer: the refresh button's label, the active-session
/// line, whether the end button is offered, the session lines, the note
/// shown when there are none, and the status of the last action.
#[derive(Debug, Clone)]
pub struct SessionsDrawer {
    pub refresh_label: &'static str,
    pub active_label: String,
    pub end_offered: bool,
    pub lines: Vec<SessionLine>,
    pub empty_note: Option<&'static str>,
    pub status_line: Option<String>,
}

pub open spec fn line_fits(l: SessionLine, s: OperatingSession, active: Option<OperatingSessionId>) -> bool {
    &&& l.started@ == started_text(s.started_at)
    &&& l.name@ == match s.name {
        Some(n) => n@,
        None => "(unnamed)"@,
    }
    &&& l.status@ == status_text(active == Some(s.id), elapsed_secs(s))
}

fn session_line(s: &OperatingSession, active: Option<OperatingSessionId>) -> (r: SessionLine)
    ensures
        line_fits(r, *s, active),
{
    let is_active = match active {
        Some(a) => a.0 == s.id.0,
        None => false,
    };
    let status = if is_active {
        string_of("● active")
    } else {
        match s.ended_at {
            Some(e) => {
                let secs = match seconds_between(s.started_at, e) {
                    Some(x) => x,
                    None => 0,
                };
                duration_label(secs)
            },
            None => string_of("(orphaned)"),
        }
    };
    let name = match &s.name {
        Some(n) => string_of(n.as_str()),
        None => string_of("(unnamed)"),
    };
    SessionLine { started: started_label(&s.started_at), name, status }
}

/// The sessions drawer for the listed sessions, the active session,
/// whether a refresh runs and the status of the last action.
pub fn sessions_drawer(
    sessions: &Vec<OperatingSession>,
    active: Option<OperatingSessionId>,
    loading: bool,
    last_status: &Option<String>,
) -> (r: SessionsDrawer)
    ensures
        r.refresh_label@ == if loading {
            "Loading…"@
        } else {
            "Refresh"@
        },
        r.active_label@ == match active {
            Some(id) => "Active session: "@ + uuid_text(id.0),
            None => "No active session"@,
        },
        r.end_offered == active is Some,
        r.lines@.len() == sessions@.len(),
        forall|i: int| 0 <= i < sessions@.len() ==> line_fits(#[trigger] r.lines@[i], sessions@[i], active),
        r.empty_note == if sessions@.len() == 0 && !loading {
            Some("(no sessions yet — press Refresh)")
        } else {
            None::<&'static str>
        },
        opt_view(r.status_line) == opt_view(*last_status),
{
    let refresh_label = if loading {
        "Loading…"
    } else {
        "Refresh"
    };
    let active_label = match active {
        Some(id) => {
            let mut l = string_of("Active session: ");
            l.append(format_uuid(id.0).as_str());
            l
        },
        None => string_of("No active session"),
    };
    let mut lines: Vec<SessionLine> = Vec::new();
    let mut i: usize = 0;
    while i < sessions.len()
        invariant
            i <= sessions@.len(),
            lines@.len() == i,
            forall|k: int| 0 <= k < i ==> line_fits(#[trigger] lines@[k], sessions@[k], active),
        decreases sessions@.len() - i,
    {
        lines.push(session_line(&sessions[i], active));
        i = i + 1;
    }
    let empty_note = if sessions.len() == 0 && !loading {
        Some("(no sessions yet — press Refresh)")
    } else {
        None
    };
    let status_line = match last_status {
        Some(s) => Some(s.clone()),
        None => None,
    };
    SessionsDrawer {
        refresh_label,
        active_label,
        end_offered: active.is_some(),
        lines,
        empty_note,
        status_line,
    }
}

} // verus!
