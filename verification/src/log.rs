//! The event parser: one raw log line in, at most one presence event out.
//!
//! A line is a candidate iff it contains `|INFO` together with one of the
//! markers `|client connected '` or `|client disconnected '` (connected wins
//! if both occur). The client name is the text strictly between the first
//! such marker and the next `'(id:`; a candidate without `'(id:` after the
//! marker is malformed and yields no event. The timestamp is rebuilt from
//! the line's first three space-delimited tokens, reassembled in the order
//! third, second, first (time of day, then day, then month for a journal
//! line). A recognized line with fewer than three such tokens is malformed
//! and yields no event. Parsing never panics.

use vstd::prelude::*;
use vstd::string::StrSliceExecFns;
use vstd::string::StringExecFns;

use crate::text::contains_seq;
use crate::text::contains_str;
use crate::text::find_spec;
use crate::text::find_str_from;
use crate::text::lemma_find_from_spec;

verus! {

/// The marker every presence line must carry.
pub open spec fn info_marker() -> Seq<char> {
    "|INFO"@
}

/// The marker that introduces a connect event and precedes the client name.
pub open spec fn connect_marker() -> Seq<char> {
    "|client connected '"@
}

/// The marker that introduces a disconnect event and precedes the client name.
pub open spec fn disconnect_marker() -> Seq<char> {
    "|client disconnected '"@
}

/// The delimiter that terminates the client name.
pub open spec fn id_marker() -> Seq<char> {
    "'(id:"@
}

/// A single space, the token separator of the line's leading fields.
pub open spec fn space() -> Seq<char> {
    " "@
}

/// Whether the line carries `|INFO` and at least one presence marker.
pub open spec fn is_candidate(s: Seq<char>) -> bool {
    contains_seq(s, info_marker()) && (contains_seq(s, connect_marker()) || contains_seq(
        s,
        disconnect_marker(),
    ))
}

/// What recognizing a line yields: the client name (the text strictly
/// between the first presence marker and the next `'(id:`) and whether the
/// client connected. `None` for lines that are no candidates and for
/// malformed candidates.
pub open spec fn user_line_spec(s: Seq<char>) -> Option<(Seq<char>, bool)> {
    if is_candidate(s) {
        let online = contains_seq(s, connect_marker());
        let m = if online {
            connect_marker()
        } else {
            disconnect_marker()
        };
        let i = find_spec(s, m)->Some_0;
        let rest = s.subrange(i + m.len(), s.len() as int);
        match find_spec(rest, id_marker()) {
            None => None,
            Some(j) => Some((rest.subrange(0, j), online)),
        }
    } else {
        None
    }
}

/// The timestamp rebuilt from the line's first three space-delimited tokens,
/// in the order third token, second token, first token.
pub open spec fn timestamp_spec(s: Seq<char>) -> Option<Seq<char>> {
    match find_spec(s, space()) {
        None => None,
        Some(a) => {
            let t0 = s.subrange(0, a);
            let r1 = s.subrange(a + 1, s.len() as int);
            match find_spec(r1, space()) {
                None => None,
                Some(b) => {
                    let t1 = r1.subrange(0, b);
                    let r2 = r1.subrange(b + 1, r1.len() as int);
                    let t2 = match find_spec(r2, space()) {
                        None => r2,
                        Some(c) => r2.subrange(0, c),
                    };
                    Some(t2 + space() + t1 + space() + t0)
                },
            }
        },
    }
}

/// Whether a presence transition is a connect or a disconnect.
#[derive(Clone, Copy, Debug, PartialEq, Eq, Structural)]
pub enum EventKind {
    Connected,
    Disconnected,
}

/// What a full presence event is in specifications.
pub struct EventV {
    /// The client's name.
    pub name: Seq<char>,
    /// True for a connect, false for a disconnect.
    pub connected: bool,
    /// The reassembled timestamp of the source line.
    pub observed_at: Seq<char>,
}

/// A typed presence transition extracted from one log line.
pub struct PresenceEvent {
    /// The client's name.
    pub name: String,
    /// Connect or disconnect.
    pub kind: EventKind,
    /// The reassembled timestamp of the source line; reordered text, never
    /// validated as a calendar date.
    pub observed_at: String,
}

impl View for PresenceEvent {
    type V = EventV;

    open spec fn view(&self) -> EventV {
        EventV {
            name: self.name@,
            connected: self.kind is Connected,
            observed_at: self.observed_at@,
        }
    }
}

/// What parsing a whole line yields: an event iff the line is a
/// well-formed candidate with at least three space-delimited tokens.
pub open spec fn event_spec(s: Seq<char>) -> Option<EventV> {
    match user_line_spec(s) {
        None => None,
        Some(nu) => match timestamp_spec(s) {
            None => None,
            Some(ts) => Some(EventV { name: nu.0, connected: nu.1, observed_at: ts }),
        },
    }
}

/// A recognized presence line: the client name and whether it connected.
pub struct UserLine(pub String, pub bool);

impl UserLine {
    /// Recognize one line; `None` for non-candidates and malformed
    /// candidates alike.
    pub fn parse(s: &str) -> (r: Option<UserLine>)
        ensures
            match r {
                Some(ul) => user_line_spec(s@) == Some((ul.0@, ul.1)),
                None => user_line_spec(s@) is None,
            },
    {
        let has_info = contains_str(s, "|INFO");
        let conn = find_str_from(s, "|client connected '", 0);
        let disc = find_str_from(s, "|client disconnected '", 0);
        if !(has_info && (conn.is_some() || disc.is_some())) {
            return None;
        }
        let online = conn.is_some();
        let i = if online {
            conn.unwrap()
        } else {
            disc.unwrap()
        };
        let mlen = if online {
            "|client connected '".unicode_len()
        } else {
            "|client disconnected '".unicode_len()
        };
        let n = s.unicode_len();
        proof {
            if online {
                lemma_find_from_spec(s@, connect_marker(), 0);
            } else {
                lemma_find_from_spec(s@, disconnect_marker(), 0);
            }
        }
        let rest = s.substring_char(i + mlen, n);
        match find_str_from(rest, "'(id:", 0) {
            None => None,
            Some(j) => {
                proof {
                    lemma_find_from_spec(rest@, id_marker(), 0);
                }
                let name = rest.substring_char(0, j);
                Some(UserLine(name.to_owned(), online))
            },
        }
    }
}

/// Rebuild the timestamp from the line's first three space-delimited
/// tokens; `None` when the line has fewer than three.
pub fn reconstruct_timestamp(s: &str) -> (r: Option<String>)
    ensures
        match r {
            Some(ts) => timestamp_spec(s@) == Some(ts@),
            None => timestamp_spec(s@) is None,
        },
{
    proof {
        reveal_strlit(" ");
    }
    let n = s.unicode_len();
    let a = match find_str_from(s, " ", 0) {
        None => { return None },
        Some(a) => a,
    };
    proof {
        lemma_find_from_spec(s@, space(), 0);
    }
    let t0 = s.substring_char(0, a);
    let rest1 = s.substring_char(a + 1, n);
    let b = match find_str_from(rest1, " ", 0) {
        None => { return None },
        Some(b) => b,
    };
    proof {
        lemma_find_from_spec(rest1@, space(), 0);
    }
    let t1 = rest1.substring_char(0, b);
    let rest2 = rest1.substring_char(b + 1, rest1.unicode_len());
    let t2 = match find_str_from(rest2, " ", 0) {
        None => rest2,
        Some(c) => {
            proof {
                lemma_find_from_spec(rest2@, space(), 0);
            }
            rest2.substring_char(0, c)
        },
    };
    let mut out = t2.to_owned();
    out.append(" ");
    out.append(t1);
    out.append(" ");
    out.append(t0);
    Some(out)
}

/// Parse one raw line into a presence event, or nothing.
pub fn parse_event(s: &str) -> (r: Option<PresenceEvent>)
    ensures
        match r {
            Some(ev) => event_spec(s@) == Some(ev@),
            None => event_spec(s@) is None,
        },
{
    let ul = match UserLine::parse(s) {
        None => { return None },
        Some(u) => u,
    };
    let ts = match reconstruct_timestamp(s) {
        None => { return None },
        Some(t) => t,
    };
    let kind = if ul.1 {
        EventKind::Connected
    } else {
        EventKind::Disconnected
    };
    Some(PresenceEvent { name: ul.0, kind, observed_at: ts })
}

} // verus!
