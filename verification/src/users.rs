//! The presence store: the current online/offline state per named client,
//! plus the timestamp of the most recent applied transition.
//!
//! A disconnect clears `online_since`: once a client is offline its last
//! online time is forgotten (it is never rendered while offline anyway).

use vstd::prelude::*;

use crate::log::event_spec;
use crate::log::parse_event;
use crate::log::EventKind;
use crate::log::EventV;
use crate::log::PresenceEvent;
use crate::render::compose_report;
use crate::render::content_lines;
use crate::render::line_of;
use crate::render::render_spec;
use crate::render::views_of;

verus! {

/// What one client's presence is in specifications.
#[verifier::ext_equal]
pub struct UserV {
    /// Whether the client is online at the most recent transition.
    pub online: bool,
    /// Since when it has been online; present iff `online`.
    pub online_since: Option<Seq<char>>,
}

/// One client's presence: whether it is online now and, if so, since when.
pub struct User {
    /// Whether the client is online at the most recent transition.
    pub online: bool,
    /// Since when it has been online; present iff `online`.
    pub online_since: Option<String>,
}

impl View for User {
    type V = UserV;

    open spec fn view(&self) -> UserV {
        UserV {
            online: self.online,
            online_since: match self.online_since {
                Option::None => None,
                Option::Some(s) => Some(s@),
            },
        }
    }
}

/// What the whole presence table is in specifications: the records in
/// insertion order, each under its client name, and the timestamp of the
/// most recent applied transition.
#[verifier::ext_equal]
pub struct TableV {
    /// The records, one per distinct client name.
    pub entries: Seq<(Seq<char>, UserV)>,
    /// The timestamp of the most recent applied transition.
    pub updated_at: Seq<char>,
}

/// The table's invariant: client names are distinct, and an online record
/// always carries its `online_since` timestamp.
pub open spec fn wf(t: TableV) -> bool {
    &&& forall|i: int, j: int|
        #![trigger t.entries[i].0, t.entries[j].0]
        0 <= i < j < t.entries.len() ==> t.entries[i].0 != t.entries[j].0
    &&& forall|i: int|
        #![trigger t.entries[i]]
        0 <= i < t.entries.len() ==> (t.entries[i].1.online ==> t.entries[i].1.online_since is Some)
}

/// The table with no records and an empty timestamp, the state at start.
pub open spec fn empty_table() -> TableV {
    TableV { entries: Seq::empty(), updated_at: Seq::empty() }
}

/// The entry sequence a vector of named records stands for.
pub open spec fn entries_of(users: Seq<(String, User)>) -> Seq<(Seq<char>, UserV)> {
    Seq::new(users.len(), |i: int| (users[i].0@, users[i].1@))
}

/// Position of the first entry named `name` at or after `from`, if any.
pub open spec fn name_index_from(
    entries: Seq<(Seq<char>, UserV)>,
    name: Seq<char>,
    from: int,
) -> Option<int>
    decreases entries.len() - from,
{
    if from < 0 || from >= entries.len() {
        None
    } else if entries[from].0 == name {
        Some(from)
    } else {
        name_index_from(entries, name, from + 1)
    }
}

/// Position of the first entry named `name`, if any.
pub open spec fn name_index(entries: Seq<(Seq<char>, UserV)>, name: Seq<char>) -> Option<int> {
    name_index_from(entries, name, 0)
}

/// The record stored under `name`, if any.
pub open spec fn lookup(entries: Seq<(Seq<char>, UserV)>, name: Seq<char>) -> Option<UserV> {
    match name_index(entries, name) {
        None => None,
        Some(k) => Some(entries[k].1),
    }
}

/// `name_index_from` returns exactly the first entry named `name` at or
/// after `from`, and `None` only when no entry from there on has that name.
pub proof fn lemma_name_index_from(entries: Seq<(Seq<char>, UserV)>, name: Seq<char>, from: int)
    requires
        0 <= from,
    ensures
        match name_index_from(entries, name, from) {
            Some(k) => {
                &&& from <= k < entries.len()
                &&& entries[k].0 == name
                &&& forall|j: int| from <= j < k ==> entries[j].0 != name
            },
            None => forall|j: int| from <= j < entries.len() ==> entries[j].0 != name,
        },
    decreases entries.len() - from,
{
    if from >= entries.len() {
    } else if entries[from].0 == name {
    } else {
        lemma_name_index_from(entries, name, from + 1);
    }
}

/// The record a transition writes: online with its timestamp on a connect,
/// offline with `online_since` cleared on a disconnect.
pub open spec fn record_of(connected: bool, ts: Seq<char>) -> UserV {
    UserV { online: connected, online_since: if connected { Some(ts) } else { None } }
}

/// What applying one event does to the table: upsert the record under the
/// event's name (in place if the name is known, appended otherwise) and set
/// the table's timestamp to the event's.
pub open spec fn apply_spec(t: TableV, ev: EventV) -> TableV {
    let rec = record_of(ev.connected, ev.observed_at);
    let entries = match name_index(t.entries, ev.name) {
        Some(k) => t.entries.update(k, (ev.name, rec)),
        None => t.entries.push((ev.name, rec)),
    };
    TableV { entries, updated_at: ev.observed_at }
}

/// Applying any event to a well-formed table yields a well-formed table.
pub proof fn lemma_apply_preserves_wf(t: TableV, ev: EventV)
    requires
        wf(t),
    ensures
        wf(apply_spec(t, ev)),
{
    lemma_name_index_from(t.entries, ev.name, 0);
}

/// The shared mutable aggregate: every known client's current presence and
/// the timestamp of the most recent applied transition. Exactly one writer
/// applies transitions; readers copy snapshots.
pub struct OnlineUsers {
    users: Vec<(String, User)>,
    updated_at: String,
}

impl View for OnlineUsers {
    type V = TableV;

    closed spec fn view(&self) -> TableV {
        TableV { entries: entries_of(self.users@), updated_at: self.updated_at@ }
    }
}

impl OnlineUsers {
    #[verifier::type_invariant]
    spec fn type_inv(self) -> bool {
        wf(self@)
    }

    /// The empty table: no clients known, no transition applied yet.
    pub fn new() -> (r: OnlineUsers)
        ensures
            r@ == empty_table(),
    {
        let r = OnlineUsers { users: Vec::new(), updated_at: String::new() };
        proof {
            assert(r@ =~= empty_table());
        }
        r
    }

    /// Apply one presence transition: upsert the record under the event's
    /// name and advance the table's timestamp.
    pub fn apply(&mut self, ev: &PresenceEvent)
        ensures
            final(self)@ == apply_spec(old(self)@, ev@),
    {
        proof {
            use_type_invariant(&*self);
            lemma_apply_preserves_wf(old(self)@, ev@);
        }
        let ghost t0 = self@;
        let connected = ev.kind == EventKind::Connected;
        let user = User {
            online: connected,
            online_since: if connected {
                Some(ev.observed_at.clone())
            } else {
                None
            },
        };
        let mut users: Vec<(String, User)> = Vec::new();
        std::mem::swap(&mut users, &mut self.users);
        proof {
            assert(entries_of(users@) =~= t0.entries);
            lemma_name_index_from(t0.entries, ev@.name, 0);
        }
        match index_of(&users, &ev.name) {
            Some(k) => {
                users[k] = (ev.name.clone(), user);
                proof {
                    assert(entries_of(users@) =~= apply_spec(t0, ev@).entries);
                }
            },
            None => {
                users.push((ev.name.clone(), user));
                proof {
                    assert(entries_of(users@) =~= apply_spec(t0, ev@).entries);
                }
            },
        }
        std::mem::swap(&mut users, &mut self.users);
        self.updated_at = ev.observed_at.clone();
        proof {
            assert(self@ =~= apply_spec(t0, ev@));
        }
    }


    /// Render the current table into the status report.
    pub fn get_status_display(&self) -> (r: String)
        ensures
            r@ == render_spec(self@),
    {
        proof {
            use_type_invariant(&*self);
        }
        let mut lines: Vec<String> = Vec::new();
        let mut i: usize = 0;
        proof {
            assert(views_of(lines@) =~= content_lines(self@.entries.subrange(0, 0)));
        }
        while i < self.users.len()
            invariant
                wf(self@),
                i <= self.users@.len(),
                self@.entries.len() == self.users@.len(),
                views_of(lines@) == content_lines(self@.entries.subrange(0, i as int)),
            decreases self.users@.len() - i,
        {
            let ghost pre_lines = lines@;
            proof {
                assert(self@.entries.subrange(0, i + 1).drop_last() =~= self@.entries.subrange(
                    0,
                    i as int,
                ));
                assert(self@.entries.subrange(0, i + 1).last() == self@.entries[i as int]);
                assert(views_of(pre_lines).len() == pre_lines.len());
            }
            if self.users[i].1.online {
                let since = match &self.users[i].1.online_since {
                    Some(s) => s.as_str(),
                    None => {
                        proof {
                            assert(false);
                        }
                        ""
                    },
                };
                let mut line = "[".to_owned();
                line.append(since);
                line.append("] ");
                line.append(self.users[i].0.as_str());
                proof {
                    assert(line@ == line_of(
                        self@.entries[i as int].0,
                        self@.entries[i as int].1.online_since->Some_0,
                    ));
                }
                let ghost lv = line@;
                lines.push(line);
                proof {
                    assert(views_of(lines@).len() == lines@.len());
                    let cl = content_lines(self@.entries.subrange(0, i + 1));
                    assert(cl == views_of(pre_lines).push(lv));
                    assert forall|k: int| 0 <= k < lines@.len() implies views_of(lines@)[k]
                        == cl[k] by {
                        if k < pre_lines.len() {
                            assert(lines@[k] == pre_lines[k]);
                        } else {
                            assert(lines@[k]@ == lv);
                        }
                    }
                    assert(views_of(lines@) =~= cl);
                }
            } else {
                proof {
                    assert(content_lines(self@.entries.subrange(0, i + 1)) == content_lines(
                        self@.entries.subrange(0, i as int),
                    ));
                }
            }
            i += 1;
        }
        proof {
            assert(self@.entries.subrange(0, self@.entries.len() as int) =~= self@.entries);
        }
        compose_report(&lines, self.updated_at.as_str())
    }

    /// An independent point-in-time copy of the table, safe to render after
    /// the store has moved on.
    pub fn snapshot(&self) -> (r: OnlineUsers)
        ensures
            r@ == self@,
    {
        proof {
            use_type_invariant(&*self);
        }
        let mut users: Vec<(String, User)> = Vec::new();
        let mut i: usize = 0;
        while i < self.users.len()
            invariant
                i <= self.users@.len(),
                entries_of(users@) == entries_of(self.users@).subrange(0, i as int),
            decreases self.users@.len() - i,
        {
            let name = self.users[i].0.clone();
            let user = User {
                online: self.users[i].1.online,
                online_since: match &self.users[i].1.online_since {
                    None => None,
                    Some(s) => Some(s.clone()),
                },
            };
            let pair = (name, user);
            proof {
                assert(pair.0@ == self.users@[i as int].0@);
                assert(pair.1@ == self.users@[i as int].1@);
            }
            let ghost pre_users = users@;
            users.push(pair);
            proof {
                assert(entries_of(pre_users).len() == pre_users.len());
                assert(entries_of(users@).len() == users@.len());
                assert(pre_users.len() == i);
                assert forall|k: int| 0 <= k < i + 1 implies entries_of(users@)[k] == entries_of(
                    self.users@,
                ).subrange(0, i + 1)[k] by {
                    if k < i {
                        assert(users@[k] == pre_users[k]);
                        assert(entries_of(pre_users)[k] == entries_of(self.users@).subrange(
                            0,
                            i as int,
                        )[k]);
                    } else {
                        assert(users@[k] == pair);
                    }
                }
                assert(entries_of(users@) =~= entries_of(self.users@).subrange(0, i + 1));
            }
            i += 1;
        }
        proof {
            assert(entries_of(self.users@).subrange(0, self.users@.len() as int) =~= entries_of(
                self.users@,
            ));
        }
        let r = OnlineUsers { users, updated_at: self.updated_at.clone() };
        proof {
            assert(r@ =~= self@);
        }
        r
    }
}

/// Position of the first record stored under `name`, by comparing names
/// front to back.
fn index_of(users: &Vec<(String, User)>, name: &String) -> (r: Option<usize>)
    ensures
        match r {
            Some(k) => name_index(entries_of(users@), name@) == Some(k as int),
            None => name_index(entries_of(users@), name@) is None,
        },
{
    let n = users.len();
    let mut i: usize = 0;
    while i < n
        invariant
            n == users@.len(),
            i <= n,
            name_index_from(entries_of(users@), name@, 0) == name_index_from(
                entries_of(users@),
                name@,
                i as int,
            ),
        decreases n - i,
    {
        if users[i].0 == *name {
            return Some(i);
        }
        i += 1;
    }
    None
}

/// One step of the stream consumer: parse the line; if it yields an event,
/// apply it to the store and render the fresh state for emission; lines
/// yielding no event change nothing and emit nothing.
pub fn process_line(users: &mut OnlineUsers, line: &str) -> (r: Option<String>)
    ensures
        match event_spec(line@) {
            None => final(users)@ == old(users)@ && r is None,
            Some(ev) => {
                &&& final(users)@ == apply_spec(old(users)@, ev)
                &&& (r matches Some(out) && out@ == render_spec(final(users)@))
            },
        },
{
    match parse_event(line) {
        None => None,
        Some(ev) => {
            users.apply(&ev);
            Some(users.get_status_display())
        },
    }
}

} // verus!

