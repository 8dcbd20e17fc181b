//! What holds of the library as a whole, stated and proved over the spec
//! functions its contracts use.

use vstd::prelude::*;

use crate::log::connect_marker;
use crate::log::disconnect_marker;
use crate::log::event_spec;
use crate::log::id_marker;
use crate::log::info_marker;
use crate::log::is_candidate;
use crate::log::user_line_spec;
use crate::log::EventV;
use crate::render::content_lines;
use crate::render::line_of;
use crate::render::max_line_len;
use crate::render::online_entries;
use crate::render::padded_line;
use crate::render::render_spec;
use crate::render::repeated;
use crate::render::report_width;
use crate::render::title_text;
use crate::text::contains_seq;
use crate::text::find_spec;
use crate::text::lemma_find_from_spec;
use crate::users::apply_spec;
use crate::users::lemma_apply_preserves_wf;
use crate::users::lemma_name_index_from;
use crate::users::lookup;
use crate::users::name_index;
use crate::users::record_of;
use crate::users::wf;
use crate::users::TableV;
use crate::users::UserV;

verus! {

/// For a valid connected line — it carries `|INFO`, the connect marker
/// first occurs at `i`, and `'(id:` first occurs `j` characters past the
/// marker with a non-empty gap — parsing yields a connect with a non-empty
/// name equal to the text strictly between the marker and `'(id:`.
pub proof fn lemma_connected_line_parses(s: Seq<char>, i: int, j: int)
    requires
        contains_seq(s, info_marker()),
        find_spec(s, connect_marker()) == Some(i),
        find_spec(s.subrange(i + connect_marker().len(), s.len() as int), id_marker()) == Some(j),
        j > 0,
    ensures
        ({
            let name = s.subrange(i + connect_marker().len(), i + connect_marker().len() + j);
            user_line_spec(s) == Some((name, true)) && name.len() > 0
        }),
{
    lemma_find_from_spec(s, connect_marker(), 0);
    let rest = s.subrange(i + connect_marker().len(), s.len() as int);
    lemma_find_from_spec(rest, id_marker(), 0);
    assert(rest.subrange(0, j) =~= s.subrange(
        i + connect_marker().len(),
        i + connect_marker().len() + j,
    ));
}

/// A line containing neither presence marker yields no event.
pub proof fn lemma_no_marker_no_event(s: Seq<char>)
    requires
        !contains_seq(s, connect_marker()),
        !contains_seq(s, disconnect_marker()),
    ensures
        user_line_spec(s) is None,
        event_spec(s) is None,
{
}

/// A line that carries a presence marker but no `'(id:` after it yields no
/// event rather than a failure.
pub proof fn lemma_marker_without_id(s: Seq<char>)
    requires
        is_candidate(s),
        ({
            let m = if contains_seq(s, connect_marker()) {
                connect_marker()
            } else {
                disconnect_marker()
            };
            let i = find_spec(s, m)->Some_0;
            !contains_seq(s.subrange(i + m.len(), s.len() as int), id_marker())
        }),
    ensures
        user_line_spec(s) is None,
        event_spec(s) is None,
{
}

/// When `k` holds `name` and nothing before `from` up to `k` does, the
/// first entry named `name` at or after `from` is exactly `k`.
proof fn lemma_name_index_from_is(
    entries: Seq<(Seq<char>, UserV)>,
    name: Seq<char>,
    from: int,
    k: int,
)
    requires
        0 <= from <= k < entries.len(),
        entries[k].0 == name,
        forall|j: int| from <= j < k ==> entries[j].0 != name,
    ensures
        crate::users::name_index_from(entries, name, from) == Some(k),
    decreases k - from,
{
    if from < k {
        lemma_name_index_from_is(entries, name, from + 1, k);
    }
}

/// When every record under a given name is offline, no online record
/// carries that name.
pub proof fn lemma_online_entries_names(entries: Seq<(Seq<char>, UserV)>, name: Seq<char>)
    requires
        forall|i: int|
            0 <= i < entries.len() && entries[i].0 == name ==> !entries[i].1.online,
    ensures
        forall|k: int|
            #![trigger online_entries(entries)[k]]
            0 <= k < online_entries(entries).len() ==> online_entries(entries)[k].0 != name,
    decreases entries.len(),
{
    if entries.len() > 0 {
        assert(forall|i: int|
            0 <= i < entries.drop_last().len() && entries.drop_last()[i].0 == name
                ==> !entries.drop_last()[i].1.online);
        lemma_online_entries_names(entries.drop_last(), name);
        if entries.last().1.online {
            assert(online_entries(entries) == online_entries(entries.drop_last()).push(
                entries.last(),
            ));
            assert(entries[entries.len() - 1].0 != name);
        } else {
            assert(online_entries(entries) == online_entries(entries.drop_last()));
        }
    }
}

/// The content lines are exactly the online records' lines, in order: one
/// line per online record, each appearing once.
pub proof fn lemma_content_lines_exact(entries: Seq<(Seq<char>, UserV)>)
    ensures
        content_lines(entries).len() == online_entries(entries).len(),
        forall|k: int|
            #![trigger content_lines(entries)[k]]
            0 <= k < content_lines(entries).len() ==> content_lines(entries)[k] == line_of(
                online_entries(entries)[k].0,
                online_entries(entries)[k].1.online_since->Some_0,
            ),
    decreases entries.len(),
{
    if entries.len() > 0 {
        lemma_content_lines_exact(entries.drop_last());
    }
}

/// Applying a connect for a name and then a disconnect for the same name
/// leaves that name's record offline with its `online_since` cleared, and
/// the renderer lists no line for it: every rendered content line comes
/// from an online record under some other name.
pub proof fn lemma_connect_then_disconnect(
    t: TableV,
    name: Seq<char>,
    ts1: Seq<char>,
    ts2: Seq<char>,
)
    requires
        wf(t),
    ensures
        ({
            let t2 = apply_spec(
                apply_spec(t, EventV { name, connected: true, observed_at: ts1 }),
                EventV { name, connected: false, observed_at: ts2 },
            );
            &&& lookup(t2.entries, name) == Some(record_of(false, ts2))
            &&& forall|i: int|
                0 <= i < t2.entries.len() && t2.entries[i].0 == name ==> !t2.entries[i].1.online
            &&& content_lines(t2.entries).len() == online_entries(t2.entries).len()
            &&& forall|k: int|
                #![trigger content_lines(t2.entries)[k]]
                0 <= k < content_lines(t2.entries).len() ==> content_lines(t2.entries)[k]
                    == line_of(
                    online_entries(t2.entries)[k].0,
                    online_entries(t2.entries)[k].1.online_since->Some_0,
                )
            &&& forall|k: int|
                #![trigger online_entries(t2.entries)[k]]
                0 <= k < online_entries(t2.entries).len() ==> online_entries(t2.entries)[k].0
                    != name
        }),
{
    let e1 = EventV { name, connected: true, observed_at: ts1 };
    let e2 = EventV { name, connected: false, observed_at: ts2 };
    let t1 = apply_spec(t, e1);
    let t2 = apply_spec(t1, e2);
    lemma_apply_preserves_wf(t, e1);
    lemma_name_index_from(t.entries, name, 0);
    let k = if name_index(t.entries, name) is Some {
        name_index(t.entries, name)->Some_0
    } else {
        t.entries.len() as int
    };
    assert(t1.entries[k].0 == name);
    assert(forall|j: int| 0 <= j < k ==> t1.entries[j].0 == t.entries[j].0);
    lemma_name_index_from_is(t1.entries, name, 0, k);
    assert(t2.entries == t1.entries.update(k, (name, record_of(false, ts2))));
    lemma_name_index_from_is(t2.entries, name, 0, k);
    assert(lookup(t2.entries, name) == Some(record_of(false, ts2)));
    assert forall|i: int|
        0 <= i < t2.entries.len() && t2.entries[i].0 == name implies !t2.entries[i].1.online by {
        if i != k {
            assert(t2.entries[i].0 == t.entries[i].0);
            if name_index(t.entries, name) is Some {
                assert(t.entries[k].0 == name);
                if i < k {
                    assert(t.entries[i].0 != t.entries[k].0);
                } else {
                    assert(t.entries[k].0 != t.entries[i].0);
                }
            }
            assert(false);
        }
    }
    lemma_content_lines_exact(t2.entries);
    lemma_online_entries_names(t2.entries, name);
}

/// The report's shape: the title, timestamp and rule lines are each as wide
/// as the longest content line floored at 18, and the report is exactly
/// those three lines followed by every content line, newline-separated.
/// Holds whenever the table's timestamp fits the width, as every rebuilt
/// line timestamp does.
pub proof fn lemma_report_shape(t: TableV)
    requires
        wf(t),
        t.updated_at.len() <= report_width(content_lines(t.entries)),
    ensures
        ({
            let lines = content_lines(t.entries);
            let w = report_width(lines);
            &&& w == if max_line_len(lines) > 18 {
                max_line_len(lines)
            } else {
                18nat
            }
            &&& padded_line(title_text(), '-', w).len() == w
            &&& padded_line(t.updated_at, ' ', w).len() == w
            &&& repeated('-', w).len() == w
            &&& render_spec(t) == crate::render::join_lines(
                padded_line(title_text(), '-', w) + "\n"@ + padded_line(t.updated_at, ' ', w)
                    + "\n"@ + repeated('-', w),
                lines,
            )
        }),
{
    reveal_strlit("Online users");
    assert(title_text().len() == 12);
}

/// Rendering is a pure function of the snapshot: two renderings of the
/// same table are byte-identical.
pub proof fn lemma_render_idempotent(t: TableV, r1: Seq<char>, r2: Seq<char>)
    requires
        r1 == render_spec(t),
        r2 == render_spec(t),
    ensures
        r1 == r2,
{
}

/// The table after a whole sequence of transitions, applied in arrival
/// order by the single writer.
pub open spec fn apply_all(t: TableV, evs: Seq<EventV>) -> TableV
    decreases evs.len(),
{
    if evs.len() == 0 {
        t
    } else {
        apply_spec(apply_all(t, evs.drop_last()), evs.last())
    }
}

/// Every state the single writer ever produces is well-formed.
pub proof fn lemma_apply_all_wf(t: TableV, evs: Seq<EventV>)
    requires
        wf(t),
    ensures
        wf(apply_all(t, evs)),
    decreases evs.len(),
{
    if evs.len() > 0 {
        lemma_apply_all_wf(t, evs.drop_last());
        lemma_apply_preserves_wf(apply_all(t, evs.drop_last()), evs.last());
    }
}

/// A snapshot taken anywhere between sequential writes observes the state
/// after some prefix of them, and every such state is well-formed: no name
/// occurs twice and no record is online without its timestamp.
pub proof fn lemma_snapshot_prefix_wf(t: TableV, evs: Seq<EventV>, k: int)
    requires
        wf(t),
        0 <= k <= evs.len(),
    ensures
        wf(apply_all(t, evs.subrange(0, k))),
{
    lemma_apply_all_wf(t, evs.subrange(0, k));
}

} // verus!
