//! The pure half of the unit-start-date lookup: extracting the timestamp
//! value from the single `key=value` line an external status query prints.
//! The query itself, its timeout, and the process handling live outside the
//! library.

use vstd::prelude::*;
use vstd::string::StrSliceExecFns;

use crate::text::find_spec;
use crate::text::find_str_from;
use crate::text::lemma_find_from_spec;

verus! {

/// `s` with every trailing newline removed.
pub open spec fn trim_newlines(s: Seq<char>) -> Seq<char>
    decreases s.len(),
{
    if s.len() > 0 && s.last() == '\n' {
        trim_newlines(s.drop_last())
    } else {
        s
    }
}

/// What extracting the value yields: the text after the first `=`, trailing
/// newlines removed; nothing when the line has no `=`.
pub open spec fn show_value_spec(s: Seq<char>) -> Option<Seq<char>> {
    match find_spec(s, "="@) {
        None => None,
        Some(i) => Some(trim_newlines(s.subrange(i + 1, s.len() as int))),
    }
}

/// When everything at or after `end` is a newline and nothing right before
/// `end` is, trimming trailing newlines stops exactly at `end`.
proof fn lemma_trim_newlines(s: Seq<char>, end: int)
    requires
        0 <= end <= s.len(),
        forall|k: int| end <= k < s.len() ==> s[k] == '\n',
        end > 0 ==> s[end - 1] != '\n',
    ensures
        trim_newlines(s) == s.subrange(0, end),
    decreases s.len(),
{
    if s.len() == end {
        assert(s.subrange(0, end) =~= s);
    } else {
        assert(s.last() == '\n');
        lemma_trim_newlines(s.drop_last(), end);
        assert(s.drop_last().subrange(0, end) =~= s.subrange(0, end));
    }
}

/// Extract the timestamp value from one `key=value` output line: the text
/// after the first `=`, trailing newlines removed. `None` when no `=`
/// occurs, which marks the output as unusable.
pub fn parse_show_value(s: &str) -> (r: Option<String>)
    ensures
        match r {
            Some(v) => show_value_spec(s@) == Some(v@),
            None => show_value_spec(s@) is None,
        },
{
    proof {
        reveal_strlit("=");
    }
    let n = s.unicode_len();
    let i = match find_str_from(s, "=", 0) {
        None => { return None },
        Some(i) => i,
    };
    proof {
        lemma_find_from_spec(s@, "="@, 0);
    }
    let rest = s.substring_char(i + 1, n);
    let m = rest.unicode_len();
    let mut end = m;
    while end > 0 && rest.get_char(end - 1) == '\n'
        invariant
            end <= m,
            m == rest@.len(),
            forall|k: int| end <= k < m ==> rest@[k] == '\n',
        decreases end,
    {
        end -= 1;
    }
    proof {
        lemma_trim_newlines(rest@, end as int);
    }
    Some(rest.substring_char(0, end).to_owned())
}

} // verus!
