//! The status renderer: a pure function from a presence-table snapshot to a
//! multi-line report.
//!
//! One content line `[online_since] name` per online record (offline records
//! are omitted), preceded by a three-line header: the title `Online users`
//! padded with dashes, the table's `updated_at` padded with spaces, and a
//! full-width dash rule. All three header lines are as wide as the longest
//! content line, floored at 18 characters; padding splits as evenly as
//! possible, with the odd extra character falling on the right. Lines are
//! joined by single newlines, with no trailing newline.

use vstd::prelude::*;
use vstd::string::StrSliceExecFns;
use vstd::string::StringExecFns;

use crate::users::TableV;
use crate::users::UserV;

verus! {

/// The content line rendered for one online record.
pub open spec fn line_of(name: Seq<char>, since: Seq<char>) -> Seq<char> {
    "["@ + since + "] "@ + name
}

/// The content lines of a table: one per online record, in entry order.
pub open spec fn content_lines(entries: Seq<(Seq<char>, UserV)>) -> Seq<Seq<char>>
    decreases entries.len(),
{
    if entries.len() == 0 {
        Seq::empty()
    } else {
        let prefix = content_lines(entries.drop_last());
        let e = entries.last();
        if e.1.online {
            prefix.push(line_of(e.0, e.1.online_since->Some_0))
        } else {
            prefix
        }
    }
}

/// The online records of a table, in entry order.
pub open spec fn online_entries(entries: Seq<(Seq<char>, UserV)>) -> Seq<(Seq<char>, UserV)>
    decreases entries.len(),
{
    if entries.len() == 0 {
        Seq::empty()
    } else {
        let prefix = online_entries(entries.drop_last());
        if entries.last().1.online {
            prefix.push(entries.last())
        } else {
            prefix
        }
    }
}

/// The length of the longest line, zero when there are none.
pub open spec fn max_line_len(lines: Seq<Seq<char>>) -> nat
    decreases lines.len(),
{
    if lines.len() == 0 {
        0
    } else {
        let rest = max_line_len(lines.drop_last());
        if lines.last().len() > rest {
            lines.last().len()
        } else {
            rest
        }
    }
}

/// The report's width: the longest content line, floored at 18.
pub open spec fn report_width(lines: Seq<Seq<char>>) -> nat {
    let m = max_line_len(lines);
    if m > 18 {
        m
    } else {
        18
    }
}

/// `n` repetitions of one character.
pub open spec fn repeated(c: char, n: nat) -> Seq<char> {
    Seq::new(n, |i: int| c)
}

/// The report's title text.
pub open spec fn title_text() -> Seq<char> {
    "Online users"@
}

/// `content` padded with `fill` on both sides up to `width`: the padding
/// splits as evenly as possible, the odd extra character falls on the right,
/// and content already at least `width` wide gets no padding at all.
pub open spec fn padded_line(content: Seq<char>, fill: char, width: nat) -> Seq<char> {
    let pad = if width >= content.len() {
        (width - content.len()) as nat
    } else {
        0nat
    };
    let left = pad / 2;
    let right = (pad - left) as nat;
    repeated(fill, left) + content + repeated(fill, right)
}

/// `head` followed by each line, every line preceded by one newline.
pub open spec fn join_lines(head: Seq<char>, lines: Seq<Seq<char>>) -> Seq<char>
    decreases lines.len(),
{
    if lines.len() == 0 {
        head
    } else {
        join_lines(head, lines.drop_last()) + "\n"@ + lines.last()
    }
}

/// The whole report for given content lines and table timestamp.
pub open spec fn report_of(lines: Seq<Seq<char>>, updated_at: Seq<char>) -> Seq<char> {
    let w = report_width(lines);
    join_lines(
        padded_line(title_text(), '-', w) + "\n"@ + padded_line(updated_at, ' ', w) + "\n"@
            + repeated('-', w),
        lines,
    )
}

/// What rendering a table snapshot yields.
pub open spec fn render_spec(t: TableV) -> Seq<char> {
    report_of(content_lines(t.entries), t.updated_at)
}

/// The views of a vector of lines.
pub open spec fn views_of(lines: Seq<String>) -> Seq<Seq<char>> {
    Seq::new(lines.len(), |i: int| lines[i]@)
}

/// `n` repetitions of a one-character string.
fn repeat_str(piece: &str, n: usize) -> (r: String)
    requires
        piece@.len() == 1,
    ensures
        r@ == repeated(piece@[0], n as nat),
{
    let mut s = String::new();
    let mut i: usize = 0;
    while i < n
        invariant
            piece@.len() == 1,
            i <= n,
            s@ == repeated(piece@[0], i as nat),
        decreases n - i,
    {
        s.append(piece);
        proof {
            assert(s@ =~= repeated(piece@[0], (i + 1) as nat));
        }
        i += 1;
    }
    s
}

/// Pad `content` with the one-character string `fill` on both sides up to
/// `width`, the odd extra character on the right.
fn padded(content: &str, fill: &str, width: usize) -> (r: String)
    requires
        fill@.len() == 1,
    ensures
        r@ == padded_line(content@, fill@[0], width as nat),
{
    let clen = content.unicode_len();
    let pad = if width >= clen {
        width - clen
    } else {
        0
    };
    let left = pad / 2;
    let right = pad - left;
    let mut s = repeat_str(fill, left);
    s.append(content);
    let rpad = repeat_str(fill, right);
    s.append(rpad.as_str());
    s
}

/// Assemble the report from already-rendered content lines and the table's
/// timestamp: three header lines as wide as the longest content line
/// (floored at 18), then the content lines, all joined by single newlines.
pub fn compose_report(lines: &Vec<String>, updated_at: &str) -> (r: String)
    ensures
        r@ == report_of(views_of(lines@), updated_at@),
{
    proof {
        reveal_strlit("-");
        reveal_strlit(" ");
    }
    let ghost ls = views_of(lines@);
    let mut w: usize = 18;
    let mut i: usize = 0;
    proof {
        assert(ls.subrange(0, 0) =~= Seq::<Seq<char>>::empty());
    }
    while i < lines.len()
        invariant
            i <= lines@.len(),
            ls == views_of(lines@),
            ls.len() == lines@.len(),
            w as nat == report_width(ls.subrange(0, i as int)),
            w >= 18,
        decreases lines@.len() - i,
    {
        let l = lines[i].as_str().unicode_len();
        if l > w {
            w = l;
        }
        proof {
            assert(ls.subrange(0, i + 1).drop_last() =~= ls.subrange(0, i as int));
            assert(ls.subrange(0, i + 1).last() == lines@[i as int]@);
        }
        i += 1;
    }
    proof {
        assert(ls.subrange(0, ls.len() as int) =~= ls);
    }
    let mut out = padded("Online users", "-", w);
    out.append("\n");
    let ts_line = padded(updated_at, " ", w);
    out.append(ts_line.as_str());
    out.append("\n");
    let dashes = repeat_str("-", w);
    out.append(dashes.as_str());
    let ghost head = padded_line(title_text(), '-', w as nat) + "\n"@ + padded_line(
        updated_at@,
        ' ',
        w as nat,
    ) + "\n"@ + repeated('-', w as nat);
    let mut i: usize = 0;
    while i < lines.len()
        invariant
            i <= lines@.len(),
            ls == views_of(lines@),
            ls.len() == lines@.len(),
            out@ == join_lines(head, ls.subrange(0, i as int)),
        decreases lines@.len() - i,
    {
        out.append("\n");
        out.append(lines[i].as_str());
        proof {
            assert(ls.subrange(0, i + 1).drop_last() =~= ls.subrange(0, i as int));
            assert(ls.subrange(0, i + 1).last() == lines@[i as int]@);
        }
        i += 1;
    }
    proof {
        assert(ls.subrange(0, ls.len() as int) =~= ls);
    }
    out
}

} // verus!
