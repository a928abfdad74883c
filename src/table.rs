//! The text table of a listing: a header, a rule, and one row per record.
use vstd::prelude::*;
use vstd::string::StrSliceExecFns;
use crate::repo::{visibility_name, RepositoryRecord};
use crate::text::{chars_of, push_char, push_repeat, push_text, repeat_char};

verus! {

/// Width of the visibility column.
pub const VISIBILITY_WIDTH: usize = 10;

/// Width of the description column.
pub const DESCRIPTION_WIDTH: usize = 50;

/// Width of the name column of an empty listing.
pub const EMPTY_NAME_WIDTH: usize = 10;

/// `s` filled with spaces on the right up to `w` characters; longer text is
/// kept whole.
pub open spec fn pad(s: Seq<char>, w: nat) -> Seq<char> {
    if s.len() >= w {
        s
    } else {
        s + repeat_char(' ', (w - s.len()) as nat)
    }
}

/// `s` cut to its first `w` characters when longer, else filled with
/// spaces up to `w`: exactly `w` characters either way.
pub open spec fn fit(s: Seq<char>, w: nat) -> Seq<char> {
    if s.len() >= w {
        s.subrange(0, w as int)
    } else {
        pad(s, w)
    }
}

/// The length of the longest name among the records.
pub open spec fn longest_name(records: Seq<RepositoryRecord>) -> nat
    decreases records.len(),
{
    if records.len() == 0 {
        0
    } else {
        let rest = longest_name(records.drop_last());
        let here = records.last().name@.len();
        if here > rest { here } else { rest }
    }
}

/// The width of the name column.
pub open spec fn name_width(records: Seq<RepositoryRecord>) -> nat {
    if records.len() == 0 {
        EMPTY_NAME_WIDTH as nat
    } else {
        longest_name(records)
    }
}

/// The header line.
pub open spec fn header_line(w: nat) -> Seq<char> {
    " "@ + pad("repo_name"@, w) + " "@ + pad("visibility"@, VISIBILITY_WIDTH as nat) + " "@
        + pad("description"@, DESCRIPTION_WIDTH as nat)
}

/// The rule under the header.
pub open spec fn rule_line(w: nat) -> Seq<char> {
    "-"@ + repeat_char('=', w) + "-"@ + repeat_char('=', VISIBILITY_WIDTH as nat) + "-"@
        + repeat_char('=', DESCRIPTION_WIDTH as nat) + "-"@
}

/// The description shown for a record; none shows as empty.
pub open spec fn description_text(r: RepositoryRecord) -> Seq<char> {
    match r.description {
        Some(d) => d@,
        None => Seq::empty(),
    }
}

/// The row of one record.
pub open spec fn record_line(r: RepositoryRecord, w: nat) -> Seq<char> {
    "|"@ + pad(r.name@, w) + "|"@ + pad(visibility_name(r.visibility), VISIBILITY_WIDTH as nat)
        + "|"@ + fit(description_text(r), DESCRIPTION_WIDTH as nat)
}

/// Appends `t` padded to `w` characters.
fn push_padded(s: &mut String, t: &str, w: usize)
    ensures
        final(s)@ == old(s)@ + pad(t@, w as nat),
{
    let n = t.unicode_len();
    push_text(s, t);
    if n < w {
        push_repeat(s, ' ', w - n);
    }
    assert(s@ =~= old(s)@ + pad(t@, w as nat));
}

/// Appends `t` cut or padded to exactly `w` characters.
fn push_fitted(s: &mut String, t: &str, w: usize)
    ensures
        final(s)@ == old(s)@ + fit(t@, w as nat),
{
    let cs = chars_of(t);
    if cs.len() < w {
        push_padded(s, t, w);
        return;
    }
    let mut i: usize = 0;
    while i < w
        invariant
            i <= w <= cs@.len(),
            cs@ == t@,
            s@ == old(s)@ + cs@.subrange(0, i as int),
        decreases w - i,
    {
        push_char(s, cs[i]);
        i = i + 1;
        assert(s@ =~= old(s)@ + cs@.subrange(0, i as int));
    }
}

/// The width of the name column of a listing.
pub fn column_width(records: &Vec<RepositoryRecord>) -> (r: usize)
    ensures
        r as nat == name_width(records@),
{
    if records.len() == 0 {
        return EMPTY_NAME_WIDTH;
    }
    let mut w: usize = 0;
    let mut i: usize = 0;
    while i < records.len()
        invariant
            i <= records@.len(),
            w as nat == longest_name(records@.subrange(0, i as int)),
        decreases records@.len() - i,
    {
        let n = records[i].name.as_str().unicode_len();
        proof {
            assert(records@.subrange(0, i + 1).drop_last() =~= records@.subrange(0, i as int));
        }
        if n > w {
            w = n;
        }
        i = i + 1;
    }
    assert(records@.subrange(0, records@.len() as int) =~= records@);
    w
}

/// The lines of the table of a listing: header, rule, then one row per
/// record in order.
pub fn render_table(records: &Vec<RepositoryRecord>) -> (r: Vec<String>)
    ensures
        r@.len() == records@.len() + 2,
        r@[0]@ == header_line(name_width(records@)),
        r@[1]@ == rule_line(name_width(records@)),
        forall|i: int| 0 <= i < records@.len() ==> (#[trigger] r@[i + 2])@ == record_line(
            records@[i],
            name_width(records@),
        ),
{
    let w = column_width(records);
    let mut lines: Vec<String> = Vec::new();

    let mut header = String::new();
    push_text(&mut header, " ");
    push_padded(&mut header, "repo_name", w);
    push_text(&mut header, " ");
    push_padded(&mut header, "visibility", VISIBILITY_WIDTH);
    push_text(&mut header, " ");
    push_padded(&mut header, "description", DESCRIPTION_WIDTH);
    assert(header@ =~= header_line(w as nat));
    lines.push(header);

    let mut rule = String::new();
    push_text(&mut rule, "-");
    push_repeat(&mut rule, '=', w);
    push_text(&mut rule, "-");
    push_repeat(&mut rule, '=', VISIBILITY_WIDTH);
    push_text(&mut rule, "-");
    push_repeat(&mut rule, '=', DESCRIPTION_WIDTH);
    push_text(&mut rule, "-");
    assert(rule@ =~= rule_line(w as nat));
    lines.push(rule);

    let mut i: usize = 0;
    while i < records.len()
        invariant
            i <= records@.len(),
            w as nat == name_width(records@),
            lines@.len() == i + 2,
            lines@[0]@ == header_line(w as nat),
            lines@[1]@ == rule_line(w as nat),
            forall|j: int| 0 <= j < i ==> (#[trigger] lines@[j + 2])@ == record_line(records@[j], w as nat),
        decreases records@.len() - i,
    {
        let rec = &records[i];
        let mut row = String::new();
        push_text(&mut row, "|");
        push_padded(&mut row, rec.name.as_str(), w);
        push_text(&mut row, "|");
        push_padded(&mut row, rec.visibility.name(), VISIBILITY_WIDTH);
        push_text(&mut row, "|");
        match &rec.description {
            Some(d) => push_fitted(&mut row, d.as_str(), DESCRIPTION_WIDTH),
            None => {
                proof {
                    reveal_strlit("");
                    assert(""@ =~= Seq::<char>::empty());
                }
                push_fitted(&mut row, "", DESCRIPTION_WIDTH);
            },
        }
        assert(row@ =~= record_line(*rec, w as nat));
        lines.push(row);
        i = i + 1;
    }
    lines
}

} // verus!
