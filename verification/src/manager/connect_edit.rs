//! Editing of the probe rows in the manager window. The window reports an
//! edit as a short command: "add", "del-<row>", "url:<row>:<text>" or
//! "val:<row>:<text>".
use vstd::prelude::*;
use crate::text::{chars_of, string_of, find_from, find_char, lemma_find_from_bounds};
use crate::manager::services::{starts_with, starts_with_lit, sub_vec};
use crate::text::str_eq;

verus! {

/// One row of the probe table.
pub struct ConnectEntry {
    pub url: String,
    pub value: String,
}

/// What an edit command asks for.
pub enum ConnectEdit {
    Add,
    Delete(usize),
    SetUrl(usize, String),
    SetValue(usize, String),
    Ignore,
}

/// `c` is an ASCII decimal digit.
pub open spec fn is_digit(c: char) -> bool {
    '0' <= c && c <= '9'
}

/// Value of a string of decimal digits.
pub open spec fn digits_value(s: Seq<char>) -> nat
    decreases s.len(),
{
    if s.len() == 0 {
        0
    } else {
        digits_value(s.drop_last()) * 10 + ((s.last() as u32 - '0' as u32) as nat)
    }
}

/// `s.parse::<usize>()`: an optional '+' and at least one digit, with a
/// value that fits.
pub open spec fn parse_index(s: Seq<char>) -> Option<nat> {
    if unsigned_part(s).len() > 0 && all_digits(unsigned_part(s)) && digits_value(unsigned_part(s)) <= usize::MAX {
        Some(digits_value(unsigned_part(s)))
    } else {
        None
    }
}

/// `s` without a leading '+'.
pub open spec fn unsigned_part(s: Seq<char>) -> Seq<char> {
    if s.len() > 0 && s[0] == '+' { s.drop_first() } else { s }
}

/// Every character is a decimal digit.
pub open spec fn all_digits(d: Seq<char>) -> bool {
    forall|i: int| 0 <= i < d.len() ==> is_digit(#[trigger] d[i])
}

proof fn lemma_digits_monotone(s: Seq<char>, j: int)
    requires
        0 <= j <= s.len(),
        all_digits(s),
    ensures
        digits_value(s.take(j)) <= digits_value(s),
    decreases s.len() - j,
{
    if j < s.len() {
        lemma_digits_monotone(s, j + 1);
        assert(s.take(j + 1).drop_last() =~= s.take(j));
    } else {
        assert(s.take(j) =~= s);
    }
}

proof fn lemma_overflow_rejects(d: Seq<char>, j: int)
    requires
        0 <= j <= d.len(),
        digits_value(d.take(j)) > usize::MAX,
    ensures
        !(all_digits(d) && digits_value(d) <= usize::MAX),
{
    if all_digits(d) {
        lemma_digits_monotone(d, j);
    }
}

fn parse_index_exec(v: &Vec<char>, a: usize, b: usize) -> (r: Option<usize>)
    requires
        a <= b <= v@.len(),
    ensures
        r matches Some(k) ==> parse_index(v@.subrange(a as int, b as int)) == Some(k as nat),
        r is None ==> parse_index(v@.subrange(a as int, b as int)) is None,
{
    let ghost s = v@.subrange(a as int, b as int);
    let mut start = a;
    if a < b && v[a] == '+' {
        start = a + 1;
    }
    let ghost d = v@.subrange(start as int, b as int);
    assert(d =~= unsigned_part(s));
    if start == b {
        return None;
    }
    let mut val: usize = 0;
    let mut i = start;
    while i < b
        invariant
            a <= start <= i <= b <= v@.len(),
            d == v@.subrange(start as int, b as int),
            s == v@.subrange(a as int, b as int),
            d == unsigned_part(s),
            forall|j: int| start <= j < i ==> is_digit(#[trigger] v@[j]),
            val as nat == digits_value(d.take(i - start)),
        decreases b - i,
    {
        let c = v[i];
        if !('0' <= c && c <= '9') {
            assert(!is_digit(d[i - start]));
            return None;
        }
        let digit = (c as u32 - '0' as u32) as usize;
        assert(d.take(i - start + 1).drop_last() =~= d.take(i - start));
        assert(d.take(i - start + 1).last() == c);
        match val.checked_mul(10) {
            Some(t) => match t.checked_add(digit) {
                Some(u) => {
                    val = u;
                },
                None => {
                    proof {
                        lemma_overflow_rejects(d, i - start + 1);
                    }
                    return None;
                },
            },
            None => {
                proof {
                    lemma_overflow_rejects(d, i - start + 1);
                }
                return None;
            },
        }
        i = i + 1;
    }
    assert(d.take(b - start) =~= d);
    Some(val)
}

/// The row and text of a "url:" / "val:" command: the row number runs
/// up to the next ':', the text is everything after it.
pub open spec fn row_and_text(a: Seq<char>) -> Option<(nat, Seq<char>)> {
    let k = find_from(a, ':', 4);
    if k >= a.len() {
        None
    } else {
        match parse_index(a.subrange(4, k)) {
            Some(n) => Some((n, a.skip(k + 1))),
            None => None,
        }
    }
}

/// `e` is the edit that command `a` asks for.
pub open spec fn parses_to(a: Seq<char>, e: ConnectEdit) -> bool {
    if a == "add"@ {
        e is Add
    } else if starts_with(a, "del-"@) {
        match parse_index(a.skip(4)) {
            Some(n) => e == ConnectEdit::Delete(n as usize),
            None => e is Ignore,
        }
    } else if starts_with(a, "url:"@) {
        match row_and_text(a) {
            Some(p) => e matches ConnectEdit::SetUrl(i, t) && i == p.0 && t@ == p.1,
            None => e is Ignore,
        }
    } else if starts_with(a, "val:"@) {
        match row_and_text(a) {
            Some(p) => e matches ConnectEdit::SetValue(i, t) && i == p.0 && t@ == p.1,
            None => e is Ignore,
        }
    } else {
        e is Ignore
    }
}

fn row_and_text_exec(v: &Vec<char>) -> (r: Option<(usize, String)>)
    requires
        4 <= v@.len(),
    ensures
        r matches Some(p) ==> row_and_text(v@) == Some((p.0 as nat, p.1@)),
        r is None ==> row_and_text(v@) is None,
{
    let k = find_char(v, ':', 4);
    if k >= v.len() {
        return None;
    }
    proof {
        lemma_find_from_bounds(v@, ':', 4);
    }
    match parse_index_exec(v, 4, k) {
        Some(n) => {
            let t = sub_vec(v, k + 1, v.len());
            assert(t@ =~= v@.skip(k + 1));
            Some((n, string_of(t.as_slice())))
        },
        None => None,
    }
}

/// Reads an edit command of the probe table.
pub fn parse_connect_edit(action: &str) -> (e: ConnectEdit)
    ensures
        parses_to(action@, e),
{
    if str_eq(action, "add") {
        return ConnectEdit::Add;
    }
    let v = chars_of(action);
    proof {
        reveal_strlit("del-");
        reveal_strlit("url:");
        reveal_strlit("val:");
    }
    if starts_with_lit(&v, "del-") {
        match parse_index_exec(&v, 4, v.len()) {
            Some(n) => {
                assert(v@.subrange(4, v@.len() as int) =~= v@.skip(4));
                ConnectEdit::Delete(n)
            },
            None => {
                assert(v@.subrange(4, v@.len() as int) =~= v@.skip(4));
                ConnectEdit::Ignore
            },
        }
    } else if starts_with_lit(&v, "url:") {
        match row_and_text_exec(&v) {
            Some((n, t)) => ConnectEdit::SetUrl(n, t),
            None => ConnectEdit::Ignore,
        }
    } else if starts_with_lit(&v, "val:") {
        match row_and_text_exec(&v) {
            Some((n, t)) => ConnectEdit::SetValue(n, t),
            None => ConnectEdit::Ignore,
        }
    } else {
        ConnectEdit::Ignore
    }
}

/// URL and value of each row.
pub open spec fn rows_view(v: Seq<ConnectEntry>) -> Seq<(Seq<char>, Seq<char>)> {
    v.map_values(|e: ConnectEntry| (e.url@, e.value@))
}

/// The rows after an edit: a new empty row; a row removed (only when
/// more than one is left and the row exists); a cell replaced in an
/// existing row; or nothing.
pub open spec fn edited(rows: Seq<(Seq<char>, Seq<char>)>, e: ConnectEdit) -> Seq<(Seq<char>, Seq<char>)> {
    match e {
        ConnectEdit::Add => rows.push((seq![], seq![])),
        ConnectEdit::Delete(i) => if rows.len() > 1 && i < rows.len() { rows.remove(i as int) } else { rows },
        ConnectEdit::SetUrl(i, t) => if i < rows.len() { rows.update(i as int, (t@, rows[i as int].1)) } else { rows },
        ConnectEdit::SetValue(i, t) => if i < rows.len() { rows.update(i as int, (rows[i as int].0, t@)) } else { rows },
        ConnectEdit::Ignore => rows,
    }
}

/// Carries out an edit on the probe rows.
pub fn apply_connect_edit(entries: &mut Vec<ConnectEntry>, edit: ConnectEdit)
    ensures
        rows_view(final(entries)@) == edited(rows_view(old(entries)@), edit),
{
    let ghost e = edit;
    match edit {
        ConnectEdit::Add => {
            entries.push(ConnectEntry { url: String::new(), value: String::new() });
        },
        ConnectEdit::Delete(i) => {
            if entries.len() > 1 && i < entries.len() {
                entries.remove(i);
            }
        },
        ConnectEdit::SetUrl(i, t) => {
            if i < entries.len() {
                let value = entries[i].value.clone();
                entries.set(i, ConnectEntry { url: t, value });
            }
        },
        ConnectEdit::SetValue(i, t) => {
            if i < entries.len() {
                let url = entries[i].url.clone();
                entries.set(i, ConnectEntry { url, value: t });
            }
        },
        ConnectEdit::Ignore => {},
    }
    assert(rows_view(entries@) =~= edited(rows_view(old(entries)@), e));
}

/// Law: editing never leaves the table without rows once it has one.
pub proof fn lemma_edit_keeps_a_row(rows: Seq<(Seq<char>, Seq<char>)>, e: ConnectEdit)
    requires
        rows.len() >= 1,
    ensures
        edited(rows, e).len() >= 1,
{
}

/// Law: setting the URL of an existing row changes that row's URL and
/// nothing else; every row's value and every other row stay as they were.
pub proof fn lemma_set_url_frame(rows: Seq<(Seq<char>, Seq<char>)>, i: usize, t: String)
    requires
        i < rows.len(),
    ensures
        edited(rows, ConnectEdit::SetUrl(i, t)).len() == rows.len(),
        edited(rows, ConnectEdit::SetUrl(i, t))[i as int].0 == t@,
        forall|j: int| 0 <= j < rows.len() ==> #[trigger] edited(rows, ConnectEdit::SetUrl(i, t))[j].1 == rows[j].1,
        forall|j: int| 0 <= j < rows.len() && j != i ==> #[trigger] edited(rows, ConnectEdit::SetUrl(i, t))[j] == rows[j],
{
}

/// Law: setting the value of an existing row changes that row's value and
/// nothing else; every row's URL and every other row stay as they were.
pub proof fn lemma_set_value_frame(rows: Seq<(Seq<char>, Seq<char>)>, i: usize, t: String)
    requires
        i < rows.len(),
    ensures
        edited(rows, ConnectEdit::SetValue(i, t)).len() == rows.len(),
        edited(rows, ConnectEdit::SetValue(i, t))[i as int].1 == t@,
        forall|j: int| 0 <= j < rows.len() ==> #[trigger] edited(rows, ConnectEdit::SetValue(i, t))[j].0 == rows[j].0,
        forall|j: int| 0 <= j < rows.len() && j != i ==> #[trigger] edited(rows, ConnectEdit::SetValue(i, t))[j] == rows[j],
{
}

/// Law: adding appends one empty row and keeps the others in place.
pub proof fn lemma_add_frame(rows: Seq<(Seq<char>, Seq<char>)>)
    ensures
        edited(rows, ConnectEdit::Add).len() == rows.len() + 1,
        edited(rows, ConnectEdit::Add)[rows.len() as int] == (Seq::<char>::empty(), Seq::<char>::empty()),
        forall|j: int| 0 <= j < rows.len() ==> #[trigger] edited(rows, ConnectEdit::Add)[j] == rows[j],
{
}

/// Law: deleting an existing row while another remains removes exactly
/// that row: the rows before it stay, the rows after it move up by one.
pub proof fn lemma_delete_frame(rows: Seq<(Seq<char>, Seq<char>)>, i: usize)
    requires
        i < rows.len(),
        rows.len() > 1,
    ensures
        edited(rows, ConnectEdit::Delete(i)).len() == rows.len() - 1,
        forall|j: int| 0 <= j < i ==> #[trigger] edited(rows, ConnectEdit::Delete(i))[j] == rows[j],
        forall|j: int| i <= j < rows.len() - 1 ==> #[trigger] edited(rows, ConnectEdit::Delete(i))[j] == rows[j + 1],
{
}

/// Law: an edit naming no existing row, deleting the last remaining row,
/// or an ignored command leaves the table as it was.
pub proof fn lemma_edit_out_of_range_keeps_rows(rows: Seq<(Seq<char>, Seq<char>)>, i: usize, t: String)
    requires
        i >= rows.len(),
    ensures
        edited(rows, ConnectEdit::SetUrl(i, t)) == rows,
        edited(rows, ConnectEdit::SetValue(i, t)) == rows,
        edited(rows, ConnectEdit::Delete(i)) == rows,
        rows.len() <= 1 ==> edited(rows, ConnectEdit::Delete(0)) == rows,
        edited(rows, ConnectEdit::Ignore) == rows,
{
}

/// The first `c` at or after `i` is at `k` when none lies in between.
proof fn lemma_find_at(s: Seq<char>, c: char, i: int, k: int)
    requires
        0 <= i <= k < s.len(),
        forall|j: int| i <= j < k ==> #[trigger] s[j] != c,
        s[k] == c,
    ensures
        find_from(s, c, i) == k,
    decreases k - i,
{
    if i < k {
        lemma_find_at(s, c, i + 1, k);
    }
}

/// The row and text of `prefix + digits + ":" + text`, for a four
/// character prefix.
proof fn lemma_row_and_text(prefix: Seq<char>, d: Seq<char>, t: Seq<char>)
    requires
        prefix.len() == 4,
        d.len() > 0,
        all_digits(d),
        digits_value(d) <= usize::MAX,
    ensures
        row_and_text(prefix + d + ":"@ + t) == Some((digits_value(d), t)),
{
    reveal_strlit(":");
    let a = prefix + d + ":"@ + t;
    let k: int = 4 + d.len() as int;
    assert forall|j: int| 4 <= j < k implies #[trigger] a[j] != ':' by {
        assert(a[j] == d[j - 4]);
        assert(is_digit(d[j - 4]));
    }
    assert(a[k] == ':');
    lemma_find_at(a, ':', 4, k);
    assert(a.subrange(4, k) =~= d);
    assert(is_digit(d[0]));
    assert(unsigned_part(d) == d);
    assert(a.skip(k + 1) =~= t);
}

/// Law: "url:<row>:<text>" sets the URL of that row to the text, and
/// "val:<row>:<text>" its value, for every decimal row number that fits
/// and every text (which may itself hold ':').
pub proof fn lemma_cell_commands(d: Seq<char>, t: Seq<char>, e: ConnectEdit, f: ConnectEdit)
    requires
        d.len() > 0,
        all_digits(d),
        digits_value(d) <= usize::MAX,
        parses_to("url:"@ + d + ":"@ + t, e),
        parses_to("val:"@ + d + ":"@ + t, f),
    ensures
        e matches ConnectEdit::SetUrl(i, x) && i == digits_value(d) && x@ == t,
        f matches ConnectEdit::SetValue(i, x) && i == digits_value(d) && x@ == t,
{
    reveal_strlit("url:");
    reveal_strlit("val:");
    reveal_strlit("add");
    reveal_strlit("del-");
    lemma_row_and_text("url:"@, d, t);
    lemma_row_and_text("val:"@, d, t);
    let a = "url:"@ + d + ":"@ + t;
    let b = "val:"@ + d + ":"@ + t;
    assert(a.take(4) =~= "url:"@);
    assert(b.take(4) =~= "val:"@);
    assert(a[0] == 'u');
    assert(b[0] == 'v');
    assert(a != "add"@);
    assert(b != "add"@);
    assert(!starts_with(a, "del-"@));
    assert(!starts_with(b, "del-"@));
    assert(!starts_with(b, "url:"@));
}

/// Law: "del-<row>" deletes that row, for every decimal row number that
/// fits.
pub proof fn lemma_delete_command(d: Seq<char>, e: ConnectEdit)
    requires
        d.len() > 0,
        all_digits(d),
        digits_value(d) <= usize::MAX,
        parses_to("del-"@ + d, e),
    ensures
        e == ConnectEdit::Delete(digits_value(d) as usize),
{
    reveal_strlit("add");
    reveal_strlit("del-");
    let a = "del-"@ + d;
    assert(a.take(4) =~= "del-"@);
    assert(a[0] == 'd');
    assert(a != "add"@);
    assert(a.skip(4) =~= d);
    assert(is_digit(d[0]));
    assert(unsigned_part(d) == d);
}

} // verus!
