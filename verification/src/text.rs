//! Character-level string helpers with exact specifications.
use vstd::prelude::*;

verus! {

/// The Unicode `White_Space` property, which `char::is_whitespace` follows.
pub open spec fn is_ws(c: char) -> bool {
    ||| ('\u{9}' <= c && c <= '\u{d}')
    ||| c == ' '
    ||| c == '\u{85}'
    ||| c == '\u{a0}'
    ||| c == '\u{1680}'
    ||| ('\u{2000}' <= c && c <= '\u{200a}')
    ||| c == '\u{2028}'
    ||| c == '\u{2029}'
    ||| c == '\u{202f}'
    ||| c == '\u{205f}'
    ||| c == '\u{3000}'
}

/// A text is blank when trimming it leaves nothing: every character is white space.
pub open spec fn blank(s: Seq<char>) -> bool {
    forall|i: int| 0 <= i < s.len() ==> is_ws(#[trigger] s[i])
}

/// Decides the `White_Space` property of one character.
pub fn is_whitespace(c: char) -> (b: bool)
    ensures
        b == is_ws(c),
{
    ('\u{9}' <= c && c <= '\u{d}') || c == ' ' || c == '\u{85}' || c == '\u{a0}'
        || c == '\u{1680}' || ('\u{2000}' <= c && c <= '\u{200a}') || c == '\u{2028}'
        || c == '\u{2029}' || c == '\u{202f}' || c == '\u{205f}' || c == '\u{3000}'
}

/// The characters of a string slice, in order.
pub fn chars_of(s: &str) -> (v: Vec<char>)
    ensures
        v@ == s@,
{
    let mut v: Vec<char> = Vec::new();
    for c in it: s.chars()
        invariant
            v@ == it.seq().take(it.index() as int),
            it.seq() == s@,
    {
        v.push(c);
    }
    v
}

/// Appends one character to a string (`String::push`).
#[verifier::external_body]
fn push_char(s: &mut String, c: char)
    ensures
        final(s)@ == old(s)@.push(c),
{
    s.push(c);
}

/// Builds a string from a character slice.
pub fn string_of(v: &[char]) -> (s: String)
    ensures
        s@ == v@,
{
    let mut s = String::new();
    let mut i: usize = 0;
    while i < v.len()
        invariant
            i <= v@.len(),
            s@ == v@.take(i as int),
        decreases v@.len() - i,
    {
        push_char(&mut s, v[i]);
        assert(v@.take(i + 1) == v@.take(i as int).push(v@[i as int]));
        i = i + 1;
    }
    assert(v@.take(v@.len() as int) == v@);
    s
}

/// Whether `s.trim().is_empty()`.
pub fn is_blank(s: &str) -> (b: bool)
    ensures
        b == blank(s@),
{
    let v = chars_of(s);
    let mut i: usize = 0;
    while i < v.len()
        invariant
            i <= v@.len(),
            v@ == s@,
            forall|j: int| 0 <= j < i ==> is_ws(#[trigger] v@[j]),
        decreases v@.len() - i,
    {
        if !is_whitespace(v[i]) {
            return false;
        }
        i = i + 1;
    }
    true
}


/// Whether two string slices hold the same characters.
pub fn str_eq(a: &str, b: &str) -> (r: bool)
    ensures
        r == (a@ == b@),
{
    let x = chars_of(a);
    let y = chars_of(b);
    if x.len() != y.len() {
        return false;
    }
    let mut i: usize = 0;
    while i < x.len()
        invariant
            x@ == a@,
            y@ == b@,
            x@.len() == y@.len(),
            i <= x@.len(),
            forall|j: int| 0 <= j < i ==> x@[j] == y@[j],
        decreases x@.len() - i,
    {
        if x[i] != y[i] {
            return false;
        }
        i = i + 1;
    }
    assert(x@ =~= y@);
    true
}

/// The decimal digit character of `d` (for `d < 10`).
pub open spec fn digit_char(d: nat) -> char {
    if d == 0 { '0' }
    else if d == 1 { '1' }
    else if d == 2 { '2' }
    else if d == 3 { '3' }
    else if d == 4 { '4' }
    else if d == 5 { '5' }
    else if d == 6 { '6' }
    else if d == 7 { '7' }
    else if d == 8 { '8' }
    else { '9' }
}

/// The decimal representation of a natural number, as `Display` writes it.
pub open spec fn dec(n: nat) -> Seq<char>
    decreases n,
{
    if n < 10 {
        seq![digit_char(n)]
    } else {
        dec(n / 10).push(digit_char(n % 10))
    }
}

fn digit_of(d: u64) -> (c: char)
    requires
        d < 10,
    ensures
        c == digit_char(d as nat),
{
    if d == 0 { '0' }
    else if d == 1 { '1' }
    else if d == 2 { '2' }
    else if d == 3 { '3' }
    else if d == 4 { '4' }
    else if d == 5 { '5' }
    else if d == 6 { '6' }
    else if d == 7 { '7' }
    else if d == 8 { '8' }
    else { '9' }
}

/// Appends the decimal representation of `n`.
pub fn push_dec(out: &mut String, n: u64)
    ensures
        final(out)@ == old(out)@ + dec(n as nat),
    decreases n,
{
    if n >= 10 {
        push_dec(out, n / 10);
    }
    let c = digit_of(n % 10);
    push_char(out, c);
    assert(old(out)@ + dec(n as nat) == old(out)@ + (if n >= 10 { dec((n / 10) as nat) } else { seq![] }).push(c));
}

/// The decimal representation of `n` (`n.to_string()`).
pub fn dec_string(n: u64) -> (s: String)
    ensures
        s@ == dec(n as nat),
{
    let mut s = String::new();
    push_dec(&mut s, n);
    assert(s@ =~= dec(n as nat));
    s
}

/// `needle` occurs in `hay` starting at position `i`.
pub open spec fn occurs_at(hay: Seq<char>, needle: Seq<char>, i: int) -> bool {
    0 <= i && i + needle.len() <= hay.len() && hay.subrange(i, i + needle.len()) == needle
}

/// `hay.contains(needle)` for string slices.
pub open spec fn has_sub(hay: Seq<char>, needle: Seq<char>) -> bool {
    exists|i: int| occurs_at(hay, needle, i)
}

/// Whether `needle` occurs at position `i` of `hay`.
fn matches_at(hay: &Vec<char>, needle: &Vec<char>, i: usize) -> (r: bool)
    requires
        i + needle@.len() <= hay@.len(),
    ensures
        r == occurs_at(hay@, needle@, i as int),
{
    let hl = hay.len();
    let mut k: usize = 0;
    while k < needle.len()
        invariant
            hl == hay@.len(),
            i + needle@.len() <= hay@.len(),
            k <= needle@.len(),
            forall|j: int| 0 <= j < k ==> hay@[i + j] == needle@[j],
        decreases needle@.len() - k,
    {
        if hay[i + k] != needle[k] {
            assert(hay@.subrange(i as int, i + needle@.len())[k as int] != needle@[k as int]);
            return false;
        }
        k = k + 1;
    }
    assert(hay@.subrange(i as int, i + needle@.len()) =~= needle@);
    true
}

/// Whether `needle` occurs somewhere in `hay` (`str::contains`).
pub fn contains(hay: &str, needle: &str) -> (r: bool)
    ensures
        r == has_sub(hay@, needle@),
{
    let h = chars_of(hay);
    let n = chars_of(needle);
    if n.len() > h.len() {
        assert(!has_sub(hay@, needle@));
        return false;
    }
    let last = h.len() - n.len();
    let mut i: usize = 0;
    while i < last
        invariant
            i <= last,
            h@ == hay@,
            n@ == needle@,
            last == h@.len() - n@.len(),
            n@.len() <= h@.len(),
            forall|j: int| 0 <= j < i ==> !occurs_at(h@, n@, j),
        decreases last + 1 - i,
    {
        if matches_at(&h, &n, i) {
            return true;
        }
        i = i + 1;
    }
    if matches_at(&h, &n, last) {
        return true;
    }
    assert forall|j: int| !occurs_at(h@, n@, j) by {
        if 0 <= j && j + n@.len() <= h@.len() {
            assert(j <= last);
        }
    }
    false
}

/// Joins the pieces with `sep` between neighbours (`[..].join(sep)`).
pub open spec fn join(parts: Seq<Seq<char>>, sep: Seq<char>) -> Seq<char>
    decreases parts.len(),
{
    if parts.len() == 0 {
        seq![]
    } else if parts.len() == 1 {
        parts[0]
    } else {
        join(parts.drop_last(), sep) + sep + parts.last()
    }
}

/// The character sequences of a list of string slices.
pub open spec fn views_of(parts: Seq<&str>) -> Seq<Seq<char>> {
    parts.map_values(|p: &str| p@)
}

/// Joins string slices with a separator.
pub fn join_strs(parts: &Vec<&str>, sep: &str) -> (s: String)
    ensures
        s@ == join(views_of(parts@), sep@),
{
    let mut s = String::new();
    let mut i: usize = 0;
    while i < parts.len()
        invariant
            i <= parts@.len(),
            s@ == join(views_of(parts@.take(i as int)), sep@),
        decreases parts@.len() - i,
    {
        let ghost prev = views_of(parts@.take(i as int));
        assert(views_of(parts@.take(i + 1)).drop_last() =~= prev);
        if i > 0 {
            s.append(sep);
        }
        s.append(parts[i]);
        assert(views_of(parts@.take(i + 1)).last() == parts@[i as int]@);
        i = i + 1;
    }
    assert(parts@.take(parts@.len() as int) =~= parts@);
    s
}


/// Position of the first `c` at or after `i` (the length when there is none).
pub open spec fn find_from(s: Seq<char>, c: char, i: int) -> int
    decreases s.len() - i,
{
    if i < 0 || i >= s.len() {
        s.len() as int
    } else if s[i] == c {
        i
    } else {
        find_from(s, c, i + 1)
    }
}

/// `find_from` lies between its start and the length.
pub proof fn lemma_find_from_bounds(s: Seq<char>, c: char, i: int)
    requires
        0 <= i <= s.len(),
    ensures
        i <= find_from(s, c, i) <= s.len(),
        find_from(s, c, i) < s.len() ==> s[find_from(s, c, i)] == c,
        forall|j: int| i <= j < find_from(s, c, i) ==> s[j] != c,
    decreases s.len() - i,
{
    if i < s.len() && s[i] != c {
        lemma_find_from_bounds(s, c, i + 1);
    }
}

/// Position of the first `c` at or after `from`.
pub fn find_char(v: &Vec<char>, c: char, from: usize) -> (k: usize)
    requires
        from <= v@.len(),
    ensures
        k == find_from(v@, c, from as int),
{
    let mut i = from;
    while i < v.len()
        invariant
            from <= i <= v@.len(),
            find_from(v@, c, from as int) == find_from(v@, c, i as int),
        decreases v@.len() - i,
    {
        if v[i] == c {
            return i;
        }
        i = i + 1;
    }
    i
}

/// The line that starts at `i`: up to the next line feed, without the
/// carriage return of a "\r\n" ending.
pub open spec fn line_at(s: Seq<char>, i: int) -> Seq<char> {
    let k = find_from(s, '\n', i);
    let l = s.subrange(i, k);
    if k < s.len() && l.len() > 0 && l.last() == '\r' { l.drop_last() } else { l }
}

/// The lines of `s` from position `i` on (`str::lines`).
pub open spec fn lines_from(s: Seq<char>, i: int) -> Seq<Seq<char>>
    decreases s.len() + 1 - i,
    via lines_from_decreases
{
    if i < 0 || i >= s.len() {
        seq![]
    } else {
        seq![line_at(s, i)] + lines_from(s, find_from(s, '\n', i) + 1)
    }
}

#[via_fn]
proof fn lines_from_decreases(s: Seq<char>, i: int) {
    if 0 <= i < s.len() {
        lemma_find_from_bounds(s, '\n', i);
    }
}

/// The lines of a text, as `str::lines` yields them.
pub open spec fn lines(s: Seq<char>) -> Seq<Seq<char>> {
    lines_from(s, 0)
}

/// The line starting at `i` and the position of its line feed (or the length).
pub fn next_line(v: &Vec<char>, i: usize) -> (r: (Vec<char>, usize))
    requires
        i < v@.len(),
    ensures
        r.0@ == line_at(v@, i as int),
        r.1 == find_from(v@, '\n', i as int),
        i <= r.1 <= v@.len(),
{
    let k = find_char(v, '\n', i);
    proof {
        lemma_find_from_bounds(v@, '\n', i as int);
    }
    let mut line: Vec<char> = Vec::new();
    let mut j = i;
    while j < k
        invariant
            i <= j <= k <= v@.len(),
            line@ == v@.subrange(i as int, j as int),
        decreases k - j,
    {
        line.push(v[j]);
        assert(v@.subrange(i as int, j + 1) == v@.subrange(i as int, j as int).push(v@[j as int]));
        j = j + 1;
    }
    if k < v.len() && line.len() > 0 && line[line.len() - 1] == '\r' {
        line.pop();
        assert(line@ =~= v@.subrange(i as int, k as int).drop_last());
    }
    (line, k)
}

/// Characters removed at the ends: white space (`None`) or the given character.
pub open spec fn strips(kind: Option<char>, ch: char) -> bool {
    match kind {
        None => is_ws(ch),
        Some(q) => ch == q,
    }
}

/// First position at or after `i` whose character is kept.
pub open spec fn lead(s: Seq<char>, i: int, kind: Option<char>) -> int
    decreases s.len() - i,
{
    if i < 0 || i >= s.len() {
        s.len() as int
    } else if strips(kind, s[i]) {
        lead(s, i + 1, kind)
    } else {
        i
    }
}

/// End of the text before `j` once stripped characters are dropped from its end.
pub open spec fn trail(s: Seq<char>, j: int, kind: Option<char>) -> int
    decreases j,
{
    if j <= 0 || j > s.len() {
        0
    } else if strips(kind, s[j - 1]) {
        trail(s, j - 1, kind)
    } else {
        j
    }
}

/// `s` without the stripped characters at both ends
/// (`str::trim` for `None`, `str::trim_matches(q)` for `Some(q)`).
pub open spec fn trim_by(s: Seq<char>, kind: Option<char>) -> Seq<char> {
    let a = lead(s, 0, kind);
    let b = trail(s, s.len() as int, kind);
    if b <= a { seq![] } else { s.subrange(a, b) }
}

/// `str::trim`.
pub open spec fn trim(s: Seq<char>) -> Seq<char> {
    trim_by(s, None)
}

fn strips_exec(kind: Option<char>, ch: char) -> (b: bool)
    ensures
        b == strips(kind, ch),
{
    match kind {
        None => is_whitespace(ch),
        Some(q) => ch == q,
    }
}

/// `v` with the stripped characters removed at both ends.
pub fn trim_chars(v: &Vec<char>, kind: Option<char>) -> (r: Vec<char>)
    ensures
        r@ == trim_by(v@, kind),
{
    let n = v.len();
    let mut a: usize = 0;
    while a < n && strips_exec(kind, v[a])
        invariant
            n == v@.len(),
            a <= n,
            lead(v@, 0, kind) == lead(v@, a as int, kind),
        decreases n - a,
    {
        a = a + 1;
    }
    let mut b: usize = n;
    while b > 0 && strips_exec(kind, v[b - 1])
        invariant
            n == v@.len(),
            b <= n,
            trail(v@, n as int, kind) == trail(v@, b as int, kind),
        decreases b,
    {
        b = b - 1;
    }
    let mut r: Vec<char> = Vec::new();
    if a < b {
        let mut j = a;
        while j < b
            invariant
                a <= j <= b <= n,
                n == v@.len(),
                r@ == v@.subrange(a as int, j as int),
            decreases b - j,
        {
            r.push(v[j]);
            assert(v@.subrange(a as int, j + 1) == v@.subrange(a as int, j as int).push(v@[j as int]));
            j = j + 1;
        }
    }
    r
}

} // verus!
