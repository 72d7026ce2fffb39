//! The list of network services shown in the manager window: read from
//! the `[[service]]` tables of `elements.toml`, or a built-in list.
use vstd::prelude::*;
use crate::text::{chars_of, string_of, next_line, trim_chars, trim_by, find_from, find_char,
    line_at, lemma_find_from_bounds, str_eq};

verus! {

/// A service: element id on the portal and display name.
pub struct ServiceEntry {
    pub id: String,
    pub name: String,
}

/// Ids and names of a list of services.
pub open spec fn entries_view(v: Seq<ServiceEntry>) -> Seq<(Seq<char>, Seq<char>)> {
    v.map_values(|e: ServiceEntry| (e.id@, e.name@))
}

/// The built-in list: campus network and the three carriers.
pub fn default_services() -> (r: Vec<ServiceEntry>)
    ensures
        entries_view(r@) == seq![
            ("_service_0"@, "校园网"@),
            ("_service_1"@, "中国移动"@),
            ("_service_2"@, "中国电信"@),
            ("_service_3"@, "中国联通"@),
        ],
{
    let mut r: Vec<ServiceEntry> = Vec::new();
    r.push(ServiceEntry { id: "_service_0".to_owned(), name: "校园网".to_owned() });
    r.push(ServiceEntry { id: "_service_1".to_owned(), name: "中国移动".to_owned() });
    r.push(ServiceEntry { id: "_service_2".to_owned(), name: "中国电信".to_owned() });
    r.push(ServiceEntry { id: "_service_3".to_owned(), name: "中国联通".to_owned() });
    assert(entries_view(r@) =~= seq![
        ("_service_0"@, "校园网"@),
        ("_service_1"@, "中国移动"@),
        ("_service_2"@, "中国电信"@),
        ("_service_3"@, "中国联通"@),
    ]);
    r
}

/// The `elements.toml` written by the manager when none exists.
pub fn default_elements_toml() -> (r: &'static str)
    ensures
        r@ == "[[service]]\nid = \"_service_0\"\nname = \"校园网\"\n\n[[service]]\nid = \"_service_1\"\nname = \"中国移动\"\n\n[[service]]\nid = \"_service_2\"\nname = \"中国电信\"\n\n[[service]]\nid = \"_service_3\"\nname = \"中国联通\"\n\n[page]\nlogin_button = \"loginLink_div\"\nusername_tip = \"username\"\nusername_input = \"username\"\npassword_tip = \"pwd_tip\"\npassword_input = \"pwd\"\nservice_tip = \"selectDisname\"\n"@,
{
    "[[service]]\nid = \"_service_0\"\nname = \"校园网\"\n\n[[service]]\nid = \"_service_1\"\nname = \"中国移动\"\n\n[[service]]\nid = \"_service_2\"\nname = \"中国电信\"\n\n[[service]]\nid = \"_service_3\"\nname = \"中国联通\"\n\n[page]\nlogin_button = \"loginLink_div\"\nusername_tip = \"username\"\nusername_input = \"username\"\npassword_tip = \"pwd_tip\"\npassword_input = \"pwd\"\nservice_tip = \"selectDisname\"\n"
}

/// The id of the service selected at `index`, or the campus network
/// service when the index designates no entry.
pub fn service_id_at(services: &Vec<ServiceEntry>, index: i32) -> (r: String)
    ensures
        0 <= index < services@.len() ==> r@ == services@[index as int].id@,
        !(0 <= index < services@.len()) ==> r@ == "_service_0"@,
{
    if index >= 0 && (index as usize) < services.len() {
        services[index as usize].id.clone()
    } else {
        "_service_0".to_owned()
    }
}

/// `r` is the position of the first service with id `id`, if any.
pub open spec fn first_index(services: Seq<ServiceEntry>, id: Seq<char>, r: Option<usize>) -> bool {
    match r {
        Some(k) => k < services.len() && services[k as int].id@ == id
            && forall|j: int| 0 <= j < k ==> services[j].id@ != id,
        None => forall|j: int| 0 <= j < services.len() ==> services[j].id@ != id,
    }
}

/// Position of the first service with the given id.
pub fn service_index(services: &Vec<ServiceEntry>, id: &str) -> (r: Option<usize>)
    ensures
        first_index(services@, id@, r),
{
    let mut i: usize = 0;
    while i < services.len()
        invariant
            i <= services@.len(),
            forall|j: int| 0 <= j < i ==> services@[j].id@ != id@,
        decreases services@.len() - i,
    {
        if str_eq(services[i].id.as_str(), id) {
            return Some(i);
        }
        i = i + 1;
    }
    None
}

/// `s` begins with `p`.
pub open spec fn starts_with(s: Seq<char>, p: Seq<char>) -> bool {
    p.len() <= s.len() && s.take(p.len() as int) == p
}

/// The value of a `key = value` line after its key: the text between the
/// first and the second '=', trimmed, without surrounding quotes; empty
/// when there is no '='.
pub open spec fn field_value(rest: Seq<char>) -> Seq<char> {
    let k = find_from(rest, '=', 0);
    if k >= rest.len() {
        seq![]
    } else {
        trim_by(trim_by(rest.subrange(k + 1, find_from(rest, '=', k + 1)), None), Some('"'))
    }
}

/// Parser state: finished entries, the pending id and the pending name.
pub type ParseState = (Seq<(Seq<char>, Seq<char>)>, Seq<char>, Seq<char>);

/// Finishes the pending entry: kept when it has an id; its name defaults to the id.
pub open spec fn flush(st: ParseState) -> Seq<(Seq<char>, Seq<char>)> {
    if st.1.len() > 0 {
        st.0.push((st.1, if st.2.len() == 0 { st.1 } else { st.2 }))
    } else {
        st.0
    }
}

/// The effect of one line.
pub open spec fn apply_line(st: ParseState, raw: Seq<char>) -> ParseState {
    let line = trim_by(raw, None);
    if starts_with(line, "[[service]]"@) {
        (flush(st), seq![], seq![])
    } else if starts_with(line, "id"@) {
        (st.0, field_value(line.skip(2)), st.2)
    } else if starts_with(line, "name"@) {
        (st.0, st.1, field_value(line.skip(4)))
    } else {
        st
    }
}

/// The entries read from the lines starting at position `i`.
pub open spec fn parse_from(s: Seq<char>, i: int, st: ParseState) -> Seq<(Seq<char>, Seq<char>)>
    decreases s.len() + 1 - i,
    via parse_from_decreases
{
    if i < 0 || i >= s.len() {
        flush(st)
    } else {
        parse_from(s, find_from(s, '\n', i) + 1, apply_line(st, line_at(s, i)))
    }
}

#[via_fn]
proof fn parse_from_decreases(s: Seq<char>, i: int, st: ParseState) {
    if 0 <= i < s.len() {
        lemma_find_from_bounds(s, '\n', i);
    }
}

/// The services listed in an `elements.toml` text.
pub open spec fn services_in(s: Seq<char>) -> Seq<(Seq<char>, Seq<char>)> {
    parse_from(s, 0, (seq![], seq![], seq![]))
}

pub fn starts_with_lit(v: &Vec<char>, p: &str) -> (r: bool)
    ensures
        r == starts_with(v@, p@),
{
    let pv = chars_of(p);
    if pv.len() > v.len() {
        return false;
    }
    let mut i: usize = 0;
    while i < pv.len()
        invariant
            pv@ == p@,
            pv@.len() <= v@.len(),
            i <= pv@.len(),
            forall|j: int| 0 <= j < i ==> v@[j] == pv@[j],
        decreases pv@.len() - i,
    {
        if v[i] != pv[i] {
            assert(v@.take(pv@.len() as int)[i as int] != pv@[i as int]);
            return false;
        }
        i = i + 1;
    }
    assert(v@.take(pv@.len() as int) =~= pv@);
    true
}

pub fn sub_vec(v: &Vec<char>, a: usize, b: usize) -> (r: Vec<char>)
    requires
        a <= b <= v@.len(),
    ensures
        r@ == v@.subrange(a as int, b as int),
{
    let mut r: Vec<char> = Vec::new();
    let mut j = a;
    while j < b
        invariant
            a <= j <= b <= v@.len(),
            r@ == v@.subrange(a as int, j as int),
        decreases b - j,
    {
        r.push(v[j]);
        assert(v@.subrange(a as int, j + 1) == v@.subrange(a as int, j as int).push(v@[j as int]));
        j = j + 1;
    }
    r
}

fn field_value_exec(line: &Vec<char>, key_len: usize) -> (r: Vec<char>)
    requires
        key_len <= line@.len(),
    ensures
        r@ == field_value(line@.skip(key_len as int)),
{
    let rest = sub_vec(line, key_len, line.len());
    assert(rest@ =~= line@.skip(key_len as int));
    let k = find_char(&rest, '=', 0);
    if k >= rest.len() {
        return Vec::new();
    }
    let e = find_char(&rest, '=', k + 1);
    proof {
        lemma_find_from_bounds(rest@, '=', k + 1);
    }
    let seg = sub_vec(&rest, k + 1, e);
    let t = trim_chars(&seg, None);
    trim_chars(&t, Some('"'))
}

fn flush_exec(entries: &mut Vec<ServiceEntry>, id: &Vec<char>, name: &Vec<char>)
    ensures
        entries_view(final(entries)@) == flush((entries_view(old(entries)@), id@, name@)),
{
    if id.len() > 0 {
        let name_s = if name.len() == 0 { string_of(id.as_slice()) } else { string_of(name.as_slice()) };
        entries.push(ServiceEntry { id: string_of(id.as_slice()), name: name_s });
    }
    assert(entries_view(entries@) =~= flush((entries_view(old(entries)@), id@, name@)));
}

/// Reads the `[[service]]` entries of an `elements.toml` text: each table
/// gives an `id` and a `name` line; entries without an id are dropped and
/// a missing name is replaced by the id.
pub fn parse_services(content: &str) -> (r: Vec<ServiceEntry>)
    ensures
        entries_view(r@) == services_in(content@),
{
    let v = chars_of(content);
    let n = v.len();
    let mut entries: Vec<ServiceEntry> = Vec::new();
    let mut id: Vec<char> = Vec::new();
    let mut name: Vec<char> = Vec::new();
    let mut i: usize = 0;
    assert(entries_view(entries@) =~= seq![]);
    while i < n
        invariant
            n == v@.len(),
            v@ == content@,
            i <= n,
            services_in(v@) == parse_from(v@, i as int, (entries_view(entries@), id@, name@)),
        decreases n - i,
    {
        let (raw, k) = next_line(&v, i);
        let line = trim_chars(&raw, None);
        let ghost st = (entries_view(entries@), id@, name@);
        proof {
            reveal_strlit("id");
            reveal_strlit("name");
        }
        if starts_with_lit(&line, "[[service]]") {
            flush_exec(&mut entries, &id, &name);
            id = Vec::new();
            name = Vec::new();
        } else if starts_with_lit(&line, "id") {
            id = field_value_exec(&line, 2);
        } else if starts_with_lit(&line, "name") {
            name = field_value_exec(&line, 4);
        }
        assert((entries_view(entries@), id@, name@) =~= apply_line(st, line_at(v@, i as int)));
        assert(parse_from(v@, i as int, st) == parse_from(v@, k + 1, apply_line(st, line_at(v@, i as int))));
        if k < n {
            i = k + 1;
        } else {
            i = n;
        }
    }
    flush_exec(&mut entries, &id, &name);
    entries
}

/// Every entry has a non-empty id and a non-empty name.
pub open spec fn all_named(es: Seq<(Seq<char>, Seq<char>)>) -> bool {
    forall|j: int| 0 <= j < es.len() ==> (#[trigger] es[j]).0.len() > 0 && es[j].1.len() > 0
}

proof fn lemma_parse_from_named(s: Seq<char>, i: int, st: ParseState)
    requires
        all_named(st.0),
    ensures
        all_named(parse_from(s, i, st)),
    decreases s.len() + 1 - i,
{
    if 0 <= i < s.len() {
        lemma_find_from_bounds(s, '\n', i);
        let nst = apply_line(st, line_at(s, i));
        assert(all_named(flush(st)));
        lemma_parse_from_named(s, find_from(s, '\n', i) + 1, nst);
    } else {
        assert(all_named(flush(st)));
    }
}

/// Law: every service read from a file has a non-empty id and a
/// non-empty name.
pub proof fn lemma_services_named(s: Seq<char>)
    ensures
        all_named(services_in(s)),
{
    lemma_parse_from_named(s, 0, (seq![], seq![], seq![]));
}

} // verus!
