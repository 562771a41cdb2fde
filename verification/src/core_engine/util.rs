//! Path, query-string and array helpers.
use vstd::prelude::*;
use crate::core_engine::strmap::{StrMap, pairs_map};
use crate::text::{chars_of, string_from_range, string_push};
use vstd::std_specs::cmp::PartialEqSpec;

verus! {

/// `\` becomes `/`; every other character stays.
pub open spec fn slash(c: char) -> char {
    if c == '\\' {
        '/'
    } else {
        c
    }
}

/// The path with forward slashes only, ending in `/` unless it is empty.
pub open spec fn normalized_path(p: Seq<char>) -> Seq<char> {
    let t = p.map_values(|c: char| slash(c));
    if t.len() > 0 && t.last() != '/' {
        t.push('/')
    } else {
        t
    }
}

/// Normalizes a directory path: backslashes become slashes and a trailing `/` is ensured.
pub fn normalize_path(p: &str) -> (r: String)
    ensures
        r@ == normalized_path(p@),
{
    let cs = chars_of(p);
    let mut out = String::new();
    let mut i: usize = 0;
    let mut last: char = ' ';
    while i < cs.len()
        invariant
            i <= cs@.len(),
            cs@ == p@,
            out@ == cs@.subrange(0, i as int).map_values(|c: char| slash(c)),
            i > 0 ==> last == out@.last(),
        decreases cs@.len() - i,
    {
        let c = if cs[i] == '\\' {
            '/'
        } else {
            cs[i]
        };
        string_push(&mut out, c);
        last = c;
        i = i + 1;
        assert(out@ =~= cs@.subrange(0, i as int).map_values(|c: char| slash(c)));
    }
    assert(cs@.subrange(0, i as int) =~= cs@);
    if i > 0 && last != '/' {
        string_push(&mut out, '/');
    }
    out
}

/// A normalized path is already normal: normalizing twice is normalizing once.
pub proof fn law_normalize_path_idempotent(p: Seq<char>)
    ensures
        normalized_path(normalized_path(p)) == normalized_path(p),
        normalized_path(p).len() == 0 || normalized_path(p).last() == '/',
        !normalized_path(p).contains('\\'),
{
    let t = p.map_values(|c: char| slash(c));
    let n = normalized_path(p);
    assert(forall|i: int| 0 <= i < n.len() ==> n[i] != '\\');
    assert(n.map_values(|c: char| slash(c)) =~= n);
}

/// `s` without its leading `c` characters.
pub open spec fn trim_start(s: Seq<char>, c: char) -> Seq<char>
    decreases s.len(),
{
    if s.len() > 0 && s[0] == c {
        trim_start(s.drop_first(), c)
    } else {
        s
    }
}

/// The pieces of `s` between the separators `c` (at least one piece, possibly empty).
pub open spec fn split_on(s: Seq<char>, c: char) -> Seq<Seq<char>>
    decreases s.len(),
{
    if s.len() == 0 {
        seq![Seq::<char>::empty()]
    } else {
        let pieces = split_on(s.drop_last(), c);
        if s.last() == c {
            pieces.push(Seq::<char>::empty())
        } else {
            pieces.update(pieces.len() - 1, pieces.last().push(s.last()))
        }
    }
}

/// Splitting always yields at least one piece.
pub proof fn lemma_split_nonempty(s: Seq<char>, c: char)
    ensures
        split_on(s, c).len() >= 1,
    decreases s.len(),
{
    if s.len() > 0 {
        lemma_split_nonempty(s.drop_last(), c);
    }
}

/// The position of the first `c` in `s`, or its length when there is none.
pub open spec fn first_index(s: Seq<char>, c: char) -> int
    decreases s.len(),
{
    if s.len() == 0 {
        0
    } else if s[0] == c {
        0
    } else {
        1 + first_index(s.drop_first(), c)
    }
}

/// A query parameter `key=value`: the key is before the first `=`, the value after it (or empty).
pub open spec fn query_pair(part: Seq<char>) -> (Seq<char>, Seq<char>) {
    let i = first_index(part, '=');
    if i < part.len() {
        (part.subrange(0, i), part.subrange(i + 1, part.len() as int))
    } else {
        (part, Seq::<char>::empty())
    }
}

/// The parameters of a query string's pieces, skipping empty pieces.
pub open spec fn query_pairs(parts: Seq<Seq<char>>) -> Seq<(Seq<char>, Seq<char>)>
    decreases parts.len(),
{
    if parts.len() == 0 {
        Seq::empty()
    } else if parts.last().len() == 0 {
        query_pairs(parts.drop_last())
    } else {
        query_pairs(parts.drop_last()).push(query_pair(parts.last()))
    }
}

/// The parameters of a location search string such as `?a=1&b=2`
/// (leading `?` dropped; a later parameter overrides an earlier one with the same key).
pub open spec fn query_parameters(search: Seq<char>) -> Map<Seq<char>, Seq<char>> {
    pairs_map(query_pairs(split_on(trim_start(search, '?'), '&')))
}

proof fn lemma_first_index_bounds(s: Seq<char>, c: char)
    ensures
        0 <= first_index(s, c) <= s.len(),
        forall|j: int| 0 <= j < first_index(s, c) ==> s[j] != c,
        first_index(s, c) < s.len() ==> s[first_index(s, c)] == c,
    decreases s.len(),
{
    if s.len() > 0 && s[0] != c {
        lemma_first_index_bounds(s.drop_first(), c);
        assert forall|j: int| 0 <= j < first_index(s, c) implies s[j] != c by {
            if j > 0 {
                assert(s[j] == s.drop_first()[j - 1]);
            }
        }
    }
}

/// Splits `key=value` at the first `=`.
fn parse_pair(part: &Vec<char>) -> (r: (String, String))
    ensures
        (r.0@, r.1@) == query_pair(part@),
{
    let mut i: usize = 0;
    while i < part.len() && part[i] != '='
        invariant
            i <= part@.len(),
            forall|j: int| 0 <= j < i ==> part@[j] != '=',
        decreases part@.len() - i,
    {
        i = i + 1;
    }
    proof {
        lemma_first_index_bounds(part@, '=');
        let f = first_index(part@, '=');
        if f < i {
            assert(part@[f] == '=');
        }
        if i < f {
            assert(part@[i as int] == '=');
        }
    }
    if i < part.len() {
        (string_from_range(part, 0, i), string_from_range(part, i + 1, part.len()))
    } else {
        proof {
            assert(part@.subrange(0, part@.len() as int) =~= part@);
        }
        (string_from_range(part, 0, part.len()), String::new())
    }
}

/// Inserts the parameter of `part` into `m`, unless `part` is empty.
fn add_part(m: &mut StrMap<String>, part: &Vec<char>, ghost_pairs: Ghost<Seq<(Seq<char>, Seq<char>)>>)
    requires
        crate::core_engine::strmap::string_values(old(m)@) == pairs_map(ghost_pairs@),
    ensures
        part@.len() == 0 ==> final(m)@ == old(m)@,
        part@.len() > 0 ==> crate::core_engine::strmap::string_values(final(m)@) == pairs_map(
            ghost_pairs@.push(query_pair(part@)),
        ),
{
    if part.len() > 0 {
        let (k, v) = parse_pair(part);
        let ghost kv = k@;
        let ghost vv = v@;
        m.insert(k, v);
        proof {
            crate::core_engine::strmap::lemma_string_values_insert(old(m)@, kv, v);
            let ps = ghost_pairs@.push(query_pair(part@));
            assert(ps.drop_last() =~= ghost_pairs@);
        }
    }
}

/// The parameters of a location search string (`location.search`): the leading `?`s
/// are dropped, the rest is split at `&`, empty pieces are skipped, and each piece is
/// split at its first `=`; a later key overrides an earlier one.
pub fn location_parameters(search: &str) -> (r: StrMap<String>)
    ensures
        crate::core_engine::strmap::string_values(r@) == query_parameters(search@),
{
    let cs = chars_of(search);
    let mut start: usize = 0;
    proof {
        assert(cs@.subrange(0, cs@.len() as int) =~= cs@);
    }
    while start < cs.len() && cs[start] == '?'
        invariant
            start <= cs@.len(),
            trim_start(cs@.subrange(start as int, cs@.len() as int), '?') == trim_start(cs@, '?'),
        decreases cs@.len() - start,
    {
        proof {
            let rest = cs@.subrange(start as int, cs@.len() as int);
            assert(rest.drop_first() =~= cs@.subrange(start + 1, cs@.len() as int));
        }
        start = start + 1;
    }
    let ghost q = cs@.subrange(start as int, cs@.len() as int);
    assert(trim_start(q, '?') == q);
    let mut m: StrMap<String> = StrMap::new();
    proof {
        crate::core_engine::strmap::lemma_string_values_empty();
    }
    let mut part: Vec<char> = Vec::new();
    let mut i: usize = start;
    proof {
        assert(cs@.subrange(start as int, start as int) =~= Seq::<char>::empty());
        assert(query_pairs(seq![Seq::<char>::empty()].drop_last()) =~= Seq::<(Seq<char>, Seq<char>)>::empty());
    }
    while i < cs.len()
        invariant
            start <= i <= cs@.len(),
            q == cs@.subrange(start as int, cs@.len() as int),
            split_on(cs@.subrange(start as int, i as int), '&').len() >= 1,
            split_on(cs@.subrange(start as int, i as int), '&').last() == part@,
            crate::core_engine::strmap::string_values(m@) == pairs_map(
                query_pairs(split_on(cs@.subrange(start as int, i as int), '&').drop_last()),
            ),
        decreases cs@.len() - i,
    {
        let ghost before = cs@.subrange(start as int, i as int);
        let ghost pieces = split_on(before, '&');
        proof {
            lemma_split_nonempty(before, '&');
        }
        let after_seq = Ghost(cs@.subrange(start as int, i as int + 1));
        assert(after_seq@.drop_last() =~= before);
        if cs[i] == '&' {
            add_part(&mut m, &part, Ghost(query_pairs(pieces.drop_last())));
            proof {
                let np = pieces.push(Seq::<char>::empty());
                assert(np.drop_last() =~= pieces);
                assert(pieces.drop_last().push(pieces.last()) =~= pieces);
                if part@.len() > 0 {
                    assert(query_pairs(pieces) == query_pairs(pieces.drop_last()).push(query_pair(part@)));
                } else {
                    assert(query_pairs(pieces) == query_pairs(pieces.drop_last()));
                }
            }
            part = Vec::new();
        } else {
            part.push(cs[i]);
            proof {
                let np = pieces.update(pieces.len() - 1, pieces.last().push(cs@[i as int]));
                assert(np.drop_last() =~= pieces.drop_last());
            }
        }
        i = i + 1;
        proof {
            lemma_split_nonempty(cs@.subrange(start as int, i as int), '&');
        }
    }
    proof {
        assert(cs@.subrange(start as int, i as int) == q);
        lemma_split_nonempty(q, '&');
    }
    let ghost pieces = split_on(q, '&');
    add_part(&mut m, &part, Ghost(query_pairs(pieces.drop_last())));
    proof {
        assert(pieces.drop_last().push(pieces.last()) =~= pieces);
    }
    m
}

/// A copy of the given elements, or nothing.
pub fn make_array<T: Clone>(v: Option<&[T]>) -> (r: Vec<T>)
    ensures
        v is None ==> r@.len() == 0,
        v matches Some(s) ==> r@.len() == s@.len() && forall|i: int|
            0 <= i < s@.len() ==> cloned::<T>(s@[i], #[trigger] r@[i]),
{
    match v {
        None => Vec::new(),
        Some(s) => {
            let mut out: Vec<T> = Vec::new();
            let mut i: usize = 0;
            while i < s.len()
                invariant
                    i <= s@.len(),
                    out@.len() == i,
                    forall|j: int| 0 <= j < i ==> cloned::<T>(s@[j], #[trigger] out@[j]),
                decreases s@.len() - i,
            {
                out.push(s[i].clone());
                i = i + 1;
            }
            out
        },
    }
}

/// Appends `item` unless an equal element is already there.
pub fn push_unique<T: PartialEq>(vec: &mut Vec<T>, item: T)
    ensures
        T::obeys_eq_spec() ==> final(vec)@ == (if exists|i: int|
            0 <= i < old(vec)@.len() && (#[trigger] old(vec)@[i]).eq_spec(&item) {
            old(vec)@
        } else {
            old(vec)@.push(item)
        }),
        final(vec)@ == old(vec)@ || final(vec)@ == old(vec)@.push(item),
{
    let mut found = false;
    let mut i: usize = 0;
    while i < vec.len()
        invariant
            i <= vec@.len(),
            T::obeys_eq_spec() ==> (found <==> exists|j: int|
                0 <= j < i && (#[trigger] vec@[j]).eq_spec(&item)),
        decreases vec@.len() - i,
    {
        if vec[i].eq(&item) {
            found = true;
        }
        i = i + 1;
    }
    if !found {
        vec.push(item);
    }
}

/// The first element for which `pred` holds, if any.
pub fn search_array<'a, T, F: Fn(&T) -> bool>(arr: &'a [T], pred: F) -> (r: Option<&'a T>)
    requires
        forall|i: int| 0 <= i < arr@.len() ==> call_requires(pred, (&arr@[i],)),
    ensures
        r is None ==> forall|i: int|
            0 <= i < arr@.len() ==> call_ensures(pred, (&arr@[i],), false),
        r matches Some(x) ==> exists|i: int|
            0 <= i < arr@.len() && *x == arr@[i] && call_ensures(pred, (&arr@[i],), true) && forall|
                j: int,
            | 0 <= j < i ==> call_ensures(pred, (&arr@[j],), false),
{
    let mut i: usize = 0;
    while i < arr.len()
        invariant
            i <= arr@.len(),
            forall|j: int| 0 <= j < arr@.len() ==> call_requires(pred, (&arr@[j],)),
            forall|j: int| 0 <= j < i ==> call_ensures(pred, (&arr@[j],), false),
        decreases arr@.len() - i,
    {
        let b = pred(&arr[i]);
        if b {
            return Some(&arr[i]);
        }
        i = i + 1;
    }
    None
}

} // verus!

verus! {

/// Leading `?` characters do not change the parameters of a search string.
pub proof fn law_query_ignores_leading_question_mark(s: Seq<char>)
    ensures
        query_parameters(seq!['?'] + s) == query_parameters(s),
{
    let t = seq!['?'] + s;
    assert(t.drop_first() =~= s);
}

} // verus!
