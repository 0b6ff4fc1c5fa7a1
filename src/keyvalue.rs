//! Looking up a value in a `key=value;key=value` string: the first part
//! whose key, with surrounding white space removed, is the one asked for.

use vstd::prelude::*;
use vstd::string::StrSliceExecFns;
use crate::header::{index_of, lemma_index_of_bounds, lemma_index_of_extends};

verus! {

/// Whether `c` is white space in Unicode's sense (`char::is_whitespace`).
pub open spec fn is_space(c: char) -> bool {
    let u = c as u32;
    (0x09 <= u <= 0x0d) || u == 0x20 || u == 0x85 || u == 0xa0 || u == 0x1680 || (0x2000 <= u
        <= 0x200a) || u == 0x2028 || u == 0x2029 || u == 0x202f || u == 0x205f || u == 0x3000
}

/// `s` without its leading white space.
pub open spec fn trim_start(s: Seq<char>) -> Seq<char>
    decreases s.len(),
{
    if s.len() > 0 && is_space(s[0]) {
        trim_start(s.drop_first())
    } else {
        s
    }
}

/// `s` without its trailing white space.
pub open spec fn trim_end(s: Seq<char>) -> Seq<char>
    decreases s.len(),
{
    if s.len() > 0 && is_space(s.last()) {
        trim_end(s.drop_last())
    } else {
        s
    }
}

/// `s` without white space at either end.
pub open spec fn trim(s: Seq<char>) -> Seq<char> {
    trim_end(trim_start(s))
}

/// The value for `key` in `s`: `None` when no part has that key,
/// `Some(None)` when the first part that has it holds no `=`.
pub open spec fn lookup(s: Seq<char>, key: Seq<char>) -> Option<Option<Seq<char>>>
    decreases s.len(),
{
    let i = index_of(s, ';');
    let part = s.subrange(0, i);
    let e = index_of(part, '=');
    if 0 <= i <= s.len() && 0 <= e <= part.len() && trim(part.subrange(0, e)) == key {
        Some(
            if e < part.len() {
                Some(part.subrange(e + 1, part.len() as int))
            } else {
                None
            },
        )
    } else if 0 <= i < s.len() {
        lookup(s.subrange(i + 1, s.len() as int), key)
    } else {
        None
    }
}

fn space_exec(c: char) -> (r: bool)
    ensures
        r == is_space(c),
{
    let u = c as u32;
    (0x09 <= u && u <= 0x0d) || u == 0x20 || u == 0x85 || u == 0xa0 || u == 0x1680 || (0x2000
        <= u && u <= 0x200a) || u == 0x2028 || u == 0x2029 || u == 0x202f || u == 0x205f || u
        == 0x3000
}

fn chars_of(s: &str) -> (r: Vec<char>)
    ensures
        r@ == s@,
{
    let n = s.unicode_len();
    let mut r: Vec<char> = Vec::new();
    let mut i: usize = 0;
    while i < n
        invariant
            n == s@.len(),
            i <= n,
            r@ =~= s@.subrange(0, i as int),
        decreases n - i,
    {
        r.push(s.get_char(i));
        i += 1;
    }
    r
}

/// The first `c` in `v[from..to]`, as an index into `v`; `to` when none.
fn find_in(v: &Vec<char>, c: char, from: usize, to: usize) -> (r: usize)
    requires
        from <= to <= v@.len(),
    ensures
        from <= r <= to,
        r - from == index_of(v@.subrange(from as int, to as int), c),
{
    let ghost s = v@.subrange(from as int, to as int);
    let mut k: usize = from;
    while k < to && v[k] != c
        invariant
            from <= k <= to <= v@.len(),
            s == v@.subrange(from as int, to as int),
            index_of(s.subrange(0, k - from), c) == k - from,
        decreases to - k,
    {
        assert(s.subrange(0, k - from + 1).drop_last() =~= s.subrange(0, k - from));
        k += 1;
    }
    proof {
        if k < to {
            assert(s.subrange(0, k - from + 1).drop_last() =~= s.subrange(0, k - from));
            lemma_index_of_extends(s, c, k - from + 1, s.len() as int);
        }
        assert(s.subrange(0, s.len() as int) =~= s);
    }
    k
}

/// The bounds of `v[a..e]` without white space at either end.
fn trim_bounds(v: &Vec<char>, a: usize, e: usize) -> (r: (usize, usize))
    requires
        a <= e <= v@.len(),
    ensures
        a <= r.0 <= r.1 <= e,
        v@.subrange(r.0 as int, r.1 as int) == trim(v@.subrange(a as int, e as int)),
{
    let mut i: usize = a;
    while i < e && space_exec(v[i])
        invariant
            a <= i <= e <= v@.len(),
            trim_start(v@.subrange(a as int, e as int)) == trim_start(
                v@.subrange(i as int, e as int),
            ),
        decreases e - i,
    {
        assert(v@.subrange(i as int, e as int).drop_first() =~= v@.subrange(i + 1, e as int));
        i += 1;
    }
    let mut j: usize = e;
    while j > i && space_exec(v[j - 1])
        invariant
            a <= i <= j <= e <= v@.len(),
            trim_start(v@.subrange(a as int, e as int)) == v@.subrange(i as int, e as int),
            trim_end(v@.subrange(i as int, e as int)) == trim_end(
                v@.subrange(i as int, j as int),
            ),
        decreases j - i,
    {
        assert(v@.subrange(i as int, j as int).drop_last() =~= v@.subrange(i as int, j - 1));
        j -= 1;
    }
    (i, j)
}

fn range_equals(v: &Vec<char>, a: usize, b: usize, k: &Vec<char>) -> (r: bool)
    requires
        a <= b <= v@.len(),
    ensures
        r == (v@.subrange(a as int, b as int) == k@),
{
    if b - a != k.len() {
        return false;
    }
    let mut i: usize = 0;
    while i < k.len()
        invariant
            b - a == k@.len(),
            a <= b <= v@.len(),
            i <= k@.len(),
            forall|j: int| 0 <= j < i ==> v@[a + j] == k@[j],
        decreases k@.len() - i,
    {
        if v[a + i] != k[i] {
            assert(v@.subrange(a as int, b as int)[i as int] != k@[i as int]);
            return false;
        }
        i += 1;
    }
    assert(v@.subrange(a as int, b as int) =~= k@);
    true
}

/// The value for `key` in a `key=value;key=value` string: the text after
/// the first `=` of the first part whose trimmed key is `key`; `None` when
/// no part has that key or that part holds no `=`.
pub fn find_value<'a>(target: &'a str, key: &str) -> (r: Option<&'a str>)
    ensures
        match lookup(target@, key@) {
            Some(Some(v)) => r matches Some(x) && x@ == v,
            _ => r is None,
        },
{
    let chars = chars_of(target);
    let keys = chars_of(key);
    let n = chars.len();
    let mut p: usize = 0;
    assert(chars@.subrange(0, n as int) =~= target@);
    while p <= n
        invariant
            chars@ == target@,
            keys@ == key@,
            n == chars@.len(),
            p <= n,
            lookup(target@, key@) == lookup(chars@.subrange(p as int, n as int), key@),
        decreases n - p,
    {
        let ghost s = chars@.subrange(p as int, n as int);
        let i = find_in(&chars, ';', p, n);
        let e = find_in(&chars, '=', p, i);
        proof {
            lemma_index_of_bounds(s, ';');
            assert(s.subrange(0, i - p) =~= chars@.subrange(p as int, i as int));
            let part = s.subrange(0, i - p);
            lemma_index_of_bounds(part, '=');
            assert(part.subrange(0, e - p) =~= chars@.subrange(p as int, e as int));
            if e < i {
                assert(part.subrange(e - p + 1, part.len() as int) =~= chars@.subrange(
                    e + 1,
                    i as int,
                ));
            }
            if i < n {
                assert(s.subrange(i - p + 1, s.len() as int) =~= chars@.subrange(
                    i + 1,
                    n as int,
                ));
            }
        }
        let (ts, te) = trim_bounds(&chars, p, e);
        if range_equals(&chars, ts, te, &keys) {
            if e < i {
                return Some(target.substring_char(e + 1, i));
            } else {
                return None;
            }
        }
        if i < n {
            p = i + 1;
        } else {
            return None;
        }
    }
    None
}

/// Relies on `str::parse`: the text read as a `T` by its `FromStr` impl,
/// or `None` when that fails.
#[verifier::external_body]
fn parse_as<T: std::str::FromStr>(text: &str) -> Option<T> {
    text.parse::<T>().ok()
}

/// The value for `key` in a `key=value;key=value` string, read as a `T`;
/// `None` when there is no such value or it does not read as a `T`.
pub fn parse_str<T: std::str::FromStr>(target: &str, key: &str) -> (r: Option<T>)
    ensures
        !(lookup(target@, key@) matches Some(Some(_))) ==> r is None,
{
    match find_value(target, key) {
        Some(v) => parse_as::<T>(v),
        None => None,
    }
}

} // verus!
