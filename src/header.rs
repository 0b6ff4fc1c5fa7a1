//! Reading block 0 of a YMODEM batch: the file name up to the first zero
//! byte, then the size field up to the next, in decimal.

use vstd::prelude::*;

verus! {

/// The index of the first `b` in `s`, or the length of `s` when there is
/// none.
pub open spec fn index_of<A>(s: Seq<A>, b: A) -> int
    decreases s.len(),
{
    if s.len() == 0 {
        0
    } else {
        let i = index_of(s.drop_last(), b);
        if i < s.len() - 1 {
            i
        } else if s.last() == b {
            s.len() - 1
        } else {
            s.len() as int
        }
    }
}

/// Whether `c` is an ASCII digit.
pub open spec fn is_digit(c: u8) -> bool {
    48 <= c <= 57
}

/// The digits of `s`, in order.
pub open spec fn keep_digits(s: Seq<u8>) -> Seq<u8>
    decreases s.len(),
{
    if s.len() == 0 {
        seq![]
    } else if is_digit(s.last()) {
        keep_digits(s.drop_last()) + seq![s.last()]
    } else {
        keep_digits(s.drop_last())
    }
}

/// The number that the ASCII digits `s` write.
pub open spec fn digits_value(s: Seq<u8>) -> nat
    decreases s.len(),
{
    if s.len() == 0 {
        0
    } else {
        digits_value(s.drop_last()) * 10 + (s.last() - 48) as nat
    }
}

/// A number written in ASCII digits only, when it fits in 32 bits.
pub open spec fn digits_u32(d: Seq<u8>) -> Option<u32> {
    if d.len() > 0 && (forall|i: int| 0 <= i < d.len() ==> is_digit(#[trigger] d[i]))
        && digits_value(d) <= u32::MAX {
        Some(digits_value(d) as u32)
    } else {
        None
    }
}

/// A decimal number with an optional `+`, when it fits in 32 bits.
pub open spec fn decimal_u32(s: Seq<u8>) -> Option<u32> {
    if s.len() > 0 && s[0] == 43 {
        digits_u32(s.drop_first())
    } else {
        digits_u32(s)
    }
}

/// The size that a size field gives: the whole field as a number, else the
/// part before the first space; with `digits_only`, the non-digits are
/// dropped first.
pub open spec fn parse_size(field: Seq<u8>, digits_only: bool) -> Option<u32> {
    let f = if digits_only {
        keep_digits(field)
    } else {
        field
    };
    match decimal_u32(f) {
        Some(n) => Some(n),
        None => decimal_u32(f.subrange(0, index_of(f, 0x20))),
    }
}

/// The file name and size that a block 0 payload announces.
pub open spec fn header_info(p: Seq<u8>, digits_only: bool) -> Option<(Seq<u8>, u32)> {
    let z = index_of(p, 0);
    let rest = if z < p.len() {
        p.subrange(z + 1, p.len() as int)
    } else {
        seq![]
    };
    match parse_size(rest.subrange(0, index_of(rest, 0)), digits_only) {
        Some(n) => Some((p.subrange(0, z), n)),
        None => None,
    }
}

pub proof fn lemma_index_of_bounds<A>(s: Seq<A>, b: A)
    ensures
        0 <= index_of(s, b) <= s.len(),
        index_of(s, b) < s.len() ==> s[index_of(s, b)] == b,
    decreases s.len(),
{
    if s.len() > 0 {
        lemma_index_of_bounds(s.drop_last(), b);
    }
}

/// Once a prefix holds `b`, longer prefixes find the same one.
pub proof fn lemma_index_of_extends<A>(s: Seq<A>, b: A, k: int, n: int)
    requires
        0 <= k <= n <= s.len(),
        index_of(s.subrange(0, k), b) < k,
    ensures
        index_of(s.subrange(0, n), b) == index_of(s.subrange(0, k), b),
    decreases n - k,
{
    if n > k {
        lemma_index_of_extends(s, b, k, n - 1);
        assert(s.subrange(0, n).drop_last() =~= s.subrange(0, n - 1));
    }
}

proof fn lemma_value_prefix_le(s: Seq<u8>, n: int)
    requires
        0 <= n <= s.len(),
    ensures
        digits_value(s.subrange(0, n)) <= digits_value(s),
    decreases s.len() - n,
{
    if n < s.len() {
        lemma_value_prefix_le(s, n + 1);
        assert(s.subrange(0, n + 1).drop_last() =~= s.subrange(0, n));
    } else {
        assert(s.subrange(0, n) =~= s);
    }
}

/// Finds the first `b` in `s`; the length of `s` when there is none.
pub fn find_byte(s: &[u8], b: u8) -> (r: usize)
    ensures
        r == index_of(s@, b),
{
    let mut i: usize = 0;
    while i < s.len() && s[i] != b
        invariant
            i <= s@.len(),
            index_of(s@.subrange(0, i as int), b) == i,
        decreases s@.len() - i,
    {
        assert(s@.subrange(0, i + 1).drop_last() =~= s@.subrange(0, i as int));
        i += 1;
    }
    proof {
        if i < s.len() {
            assert(s@.subrange(0, i + 1).drop_last() =~= s@.subrange(0, i as int));
            lemma_index_of_extends(s@, b, i + 1, s@.len() as int);
        }
        assert(s@.subrange(0, s@.len() as int) =~= s@);
    }
    i
}

fn keep_digits_exec(s: &[u8]) -> (r: Vec<u8>)
    ensures
        r@ == keep_digits(s@),
{
    let mut r: Vec<u8> = Vec::new();
    let mut i: usize = 0;
    while i < s.len()
        invariant
            i <= s@.len(),
            r@ == keep_digits(s@.subrange(0, i as int)),
        decreases s@.len() - i,
    {
        assert(s@.subrange(0, i + 1).drop_last() =~= s@.subrange(0, i as int));
        if 48 <= s[i] && s[i] <= 57 {
            r.push(s[i]);
        }
        i += 1;
    }
    assert(s@.subrange(0, s@.len() as int) =~= s@);
    r
}

fn digits_u32_exec(d: &[u8]) -> (r: Option<u32>)
    ensures
        r == digits_u32(d@),
{
    if d.len() == 0 {
        return None;
    }
    let mut acc: u64 = 0;
    let mut i: usize = 0;
    while i < d.len()
        invariant
            i <= d@.len(),
            acc == digits_value(d@.subrange(0, i as int)),
            acc <= u32::MAX,
            forall|j: int| 0 <= j < i ==> is_digit(#[trigger] d@[j]),
        decreases d@.len() - i,
    {
        if d[i] < 48 || d[i] > 57 {
            assert(!is_digit(d@[i as int]));
            return None;
        }
        assert(d@.subrange(0, i + 1).drop_last() =~= d@.subrange(0, i as int));
        acc = acc * 10 + (d[i] - 48) as u64;
        i += 1;
        if acc > u32::MAX as u64 {
            proof {
                lemma_value_prefix_le(d@, i as int);
            }
            return None;
        }
    }
    assert(d@.subrange(0, d@.len() as int) =~= d@);
    Some(acc as u32)
}

/// Reads a decimal number with an optional `+`; `None` unless it is one
/// and fits in 32 bits.
pub fn decimal_u32_exec(s: &[u8]) -> (r: Option<u32>)
    ensures
        r == decimal_u32(s@),
{
    if s.len() > 0 && s[0] == 43 {
        let d = &s[1..s.len()];
        assert(d@ =~= s@.drop_first());
        digits_u32_exec(d)
    } else {
        digits_u32_exec(s)
    }
}

/// Reads a size field as [`parse_size`] says.
pub fn parse_size_exec(field: &[u8], digits_only: bool) -> (r: Option<u32>)
    ensures
        r == parse_size(field@, digits_only),
{
    let kept: Vec<u8>;
    let f: &[u8] = if digits_only {
        kept = keep_digits_exec(field);
        kept.as_slice()
    } else {
        field
    };
    match decimal_u32_exec(f) {
        Some(n) => Some(n),
        None => {
            let sp = find_byte(f, 0x20);
            proof {
                lemma_index_of_bounds(f@, 0x20);
            }
            decimal_u32_exec(&f[0..sp])
        },
    }
}

/// Reads the file name and size from a block 0 payload.
pub fn header_info_exec(p: &[u8], digits_only: bool) -> (r: Option<(Vec<u8>, u32)>)
    ensures
        match r {
            Some((name, size)) => header_info(p@, digits_only) == Some((name@, size)),
            None => header_info(p@, digits_only) is None,
        },
{
    let z = find_byte(p, 0);
    proof {
        lemma_index_of_bounds(p@, 0);
    }
    let rest: &[u8] = if z < p.len() {
        &p[z + 1..p.len()]
    } else {
        &p[0..0]
    };
    assert(rest@ =~= (if (z as int) < p@.len() {
        p@.subrange(z + 1, p@.len() as int)
    } else {
        seq![]
    }));
    let e = find_byte(rest, 0);
    proof {
        lemma_index_of_bounds(rest@, 0);
    }
    match parse_size_exec(&rest[0..e], digits_only) {
        Some(n) => {
            let mut name: Vec<u8> = Vec::new();
            name.extend_from_slice(&p[0..z]);
            Some((name, n))
        },
        None => None,
    }
}

/// `index_of` finds the first `b`: none comes before it.
pub proof fn lemma_index_of_first<A>(s: Seq<A>, b: A)
    ensures
        0 <= index_of(s, b) <= s.len(),
        index_of(s, b) < s.len() ==> s[index_of(s, b)] == b,
        forall|j: int| 0 <= j < index_of(s, b) ==> s[j] != b,
    decreases s.len(),
{
    if s.len() > 0 {
        lemma_index_of_first(s.drop_last(), b);
        assert forall|j: int| 0 <= j < index_of(s, b) implies s[j] != b by {
            if j < s.len() - 1 {
                assert(s.drop_last()[j] == s[j]);
            }
        }
    }
}

/// The first `b` of a sequence is where it occurs with none before it.
pub proof fn lemma_index_of_at<A>(s: Seq<A>, b: A, k: int)
    requires
        0 <= k <= s.len(),
        k < s.len() ==> s[k] == b,
        forall|j: int| 0 <= j < k ==> s[j] != b,
    ensures
        index_of(s, b) == k,
{
    lemma_index_of_first(s, b);
}

/// Dropping the non-digits of a string of digits keeps it whole.
pub proof fn lemma_keep_all_digits(s: Seq<u8>)
    requires
        forall|i: int| 0 <= i < s.len() ==> is_digit(#[trigger] s[i]),
    ensures
        keep_digits(s) == s,
    decreases s.len(),
{
    if s.len() > 0 {
        lemma_keep_all_digits(s.drop_last());
        assert(s.drop_last() + seq![s.last()] =~= s);
    }
}

} // verus!
