//! Verified text utilities: substring search, prefix and suffix tests, and
//! decimal rendering of integers. Everything here works on `Seq<char>` views
//! so that the other modules can state exact contracts about the strings they
//! build and inspect.

use vstd::prelude::*;

verus! {

use vstd::std_specs::iter::IteratorSpec;

broadcast use vstd::string::group_string_axioms;

/// `p` occurs in `s` starting at position `i`.
pub open spec fn occurs_at(s: Seq<char>, p: Seq<char>, i: int) -> bool {
    0 <= i && i + p.len() <= s.len() && s.subrange(i, i + p.len() as int) == p
}

/// `p` occurs somewhere in `s`.
pub open spec fn seq_contains(s: Seq<char>, p: Seq<char>) -> bool {
    exists|i: int| occurs_at(s, p, i)
}

/// `s` starts with `p`.
pub open spec fn starts_with(s: Seq<char>, p: Seq<char>) -> bool {
    p.len() <= s.len() && s.subrange(0, p.len() as int) == p
}

/// `s` ends with `p`.
pub open spec fn ends_with(s: Seq<char>, p: Seq<char>) -> bool {
    p.len() <= s.len() && s.subrange(s.len() - p.len(), s.len() as int) == p
}

/// The characters of `s` as a vector, so that later scans can index in
/// constant time.
pub fn chars_of(s: &str) -> (r: Vec<char>)
    ensures
        r@ == s@,
{
    let mut it = s.chars();
    let mut r: Vec<char> = Vec::new();
    loop
        invariant
            it.obeys_prophetic_iter_laws(),
            it.decrease() is Some,
            r@ + it.remaining() == s@,
        ensures
            r@ == s@,
        decreases it.decrease()->0,
    {
        match it.next() {
            Some(c) => {
                r.push(c);
                proof {
                    assert(r@ + it.remaining() =~= s@);
                }
            },
            None => {
                proof {
                    assert(r@ =~= s@);
                }
                break;
            },
        }
    }
    r
}

/// Whether the characters of `s` starting at `at` are exactly `p`.
fn matches_at(s: &Vec<char>, p: &Vec<char>, at: usize) -> (r: bool)
    requires
        at + p@.len() <= s@.len(),
    ensures
        r == occurs_at(s@, p@, at as int),
{
    let n = s.len();
    let m = p.len();
    let mut j: usize = 0;
    while j < m
        invariant
            n == s@.len(),
            m == p@.len(),
            at + m <= n,
            0 <= j <= m,
            forall|k: int| 0 <= k < j ==> s@[at + k] == p@[k],
        decreases m - j,
    {
        if s[at + j] != p[j] {
            proof {
                assert(s@.subrange(at as int, at + p@.len()) != p@) by {
                    assert(s@.subrange(at as int, at + p@.len())[j as int] != p@[j as int]);
                }
            }
            return false;
        }
        j += 1;
    }
    proof {
        assert(s@.subrange(at as int, at + p@.len()) =~= p@);
    }
    true
}

/// Substring search over character vectors.
pub fn vec_contains(s: &Vec<char>, p: &Vec<char>) -> (r: bool)
    ensures
        r == seq_contains(s@, p@),
{
    if p.len() > s.len() {
        proof {
            assert(forall|i: int| !occurs_at(s@, p@, i));
        }
        return false;
    }
    if p.len() == 0 {
        proof {
            assert(s@.subrange(0, 0) =~= p@);
            assert(occurs_at(s@, p@, 0));
        }
        return true;
    }
    let end = s.len() - p.len() + 1;
    let mut i: usize = 0;
    while i < end
        invariant
            0 < p@.len() <= s@.len(),
            end == s@.len() - p@.len() + 1,
            0 <= i <= end,
            forall|k: int| 0 <= k < i ==> !occurs_at(s@, p@, k),
        decreases end - i,
    {
        if matches_at(s, p, i) {
            return true;
        }
        i += 1;
    }
    proof {
        assert(forall|k: int| occurs_at(s@, p@, k) ==> 0 <= k < end);
    }
    false
}

/// Substring search over string slices.
pub fn contains_str(s: &str, p: &str) -> (r: bool)
    ensures
        r == seq_contains(s@, p@),
{
    let sv = chars_of(s);
    let pv = chars_of(p);
    vec_contains(&sv, &pv)
}

/// Prefix test over string slices.
pub fn starts_with_str(s: &str, p: &str) -> (r: bool)
    ensures
        r == starts_with(s@, p@),
{
    let sv = chars_of(s);
    let pv = chars_of(p);
    if pv.len() > sv.len() {
        return false;
    }
    let r = matches_at(&sv, &pv, 0);
    proof {
        assert(occurs_at(s@, p@, 0) == starts_with(s@, p@));
    }
    r
}

/// Suffix test over string slices.
pub fn ends_with_str(s: &str, p: &str) -> (r: bool)
    ensures
        r == ends_with(s@, p@),
{
    let sv = chars_of(s);
    let pv = chars_of(p);
    if pv.len() > sv.len() {
        return false;
    }
    let at = sv.len() - pv.len();
    let r = matches_at(&sv, &pv, at);
    proof {
        assert(occurs_at(s@, p@, s@.len() - p@.len()) == ends_with(s@, p@));
    }
    r
}

/// A concatenation contains its suffix.
pub proof fn lemma_contains_suffix(pre: Seq<char>, suf: Seq<char>)
    ensures
        seq_contains(pre + suf, suf),
{
    let s = pre + suf;
    assert(s.subrange(pre.len() as int, pre.len() + suf.len() as int) =~= suf);
    assert(occurs_at(s, suf, pre.len() as int));
}

/// The character for a single decimal digit.
pub open spec fn digit_char(d: nat) -> char {
    if d == 0 {
        '0'
    } else if d == 1 {
        '1'
    } else if d == 2 {
        '2'
    } else if d == 3 {
        '3'
    } else if d == 4 {
        '4'
    } else if d == 5 {
        '5'
    } else if d == 6 {
        '6'
    } else if d == 7 {
        '7'
    } else if d == 8 {
        '8'
    } else {
        '9'
    }
}

/// The decimal rendering of `n`, without sign or leading zeros.
pub open spec fn dec_digits(n: nat) -> Seq<char>
    decreases n,
{
    if n < 10 {
        seq![digit_char(n)]
    } else {
        dec_digits(n / 10).push(digit_char(n % 10))
    }
}

/// Relies on `String::push`: appends exactly the given character.
#[verifier::external_body]
pub(crate) fn push_char(s: &mut String, c: char)
    ensures
        final(s)@ == old(s)@.push(c),
{
    s.push(c);
}

fn digit_to_char(d: u32) -> (c: char)
    requires
        d < 10,
    ensures
        c == digit_char(d as nat),
{
    match d {
        0 => '0',
        1 => '1',
        2 => '2',
        3 => '3',
        4 => '4',
        5 => '5',
        6 => '6',
        7 => '7',
        8 => '8',
        _ => '9',
    }
}

/// Renders `n` in decimal.
pub fn u32_to_dec(n: u32) -> (r: String)
    ensures
        r@ == dec_digits(n as nat),
    decreases n,
{
    let mut r = if n < 10 {
        String::new()
    } else {
        u32_to_dec(n / 10)
    };
    let c = digit_to_char(n % 10);
    push_char(&mut r, c);
    proof {
        if n < 10 {
            assert(r@ =~= dec_digits(n as nat));
        }
    }
    r
}

/// ASCII whitespace, the only kind this library trims.
pub open spec fn is_space(c: char) -> bool {
    c == ' ' || c == '\t' || c == '\n' || c == '\r'
}

/// `s` with leading and trailing whitespace removed.
pub open spec fn trimmed(s: Seq<char>) -> Seq<char>
    decreases s.len(),
{
    if s.len() > 0 && is_space(s.first()) {
        trimmed(s.drop_first())
    } else if s.len() > 0 && is_space(s.last()) {
        trimmed(s.drop_last())
    } else {
        s
    }
}

pub open spec fn is_dec_digit(c: char) -> bool {
    '0' as u32 <= c as u32 && c as u32 <= '9' as u32
}

pub open spec fn digit_val(c: char) -> nat {
    (c as u32 - '0' as u32) as nat
}

/// A nonempty string of decimal digits.
pub open spec fn is_dec_string(s: Seq<char>) -> bool {
    s.len() > 0 && forall|i: int| 0 <= i < s.len() ==> is_dec_digit(#[trigger] s[i])
}

/// The numeric value of a digit string.
pub open spec fn dec_value(s: Seq<char>) -> nat
    decreases s.len(),
{
    if s.len() == 0 {
        0
    } else {
        dec_value(s.drop_last()) * 10 + digit_val(s.last())
    }
}

/// What parsing a `u32` out of `s` yields: the value of the trimmed digit
/// string, if there is one and it fits.
pub open spec fn parse_u32_of(s: Seq<char>) -> Option<u32> {
    let t = trimmed(s);
    if is_dec_string(t) && dec_value(t) <= u32::MAX {
        Some(dec_value(t) as u32)
    } else {
        None
    }
}

fn is_space_exec(c: char) -> (r: bool)
    ensures
        r == is_space(c),
{
    c == ' ' || c == '\t' || c == '\n' || c == '\r'
}

/// The value of every prefix is bounded by the value of the whole string.
proof fn lemma_dec_value_prefix_le(s: Seq<char>, k: int)
    requires
        0 <= k <= s.len(),
    ensures
        dec_value(s.subrange(0, k)) <= dec_value(s),
    decreases s.len() - k,
{
    if k < s.len() {
        lemma_dec_value_prefix_le(s, k + 1);
        let p = s.subrange(0, k + 1);
        assert(p.drop_last() =~= s.subrange(0, k));
        assert(dec_value(s.subrange(0, k)) <= dec_value(p));
    } else {
        assert(s.subrange(0, k) =~= s);
    }
}

/// Parses a `u32` from `s`: optional surrounding whitespace around a decimal
/// digit string whose value fits.
pub fn parse_u32(s: &str) -> (r: Option<u32>)
    ensures
        r == parse_u32_of(s@),
{
    let v = chars_of(s);
    let mut lo: usize = 0;
    let mut hi: usize = v.len();
    proof {
        assert(v@.subrange(0, v@.len() as int) =~= v@);
    }
    while lo < hi && is_space_exec(v[lo])
        invariant
            0 <= lo <= hi <= v@.len(),
            trimmed(v@.subrange(lo as int, hi as int)) == trimmed(v@),
        decreases hi - lo,
    {
        proof {
            let cur = v@.subrange(lo as int, hi as int);
            assert(cur.drop_first() =~= v@.subrange(lo + 1, hi as int));
        }
        lo += 1;
    }
    while lo < hi && is_space_exec(v[hi - 1])
        invariant
            0 <= lo <= hi <= v@.len(),
            trimmed(v@.subrange(lo as int, hi as int)) == trimmed(v@),
            lo < hi ==> !is_space(v@[lo as int]),
        decreases hi - lo,
    {
        proof {
            let cur = v@.subrange(lo as int, hi as int);
            assert(cur.drop_last() =~= v@.subrange(lo as int, hi - 1));
        }
        hi -= 1;
    }
    let ghost t = trimmed(v@);
    proof {
        assert(v@.subrange(lo as int, hi as int) =~= trimmed(v@.subrange(lo as int, hi as int)));
        assert(t == v@.subrange(lo as int, hi as int));
    }
    if lo == hi {
        proof {
            assert(!is_dec_string(t));
        }
        return None;
    }
    let mut acc: u32 = 0;
    let mut i: usize = lo;
    while i < hi
        invariant
            0 <= lo <= i <= hi <= v@.len(),
            v@ == s@,
            t == trimmed(s@),
            t == v@.subrange(lo as int, hi as int),
            acc as nat == dec_value(t.subrange(0, i - lo)),
            forall|k: int| 0 <= k < i - lo ==> is_dec_digit(#[trigger] t[k]),
        decreases hi - i,
    {
        let c = v[i];
        proof {
            assert(t[i - lo] == v@[i as int]);
        }
        let cu = c as u32;
        if cu < '0' as u32 || cu > '9' as u32 {
            proof {
                assert(!is_dec_digit(t[i - lo]));
                assert(!is_dec_string(t));
            }
            return None;
        }
        let d = cu - '0' as u32;
        let ghost pre = t.subrange(0, i - lo);
        let ghost pre1 = t.subrange(0, i + 1 - lo);
        proof {
            assert(pre1.drop_last() =~= pre);
            assert(dec_value(pre1) == acc as nat * 10 + d as nat);
        }
        match acc.checked_mul(10) {
            Some(x) => {
                match x.checked_add(d) {
                    Some(y) => {
                        acc = y;
                    },
                    None => {
                        proof {
                            assert(dec_value(pre1) > u32::MAX);
                            lemma_dec_value_prefix_le(t, i + 1 - lo);
                        }
                        return None;
                    },
                }
            },
            None => {
                proof {
                    assert(dec_value(pre1) > u32::MAX);
                    lemma_dec_value_prefix_le(t, i + 1 - lo);
                }
                return None;
            },
        }
        i += 1;
    }
    proof {
        assert(t.subrange(0, hi - lo) =~= t);
        assert(is_dec_string(t));
    }
    Some(acc)
}

/// Every character of a decimal rendering is a decimal digit.
pub proof fn lemma_dec_digits_are_digits(n: nat)
    ensures
        is_dec_string(dec_digits(n)),
    decreases n,
{
    if n >= 10 {
        lemma_dec_digits_are_digits(n / 10);
    }
}

proof fn lemma_digit_val_of_char(d: nat)
    requires
        d < 10,
    ensures
        digit_val(digit_char(d)) == d,
        is_dec_digit(digit_char(d)),
        !is_space(digit_char(d)),
{
}

/// The decimal rendering of `n` evaluates back to `n`.
pub proof fn lemma_dec_value_of_digits(n: nat)
    ensures
        dec_value(dec_digits(n)) == n,
    decreases n,
{
    if n < 10 {
        lemma_digit_val_of_char(n);
        let s = dec_digits(n);
        assert(s == seq![digit_char(n)]);
        assert(s.last() == digit_char(n));
        assert(s.drop_last() =~= Seq::<char>::empty());
        assert(dec_value(s.drop_last()) == 0);
        assert(dec_value(s) == digit_val(digit_char(n)));
    } else {
        lemma_digit_val_of_char(n % 10);
        lemma_dec_value_of_digits(n / 10);
        let s = dec_digits(n);
        assert(s == dec_digits(n / 10).push(digit_char(n % 10)));
        assert(s.last() == digit_char(n % 10));
        assert(s.drop_last() =~= dec_digits(n / 10));
        assert(dec_value(s) == (n / 10) * 10 + n % 10);
        vstd::arithmetic::div_mod::lemma_fundamental_div_mod(n as int, 10);
        assert(dec_value(s) == n);
    }
}

/// Rendering a `u32` in decimal and parsing it back yields the same value.
pub proof fn lemma_dec_roundtrip(n: u32)
    ensures
        parse_u32_of(dec_digits(n as nat)) == Some(n),
{
    let s = dec_digits(n as nat);
    lemma_dec_digits_are_digits(n as nat);
    lemma_dec_value_of_digits(n as nat);
    assert(!is_space(s.first()) && !is_space(s.last()));
    assert(trimmed(s) == s);
}

/// The view of an optional string.
pub open spec fn opt_str_view(o: Option<String>) -> Option<Seq<char>> {
    match o {
        Some(s) => Some(s@),
        None => None,
    }
}

/// The views of a list of strings.
pub open spec fn arg_views(args: Seq<String>) -> Seq<Seq<char>> {
    args.map_values(|a: String| a@)
}

/// `is_space` as a first-class predicate, so that different call sites speak
/// of one and the same function value.
pub open spec fn space_pred() -> spec_fn(char) -> bool {
    |c: char| is_space(c)
}

/// The first index of `s` whose character satisfies `p`, or -1 if there is
/// none.
pub open spec fn find_if(s: Seq<char>, p: spec_fn(char) -> bool) -> int
    decreases s.len(),
{
    if s.len() == 0 {
        -1
    } else if p(s.first()) {
        0
    } else {
        let r = find_if(s.drop_first(), p);
        if r < 0 {
            -1
        } else {
            r + 1
        }
    }
}

/// A scan that stopped at `i` on a satisfying character found the first one.
pub proof fn lemma_find_if_found(s: Seq<char>, p: spec_fn(char) -> bool, i: int)
    requires
        0 <= i < s.len(),
        p(s[i]),
        forall|k: int| 0 <= k < i ==> !p(#[trigger] s[k]),
    ensures
        find_if(s, p) == i,
    decreases i,
{
    if i > 0 {
        let t = s.drop_first();
        assert(forall|k: int| 0 <= k < i - 1 ==> !p(#[trigger] t[k]));
        lemma_find_if_found(t, p, i - 1);
    }
}

/// A scan that found no satisfying character found nothing.
pub proof fn lemma_find_if_none(s: Seq<char>, p: spec_fn(char) -> bool)
    requires
        forall|k: int| 0 <= k < s.len() ==> !p(#[trigger] s[k]),
    ensures
        find_if(s, p) == -1,
    decreases s.len(),
{
    if s.len() > 0 {
        let t = s.drop_first();
        assert(forall|k: int| 0 <= k < t.len() ==> !p(#[trigger] t[k]));
        lemma_find_if_none(t, p);
    }
}

/// Copies `s[from..to]` into a fresh string.
pub fn string_of_range(s: &Vec<char>, from: usize, to: usize) -> (r: String)
    requires
        0 <= from <= to <= s@.len(),
    ensures
        r@ == s@.subrange(from as int, to as int),
{
    let mut r = String::new();
    let mut i: usize = from;
    while i < to
        invariant
            from <= i <= to <= s@.len(),
            r@ == s@.subrange(from as int, i as int),
        decreases to - i,
    {
        push_char(&mut r, s[i]);
        proof {
            assert(s@.subrange(from as int, i as int).push(s@[i as int]) =~= s@.subrange(
                from as int,
                i + 1,
            ));
        }
        i += 1;
    }
    proof {
        assert(s@.subrange(from as int, from as int) =~= Seq::<char>::empty());
    }
    r
}

/// Equality of string slices, stated over their views.
pub fn str_eq(a: &str, b: &str) -> (r: bool)
    ensures
        r == (a@ == b@),
{
    let av = a.to_owned();
    let bv = b.to_owned();
    av == bv
}

} // verus!
