//! Text primitives over sequences of characters: whitespace trimming, prefix
//! tests and substring search, with executable counterparts on `Vec<char>`.

use vstd::prelude::*;
use vstd::string::StringExecFns;

verus! {

/// `String::push` appends one character.
pub assume_specification[ std::string::String::push ](s: &mut std::string::String, c: char)
    ensures
        final(s)@ == old(s)@.push(c),
;

/// `str` equality is equality of the character sequences.
pub assume_specification[ <str as PartialEq>::eq ](a: &str, b: &str) -> (r: bool)
    ensures
        r == (a@ == b@),
;

/// Whether `c` has the Unicode `White_Space` property.
pub open spec fn is_whitespace(c: char) -> bool {
    let u = c as u32;
    ||| 0x09 <= u <= 0x0D
    ||| u == 0x20
    ||| u == 0x85
    ||| u == 0xA0
    ||| u == 0x1680
    ||| 0x2000 <= u <= 0x200A
    ||| u == 0x2028
    ||| u == 0x2029
    ||| u == 0x202F
    ||| u == 0x205F
    ||| u == 0x3000
}

/// How many characters of whitespace `s` begins with.
pub open spec fn leading_whitespace(s: Seq<char>) -> nat
    decreases s.len(),
{
    if s.len() > 0 && is_whitespace(s[0]) {
        1 + leading_whitespace(s.skip(1))
    } else {
        0
    }
}

/// How many characters of whitespace `s` ends with.
pub open spec fn trailing_whitespace(s: Seq<char>) -> nat
    decreases s.len(),
{
    if s.len() > 0 && is_whitespace(s.last()) {
        1 + trailing_whitespace(s.drop_last())
    } else {
        0
    }
}

/// `s` without its leading whitespace.
pub open spec fn trim_start(s: Seq<char>) -> Seq<char> {
    s.skip(leading_whitespace(s) as int)
}

/// `s` without its trailing whitespace.
pub open spec fn trim_end(s: Seq<char>) -> Seq<char> {
    s.take(s.len() - trailing_whitespace(s))
}

/// `s` without leading and trailing whitespace.
pub open spec fn trim(s: Seq<char>) -> Seq<char> {
    trim_end(trim_start(s))
}

/// Whether `s` holds nothing but whitespace.
pub open spec fn is_blank(s: Seq<char>) -> bool {
    trim(s).len() == 0
}

/// Whether `s` begins with `prefix`.
pub open spec fn starts_with(s: Seq<char>, prefix: Seq<char>) -> bool {
    prefix.len() <= s.len() && s.take(prefix.len() as int) == prefix
}

/// Whether `pattern` occurs in `s` at position `at`.
pub open spec fn occurs_at(s: Seq<char>, pattern: Seq<char>, at: int) -> bool {
    0 <= at && at + pattern.len() <= s.len() && s.subrange(at, at + pattern.len()) == pattern
}

/// The least position at or after `from` where `pattern` occurs in `s`.
pub open spec fn find_from(s: Seq<char>, pattern: Seq<char>, from: int) -> Option<int>
    decreases s.len() - from,
{
    if from < 0 || from + pattern.len() > s.len() {
        None
    } else if occurs_at(s, pattern, from) {
        Some(from)
    } else {
        proof {
            if from == s.len() {
                assert(s.subrange(from, from + pattern.len()) =~= pattern);
            }
        }
        find_from(s, pattern, from + 1)
    }
}

/// The position of the first occurrence of `pattern` in `s`.
pub open spec fn find(s: Seq<char>, pattern: Seq<char>) -> Option<int> {
    find_from(s, pattern, 0)
}

/// `s` up to, and without, its first line feed.
pub open spec fn first_line(s: Seq<char>) -> Seq<char>
    decreases s.len(),
{
    if s.len() == 0 || s[0] == '\n' {
        Seq::empty()
    } else {
        seq![s[0]] + first_line(s.skip(1))
    }
}

/// `s` with every occurrence of `pattern`, taken from left to right without
/// overlap, replaced by `with`. An empty pattern replaces nothing.
pub open spec fn replace_all(s: Seq<char>, pattern: Seq<char>, with: Seq<char>) -> Seq<char>
    decreases s.len(),
{
    if pattern.len() == 0 || s.len() == 0 {
        s
    } else if starts_with(s, pattern) {
        with + replace_all(s.skip(pattern.len() as int), pattern, with)
    } else {
        seq![s[0]] + replace_all(s.skip(1), pattern, with)
    }
}

/// The character of a decimal digit.
pub open spec fn digit_char(d: nat) -> char {
    if d == 0 {
        '0'
    } else if d == 1 {
        '1'
    } else if d == 2 {
        '2'
    } else if d == 3 {
        '3'
    } else if d == 4 {
        '4'
    } else if d == 5 {
        '5'
    } else if d == 6 {
        '6'
    } else if d == 7 {
        '7'
    } else if d == 8 {
        '8'
    } else {
        '9'
    }
}

/// The decimal numeral of `n`, without leading zeros.
pub open spec fn decimal_digits(n: nat) -> Seq<char>
    decreases n,
{
    if n < 10 {
        seq![digit_char(n)]
    } else {
        decimal_digits(n / 10).push(digit_char(n % 10))
    }
}

/// `k` leading whitespace characters followed by the end or by a character
/// that is none: then `k` is the count of leading whitespace.
pub proof fn lemma_leading_whitespace(s: Seq<char>, k: int)
    requires
        0 <= k <= s.len(),
        forall|i: int| 0 <= i < k ==> is_whitespace(#[trigger] s[i]),
        k == s.len() || !is_whitespace(s[k]),
    ensures
        leading_whitespace(s) == k,
    decreases k,
{
    if k > 0 {
        let rest = s.skip(1);
        assert forall|i: int| 0 <= i < k - 1 implies is_whitespace(#[trigger] rest[i]) by {
            assert(rest[i] == s[i + 1]);
        }
        lemma_leading_whitespace(rest, k - 1);
    }
}

/// The mirror image of [`lemma_leading_whitespace`] for the end of `s`.
pub proof fn lemma_trailing_whitespace(s: Seq<char>, k: int)
    requires
        0 <= k <= s.len(),
        forall|i: int| s.len() - k <= i < s.len() ==> is_whitespace(#[trigger] s[i]),
        k == s.len() || !is_whitespace(s[s.len() - k - 1]),
    ensures
        trailing_whitespace(s) == k,
    decreases k,
{
    if k > 0 {
        let rest = s.drop_last();
        assert forall|i: int| rest.len() - (k - 1) <= i < rest.len() implies is_whitespace(
            #[trigger] rest[i],
        ) by {
            assert(rest[i] == s[i]);
        }
        lemma_trailing_whitespace(rest, k - 1);
    }
}

/// Trimming leaves alone what neither begins nor ends with whitespace.
pub proof fn lemma_trim_tight(s: Seq<char>)
    requires
        s.len() > 0 ==> !is_whitespace(s[0]) && !is_whitespace(s.last()),
    ensures
        trim(s) == s,
{
    lemma_leading_whitespace(s, 0);
    assert(trim_start(s) =~= s);
    lemma_trailing_whitespace(s, 0);
    assert(trim_end(s) =~= s);
}

/// Where [`find_from`] answers `Some(p)`, the pattern occurs at `p` and at no
/// position from `from` up to `p`; where it answers `None`, at none from `from` on.
pub proof fn lemma_find_from(s: Seq<char>, pattern: Seq<char>, from: int)
    requires
        0 <= from,
    ensures
        match find_from(s, pattern, from) {
            Some(p) => {
                &&& from <= p
                &&& occurs_at(s, pattern, p)
                &&& forall|q: int| from <= q < p ==> !#[trigger] occurs_at(s, pattern, q)
            },
            None => forall|q: int| from <= q ==> !#[trigger] occurs_at(s, pattern, q),
        },
    decreases s.len() - from,
{
    if from + pattern.len() > s.len() {
    } else if occurs_at(s, pattern, from) {
    } else {
        if from == s.len() {
            assert(s.subrange(from, from + pattern.len()) =~= pattern);
        }
        lemma_find_from(s, pattern, from + 1);
    }
}

/// Whether `c` is whitespace.
pub fn char_is_whitespace(c: char) -> (r: bool)
    ensures
        r == is_whitespace(c),
{
    let u = c as u32;
    (0x09 <= u && u <= 0x0D) || u == 0x20 || u == 0x85 || u == 0xA0 || u == 0x1680 || (0x2000 <= u
        && u <= 0x200A) || u == 0x2028 || u == 0x2029 || u == 0x202F || u == 0x205F || u == 0x3000
}

/// The characters of `s`.
pub fn chars_of(s: &str) -> (v: Vec<char>)
    ensures
        v@ == s@,
{
    let mut v: Vec<char> = Vec::new();
    for c in it: s.chars()
        invariant
            v@ == it.seq().take(it.index() as int),
            it.seq() == s@,
    {
        v.push(c);
    }
    v
}

/// The string made of the characters of `v` from `lo` up to `hi`.
pub(crate) fn string_of(v: &Vec<char>, lo: usize, hi: usize) -> (s: String)
    requires
        lo <= hi <= v.len(),
    ensures
        s@ == v@.subrange(lo as int, hi as int),
{
    let mut s = String::new();
    let mut i: usize = lo;
    while i < hi
        invariant
            lo <= i <= hi <= v.len(),
            s@ == v@.subrange(lo as int, i as int),
        decreases hi - i,
    {
        s.push(v[i]);
        i += 1;
    }
    s
}

/// The bounds of the part of `v[lo..hi]` that trimming keeps.
pub(crate) fn trim_range(v: &Vec<char>, lo: usize, hi: usize) -> (r: (usize, usize))
    requires
        lo <= hi <= v.len(),
    ensures
        lo <= r.0 <= r.1 <= hi,
        v@.subrange(r.0 as int, r.1 as int) == trim(v@.subrange(lo as int, hi as int)),
{
    let ghost s = v@.subrange(lo as int, hi as int);
    let mut a: usize = lo;
    while a < hi && char_is_whitespace(v[a])
        invariant
            lo <= a <= hi <= v.len(),
            s == v@.subrange(lo as int, hi as int),
            forall|i: int| 0 <= i < a - lo ==> is_whitespace(#[trigger] s[i]),
        decreases hi - a,
    {
        a += 1;
    }
    proof {
        lemma_leading_whitespace(s, a - lo);
    }
    let ghost t = trim_start(s);
    assert(t == v@.subrange(a as int, hi as int));
    let mut b: usize = hi;
    while a < b && char_is_whitespace(v[b - 1])
        invariant
            lo <= a <= b <= hi <= v.len(),
            t == v@.subrange(a as int, hi as int),
            forall|i: int| b - a <= i < t.len() ==> is_whitespace(#[trigger] t[i]),
        decreases b - a,
    {
        b -= 1;
    }
    proof {
        lemma_trailing_whitespace(t, hi - b);
        assert(trim_end(t) == v@.subrange(a as int, b as int));
    }
    (a, b)
}

/// Whether `v[lo..hi]` begins with `prefix`.
pub(crate) fn starts_with_at(v: &Vec<char>, lo: usize, hi: usize, prefix: &Vec<char>) -> (r: bool)
    requires
        lo <= hi <= v.len(),
    ensures
        r == starts_with(v@.subrange(lo as int, hi as int), prefix@),
{
    let n = prefix.len();
    if n > hi - lo {
        return false;
    }
    let ghost s = v@.subrange(lo as int, hi as int);
    let mut i: usize = 0;
    while i < n
        invariant
            lo <= hi <= v.len(),
            n == prefix.len(),
            n <= hi - lo,
            i <= n,
            s == v@.subrange(lo as int, hi as int),
            s.take(i as int) == prefix@.take(i as int),
        decreases n - i,
    {
        if v[lo + i] != prefix[i] {
            proof {
                assert(s.take(n as int)[i as int] != prefix@[i as int]);
            }
            return false;
        }
        proof {
            assert(s.take(i + 1) == s.take(i as int).push(s[i as int]));
            assert(prefix@.take(i + 1) == prefix@.take(i as int).push(prefix@[i as int]));
        }
        i += 1;
    }
    proof {
        assert(prefix@.take(n as int) == prefix@);
    }
    true
}

/// The first position in `v[lo..hi]`, counted from `lo`, where `pattern` occurs.
pub(crate) fn find_in(v: &Vec<char>, lo: usize, hi: usize, pattern: &Vec<char>) -> (r: Option<usize>)
    requires
        lo <= hi <= v.len(),
    ensures
        match r {
            Some(p) => find(v@.subrange(lo as int, hi as int), pattern@) == Some(p as int) && p
                + pattern.len() <= hi - lo,
            None => find(v@.subrange(lo as int, hi as int), pattern@) is None,
        },
{
    let ghost s = v@.subrange(lo as int, hi as int);
    let n = pattern.len();
    if n > hi - lo {
        return None;
    }
    let last = hi - lo - n;
    let mut p: usize = 0;
    loop
        invariant
            lo <= hi <= v.len(),
            n == pattern.len(),
            n <= hi - lo,
            last == hi - lo - n,
            p <= last,
            s == v@.subrange(lo as int, hi as int),
            find_from(s, pattern@, 0) == find_from(s, pattern@, p as int),
        decreases last - p,
    {
        let hit = starts_with_at(v, lo + p, hi, pattern);
        proof {
            let tail = v@.subrange(lo + p, hi as int);
            assert(tail.take(n as int) =~= s.subrange(p as int, p + n));
            assert(hit == occurs_at(s, pattern@, p as int));
        }
        if hit {
            return Some(p);
        }
        if p == last {
            proof {
                if p < s.len() {
                    assert(find_from(s, pattern@, p + 1) is None);
                } else {
                    assert(s.subrange(p as int, p + n) =~= pattern@);
                }
            }
            return None;
        }
        p += 1;
    }
}

/// The position of the first line feed in `v[lo..hi]`, or `hi` where there is none.
pub(crate) fn first_line_end(v: &Vec<char>, lo: usize, hi: usize) -> (r: usize)
    requires
        lo <= hi <= v.len(),
    ensures
        lo <= r <= hi,
        v@.subrange(lo as int, r as int) == first_line(v@.subrange(lo as int, hi as int)),
{
    let mut i: usize = lo;
    while i < hi && v[i] != '\n'
        invariant
            lo <= i <= hi <= v.len(),
            v@.subrange(lo as int, i as int) + first_line(v@.subrange(i as int, hi as int))
                == first_line(v@.subrange(lo as int, hi as int)),
        decreases hi - i,
    {
        proof {
            let rest = v@.subrange(i as int, hi as int);
            assert(rest.skip(1) =~= v@.subrange(i + 1, hi as int));
            assert(v@.subrange(lo as int, i as int) + (seq![rest[0]] + first_line(rest.skip(1)))
                =~= v@.subrange(lo as int, i + 1) + first_line(rest.skip(1)));
        }
        i += 1;
    }
    proof {
        let rest = v@.subrange(i as int, hi as int);
        assert(first_line(rest) =~= Seq::<char>::empty());
        assert(v@.subrange(lo as int, i as int) + Seq::<char>::empty() =~= v@.subrange(
            lo as int,
            i as int,
        ));
    }
    i
}

/// `v` with every occurrence of `pattern` replaced by `with`.
pub(crate) fn replace_in(v: &Vec<char>, pattern: &Vec<char>, with: &Vec<char>) -> (out: Vec<char>)
    ensures
        out@ == replace_all(v@, pattern@, with@),
{
    let n = pattern.len();
    let mut out: Vec<char> = Vec::new();
    if n == 0 {
        out.extend_from_slice(v.as_slice());
        assert(out@ =~= v@);
        return out;
    }
    let mut i: usize = 0;
    proof {
        assert(v@.skip(0) =~= v@);
        assert(out@ + replace_all(v@, pattern@, with@) =~= replace_all(v@, pattern@, with@));
    }
    while i < v.len()
        invariant
            i <= v.len(),
            n == pattern.len(),
            n > 0,
            out@ + replace_all(v@.skip(i as int), pattern@, with@) == replace_all(
                v@,
                pattern@,
                with@,
            ),
        decreases v.len() - i,
    {
        let ghost rest = v@.skip(i as int);
        let ghost before = out@;
        assert(rest =~= v@.subrange(i as int, v.len() as int));
        if starts_with_at(v, i, v.len(), pattern) {
            out.extend_from_slice(with.as_slice());
            proof {
                let tail = replace_all(rest.skip(n as int), pattern@, with@);
                assert(rest.skip(n as int) =~= v@.skip(i + n));
                assert(before + (with@ + tail) =~= (before + with@) + tail);
            }
            i += n;
        } else {
            out.push(v[i]);
            proof {
                let tail = replace_all(rest.skip(1), pattern@, with@);
                assert(rest.skip(1) =~= v@.skip(i + 1));
                assert(before + (seq![rest[0]] + tail) =~= before.push(v@[i as int]) + tail);
            }
            i += 1;
        }
    }
    proof {
        assert(v@.skip(i as int) =~= Seq::<char>::empty());
        assert(out@ + Seq::<char>::empty() =~= out@);
    }
    out
}

/// The character of the decimal digit `d`.
fn digit(d: u64) -> (c: char)
    requires
        d < 10,
    ensures
        c == digit_char(d as nat),
{
    if d == 0 {
        '0'
    } else if d == 1 {
        '1'
    } else if d == 2 {
        '2'
    } else if d == 3 {
        '3'
    } else if d == 4 {
        '4'
    } else if d == 5 {
        '5'
    } else if d == 6 {
        '6'
    } else if d == 7 {
        '7'
    } else if d == 8 {
        '8'
    } else {
        '9'
    }
}

/// The decimal numeral of `n`.
pub fn decimal(n: u64) -> (r: String)
    ensures
        r@ == decimal_digits(n as nat),
{
    let mut low: Vec<char> = Vec::new();
    let mut rest: u64 = n;
    while rest >= 10
        invariant
            decimal_digits(n as nat) == decimal_digits(rest as nat) + low@.reverse(),
        decreases rest,
    {
        let ghost before = low@;
        low.push(digit(rest % 10));
        proof {
            let d = digit_char((rest % 10) as nat);
            assert(low@.reverse() =~= seq![d] + before.reverse());
            assert(decimal_digits((rest / 10) as nat).push(d) + before.reverse()
                =~= decimal_digits((rest / 10) as nat) + (seq![d] + before.reverse()));
        }
        rest = rest / 10;
    }
    let mut r = String::new();
    r.push(digit(rest));
    let mut i: usize = low.len();
    while i > 0
        invariant
            i <= low.len(),
            rest < 10,
            r@ == decimal_digits(rest as nat) + low@.reverse().take(low.len() - i),
        decreases i,
    {
        i -= 1;
        let ghost before = r@;
        r.push(low[i]);
        proof {
            let rev = low@.reverse();
            let k = low.len() - i - 1;
            assert(rev[k] == low@[i as int]);
            assert(rev.take(k + 1) =~= rev.take(k).push(rev[k]));
            assert(before.push(low@[i as int]) =~= decimal_digits(rest as nat) + rev.take(k + 1));
        }
    }
    proof {
        assert(low@.reverse().take(low.len() as int) =~= low@.reverse());
    }
    r
}

/// `a` followed by `b`.
pub fn joined(a: &str, b: &str) -> (r: String)
    ensures
        r@ == a@ + b@,
{
    let mut r = a.to_owned();
    r.append(b);
    r
}

/// Whether `s` holds nothing but whitespace.
pub fn is_blank_str(s: &str) -> (r: bool)
    ensures
        r == is_blank(s@),
{
    let v = chars_of(s);
    let (a, b) = trim_range(&v, 0, v.len());
    assert(v@.subrange(0, v.len() as int) =~= v@);
    a == b
}

} // verus!
