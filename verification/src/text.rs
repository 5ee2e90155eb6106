//! Character-level text operations with their specifications.
use vstd::prelude::*;

verus! {

/// Whether `c` has the Unicode `White_Space` property (the characters that
/// `char::is_whitespace` and `str::trim` treat as white space).
pub open spec fn is_space(c: char) -> bool {
    let u = c as int;
    ||| 0x9 <= u <= 0xD
    ||| u == 0x20
    ||| u == 0x85
    ||| u == 0xA0
    ||| u == 0x1680
    ||| 0x2000 <= u <= 0x200A
    ||| u == 0x2028
    ||| u == 0x2029
    ||| u == 0x202F
    ||| u == 0x205F
    ||| u == 0x3000
}

/// `s` without its leading white space.
pub open spec fn trim_start_spec(s: Seq<char>) -> Seq<char>
    decreases s.len(),
{
    if s.len() > 0 && is_space(s[0]) {
        trim_start_spec(s.drop_first())
    } else {
        s
    }
}

/// `s` without its trailing white space.
pub open spec fn trim_end_spec(s: Seq<char>) -> Seq<char>
    decreases s.len(),
{
    if s.len() > 0 && is_space(s.last()) {
        trim_end_spec(s.drop_last())
    } else {
        s
    }
}

/// `s` without leading and trailing white space.
pub open spec fn trim_spec(s: Seq<char>) -> Seq<char> {
    trim_end_spec(trim_start_spec(s))
}

/// Whether `s` begins with `p`.
pub open spec fn starts_with_spec(s: Seq<char>, p: Seq<char>) -> bool {
    p.len() <= s.len() && s.subrange(0, p.len() as int) == p
}

/// `s` with every leading repetition of a non-empty `p` removed.
pub open spec fn strip_prefixes_spec(s: Seq<char>, p: Seq<char>) -> Seq<char>
    decreases s.len(),
{
    if p.len() > 0 && starts_with_spec(s, p) {
        strip_prefixes_spec(s.subrange(p.len() as int, s.len() as int), p)
    } else {
        s
    }
}

/// The decimal digit for `d`.
pub open spec fn digit_char(d: int) -> char {
    (d + 48) as char
}

/// The decimal notation of `n`, without sign or leading zeros.
pub open spec fn decimal_spec(n: nat) -> Seq<char>
    decreases n,
{
    if n < 10 {
        seq![digit_char(n as int)]
    } else {
        decimal_spec(n / 10).push(digit_char((n % 10) as int))
    }
}

/// Whether `c` is white space, as `char::is_whitespace` decides it.
pub fn is_space_char(c: char) -> (r: bool)
    ensures
        r == is_space(c),
{
    let u = c as u32;
    (0x9 <= u && u <= 0xD) || u == 0x20 || u == 0x85 || u == 0xA0 || u == 0x1680
        || (0x2000 <= u && u <= 0x200A) || u == 0x2028 || u == 0x2029 || u == 0x202F
        || u == 0x205F || u == 0x3000
}

proof fn lemma_trim_start_step(s: Seq<char>, i: int)
    requires
        0 <= i < s.len(),
        is_space(s[i]),
    ensures
        trim_start_spec(s.subrange(i, s.len() as int)) == trim_start_spec(
            s.subrange(i + 1, s.len() as int),
        ),
{
    assert(s.subrange(i, s.len() as int).drop_first() =~= s.subrange(i + 1, s.len() as int));
}

proof fn lemma_trim_end_step(s: Seq<char>, j: int)
    requires
        0 < j <= s.len(),
        is_space(s[j - 1]),
    ensures
        trim_end_spec(s.subrange(0, j)) == trim_end_spec(s.subrange(0, j - 1)),
{
    assert(s.subrange(0, j).drop_last() =~= s.subrange(0, j - 1));
}

/// `s` with leading and trailing white space removed, as `str::trim` does.
pub fn trim(s: &str) -> (r: &str)
    ensures
        r@ == trim_spec(s@),
{
    let n = s.unicode_len();
    let mut i: usize = 0;
    assert(s@.subrange(0, n as int) =~= s@);
    while i < n && is_space_char(s.get_char(i))
        invariant
            n == s@.len(),
            i <= n,
            trim_start_spec(s@) == trim_start_spec(s@.subrange(i as int, n as int)),
        decreases n - i,
    {
        proof {
            lemma_trim_start_step(s@, i as int);
        }
        i = i + 1;
    }
    let ghost rest = s@.subrange(i as int, n as int);
    assert(trim_start_spec(s@) == rest);
    let mut j: usize = n;
    assert(rest.subrange(0, (j - i) as int) =~= rest);
    while j > i && is_space_char(s.get_char(j - 1))
        invariant
            n == s@.len(),
            i <= j <= n,
            rest == s@.subrange(i as int, n as int),
            trim_end_spec(rest) == trim_end_spec(rest.subrange(0, (j - i) as int)),
        decreases j - i,
    {
        proof {
            lemma_trim_end_step(rest, (j - i) as int);
        }
        j = j - 1;
    }
    let r = s.substring_char(i, j);
    assert(r@ =~= rest.subrange(0, (j - i) as int));
    r
}

/// Whether `s` begins with `p`, as `str::starts_with` decides it.
pub fn starts_with(s: &str, p: &str) -> (r: bool)
    ensures
        r == starts_with_spec(s@, p@),
{
    let n = s.unicode_len();
    let m = p.unicode_len();
    if m > n {
        return false;
    }
    let mut k: usize = 0;
    while k < m
        invariant
            n == s@.len(),
            m == p@.len(),
            m <= n,
            k <= m,
            forall|t: int| 0 <= t < k ==> s@[t] == p@[t],
        decreases m - k,
    {
        if s.get_char(k) != p.get_char(k) {
            assert(s@.subrange(0, m as int)[k as int] != p@[k as int]);
            return false;
        }
        k = k + 1;
    }
    assert(s@.subrange(0, m as int) =~= p@);
    true
}

/// `s` with all leading repetitions of `p` removed, as `str::trim_start_matches`
/// does for a non-empty pattern.
pub fn strip_prefixes<'a>(s: &'a str, p: &str) -> (r: &'a str)
    requires
        p@.len() > 0,
    ensures
        r@ == strip_prefixes_spec(s@, p@),
{
    let m = p.unicode_len();
    let mut rest = s;
    while starts_with(rest, p)
        invariant
            m == p@.len(),
            m > 0,
            strip_prefixes_spec(s@, p@) == strip_prefixes_spec(rest@, p@),
        decreases rest@.len(),
    {
        let len = rest.unicode_len();
        rest = rest.substring_char(m, len);
    }
    rest
}

/// Whether two strings hold the same characters.
pub fn same_text(a: &str, b: &str) -> (r: bool)
    ensures
        r == (a@ == b@),
{
    let x = a.to_owned();
    let y = b.to_owned();
    x == y
}

/// The decimal notation of `n`, as `to_string` writes an unsigned integer.
pub fn decimal(n: u64) -> (r: String)
    ensures
        r@ == decimal_spec(n as nat),
    decreases n,
{
    let digits = "0123456789";
    proof {
        reveal_strlit("0123456789");
    }
    let d = (n % 10) as usize;
    let one = digits.substring_char(d, d + 1);
    assert(one@ =~= seq![digit_char(d as int)]);
    if n < 10 {
        one.to_owned()
    } else {
        let mut r = decimal(n / 10);
        r.append(one);
        r
    }
}

proof fn lemma_trim_start_shape(s: Seq<char>)
    ensures
        trim_start_spec(s).len() > 0 ==> !is_space(trim_start_spec(s)[0]),
        exists|k: int|
            0 <= k <= s.len() && trim_start_spec(s) == #[trigger] s.subrange(k, s.len() as int)
                && forall|t: int| 0 <= t < k ==> is_space(#[trigger] s[t]),
    decreases s.len(),
{
    if s.len() > 0 && is_space(s[0]) {
        lemma_trim_start_shape(s.drop_first());
        let d = s.drop_first();
        let k = choose|k: int|
            0 <= k <= d.len() && trim_start_spec(d) == #[trigger] d.subrange(k, d.len() as int)
                && forall|t: int| 0 <= t < k ==> is_space(#[trigger] d[t]);
        assert(d.subrange(k, d.len() as int) =~= s.subrange(k + 1, s.len() as int));
        assert forall|t: int| 0 <= t < k + 1 implies is_space(#[trigger] s[t]) by {
            if t > 0 {
                assert(s[t] == d[t - 1]);
            }
        }
    } else {
        assert(s.subrange(0, s.len() as int) =~= s);
    }
}

proof fn lemma_trim_end_shape(s: Seq<char>)
    ensures
        trim_end_spec(s).len() > 0 ==> !is_space(trim_end_spec(s).last()),
        exists|k: int|
            0 <= k <= s.len() && trim_end_spec(s) == #[trigger] s.subrange(0, k) && forall|t: int|
                k <= t < s.len() ==> is_space(#[trigger] s[t]),
    decreases s.len(),
{
    if s.len() > 0 && is_space(s.last()) {
        lemma_trim_end_shape(s.drop_last());
        let d = s.drop_last();
        let k = choose|k: int|
            0 <= k <= d.len() && trim_end_spec(d) == #[trigger] d.subrange(0, k) && forall|t: int|
                k <= t < d.len() ==> is_space(#[trigger] d[t]);
        assert(d.subrange(0, k) =~= s.subrange(0, k));
        assert forall|t: int| k <= t < s.len() implies is_space(#[trigger] s[t]) by {
            if t < s.len() - 1 {
                assert(s[t] == d[t]);
            }
        }
    } else {
        assert(s.subrange(0, s.len() as int) =~= s);
    }
}

/// Trimming removes white space from both ends and nothing else: the result
/// is a contiguous part of the text, everything cut before and after it is
/// white space, and it neither begins nor ends with white space.
pub proof fn trimmed_text_has_no_outer_space(s: Seq<char>)
    ensures
        trim_spec(s).len() > 0 ==> !is_space(trim_spec(s)[0]) && !is_space(trim_spec(s).last()),
        exists|i: int, j: int|
            0 <= i <= j <= s.len() && trim_spec(s) == #[trigger] s.subrange(i, j) && (forall|t: int|
                0 <= t < i ==> is_space(#[trigger] s[t])) && (forall|t: int|
                j <= t < s.len() ==> is_space(#[trigger] s[t])),
{
    lemma_trim_start_shape(s);
    let t = trim_start_spec(s);
    lemma_trim_end_shape(t);
    let i = choose|k: int|
        0 <= k <= s.len() && t == #[trigger] s.subrange(k, s.len() as int) && forall|u: int|
            0 <= u < k ==> is_space(#[trigger] s[u]);
    let j = choose|k: int|
        0 <= k <= t.len() && trim_end_spec(t) == #[trigger] t.subrange(0, k) && forall|u: int|
            k <= u < t.len() ==> is_space(#[trigger] t[u]);
    assert(t.subrange(0, j) =~= s.subrange(i, i + j));
    assert forall|u: int| i + j <= u < s.len() implies is_space(#[trigger] s[u]) by {
        assert(s[u] == t[u - i]);
    }
    if t.len() > 0 && trim_end_spec(t).len() > 0 {
        assert(trim_end_spec(t)[0] == t[0]);
    }
}

} // verus!
