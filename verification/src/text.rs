//! Specifications and verified helpers for the character-sequence work the
//! library does: substring containment, whitespace trimming, splitting on a
//! delimiter, decimal rendering of counters, and case folding.

use vstd::prelude::*;

verus! {

// ---------------------------------------------------------------------------
// Substring containment
// ---------------------------------------------------------------------------
/// `p` occurs as a contiguous run of characters inside `s`.
pub open spec fn spec_contains(s: Seq<char>, p: Seq<char>) -> bool {
    exists|i: int| 0 <= i && i + p.len() <= s.len() && #[trigger] s.subrange(i, i + p.len()) == p
}

/// Whether `pat` matches `s` exactly at character position `i`.
fn match_at(s: &str, pat: &str, i: usize, n: usize, m: usize) -> (b: bool)
    requires
        n == s@.len(),
        m == pat@.len(),
        i + m <= n,
    ensures
        b == (s@.subrange(i as int, i + m) == pat@),
{
    let mut k: usize = 0;
    while k < m
        invariant
            n == s@.len(),
            m == pat@.len(),
            i + m <= n,
            k <= m,
            forall|j: int| 0 <= j < k ==> s@[i + j] == pat@[j],
        decreases m - k,
    {
        if s.get_char(i + k) != pat.get_char(k) {
            proof {
                assert(s@.subrange(i as int, i + m)[k as int] != pat@[k as int]);
            }
            return false;
        }
        k += 1;
    }
    proof {
        assert(s@.subrange(i as int, i + m) =~= pat@);
    }
    true
}

/// Whether `pat` occurs anywhere inside `s`, by character content.
pub fn contains_sub(s: &str, pat: &str) -> (b: bool)
    ensures
        b == spec_contains(s@, pat@),
{
    let n = s.unicode_len();
    let m = pat.unicode_len();
    if m > n {
        return false;
    }
    if m == 0 {
        proof {
            assert(s@.subrange(0, 0 + pat@.len() as int) =~= pat@);
        }
        return true;
    }
    let mut i: usize = 0;
    while i <= n - m
        invariant
            0 < m <= n,
            n == s@.len(),
            m == pat@.len(),
            i <= n - m + 1,
            forall|j: int| 0 <= j < i ==> #[trigger] s@.subrange(j, j + m) != pat@,
        decreases n - i,
    {
        if match_at(s, pat, i, n, m) {
            return true;
        }
        i += 1;
    }
    false
}

// ---------------------------------------------------------------------------
// Whitespace trimming
// ---------------------------------------------------------------------------
/// The Unicode `White_Space` code points; `str::trim` removes exactly these
/// from both ends.
pub open spec fn is_unicode_ws(c: char) -> bool {
    ||| c == '\u{0009}'
    ||| c == '\u{000A}'
    ||| c == '\u{000B}'
    ||| c == '\u{000C}'
    ||| c == '\u{000D}'
    ||| c == ' '
    ||| c == '\u{0085}'
    ||| c == '\u{00A0}'
    ||| c == '\u{1680}'
    ||| c == '\u{2000}'
    ||| c == '\u{2001}'
    ||| c == '\u{2002}'
    ||| c == '\u{2003}'
    ||| c == '\u{2004}'
    ||| c == '\u{2005}'
    ||| c == '\u{2006}'
    ||| c == '\u{2007}'
    ||| c == '\u{2008}'
    ||| c == '\u{2009}'
    ||| c == '\u{200A}'
    ||| c == '\u{2028}'
    ||| c == '\u{2029}'
    ||| c == '\u{202F}'
    ||| c == '\u{205F}'
    ||| c == '\u{3000}'
}

fn is_ws_char(c: char) -> (b: bool)
    ensures
        b == is_unicode_ws(c),
{
    c == '\u{0009}' || c == '\u{000A}' || c == '\u{000B}' || c == '\u{000C}' || c == '\u{000D}'
        || c == ' ' || c == '\u{0085}' || c == '\u{00A0}' || c == '\u{1680}' || c == '\u{2000}'
        || c == '\u{2001}' || c == '\u{2002}' || c == '\u{2003}' || c == '\u{2004}' || c
        == '\u{2005}' || c == '\u{2006}' || c == '\u{2007}' || c == '\u{2008}' || c == '\u{2009}'
        || c == '\u{200A}' || c == '\u{2028}' || c == '\u{2029}' || c == '\u{202F}' || c
        == '\u{205F}' || c == '\u{3000}'
}

/// `s` with leading whitespace dropped.
pub open spec fn spec_trim_start(s: Seq<char>) -> Seq<char>
    decreases s.len(),
{
    if s.len() > 0 && is_unicode_ws(s[0]) {
        spec_trim_start(s.drop_first())
    } else {
        s
    }
}

/// `s` with trailing whitespace dropped.
pub open spec fn spec_trim_end(s: Seq<char>) -> Seq<char>
    decreases s.len(),
{
    if s.len() > 0 && is_unicode_ws(s.last()) {
        spec_trim_end(s.drop_last())
    } else {
        s
    }
}

/// `s` with whitespace dropped from both ends.
pub open spec fn spec_trim(s: Seq<char>) -> Seq<char> {
    spec_trim_end(spec_trim_start(s))
}

/// `s` without its leading and trailing whitespace.
pub fn trim_str<'a>(s: &'a str) -> (r: &'a str)
    ensures
        r@ == spec_trim(s@),
{
    let n = s.unicode_len();
    proof {
        assert(s@.skip(0) =~= s@);
    }
    let mut a: usize = 0;
    while a < n && is_ws_char(s.get_char(a))
        invariant
            a <= n,
            n == s@.len(),
            spec_trim_start(s@) == spec_trim_start(s@.skip(a as int)),
        decreases n - a,
    {
        proof {
            assert(s@.skip(a as int).drop_first() =~= s@.skip(a + 1));
        }
        a += 1;
    }
    proof {
        assert(spec_trim_start(s@) == s@.skip(a as int));
    }
    proof {
        assert(s@.skip(a as int) =~= s@.subrange(a as int, n as int));
    }
    let mut b: usize = n;
    while b > a && is_ws_char(s.get_char(b - 1))
        invariant
            a <= b <= n,
            n == s@.len(),
            spec_trim_end(s@.skip(a as int)) == spec_trim_end(s@.subrange(a as int, b as int)),
        decreases b,
    {
        proof {
            assert(s@.subrange(a as int, b as int).drop_last() =~= s@.subrange(a as int, b - 1));
        }
        b -= 1;
    }
    proof {
        assert(spec_trim_end(s@.skip(a as int)) == s@.subrange(a as int, b as int));
    }
    s.substring_char(a, b)
}

// ---------------------------------------------------------------------------
// Splitting on a delimiter character
// ---------------------------------------------------------------------------
/// The pieces of `s` between occurrences of `d`, in order. There is always
/// at least one piece; no piece contains `d`; joining the pieces with `d`
/// gives back `s`.
pub open spec fn spec_split(s: Seq<char>, d: char) -> Seq<Seq<char>>
    decreases s.len(),
{
    if s.len() == 0 {
        seq![Seq::<char>::empty()]
    } else if s[0] == d {
        seq![Seq::<char>::empty()] + spec_split(s.drop_first(), d)
    } else {
        let rest = spec_split(s.drop_first(), d);
        seq![seq![s[0]] + rest[0]] + rest.drop_first()
    }
}

/// A split always has at least one piece.
pub proof fn lemma_split_len(s: Seq<char>, d: char)
    ensures
        spec_split(s, d).len() >= 1,
    decreases s.len(),
{
    if s.len() > 0 {
        lemma_split_len(s.drop_first(), d);
    }
}

/// When `d` does not occur in `s`, the split is just `s` itself.
proof fn lemma_split_no_delim(s: Seq<char>, d: char)
    requires
        forall|k: int| 0 <= k < s.len() ==> s[k] != d,
    ensures
        spec_split(s, d) == seq![s],
    decreases s.len(),
{
    if s.len() > 0 {
        lemma_split_no_delim(s.drop_first(), d);
        lemma_split_len(s.drop_first(), d);
        assert(seq![s[0]] + s.drop_first() =~= s);
        assert(spec_split(s, d) =~~= seq![s]);
    } else {
        assert(seq![Seq::<char>::empty()] =~~= seq![s]);
    }
}

/// Splitting at the first occurrence of the delimiter.
proof fn lemma_split_at_first(s: Seq<char>, d: char, j: int)
    requires
        0 <= j < s.len(),
        s[j] == d,
        forall|k: int| 0 <= k < j ==> s[k] != d,
    ensures
        spec_split(s, d) == seq![s.take(j)] + spec_split(s.skip(j + 1), d),
    decreases j,
{
    if j == 0 {
        assert(s.take(0) =~= Seq::<char>::empty());
        assert(s.skip(1) =~= s.drop_first());
        assert(spec_split(s, d) =~~= seq![s.take(0)] + spec_split(s.skip(1), d));
    } else {
        let t = s.drop_first();
        lemma_split_at_first(t, d, j - 1);
        lemma_split_len(t.skip(j), d);
        let rest = spec_split(t, d);
        assert(rest[0] == t.take(j - 1));
        assert(seq![s[0]] + t.take(j - 1) =~= s.take(j));
        assert(t.skip(j) =~= s.skip(j + 1));
        assert(rest.drop_first() == spec_split(s.skip(j + 1), d));
        assert(spec_split(s, d) =~~= seq![s.take(j)] + spec_split(s.skip(j + 1), d));
    }
}

/// The pieces of `s` between occurrences of `d`, as owned strings.
pub fn split_str(s: &str, d: char) -> (r: Vec<String>)
    ensures
        r.deep_view() == spec_split(s@, d),
        r@.len() >= 1,
    decreases s@.len(),
{
    let n = s.unicode_len();
    let mut j: usize = 0;
    while j < n && s.get_char(j) != d
        invariant
            j <= n,
            n == s@.len(),
            forall|k: int| 0 <= k < j ==> s@[k] != d,
        decreases n - j,
    {
        j += 1;
    }
    if j == n {
        let mut r: Vec<String> = Vec::new();
        r.push(s.to_owned());
        proof {
            lemma_split_no_delim(s@, d);
            assert(r.deep_view() =~~= spec_split(s@, d));
        }
        r
    } else {
        let head = s.substring_char(0, j).to_owned();
        let rest = s.substring_char(j + 1, n);
        let mut r = split_str(rest, d);
        let ghost tail_pieces = r.deep_view();
        r.insert(0, head);
        proof {
            lemma_split_at_first(s@, d, j as int);
            assert(s@.subrange(0, j as int) == s@.take(j as int));
            assert(rest@ == s@.skip(j + 1));
            assert(r.deep_view() =~~= seq![s@.take(j as int)] + tail_pieces);
        }
        r
    }
}

// ---------------------------------------------------------------------------
// Character-wise string equality
// ---------------------------------------------------------------------------
/// Whether two string slices hold the same characters.
pub fn str_eq(a: &str, b: &str) -> (r: bool)
    ensures
        r == (a@ == b@),
{
    let n = a.unicode_len();
    let m = b.unicode_len();
    if n != m {
        return false;
    }
    let mut k: usize = 0;
    while k < n
        invariant
            n == a@.len(),
            n == b@.len(),
            k <= n,
            forall|j: int| 0 <= j < k ==> a@[j] == b@[j],
        decreases n - k,
    {
        if a.get_char(k) != b.get_char(k) {
            return false;
        }
        k += 1;
    }
    proof {
        assert(a@ =~= b@);
    }
    true
}

// ---------------------------------------------------------------------------
// Decimal rendering of counters
// ---------------------------------------------------------------------------
/// The character for a single decimal digit.
pub open spec fn digit_char(d: int) -> char {
    if d == 0 {
        '0'
    } else if d == 1 {
        '1'
    } else if d == 2 {
        '2'
    } else if d == 3 {
        '3'
    } else if d == 4 {
        '4'
    } else if d == 5 {
        '5'
    } else if d == 6 {
        '6'
    } else if d == 7 {
        '7'
    } else if d == 8 {
        '8'
    } else {
        '9'
    }
}

/// The usual decimal rendering of `n`, without leading zeroes.
pub open spec fn dec_str(n: nat) -> Seq<char>
    decreases n,
{
    if n < 10 {
        seq![digit_char(n as int)]
    } else {
        dec_str(n / 10) + seq![digit_char((n % 10) as int)]
    }
}

/// The decimal rendering of `n`, left-padded with zeroes to at least
/// three digits.
pub open spec fn dec3_str(n: nat) -> Seq<char> {
    if n < 10 {
        seq!['0', '0'] + dec_str(n)
    } else if n < 100 {
        seq!['0'] + dec_str(n)
    } else {
        dec_str(n)
    }
}

fn digit_label(d: u64) -> (r: &'static str)
    requires
        d < 10,
    ensures
        r@ == seq![digit_char(d as int)],
{
    proof {
        reveal_strlit("0");
        reveal_strlit("1");
        reveal_strlit("2");
        reveal_strlit("3");
        reveal_strlit("4");
        reveal_strlit("5");
        reveal_strlit("6");
        reveal_strlit("7");
        reveal_strlit("8");
        reveal_strlit("9");
    }
    if d == 0 {
        "0"
    } else if d == 1 {
        "1"
    } else if d == 2 {
        "2"
    } else if d == 3 {
        "3"
    } else if d == 4 {
        "4"
    } else if d == 5 {
        "5"
    } else if d == 6 {
        "6"
    } else if d == 7 {
        "7"
    } else if d == 8 {
        "8"
    } else {
        "9"
    }
}

/// Appends the decimal rendering of `n` to `out`.
pub fn push_dec(out: &mut String, n: u64)
    ensures
        final(out)@ == old(out)@ + dec_str(n as nat),
    decreases n,
{
    if n >= 10 {
        push_dec(out, n / 10);
        out.append(digit_label(n % 10));
        proof {
            assert(final(out)@ =~= old(out)@ + dec_str(n as nat));
        }
    } else {
        out.append(digit_label(n));
    }
}

/// The decimal rendering of `n` as an owned string.
pub fn dec_string(n: u64) -> (r: String)
    ensures
        r@ == dec_str(n as nat),
{
    let mut r = String::new();
    push_dec(&mut r, n);
    proof {
        assert(r@ =~= dec_str(n as nat));
    }
    r
}

/// The decimal rendering of `n`, zero-padded to at least three digits.
pub fn dec3_string(n: u64) -> (r: String)
    ensures
        r@ == dec3_str(n as nat),
{
    let mut r = String::new();
    if n < 10 {
        r.append("00");
        proof {
            reveal_strlit("00");
            assert(r@ =~= seq!['0', '0']);
        }
    } else if n < 100 {
        r.append("0");
        proof {
            reveal_strlit("0");
            assert(r@ =~= seq!['0']);
        }
    }
    push_dec(&mut r, n);
    proof {
        assert(r@ =~= dec3_str(n as nat));
    }
    r
}

// ---------------------------------------------------------------------------
// Case folding
// ---------------------------------------------------------------------------
/// The lowercase form of a character sequence, as `str::to_lowercase`
/// computes it. The mapping is involved, but it depends on the characters
/// alone, so it is only named here.
pub uninterp spec fn lower_of(s: Seq<char>) -> Seq<char>;

/// Relies on str::to_lowercase: the Unicode lowercase form of the input,
/// a function of the characters alone; an empty input stays empty.
#[verifier::external_body]
pub(crate) fn lowercase(s: &str) -> (r: String)
    ensures
        r@ == lower_of(s@),
        s@.len() == 0 ==> r@.len() == 0,
{
    s.to_lowercase()
}

} // verus!
