//! Text operations on symbols, topics and messages, over their sequences of
//! characters.
use vstd::prelude::*;

verus! {

/// `p` is a prefix of `s`.
pub open spec fn has_prefix(s: Seq<char>, p: Seq<char>) -> bool {
    p.len() <= s.len() && s.take(p.len() as int) == p
}

/// `p` is a suffix of `s`.
pub open spec fn has_suffix(s: Seq<char>, p: Seq<char>) -> bool {
    p.len() <= s.len() && s.skip(s.len() - p.len()) == p
}

/// `p` occurs somewhere in `s`.
pub open spec fn occurs_in(s: Seq<char>, p: Seq<char>) -> bool {
    exists|i: int| 0 <= i && i + p.len() <= s.len() && #[trigger] s.subrange(i, i + p.len()) == p
}

/// `s` with every occurrence of `p` taken out, scanning from the left and
/// never letting two occurrences overlap (as `str::replace(p, "")` does).
pub open spec fn without(s: Seq<char>, p: Seq<char>) -> Seq<char>
    decreases s.len(),
{
    if p.len() == 0 || s.len() < p.len() {
        s
    } else if s.take(p.len() as int) == p {
        without(s.skip(p.len() as int), p)
    } else {
        seq![s[0]] + without(s.skip(1), p)
    }
}

/// Only ASCII characters.
pub open spec fn ascii_only(s: Seq<char>) -> bool {
    forall|i: int| 0 <= i < s.len() ==> (#[trigger] s[i] as u32) < 128
}

/// `s` with the ASCII capitals A to Z turned into a to z.
pub open spec fn ascii_lowercase(s: Seq<char>) -> Seq<char> {
    Seq::new(
        s.len(),
        |i: int|
            if 'A' <= s[i] && s[i] <= 'Z' {
                ((s[i] as u32) + 32) as char
            } else {
                s[i]
            },
    )
}

/// What `str::to_lowercase` returns for `s`.
pub uninterp spec fn lowercase(s: Seq<char>) -> Seq<char>;

/// The lowercase form of `s`, by `str::to_lowercase` (std). Its
/// documentation maps each character by the Unicode Lowercase property;
/// this contract names that result, and states it for ASCII text, where
/// only A to Z change, each to its small letter. What it does beyond ASCII
/// is left unsaid.
#[verifier::external_body]
pub(crate) fn to_lowercase(s: &str) -> (r: String)
    ensures
        r@ == lowercase(s@),
        ascii_only(s@) ==> r@ == ascii_lowercase(s@),
{
    s.to_lowercase()
}

/// The decimal value of a sequence of digits.
pub open spec fn digits_value(s: Seq<char>) -> int
    decreases s.len(),
{
    if s.len() == 0 {
        0
    } else {
        digits_value(s.drop_last()) * 10 + ((s.last() as u32) - ('0' as u32))
    }
}

/// Every character is one of 0 to 9.
pub open spec fn all_digits(s: Seq<char>) -> bool {
    forall|i: int| 0 <= i < s.len() ==> '0' <= #[trigger] s[i] && s[i] <= '9'
}

/// The value of `s` read as `i64::from_str` reads it: an optional `+` or
/// `-` followed by at least one digit and nothing else, within the range of
/// `i64`.
pub open spec fn decimal_i64(s: Seq<char>) -> Option<i64> {
    let negative = s.len() > 0 && s[0] == '-';
    let body = if s.len() > 0 && (s[0] == '-' || s[0] == '+') {
        s.skip(1)
    } else {
        s
    };
    let value = if negative {
        -digits_value(body)
    } else {
        digits_value(body)
    };
    if body.len() > 0 && all_digits(body) && i64::MIN <= value && value <= i64::MAX {
        Some(value as i64)
    } else {
        None
    }
}

/// A string of digits has a value of at least zero.
proof fn lemma_digits_nonnegative(s: Seq<char>)
    requires
        all_digits(s),
    ensures
        0 <= digits_value(s),
    decreases s.len(),
{
    if s.len() > 0 {
        let earlier = s.drop_last();
        assert forall|i: int| 0 <= i < earlier.len() implies '0' <= #[trigger] earlier[i]
            && earlier[i] <= '9' by {
            assert(earlier[i] == s[i]);
        }
        lemma_digits_nonnegative(earlier);
        assert('0' <= s[s.len() - 1]);
    }
}

/// Cutting digits off the end of a string of digits never makes its value
/// larger.
proof fn lemma_digits_grow(s: Seq<char>, k: int)
    requires
        0 <= k <= s.len(),
        all_digits(s),
    ensures
        digits_value(s.take(k)) <= digits_value(s),
    decreases s.len(),
{
    if k < s.len() {
        let earlier = s.drop_last();
        assert forall|i: int| 0 <= i < earlier.len() implies '0' <= #[trigger] earlier[i]
            && earlier[i] <= '9' by {
            assert(earlier[i] == s[i]);
        }
        lemma_digits_grow(earlier, k);
        lemma_digits_nonnegative(earlier);
        assert(earlier.take(k) =~= s.take(k));
        assert('0' <= s[s.len() - 1] && s[s.len() - 1] <= '9');
    } else {
        assert(s.take(k) =~= s);
    }
}

/// The value of `s` read as `i64::from_str` reads it (std): an optional
/// `+` or `-` sign followed by digits only, within the range of `i64`;
/// `None` for any other text.
pub fn parse_i64(s: &str) -> (r: Option<i64>)
    ensures
        r == decimal_i64(s@),
{
    let n = s.unicode_len();
    if n == 0 {
        return None;
    }
    let first = s.get_char(0);
    let negative = first == '-';
    let start: usize = if first == '-' || first == '+' {
        1
    } else {
        0
    };
    let ghost body = s@.skip(start as int);
    let ghost signed = s@.len() > 0 && (s@[0] == '-' || s@[0] == '+');
    assert(body == if signed {
        s@.skip(1)
    } else {
        s@
    });
    if start == n {
        return None;
    }
    let limit: u128 = 0x8000_0000_0000_0000;
    let mut magnitude: u128 = 0;
    let mut i: usize = start;
    while i < n
        invariant
            n == s@.len(),
            start <= i <= n,
            body == s@.skip(start as int),
            body == if s@.len() > 0 && (s@[0] == '-' || s@[0] == '+') {
                s@.skip(1)
            } else {
                s@
            },
            negative == (s@.len() > 0 && s@[0] == '-'),
            body.len() > 0,
            all_digits(body.take(i - start)),
            magnitude == digits_value(body.take(i - start)),
            magnitude <= limit,
            limit == 0x8000_0000_0000_0000,
        decreases n - i,
    {
        let c = s.get_char(i);
        assert(body[i - start] == c);
        if c < '0' || c > '9' {
            assert(!all_digits(body));
            return None;
        }
        let d: u128 = ((c as u32) - ('0' as u32)) as u128;
        assert(body.take(i - start + 1).drop_last() =~= body.take(i - start));
        assert(body.take(i - start + 1).last() == c);
        let next = magnitude * 10 + d;
        assert(next == digits_value(body.take(i - start + 1)));
        assert(all_digits(body.take(i - start + 1))) by {
            let t = body.take(i - start + 1);
            assert forall|k: int| 0 <= k < t.len() implies '0' <= #[trigger] t[k] && t[k] <= '9' by {
                if k < i - start {
                    assert(t[k] == body.take(i - start)[k]);
                }
            }
        }
        if next > limit {
            proof {
                if all_digits(body) {
                    lemma_digits_grow(body, i - start + 1);
                }
            }
            return None;
        }
        magnitude = next;
        i = i + 1;
    }
    assert(body.take(n - start) =~= body);
    if negative {
        if magnitude == limit {
            Some(i64::MIN)
        } else {
            Some(-(magnitude as i64))
        }
    } else if magnitude < limit {
        Some(magnitude as i64)
    } else {
        None
    }
}

/// Whether `p` stands in `s` at position `at`.
fn matches_at(s: &str, p: &str, at: usize) -> (r: bool)
    requires
        at + p@.len() <= s@.len(),
        s@.len() <= usize::MAX,
    ensures
        r == (s@.subrange(at as int, at + p@.len()) == p@),
{
    let m = p.unicode_len();
    let mut j: usize = 0;
    while j < m
        invariant
            m == p@.len(),
            at + m <= s@.len(),
            s@.len() <= usize::MAX,
            j <= m,
            forall|k: int| 0 <= k < j ==> s@[at + k] == p@[k],
        decreases m - j,
    {
        if s.get_char(at + j) != p.get_char(j) {
            assert(s@.subrange(at as int, at + m)[j as int] != p@[j as int]);
            return false;
        }
        j = j + 1;
    }
    assert(s@.subrange(at as int, at + m) =~= p@);
    true
}

/// Whether `s` starts with `p`.
pub fn starts_with(s: &str, p: &str) -> (r: bool)
    ensures
        r == has_prefix(s@, p@),
{
    let n = s.unicode_len();
    let m = p.unicode_len();
    if m > n {
        return false;
    }
    let r = matches_at(s, p, 0);
    assert(s@.subrange(0, m as int) =~= s@.take(m as int));
    r
}

/// Whether `s` ends with `p`.
pub fn ends_with(s: &str, p: &str) -> (r: bool)
    ensures
        r == has_suffix(s@, p@),
{
    let n = s.unicode_len();
    let m = p.unicode_len();
    if m > n {
        return false;
    }
    let r = matches_at(s, p, n - m);
    assert(s@.subrange((n - m) as int, n as int) =~= s@.skip(n - m));
    r
}

/// Whether `p` occurs in `s`.
pub fn contains(s: &str, p: &str) -> (r: bool)
    ensures
        r == occurs_in(s@, p@),
{
    let n = s.unicode_len();
    let m = p.unicode_len();
    if m > n {
        return false;
    }
    let last = n - m;
    let mut i: usize = 0;
    loop
        invariant
            n == s@.len(),
            m == p@.len(),
            last == n - m,
            i <= last,
            forall|k: int| 0 <= k < i ==> #[trigger] s@.subrange(k, k + m) != p@,
        decreases last - i,
    {
        if matches_at(s, p, i) {
            return true;
        }
        if i == last {
            return false;
        }
        i = i + 1;
    }
}

proof fn lemma_without_step(s: Seq<char>, p: Seq<char>, i: int)
    requires
        p.len() > 0,
        0 <= i,
        i + p.len() <= s.len(),
    ensures
        s.subrange(i, i + p.len()) == p ==> without(s.skip(i), p) == without(
            s.skip(i + p.len()),
            p,
        ),
        s.subrange(i, i + p.len()) != p ==> without(s.skip(i), p) == seq![s[i]] + without(
            s.skip(i + 1),
            p,
        ),
{
    let t = s.skip(i);
    assert(t.take(p.len() as int) =~= s.subrange(i, i + p.len()));
    assert(t.skip(p.len() as int) =~= s.skip(i + p.len()));
    assert(t.skip(1) =~= s.skip(i + 1));
}

/// `s` with every occurrence of `p` taken out, left to right (an empty
/// `p` takes nothing out).
pub fn remove_all(s: &str, p: &str) -> (r: String)
    ensures
        r@ == without(s@, p@),
{
    let n = s.unicode_len();
    let m = p.unicode_len();
    if m == 0 {
        return String::from_str(s);
    }
    let mut out = String::new();
    let mut i: usize = 0;
    assert(s@.skip(0) =~= s@);
    while i < n
        invariant
            n == s@.len(),
            m == p@.len(),
            m > 0,
            i <= n,
            out@ + without(s@.skip(i as int), p@) == without(s@, p@),
        decreases n - i,
    {
        if m <= n - i && matches_at(s, p, i) {
            proof {
                lemma_without_step(s@, p@, i as int);
            }
            i = i + m;
        } else {
            let ghost before = out@;
            if m <= n - i {
                proof {
                    lemma_without_step(s@, p@, i as int);
                }
            } else {
                proof {
                    let t = s@.skip(i as int);
                    assert(t.len() < m);
                    assert(without(t, p@) == t);
                    assert(t.skip(1).len() < m);
                    assert(without(t.skip(1), p@) == t.skip(1));
                    assert(t =~= seq![s@[i as int]] + s@.skip(i + 1));
                    assert(t.skip(1) =~= s@.skip(i + 1));
                }
            }
            out.append(s.substring_char(i, i + 1));
            assert(s@.subrange(i as int, i + 1) =~= seq![s@[i as int]]);
            assert(out@ + without(s@.skip(i + 1), p@) =~= before + (seq![s@[i as int]] + without(
                s@.skip(i + 1),
                p@,
            )));
            i = i + 1;
        }
    }
    assert(s@.skip(n as int) =~= Seq::<char>::empty());
    assert(out@ + without(s@.skip(n as int), p@) =~= out@);
    out
}

/// Whether two texts are equal, character for character.
pub fn same_text(a: &String, b: &str) -> (r: bool)
    ensures
        r == (a@ == b@),
{
    *a == String::from_str(b)
}

} // verus!
