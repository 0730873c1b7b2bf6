//! Verified text helpers: trimming, splitting, searching and case
//! mapping over the character sequences the rest of the crate reasons
//! about.

use vstd::prelude::*;

verus! {

/// Whether `c` has Unicode's White_Space property: the whitespace that
/// trimming strips.
pub open spec fn is_space(c: char) -> bool {
    let u = c as u32;
    ||| 0x09 <= u <= 0x0D
    ||| u == 0x20
    ||| u == 0x85
    ||| u == 0xA0
    ||| u == 0x1680
    ||| 0x2000 <= u <= 0x200A
    ||| u == 0x2028
    ||| u == 0x2029
    ||| u == 0x202F
    ||| u == 0x205F
    ||| u == 0x3000
}

/// `s` with leading whitespace removed.
pub open spec fn trim_start_spec(s: Seq<char>) -> Seq<char>
    decreases s.len(),
{
    if s.len() > 0 && is_space(s[0]) {
        trim_start_spec(s.drop_first())
    } else {
        s
    }
}

/// `s` with trailing whitespace removed.
pub open spec fn trim_end_spec(s: Seq<char>) -> Seq<char>
    decreases s.len(),
{
    if s.len() > 0 && is_space(s.last()) {
        trim_end_spec(s.drop_last())
    } else {
        s
    }
}

/// `s` with whitespace removed from both ends.
pub open spec fn trim_spec(s: Seq<char>) -> Seq<char> {
    trim_end_spec(trim_start_spec(s))
}

/// Whether `c` is one of the whitespace characters `is_space` names.
fn is_space_char(c: char) -> (r: bool)
    ensures
        r == is_space(c),
{
    let u = c as u32;
    (0x09 <= u && u <= 0x0D) || u == 0x20 || u == 0x85 || u == 0xA0 || u == 0x1680 || (0x2000 <= u
        && u <= 0x200A) || u == 0x2028 || u == 0x2029 || u == 0x202F || u == 0x205F || u == 0x3000
}

/// The slice of `s` with whitespace removed from both ends.
pub fn trim_str<'a>(s: &'a str) -> (r: &'a str)
    ensures
        r@ == trim_spec(s@),
{
    let n: usize = s.unicode_len();
    let mut i: usize = 0;
    proof {
        assert(s@.skip(0) =~= s@);
    }
    while i < n && is_space_char(s.get_char(i))
        invariant
            0 <= i <= n,
            n == s@.len(),
            trim_start_spec(s@) == trim_start_spec(s@.skip(i as int)),
        decreases n - i,
    {
        proof {
            assert(s@.skip(i as int)[0] == s@[i as int]);
            assert(s@.skip(i as int).drop_first() =~= s@.skip(i + 1));
        }
        i = i + 1;
    }
    proof {
        if i == n {
            assert(s@.skip(i as int) =~= Seq::<char>::empty());
        }
        assert(trim_start_spec(s@) == s@.skip(i as int));
    }
    let mut j: usize = n - i;
    proof {
        assert(s@.skip(i as int).take(n - i) =~= s@.skip(i as int));
    }
    while j > 0 && is_space_char(s.get_char(i + j - 1))
        invariant
            0 <= j <= n - i,
            i <= n,
            n == s@.len(),
            trim_start_spec(s@) == s@.skip(i as int),
            trim_end_spec(s@.skip(i as int)) == trim_end_spec(
                s@.skip(i as int).take(j as int),
            ),
        decreases j,
    {
        proof {
            assert(s@.skip(i as int).take(j as int).last() == s@[i + j - 1]);
            assert(s@.skip(i as int).take(j as int).drop_last() =~= s@.skip(i as int).take(
                j - 1,
            ));
        }
        j = j - 1;
    }
    proof {
        assert(trim_end_spec(s@.skip(i as int).take(j as int)) == s@.skip(i as int).take(
            j as int,
        ));
    }
    let r = s.substring_char(i, i + j);
    proof {
        assert(s@.skip(i as int).take(j as int) =~= s@.subrange(i as int, i + j));
    }
    r
}

/// Relies on `String::push`: appends the given character to the end of
/// the string.
#[verifier::external_body]
fn push_char(s: &mut String, c: char)
    ensures
        final(s)@ == old(s)@.push(c),
{
    s.push(c);
}

/// A `String` whose characters are exactly those of `v`.
fn string_from_chars(v: &Vec<char>) -> (r: String)
    ensures
        r@ == v@,
{
    let mut r = String::new();
    let mut i: usize = 0;
    while i < v.len()
        invariant
            0 <= i <= v@.len(),
            r@ == v@.take(i as int),
        decreases v@.len() - i,
    {
        push_char(&mut r, v[i]);
        proof {
            assert(v@.take(i as int).push(v@[i as int]) =~= v@.take(i + 1));
        }
        i = i + 1;
    }
    proof {
        assert(v@.take(v@.len() as int) =~= v@);
    }
    r
}

/// Whether `a` and `b` hold the same characters.
pub fn str_eq(a: &str, b: &str) -> (r: bool)
    ensures
        r == (a@ == b@),
{
    let n: usize = a.unicode_len();
    let m: usize = b.unicode_len();
    if n != m {
        return false;
    }
    let mut i: usize = 0;
    while i < n
        invariant
            0 <= i <= n,
            n == a@.len(),
            n == b@.len(),
            forall|k: int| 0 <= k < i ==> a@[k] == b@[k],
        decreases n - i,
    {
        if a.get_char(i) != b.get_char(i) {
            return false;
        }
        i = i + 1;
    }
    proof {
        assert(a@ =~= b@);
    }
    true
}

/// The pieces of `s` between occurrences of `sep`: one (possibly empty)
/// piece before, between and after the separators, in order.
pub open spec fn split_spec(s: Seq<char>, sep: char) -> Seq<Seq<char>>
    decreases s.len(),
{
    if s.len() == 0 {
        seq![Seq::<char>::empty()]
    } else if s[0] == sep {
        seq![Seq::<char>::empty()] + split_spec(s.drop_first(), sep)
    } else {
        let rest = split_spec(s.drop_first(), sep);
        seq![seq![s[0]] + rest[0]] + rest.subrange(1, rest.len() as int)
    }
}

/// The pieces of `s` between occurrences of `sep`, as owned strings.
pub fn split_str(s: &str, sep: char) -> (parts: Vec<String>)
    ensures
        parts@.map_values(|p: String| p@) == split_spec(s@, sep),
        parts@.len() >= 1,
{
    let n: usize = s.unicode_len();
    let mut parts: Vec<String> = Vec::new();
    let mut cur: Vec<char> = Vec::new();
    let mut i: usize = n;
    proof {
        assert(s@.skip(n as int) =~= Seq::<char>::empty());
        assert(seq![cur@] + parts@.map_values(|p: String| p@) =~= split_spec(
            s@.skip(n as int),
            sep,
        ));
    }
    while i > 0
        invariant
            0 <= i <= n,
            n == s@.len(),
            seq![cur@] + parts@.map_values(|p: String| p@) == split_spec(s@.skip(i as int), sep),
        decreases i,
    {
        let c = s.get_char(i - 1);
        proof {
            assert(s@.skip(i - 1)[0] == s@[i - 1]);
            assert(s@.skip(i - 1).drop_first() =~= s@.skip(i as int));
        }
        if c == sep {
            let ghost parts0 = parts@;
            let piece = string_from_chars(&cur);
            parts.insert(0, piece);
            cur = Vec::new();
            proof {
                assert(parts@.map_values(|p: String| p@) =~= seq![piece@] + parts0.map_values(
                    |p: String| p@,
                ));
                assert(split_spec(s@.skip(i - 1), sep) == seq![Seq::<char>::empty()] + split_spec(
                    s@.skip(i - 1).drop_first(),
                    sep,
                ));
                assert(seq![cur@] + parts@.map_values(|p: String| p@) =~= split_spec(
                    s@.skip(i - 1),
                    sep,
                ));
            }
        } else {
            let ghost cur0 = cur@;
            cur.insert(0, c);
            proof {
                let rest = split_spec(s@.skip(i as int), sep);
                assert(rest[0] == cur0);
                assert(rest.subrange(1, rest.len() as int) =~= parts@.map_values(
                    |p: String| p@,
                ));
                assert(cur@ =~= seq![c] + cur0);
                assert(split_spec(s@.skip(i - 1), sep) == seq![seq![s@[i - 1]] + rest[0]]
                    + rest.subrange(1, rest.len() as int));
                assert(seq![cur@] + parts@.map_values(|p: String| p@) =~= split_spec(
                    s@.skip(i - 1),
                    sep,
                ));
            }
        }
        i = i - 1;
    }
    let ghost parts1 = parts@;
    let first = string_from_chars(&cur);
    parts.insert(0, first);
    proof {
        assert(s@.skip(0) =~= s@);
        assert(parts@.map_values(|p: String| p@) =~= seq![first@] + parts1.map_values(
            |p: String| p@,
        ));
        assert(parts@.map_values(|p: String| p@) =~= split_spec(s@, sep));
    }
    parts
}

/// Whether `pat` occurs in `s` starting at position `i`.
pub open spec fn occurs_at(s: Seq<char>, pat: Seq<char>, i: int) -> bool {
    &&& 0 <= i
    &&& i + pat.len() <= s.len()
    &&& s.subrange(i, i + pat.len()) == pat
}

/// Whether `pat` occurs somewhere in `s`.
pub open spec fn contains_seq(s: Seq<char>, pat: Seq<char>) -> bool {
    exists|i: int| occurs_at(s, pat, i)
}

/// Whether `pat` occurs in `s` starting at position `i`.
fn match_at(s: &str, pat: &str, i: usize) -> (r: bool)
    requires
        i + pat@.len() <= s@.len(),
    ensures
        r == occurs_at(s@, pat@, i as int),
{
    let n: usize = s.unicode_len();
    let m: usize = pat.unicode_len();
    let mut j: usize = 0;
    while j < m
        invariant
            0 <= j <= m,
            m == pat@.len(),
            n == s@.len(),
            i + m <= n,
            forall|k: int| 0 <= k < j ==> s@[i + k] == pat@[k],
        decreases m - j,
    {
        if s.get_char(i + j) != pat.get_char(j) {
            proof {
                assert(s@.subrange(i as int, i + pat@.len())[j as int] == s@[i + j]);
            }
            return false;
        }
        j = j + 1;
    }
    proof {
        assert(s@.subrange(i as int, i + pat@.len()) =~= pat@);
    }
    true
}

/// Whether `pat` occurs somewhere in `s`.
pub fn contains_str(s: &str, pat: &str) -> (r: bool)
    ensures
        r == contains_seq(s@, pat@),
{
    let n: usize = s.unicode_len();
    let m: usize = pat.unicode_len();
    if m > n {
        proof {
            assert(forall|k: int| !occurs_at(s@, pat@, k));
        }
        return false;
    }
    if m == 0 {
        proof {
            assert(s@.subrange(0, 0) =~= pat@);
            assert(occurs_at(s@, pat@, 0));
        }
        return true;
    }
    let mut i: usize = 0;
    while i <= n - m
        invariant
            0 <= i <= n - m + 1,
            n == s@.len(),
            m == pat@.len(),
            1 <= m <= n,
            forall|k: int| 0 <= k < i ==> !occurs_at(s@, pat@, k),
        decreases n - i,
    {
        if match_at(s, pat, i) {
            return true;
        }
        i = i + 1;
    }
    proof {
        assert(forall|k: int| k > n - m ==> !occurs_at(s@, pat@, k));
    }
    false
}

/// The lower-case equivalent of `s`, by Unicode's lowercase mapping.
pub uninterp spec fn lower_of(s: Seq<char>) -> Seq<char>;

/// Relies on `str::to_lowercase`: the lower-case equivalent of the
/// string, by Unicode's lowercase mapping.  The result depends on the
/// characters alone, and an empty string stays empty.
#[verifier::external_body]
pub(crate) fn to_lower(s: &str) -> (r: String)
    ensures
        r@ == lower_of(s@),
        s@.len() == 0 ==> r@.len() == 0,
{
    s.to_lowercase()
}

/// `s` with every occurrence of `from` replaced by `to`.
pub open spec fn replace_char_spec(s: Seq<char>, from: char, to: char) -> Seq<char> {
    s.map_values(|c: char| if c == from { to } else { c })
}

/// `s` with every occurrence of `from` replaced by `to`.
pub fn replace_char(s: &str, from: char, to: char) -> (r: String)
    ensures
        r@ == replace_char_spec(s@, from, to),
{
    let n: usize = s.unicode_len();
    let mut v: Vec<char> = Vec::new();
    proof {
        assert(v@ =~= replace_char_spec(s@.take(0), from, to));
    }
    let mut i: usize = 0;
    while i < n
        invariant
            0 <= i <= n,
            n == s@.len(),
            v@ == replace_char_spec(s@.take(i as int), from, to),
        decreases n - i,
    {
        let c = s.get_char(i);
        if c == from {
            v.push(to);
        } else {
            v.push(c);
        }
        proof {
            let mapped = if s@[i as int] == from {
                to
            } else {
                s@[i as int]
            };
            assert(replace_char_spec(s@.take(i as int), from, to).push(mapped)
                =~= replace_char_spec(s@.take(i + 1), from, to));
        }
        i = i + 1;
    }
    proof {
        assert(s@.take(n as int) =~= s@);
    }
    string_from_chars(&v)
}

} // verus!
