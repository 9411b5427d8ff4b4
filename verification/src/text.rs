//! Character-level text helpers shared by the rest of the library.
//!
//! Strings are handled as sequences of `char`; every helper states its result
//! over `Seq<char>`.

use crate::buffers::{copy_range, extend_copy};
use vstd::prelude::*;
use vstd::std_specs::iter::IteratorSpec;

verus! {

/// `String::push` appends exactly the given character.
pub assume_specification[ String::push ](s: &mut String, c: char)
    ensures
        final(s)@ == old(s)@.push(c),
;

/// The characters of `s`, in order.
pub fn to_chars(s: &str) -> (r: Vec<char>)
    ensures
        r@ == s@,
{
    broadcast use vstd::string::group_string_axioms;

    let mut it = s.chars();
    let mut out: Vec<char> = Vec::new();
    loop
        invariant
            it.obeys_prophetic_iter_laws(),
            it.decrease() is Some,
            out@ + it.remaining() == s@,
        decreases it.decrease()->0,
    {
        let ghost before = it.remaining();
        match it.next() {
            Some(c) => {
                out.push(c);
                assert(out@ + it.remaining() =~= s@) by {
                    assert(before =~= seq![c] + before.drop_first());
                }
            },
            None => {
                assert(out@ =~= s@);
                return out;
            },
        }
    }
}

/// The string made of the characters of `v`, in order.
pub fn from_chars(v: &Vec<char>) -> (r: String)
    ensures
        r@ == v@,
{
    let mut out = String::new();
    let mut i: usize = 0;
    while i < v.len()
        invariant
            i <= v.len(),
            out@ == v@.subrange(0, i as int),
        decreases v.len() - i,
    {
        out.push(v[i]);
        i += 1;
        assert(out@ =~= v@.subrange(0, i as int));
    }
    assert(out@ =~= v@);
    out
}

/// Whether two character sequences are the same.
pub fn chars_eq(a: &Vec<char>, b: &Vec<char>) -> (r: bool)
    ensures
        r == (a@ == b@),
{
    if a.len() != b.len() {
        return false;
    }
    let mut i: usize = 0;
    while i < a.len()
        invariant
            i <= a.len(),
            a.len() == b.len(),
            forall|j: int| 0 <= j < i ==> a@[j] == b@[j],
        decreases a.len() - i,
    {
        if a[i] != b[i] {
            return false;
        }
        i += 1;
    }
    assert(a@ =~= b@);
    true
}

/// `pat` stands in `s` at position `i`.
pub open spec fn occurs_at(s: Seq<char>, i: int, pat: Seq<char>) -> bool {
    0 <= i && i + pat.len() <= s.len() && s.subrange(i, i + pat.len()) == pat
}

/// Whether `pat` stands in `s` at position `i`.
pub fn matches_at(s: &Vec<char>, i: usize, pat: &Vec<char>) -> (r: bool)
    ensures
        r == occurs_at(s@, i as int, pat@),
{
    if i > s.len() || pat.len() > s.len() - i {
        return false;
    }
    let mut k: usize = 0;
    while k < pat.len()
        invariant
            k <= pat.len(),
            i + pat.len() <= s.len(),
            forall|j: int| 0 <= j < k ==> s@[i + j] == pat@[j],
        decreases pat.len() - k,
    {
        if s[i + k] != pat[k] {
            assert(s@.subrange(i as int, i + pat.len())[k as int] != pat@[k as int]);
            return false;
        }
        k += 1;
    }
    assert(s@.subrange(i as int, i + pat.len()) =~= pat@);
    true
}

/// Whether `s` begins with `pat`.
pub fn starts_with(s: &Vec<char>, pat: &Vec<char>) -> (r: bool)
    ensures
        r == occurs_at(s@, 0, pat@),
{
    matches_at(s, 0, pat)
}

/// The first position at or after `from` where `pat` stands in `s`, if any.
pub open spec fn first_occurrence(s: Seq<char>, pat: Seq<char>, from: int) -> Option<int>
    decreases s.len() - from + 1,
{
    if from < 0 || from + pat.len() > s.len() {
        None
    } else if occurs_at(s, from, pat) {
        Some(from)
    } else {
        first_occurrence(s, pat, from + 1)
    }
}

/// What `first_occurrence` finds is an occurrence, and nothing occurs before it.
pub proof fn lemma_first_occurrence(s: Seq<char>, pat: Seq<char>, from: int)
    requires
        0 <= from,
    ensures
        match first_occurrence(s, pat, from) {
            Some(i) => from <= i && occurs_at(s, i, pat) && forall|j: int|
                from <= j < i ==> !occurs_at(s, j, pat),
            None => forall|j: int| from <= j ==> !occurs_at(s, j, pat),
        },
    decreases s.len() - from + 1,
{
    if from + pat.len() > s.len() {
    } else if occurs_at(s, from, pat) {
    } else {
        lemma_first_occurrence(s, pat, from + 1);
    }
}

/// The first position at or after `from` where `pat` stands in `s`.
pub fn find_from(s: &Vec<char>, pat: &Vec<char>, from: usize) -> (r: Option<usize>)
    ensures
        match r {
            Some(i) => first_occurrence(s@, pat@, from as int) == Some(i as int) && from <= i
                && i + pat.len() <= s.len(),
            None => first_occurrence(s@, pat@, from as int) is None,
        },
{
    if from > s.len() || pat.len() > s.len() - from {
        return None;
    }
    let last: usize = s.len() - pat.len();
    let mut i: usize = from;
    loop
        invariant
            from <= i <= last,
            last == s.len() - pat.len(),
            first_occurrence(s@, pat@, from as int) == first_occurrence(s@, pat@, i as int),
        decreases last - i,
    {
        if matches_at(s, i, pat) {
            return Some(i);
        }
        if i == last {
            assert(first_occurrence(s@, pat@, i + 1) is None);
            return None;
        }
        i += 1;
    }
}

/// The first position where `pat` stands in `s`.
pub fn find(s: &Vec<char>, pat: &Vec<char>) -> (r: Option<usize>)
    ensures
        match r {
            Some(i) => first_occurrence(s@, pat@, 0) == Some(i as int) && i + pat.len()
                <= s.len(),
            None => first_occurrence(s@, pat@, 0) is None,
        },
{
    find_from(s, pat, 0)
}

/// `pat` stands somewhere in `s`.
pub open spec fn contains_seq(s: Seq<char>, pat: Seq<char>) -> bool {
    exists|i: int| occurs_at(s, i, pat)
}

/// Whether `pat` stands somewhere in `s`.
pub fn contains(s: &Vec<char>, pat: &Vec<char>) -> (r: bool)
    ensures
        r == contains_seq(s@, pat@),
{
    proof {
        lemma_first_occurrence(s@, pat@, 0);
    }
    match find(s, pat) {
        Some(i) => {
            assert(occurs_at(s@, i as int, pat@));
            true
        },
        None => false,
    }
}

/// `s` with every occurrence of `pat` replaced by `to`, scanning from the left
/// and never matching inside a replacement. An empty `pat` matches before
/// every character and at the end.
pub open spec fn replaced(s: Seq<char>, pat: Seq<char>, to: Seq<char>) -> Seq<char>
    decreases s.len(),
{
    if pat.len() == 0 {
        if s.len() == 0 {
            to
        } else {
            to + seq![s[0]] + replaced(s.drop_first(), pat, to)
        }
    } else if s.len() < pat.len() {
        s
    } else if occurs_at(s, 0, pat) {
        to + replaced(s.subrange(pat.len() as int, s.len() as int), pat, to)
    } else {
        seq![s[0]] + replaced(s.drop_first(), pat, to)
    }
}

/// Replaces every occurrence of `pat` in `s` by `to`.
pub fn replace_all(s: &Vec<char>, pat: &Vec<char>, to: &Vec<char>) -> (r: Vec<char>)
    ensures
        r@ == replaced(s@, pat@, to@),
{
    let n = s.len();
    let mut out: Vec<char> = Vec::new();
    let mut i: usize = 0;
    assert(s@.subrange(0, n as int) =~= s@);
    while i < n
        invariant
            i <= n,
            n == s.len(),
            out@ + replaced(s@.subrange(i as int, n as int), pat@, to@) == replaced(
                s@,
                pat@,
                to@,
            ),
        decreases n - i,
    {
        let ghost suffix = s@.subrange(i as int, n as int);
        let ghost before = out@;
        if pat.len() == 0 {
            extend_copy(&mut out, to);
            out.push(s[i]);
            proof {
                assert(suffix.drop_first() =~= s@.subrange(i + 1, n as int));
                assert(out@ + replaced(suffix.drop_first(), pat@, to@) =~= before + replaced(
                    suffix,
                    pat@,
                    to@,
                ));
            }
            i += 1;
        } else if matches_at(s, i, pat) {
            extend_copy(&mut out, to);
            proof {
                assert(suffix.subrange(0, pat@.len() as int) =~= s@.subrange(
                    i as int,
                    i + pat@.len(),
                ));
                assert(suffix.subrange(pat@.len() as int, suffix.len() as int) =~= s@.subrange(
                    i + pat@.len(),
                    n as int,
                ));
                assert(out@ + replaced(s@.subrange(i + pat@.len(), n as int), pat@, to@)
                    =~= before + replaced(suffix, pat@, to@));
            }
            i += pat.len();
        } else {
            out.push(s[i]);
            proof {
                assert(suffix.drop_first() =~= s@.subrange(i + 1, n as int));
                if suffix.len() >= pat@.len() {
                    assert(suffix.subrange(0, pat@.len() as int) =~= s@.subrange(
                        i as int,
                        i + pat@.len(),
                    ));
                    assert(!occurs_at(suffix, 0, pat@));
                } else {
                    assert(replaced(suffix.drop_first(), pat@, to@) == suffix.drop_first());
                    assert(suffix =~= seq![suffix[0]] + suffix.drop_first());
                }
                assert(out@ + replaced(suffix.drop_first(), pat@, to@) =~= before + replaced(
                    suffix,
                    pat@,
                    to@,
                ));
            }
            i += 1;
        }
    }
    if pat.len() == 0 {
        proof {
            assert(s@.subrange(n as int, n as int).len() == 0);
        }
        let ghost before = out@;
        extend_copy(&mut out, to);
        assert(out@ == before + replaced(s@.subrange(n as int, n as int), pat@, to@));
    } else {
        assert(out@ =~= out@ + replaced(s@.subrange(n as int, n as int), pat@, to@));
    }
    out
}

/// Unicode `White_Space`, the class that `char::is_whitespace` and `str::trim` go by.
pub open spec fn is_whitespace_char(c: char) -> bool {
    let u = c as u32;
    ||| 0x09 <= u <= 0x0D
    ||| u == 0x20
    ||| u == 0x85
    ||| u == 0xA0
    ||| u == 0x1680
    ||| 0x2000 <= u <= 0x200A
    ||| u == 0x2028
    ||| u == 0x2029
    ||| u == 0x202F
    ||| u == 0x205F
    ||| u == 0x3000
}

/// Whether `c` is white space.
pub fn is_whitespace(c: char) -> (r: bool)
    ensures
        r == is_whitespace_char(c),
{
    let u: u32 = c as u32;
    (0x09 <= u && u <= 0x0D) || u == 0x20 || u == 0x85 || u == 0xA0 || u == 0x1680 || (0x2000 <= u
        && u <= 0x200A) || u == 0x2028 || u == 0x2029 || u == 0x202F || u == 0x205F || u == 0x3000
}

/// `s` without its leading white space.
pub open spec fn trim_start_seq(s: Seq<char>) -> Seq<char>
    decreases s.len(),
{
    if s.len() > 0 && is_whitespace_char(s[0]) {
        trim_start_seq(s.drop_first())
    } else {
        s
    }
}

/// `s` without its trailing white space.
pub open spec fn trim_end_seq(s: Seq<char>) -> Seq<char>
    decreases s.len(),
{
    if s.len() > 0 && is_whitespace_char(s.last()) {
        trim_end_seq(s.drop_last())
    } else {
        s
    }
}

/// `s` without leading and trailing white space.
pub open spec fn trimmed(s: Seq<char>) -> Seq<char> {
    trim_end_seq(trim_start_seq(s))
}

/// Removes leading and trailing white space.
pub fn trim(s: &Vec<char>) -> (r: Vec<char>)
    ensures
        r@ == trimmed(s@),
{
    let n = s.len();
    let mut i: usize = 0;
    assert(s@.subrange(0, n as int) =~= s@);
    while i < n && is_whitespace(s[i])
        invariant
            i <= n,
            n == s.len(),
            trim_start_seq(s@) == trim_start_seq(s@.subrange(i as int, n as int)),
        decreases n - i,
    {
        assert(s@.subrange(i as int, n as int).drop_first() =~= s@.subrange(i + 1, n as int));
        i += 1;
    }
    assert(trim_start_seq(s@) == s@.subrange(i as int, n as int));
    let mut j: usize = n;
    while j > i && is_whitespace(s[j - 1])
        invariant
            i <= j <= n,
            n == s.len(),
            trimmed(s@) == trim_end_seq(s@.subrange(i as int, j as int)),
        decreases j - i,
    {
        assert(s@.subrange(i as int, j as int).drop_last() =~= s@.subrange(i as int, j - 1));
        j -= 1;
    }
    copy_range(s, i, j)
}

/// Whether `s` holds nothing but white space.
pub fn is_blank(s: &Vec<char>) -> (r: bool)
    ensures
        r == (trimmed(s@).len() == 0),
{
    trim(s).len() == 0
}

/// Names what `str::to_lowercase` returns for a string: its Unicode lower-case
/// form, which depends on the characters alone.
pub uninterp spec fn lowercased(s: Seq<char>) -> Seq<char>;

/// `str::to_lowercase`: the result is the lower-case form of the argument.
#[verifier::external_body]
pub(crate) fn str_to_lowercase(s: &str) -> (r: String)
    ensures
        r@ == lowercased(s@),
{
    s.to_lowercase()
}

/// The lower-case form of `s`.
pub fn to_lowercase(s: &Vec<char>) -> (r: Vec<char>)
    ensures
        r@ == lowercased(s@),
{
    let text = from_chars(s);
    let lower = str_to_lowercase(text.as_str());
    to_chars(lower.as_str())
}

/// The code of `c`, with the ASCII capitals mapped onto their small letters.
pub open spec fn ascii_folded(c: char) -> u32 {
    let u = c as u32;
    if 0x41 <= u <= 0x5A {
        (u + 32) as u32
    } else {
        u
    }
}

/// Two sequences are equal up to the case of their ASCII letters.
pub open spec fn eq_ignoring_ascii_case(a: Seq<char>, b: Seq<char>) -> bool {
    a.len() == b.len() && forall|i: int|
        0 <= i < a.len() ==> ascii_folded(#[trigger] a[i]) == ascii_folded(b[i])
}

fn fold_ascii(c: char) -> (r: u32)
    ensures
        r == ascii_folded(c),
{
    let u: u32 = c as u32;
    if 0x41 <= u && u <= 0x5A {
        u + 32
    } else {
        u
    }
}

/// Whether `a` and `b` are equal up to the case of their ASCII letters.
pub fn eq_ignore_ascii_case(a: &Vec<char>, b: &Vec<char>) -> (r: bool)
    ensures
        r == eq_ignoring_ascii_case(a@, b@),
{
    if a.len() != b.len() {
        return false;
    }
    let mut i: usize = 0;
    while i < a.len()
        invariant
            i <= a.len(),
            a.len() == b.len(),
            forall|j: int| 0 <= j < i ==> ascii_folded(#[trigger] a@[j]) == ascii_folded(b@[j]),
        decreases a.len() - i,
    {
        if fold_ascii(a[i]) != fold_ascii(b[i]) {
            return false;
        }
        i += 1;
    }
    true
}

/// The number of bytes that `c` takes in UTF-8.
pub open spec fn utf8_width(c: char) -> nat {
    let u = c as u32;
    if u < 0x80 {
        1
    } else if u < 0x800 {
        2
    } else if u < 0x10000 {
        3
    } else {
        4
    }
}

/// The number of bytes that `s` takes in UTF-8.
pub open spec fn utf8_len(s: Seq<char>) -> nat
    decreases s.len(),
{
    if s.len() == 0 {
        0
    } else {
        utf8_len(s.drop_last()) + utf8_width(s.last())
    }
}

/// Whether `s` takes at least `min` bytes in UTF-8.
pub fn utf8_len_at_least(s: &Vec<char>, min: usize) -> (r: bool)
    ensures
        r == (utf8_len(s@) >= min),
{
    if min == 0 {
        return true;
    }
    let mut total: usize = 0;
    let mut i: usize = 0;
    assert(s@.subrange(0, 0) =~= Seq::<char>::empty());
    while i < s.len()
        invariant
            i <= s.len(),
            total == utf8_len(s@.subrange(0, i as int)),
            total < min,
        decreases s.len() - i,
    {
        let u: u32 = s[i] as u32;
        let w: usize = if u < 0x80 {
            1
        } else if u < 0x800 {
            2
        } else if u < 0x10000 {
            3
        } else {
            4
        };
        proof {
            assert(s@.subrange(0, i + 1).drop_last() =~= s@.subrange(0, i as int));
            lemma_utf8_len_monotone(s@, i + 1);
        }
        if w >= min - total {
            return true;
        }
        total = total + w;
        i += 1;
    }
    assert(s@.subrange(0, s.len() as int) =~= s@);
    false
}

/// A prefix takes no more bytes than the whole.
pub proof fn lemma_utf8_len_monotone(s: Seq<char>, k: int)
    requires
        0 <= k <= s.len(),
    ensures
        utf8_len(s.subrange(0, k)) <= utf8_len(s),
    decreases s.len() - k,
{
    if k == s.len() {
        assert(s.subrange(0, k) =~= s);
    } else {
        lemma_utf8_len_monotone(s, k + 1);
        assert(s.subrange(0, k + 1).drop_last() =~= s.subrange(0, k));
    }
}

/// Whether `s` is exactly the text `lit`.
pub fn is_text(s: &Vec<char>, lit: &str) -> (r: bool)
    ensures
        r == (s@ == lit@),
{
    let other = to_chars(lit);
    chars_eq(s, &other)
}

/// `a` followed by `b`.
pub fn concat(a: &str, b: &str) -> (r: String)
    ensures
        r@ == a@ + b@,
{
    let mut out = to_chars(a);
    let tail = to_chars(b);
    extend_copy(&mut out, &tail);
    from_chars(&out)
}

/// `a`, `b` and `c` in a row.
pub fn concat3(a: &str, b: &str, c: &str) -> (r: String)
    ensures
        r@ == a@ + b@ + c@,
{
    let ab = concat(a, b);
    concat(ab.as_str(), c)
}

/// A copy of `s`.
pub fn copy_str(s: &str) -> (r: String)
    ensures
        r@ == s@,
{
    let v = to_chars(s);
    from_chars(&v)
}

/// Where the last line of `body` starts: behind its last line feed, or at 0.
pub open spec fn line_start(body: Seq<char>) -> int
    decreases body.len(),
{
    if body.len() == 0 {
        0
    } else if body.last() == '\n' {
        body.len() as int
    } else {
        line_start(body.drop_last())
    }
}

/// The last line of `s`, as `str::lines` gives it: lines end in a line feed,
/// the final one need not; a line's ending (a line feed, and a carriage
/// return before it) does not belong to it. `None` for the empty text.
pub open spec fn last_line_of(s: Seq<char>) -> Option<Seq<char>> {
    if s.len() == 0 {
        None
    } else {
        let ended = s.last() == '\n';
        let body = if ended {
            s.drop_last()
        } else {
            s
        };
        let line = body.subrange(line_start(body), body.len() as int);
        if ended && line.len() > 0 && line.last() == '\r' {
            Some(line.drop_last())
        } else {
            Some(line)
        }
    }
}

/// The last line of `s`.
pub fn last_line(s: &Vec<char>) -> (r: Option<Vec<char>>)
    ensures
        match r {
            Some(line) => last_line_of(s@) == Some(line@),
            None => last_line_of(s@) is None,
        },
{
    let n = s.len();
    if n == 0 {
        return None;
    }
    let ended = s[n - 1] == '\n';
    let end: usize = if ended {
        n - 1
    } else {
        n
    };
    let ghost body = s@.subrange(0, end as int);
    assert(body =~= if ended {
        s@.drop_last()
    } else {
        s@
    });
    let mut start: usize = end;
    while start > 0 && s[start - 1] != '\n'
        invariant
            start <= end <= n,
            n == s.len(),
            body == s@.subrange(0, end as int),
            line_start(body) == line_start(s@.subrange(0, start as int)),
        decreases start,
    {
        assert(s@.subrange(0, start as int).drop_last() =~= s@.subrange(0, start - 1));
        start -= 1;
    }
    assert(body.subrange(start as int, end as int) =~= s@.subrange(start as int, end as int));
    if ended && end > start && s[end - 1] == '\r' {
        assert(s@.subrange(start as int, end as int).drop_last() =~= s@.subrange(
            start as int,
            end - 1,
        ));
        Some(copy_range(s, start, end - 1))
    } else {
        Some(copy_range(s, start, end))
    }
}

/// Whether two texts are the same.
pub fn str_eq(a: &str, b: &str) -> (r: bool)
    ensures
        r == (a@ == b@),
{
    let x = to_chars(a);
    let y = to_chars(b);
    chars_eq(&x, &y)
}

/// Whether `s` holds nothing but white space.
pub fn str_is_blank(s: &str) -> (r: bool)
    ensures
        r == (trimmed(s@).len() == 0),
{
    let chars = to_chars(s);
    is_blank(&chars)
}

/// `s` without leading and trailing white space.
pub fn str_trim(s: &str) -> (r: String)
    ensures
        r@ == trimmed(s@),
{
    let chars = to_chars(s);
    let t = trim(&chars);
    from_chars(&t)
}

/// The first index at or after `from` whose item meets `pred`, if any.
pub open spec fn first_from<T>(s: Seq<T>, pred: spec_fn(T) -> bool, from: int) -> Option<int>
    decreases s.len() - from + 1,
{
    if from < 0 || from >= s.len() {
        None
    } else if pred(s[from]) {
        Some(from)
    } else {
        first_from(s, pred, from + 1)
    }
}

/// The texts of a list of character vectors.
pub open spec fn views(v: Seq<Vec<char>>) -> Seq<Seq<char>> {
    Seq::new(v.len(), |i: int| v[i]@)
}

/// The pieces of `s` from `start` on, split at the occurrences of `pat`
/// found from `pos` on, scanning from the left: occurrences do not overlap.
pub open spec fn split_from(s: Seq<char>, pat: Seq<char>, start: int, pos: int) -> Seq<Seq<char>>
    decreases s.len() - pos + 1,
{
    if pat.len() == 0 || pos < 0 || pos + pat.len() > s.len() {
        seq![s.subrange(start, s.len() as int)]
    } else if occurs_at(s, pos, pat) {
        seq![s.subrange(start, pos)] + split_from(s, pat, pos + pat.len(), pos + pat.len())
    } else {
        split_from(s, pat, start, pos + 1)
    }
}

/// Each character of `s` as a piece of its own.
pub open spec fn singletons(s: Seq<char>) -> Seq<Seq<char>> {
    Seq::new(s.len(), |i: int| seq![s[i]])
}

/// The pieces that `s` falls into when cut at each occurrence of `pat`, as
/// `str::split` gives them: between two occurrences in a row, and at an
/// occurrence at either end, lies an empty piece. The empty pattern occurs
/// before each character and at the end.
pub open spec fn split_seq(s: Seq<char>, pat: Seq<char>) -> Seq<Seq<char>> {
    if pat.len() == 0 {
        seq![Seq::<char>::empty()] + singletons(s) + seq![Seq::<char>::empty()]
    } else {
        split_from(s, pat, 0, 0)
    }
}

/// Cuts `s` at each occurrence of `pat`.
pub fn split(s: &Vec<char>, pat: &Vec<char>) -> (r: Vec<Vec<char>>)
    ensures
        views(r@) == split_seq(s@, pat@),
        r@.len() >= 1,
{
    let n = s.len();
    let mut out: Vec<Vec<char>> = Vec::new();
    if pat.len() == 0 {
        out.push(Vec::new());
        let mut i: usize = 0;
        while i < n
            invariant
                i <= n,
                n == s.len(),
                out@.len() == i + 1,
                out@[0]@ == Seq::<char>::empty(),
                forall|j: int| 0 <= j < i ==> (#[trigger] out@[j + 1])@ == seq![s@[j]],
            decreases n - i,
        {
            let mut piece: Vec<char> = Vec::new();
            piece.push(s[i]);
            assert(piece@ =~= seq![s@[i as int]]);
            out.push(piece);
            i += 1;
        }
        out.push(Vec::new());
        assert(views(out@) =~= split_seq(s@, pat@)) by {
            assert forall|k: int| 0 <= k < views(out@).len() implies views(out@)[k] == split_seq(
                s@,
                pat@,
            )[k] by {
                if 0 < k <= n {
                    assert(out@[(k - 1) + 1]@ == seq![s@[k - 1]]);
                }
            }
        }
        return out;
    }
    let mut start: usize = 0;
    let mut pos: usize = 0;
    assert(views(out@) + split_from(s@, pat@, 0, 0) =~= split_seq(s@, pat@));
    while pos <= n && pat.len() <= n - pos
        invariant
            start <= pos,
            start <= n,
            n == s.len(),
            pat.len() > 0,
            views(out@) + split_from(s@, pat@, start as int, pos as int) == split_seq(
                s@,
                pat@,
            ),
        decreases n + 1 - pos,
    {
        if matches_at(s, pos, pat) {
            let ghost before = views(out@);
            out.push(copy_range(s, start, pos));
            assert(views(out@) =~= before + seq![s@.subrange(start as int, pos as int)]);
            pos = pos + pat.len();
            start = pos;
            assert(views(out@) + split_from(s@, pat@, start as int, pos as int) =~= split_seq(
                s@,
                pat@,
            ));
        } else {
            pos = pos + 1;
        }
    }
    let ghost before = views(out@);
    out.push(copy_range(s, start, n));
    assert(views(out@) =~= before + seq![s@.subrange(start as int, n as int)]);
    out
}

/// Cuts `s` at each occurrence of the character `sep`.
pub fn split_char(s: &Vec<char>, sep: char) -> (r: Vec<Vec<char>>)
    ensures
        views(r@) == split_seq(s@, seq![sep]),
        r@.len() >= 1,
{
    let mut pat: Vec<char> = Vec::new();
    pat.push(sep);
    assert(pat@ =~= seq![sep]);
    split(s, &pat)
}

/// Whether `s` ends with `pat`.
pub open spec fn ends_with_seq(s: Seq<char>, pat: Seq<char>) -> bool {
    s.len() >= pat.len() && s.subrange(s.len() - pat.len(), s.len() as int) == pat
}

/// `s` without any number of `pat` at its end.
pub open spec fn trim_end_matches_seq(s: Seq<char>, pat: Seq<char>) -> Seq<char>
    decreases s.len(),
{
    if pat.len() > 0 && ends_with_seq(s, pat) {
        trim_end_matches_seq(s.subrange(0, s.len() - pat.len()), pat)
    } else {
        s
    }
}

/// `s` without any number of `pat` at its start.
pub open spec fn trim_start_matches_seq(s: Seq<char>, pat: Seq<char>) -> Seq<char>
    decreases s.len(),
{
    if pat.len() > 0 && occurs_at(s, 0, pat) {
        trim_start_matches_seq(s.subrange(pat.len() as int, s.len() as int), pat)
    } else {
        s
    }
}

/// Removes every `pat` from the end of `s`.
pub fn trim_end_matches(s: &Vec<char>, pat: &Vec<char>) -> (r: Vec<char>)
    ensures
        r@ == trim_end_matches_seq(s@, pat@),
{
    let p = pat.len();
    let mut end: usize = s.len();
    assert(s@.subrange(0, end as int) =~= s@);
    if p == 0 {
        return copy_range(s, 0, end);
    }
    while end >= p && matches_at(s, end - p, pat)
        invariant
            end <= s.len(),
            p == pat.len(),
            p > 0,
            trim_end_matches_seq(s@, pat@) == trim_end_matches_seq(
                s@.subrange(0, end as int),
                pat@,
            ),
        decreases end,
    {
        proof {
            let cur = s@.subrange(0, end as int);
            assert(cur.subrange(cur.len() - p, cur.len() as int) =~= s@.subrange(
                end - p,
                end as int,
            ));
            assert(cur.subrange(0, cur.len() - p) =~= s@.subrange(0, end - p));
        }
        end = end - p;
    }
    proof {
        let cur = s@.subrange(0, end as int);
        if end >= p {
            assert(cur.subrange(cur.len() - p, cur.len() as int) =~= s@.subrange(
                end - p,
                end as int,
            ));
        }
    }
    copy_range(s, 0, end)
}

/// Removes every `pat` from the start of `s`.
pub fn trim_start_matches(s: &Vec<char>, pat: &Vec<char>) -> (r: Vec<char>)
    ensures
        r@ == trim_start_matches_seq(s@, pat@),
{
    let p = pat.len();
    let n = s.len();
    let mut start: usize = 0;
    assert(s@.subrange(0, n as int) =~= s@);
    if p == 0 {
        return copy_range(s, 0, n);
    }
    while matches_at(s, start, pat)
        invariant
            start <= n,
            n == s.len(),
            p == pat.len(),
            p > 0,
            trim_start_matches_seq(s@, pat@) == trim_start_matches_seq(
                s@.subrange(start as int, n as int),
                pat@,
            ),
        decreases n - start,
    {
        proof {
            let cur = s@.subrange(start as int, n as int);
            assert(cur.subrange(0, p as int) =~= s@.subrange(start as int, start + p));
            assert(cur.subrange(p as int, cur.len() as int) =~= s@.subrange(start + p, n as int));
        }
        start = start + p;
    }
    proof {
        let cur = s@.subrange(start as int, n as int);
        if start + p <= n {
            assert(cur.subrange(0, p as int) =~= s@.subrange(start as int, start + p));
        }
    }
    copy_range(s, start, n)
}

/// The last position of the character `c` in `s`, if it occurs.
pub open spec fn last_index_of(s: Seq<char>, c: char) -> Option<int>
    decreases s.len(),
{
    if s.len() == 0 {
        None
    } else if s.last() == c {
        Some(s.len() - 1)
    } else {
        last_index_of(s.drop_last(), c)
    }
}

/// The last position of the character `c` in `s`.
pub fn rfind_char(s: &Vec<char>, c: char) -> (r: Option<usize>)
    ensures
        match r {
            Some(i) => last_index_of(s@, c) == Some(i as int) && i < s.len() && s@[i as int] == c,
            None => last_index_of(s@, c) is None,
        },
{
    let mut end: usize = s.len();
    assert(s@.subrange(0, end as int) =~= s@);
    while end > 0
        invariant
            end <= s.len(),
            last_index_of(s@, c) == last_index_of(s@.subrange(0, end as int), c),
        decreases end,
    {
        if s[end - 1] == c {
            return Some(end - 1);
        }
        assert(s@.subrange(0, end as int).drop_last() =~= s@.subrange(0, end - 1));
        end = end - 1;
    }
    None
}

/// The first position of the character `c` in `s`.
pub fn find_char(s: &Vec<char>, c: char) -> (r: Option<usize>)
    ensures
        match r {
            Some(i) => first_occurrence(s@, seq![c], 0) == Some(i as int) && i < s.len(),
            None => first_occurrence(s@, seq![c], 0) is None,
        },
{
    let mut pat: Vec<char> = Vec::new();
    pat.push(c);
    assert(pat@ =~= seq![c]);
    proof {
        lemma_first_occurrence(s@, seq![c], 0);
    }
    find(s, &pat)
}

/// `a` comes before `b`, or is the same, in the order of strings: the
/// first characters that differ decide, by their codes; a text comes before
/// each of its extensions.
pub open spec fn lex_le(a: Seq<char>, b: Seq<char>) -> bool
    decreases a.len(),
{
    if a.len() == 0 {
        true
    } else if b.len() == 0 {
        false
    } else if a[0] != b[0] {
        a[0] < b[0]
    } else {
        lex_le(a.drop_first(), b.drop_first())
    }
}

/// Of two texts, one comes before the other or they are the same.
pub proof fn lemma_lex_le_total(a: Seq<char>, b: Seq<char>)
    ensures
        lex_le(a, b) || lex_le(b, a),
    decreases a.len(),
{
    if a.len() > 0 && b.len() > 0 && a[0] == b[0] {
        lemma_lex_le_total(a.drop_first(), b.drop_first());
    }
}

/// The order of strings is transitive.
pub proof fn lemma_lex_le_transitive(a: Seq<char>, b: Seq<char>, c: Seq<char>)
    requires
        lex_le(a, b),
        lex_le(b, c),
    ensures
        lex_le(a, c),
    decreases a.len(),
{
    if a.len() > 0 && b.len() > 0 && c.len() > 0 && a[0] == b[0] && b[0] == c[0] {
        lemma_lex_le_transitive(a.drop_first(), b.drop_first(), c.drop_first());
    }
}

/// Whether `a` comes before `b`, or is the same, in the order of strings.
pub fn chars_le(a: &Vec<char>, b: &Vec<char>) -> (r: bool)
    ensures
        r == lex_le(a@, b@),
{
    let mut i: usize = 0;
    assert(a@.subrange(0, a.len() as int) =~= a@);
    assert(b@.subrange(0, b.len() as int) =~= b@);
    while i < a.len() && i < b.len()
        invariant
            i <= a.len(),
            i <= b.len(),
            lex_le(a@, b@) == lex_le(
                a@.subrange(i as int, a.len() as int),
                b@.subrange(i as int, b.len() as int),
            ),
        decreases a.len() - i,
    {
        let ghost x = a@.subrange(i as int, a.len() as int);
        let ghost y = b@.subrange(i as int, b.len() as int);
        if a[i] != b[i] {
            return a[i] < b[i];
        }
        assert(x.drop_first() =~= a@.subrange(i + 1, a.len() as int));
        assert(y.drop_first() =~= b@.subrange(i + 1, b.len() as int));
        i += 1;
    }
    i >= a.len()
}

} // verus!
