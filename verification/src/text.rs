//! Character-level text vocabulary: the specifications of the string
//! operations the library relies on (prefix, suffix, trimming, searching,
//! ASCII case folding, decimal rendering) and verified executable versions.

use vstd::prelude::*;

verus! {

// ------------------------------------------------------------------
// Specification vocabulary
// ------------------------------------------------------------------

/// `p` is a prefix of `s`.
pub open spec fn is_prefix_of(p: Seq<char>, s: Seq<char>) -> bool {
    p.len() <= s.len() && s.take(p.len() as int) == p
}

/// `p` is a suffix of `s`.
pub open spec fn is_suffix_of(p: Seq<char>, s: Seq<char>) -> bool {
    p.len() <= s.len() && s.skip(s.len() - p.len()) == p
}

/// `p` occurs in `s` starting at index `i`.
pub open spec fn occurs_at(s: Seq<char>, p: Seq<char>, i: int) -> bool {
    0 <= i && i + p.len() <= s.len() && s.subrange(i, i + p.len()) == p
}

/// `p` occurs somewhere in `s`.
pub open spec fn contains_seq(s: Seq<char>, p: Seq<char>) -> bool {
    exists|i: int| occurs_at(s, p, i)
}

/// `c` occurs in `s`.
pub open spec fn has_char(s: Seq<char>, c: char) -> bool {
    exists|i: int| 0 <= i < s.len() && s[i] == c
}

/// `s` with every trailing `c` removed (`str::trim_end_matches` with a char).
pub open spec fn trim_end_char(s: Seq<char>, c: char) -> Seq<char>
    decreases s.len(),
{
    if s.len() > 0 && s.last() == c {
        trim_end_char(s.drop_last(), c)
    } else {
        s
    }
}

/// `s` with every leading `c` removed (`str::trim_start_matches` with a char).
pub open spec fn trim_start_char(s: Seq<char>, c: char) -> Seq<char>
    decreases s.len(),
{
    if s.len() > 0 && s[0] == c {
        trim_start_char(s.drop_first(), c)
    } else {
        s
    }
}

/// `s` with every leading and trailing `c` removed (`str::trim_matches` with a char).
pub open spec fn trim_char(s: Seq<char>, c: char) -> Seq<char> {
    trim_start_char(trim_end_char(s, c), c)
}

/// `s` with every trailing copy of the non-empty pattern `p` removed
/// (`str::trim_end_matches` with a string pattern).
pub open spec fn trim_end_seq(s: Seq<char>, p: Seq<char>) -> Seq<char>
    decreases s.len(),
{
    if p.len() > 0 && is_suffix_of(p, s) {
        trim_end_seq(s.take(s.len() - p.len()), p)
    } else {
        s
    }
}

/// `str::strip_suffix`.
pub open spec fn strip_suffix(s: Seq<char>, p: Seq<char>) -> Option<Seq<char>> {
    if is_suffix_of(p, s) {
        Some(s.take(s.len() - p.len()))
    } else {
        None
    }
}

/// The Unicode `White_Space` property, as used by `char::is_whitespace`.
pub open spec fn is_white_space(c: char) -> bool {
    ||| c == '\t'
    ||| c == '\n'
    ||| c == '\u{0B}'
    ||| c == '\u{0C}'
    ||| c == '\r'
    ||| c == ' '
    ||| c == '\u{85}'
    ||| c == '\u{A0}'
    ||| c == '\u{1680}'
    ||| ('\u{2000}' <= c && c <= '\u{200A}')
    ||| c == '\u{2028}'
    ||| c == '\u{2029}'
    ||| c == '\u{202F}'
    ||| c == '\u{205F}'
    ||| c == '\u{3000}'
}

/// `s` without trailing whitespace.
pub open spec fn trim_end_ws(s: Seq<char>) -> Seq<char>
    decreases s.len(),
{
    if s.len() > 0 && is_white_space(s.last()) {
        trim_end_ws(s.drop_last())
    } else {
        s
    }
}

/// `s` without leading whitespace.
pub open spec fn trim_start_ws(s: Seq<char>) -> Seq<char>
    decreases s.len(),
{
    if s.len() > 0 && is_white_space(s[0]) {
        trim_start_ws(s.drop_first())
    } else {
        s
    }
}

/// `str::trim`.
pub open spec fn trim_ws(s: Seq<char>) -> Seq<char> {
    trim_start_ws(trim_end_ws(s))
}

/// `char::is_ascii_uppercase`.
pub open spec fn is_ascii_upper(c: char) -> bool {
    'A' <= c && c <= 'Z'
}

/// `char::is_ascii_alphanumeric`.
pub open spec fn is_ascii_alnum(c: char) -> bool {
    ('A' <= c && c <= 'Z') || ('a' <= c && c <= 'z') || ('0' <= c && c <= '9')
}

/// `char::to_ascii_lowercase`.
pub open spec fn ascii_lower_char(c: char) -> char {
    if is_ascii_upper(c) {
        ((c as u32) + 32) as char
    } else {
        c
    }
}

/// `str::to_ascii_lowercase`.
pub open spec fn ascii_lower(s: Seq<char>) -> Seq<char> {
    Seq::new(s.len(), |i: int| ascii_lower_char(s[i]))
}

/// The decimal digit for `d < 10`.
pub open spec fn digit_char(d: nat) -> char {
    ((d + 48) as u32) as char
}

/// The decimal rendering of a natural number (what `Display` prints).
pub open spec fn decimal(n: nat) -> Seq<char>
    decreases n,
{
    if n < 10 {
        seq![digit_char(n)]
    } else {
        decimal(n / 10).push(digit_char(n % 10))
    }
}

/// The decimal rendering of an integer, with a leading `-` when negative.
pub open spec fn signed_decimal(n: int) -> Seq<char> {
    if n < 0 {
        seq!['-'] + decimal((-n) as nat)
    } else {
        decimal(n as nat)
    }
}

/// `i` is the first index where `p` occurs in `s`.
pub open spec fn is_first_occurrence(s: Seq<char>, p: Seq<char>, i: int) -> bool {
    occurs_at(s, p, i) && forall|j: int| 0 <= j < i ==> !occurs_at(s, p, j)
}

/// The first index where `p` occurs in `s` (meaningful when `contains_seq(s, p)`).
pub open spec fn first_occurrence(s: Seq<char>, p: Seq<char>) -> int {
    choose|i: int| is_first_occurrence(s, p, i)
}

/// `s.split_once(p)`: the parts before and after the first occurrence of `p`.
pub open spec fn split_once(s: Seq<char>, p: Seq<char>) -> Option<(Seq<char>, Seq<char>)> {
    if contains_seq(s, p) {
        let i = first_occurrence(s, p);
        Some((s.take(i), s.skip(i + p.len())))
    } else {
        None
    }
}

/// The prefix of `s` before the first `c` (all of `s` when there is none):
/// `s.split(c).next()`.
pub open spec fn take_until_char(s: Seq<char>, c: char) -> Seq<char> {
    if has_char(s, c) {
        s.take(first_occurrence(s, seq![c]))
    } else {
        s
    }
}

// ------------------------------------------------------------------
// Lemmas
// ------------------------------------------------------------------

pub proof fn lemma_suffix_occurs(s: Seq<char>, p: Seq<char>)
    requires
        p.len() <= s.len(),
    ensures
        is_suffix_of(p, s) == occurs_at(s, p, s.len() - p.len()),
{
    assert(s.skip(s.len() - p.len()) =~= s.subrange(s.len() - p.len(), s.len() as int));
}

pub proof fn lemma_prefix_occurs(s: Seq<char>, p: Seq<char>)
    requires
        p.len() <= s.len(),
    ensures
        is_prefix_of(p, s) == occurs_at(s, p, 0),
{
    assert(s.take(p.len() as int) =~= s.subrange(0, p.len() as int));
}

pub proof fn lemma_first_occurrence_unique(s: Seq<char>, p: Seq<char>, i: int)
    requires
        is_first_occurrence(s, p, i),
    ensures
        contains_seq(s, p),
        first_occurrence(s, p) == i,
{
    let k = first_occurrence(s, p);
    assert(is_first_occurrence(s, p, k));
    if k < i {
        assert(!occurs_at(s, p, k));
    } else if i < k {
        assert(!occurs_at(s, p, i));
    }
}

pub proof fn lemma_char_occurs(s: Seq<char>, c: char, i: int)
    ensures
        occurs_at(s, seq![c], i) == (0 <= i < s.len() && s[i] == c),
{
    if 0 <= i < s.len() && s[i] == c {
        assert(s.subrange(i, i + 1) =~= seq![c]);
    }
    if occurs_at(s, seq![c], i) {
        assert(s.subrange(i, i + 1)[0] == s[i]);
    }
}

pub proof fn lemma_trim_end_char_shape(s: Seq<char>, c: char)
    ensures
        trim_end_char(s, c).len() <= s.len(),
        trim_end_char(s, c) == s.take(trim_end_char(s, c).len() as int),
        trim_end_char(s, c).len() > 0 ==> trim_end_char(s, c).last() != c,
        forall|i: int| trim_end_char(s, c).len() <= i < s.len() ==> s[i] == c,
    decreases s.len(),
{
    if s.len() > 0 && s.last() == c {
        lemma_trim_end_char_shape(s.drop_last(), c);
        let t = trim_end_char(s.drop_last(), c);
        assert(s.drop_last().take(t.len() as int) =~= s.take(t.len() as int));
        assert forall|i: int| t.len() <= i < s.len() implies s[i] == c by {
            if i < s.len() - 1 {
                assert(s.drop_last()[i] == s[i]);
            }
        }
    } else {
        assert(s.take(s.len() as int) =~= s);
    }
}

pub proof fn lemma_trim_start_char_shape(s: Seq<char>, c: char)
    ensures
        trim_start_char(s, c).len() <= s.len(),
        trim_start_char(s, c) == s.skip(s.len() - trim_start_char(s, c).len()),
        trim_start_char(s, c).len() > 0 ==> trim_start_char(s, c)[0] != c,
        forall|i: int| 0 <= i < s.len() - trim_start_char(s, c).len() ==> s[i] == c,
    decreases s.len(),
{
    if s.len() > 0 && s[0] == c {
        lemma_trim_start_char_shape(s.drop_first(), c);
        let t = trim_start_char(s.drop_first(), c);
        assert(s.drop_first().skip(s.drop_first().len() - t.len()) =~= s.skip(s.len() - t.len()));
        assert forall|i: int| 0 <= i < s.len() - t.len() implies s[i] == c by {
            if i > 0 {
                assert(s.drop_first()[i - 1] == s[i]);
            }
        }
    } else {
        assert(s.skip(0) =~= s);
    }
}

// ------------------------------------------------------------------
// Executable helpers
// ------------------------------------------------------------------

/// `String::push` (std, which vstd leaves without a specification): the
/// contract claims what its documentation says, that the character is
/// appended to the end of the string.
#[verifier::external_body]
pub(crate) fn push_char(s: &mut String, c: char)
    ensures
        final(s)@ == old(s)@.push(c),
{
    s.push(c);
}

/// The characters of `s`.
pub fn chars_of(s: &str) -> (r: Vec<char>)
    ensures
        r@ == s@,
{
    let mut v: Vec<char> = Vec::new();
    for c in it: s.chars()
        invariant
            v@ == it.seq().take(it.index() as int),
    {
        v.push(c);
    }
    v
}

/// A `String` holding exactly the characters `s`.
pub fn string_of(s: &[char]) -> (r: String)
    ensures
        r@ == s@,
{
    let mut out = String::new();
    let n = s.len();
    let mut i: usize = 0;
    while i < n
        invariant
            n == s@.len(),
            i <= n,
            out@ == s@.take(i as int),
        decreases n - i,
    {
        push_char(&mut out, s[i]);
        assert(s@.take(i as int).push(s@[i as int]) =~= s@.take(i + 1));
        i = i + 1;
    }
    assert(s@.take(n as int) =~= s@);
    out
}

/// The characters `s[lo..hi]`.
pub fn sub_chars(s: &[char], lo: usize, hi: usize) -> (r: Vec<char>)
    requires
        lo <= hi <= s@.len(),
    ensures
        r@ == s@.subrange(lo as int, hi as int),
{
    let mut out: Vec<char> = Vec::new();
    let mut i: usize = lo;
    while i < hi
        invariant
            lo <= i <= hi <= s@.len(),
            out@ == s@.subrange(lo as int, i as int),
        decreases hi - i,
    {
        out.push(s[i]);
        assert(s@.subrange(lo as int, i as int).push(s@[i as int]) =~= s@.subrange(
            lo as int,
            i + 1,
        ));
        i = i + 1;
    }
    out
}

/// Appends the characters of `src` to `dst`.
pub fn extend_chars(dst: &mut Vec<char>, src: &[char])
    ensures
        final(dst)@ == old(dst)@ + src@,
{
    let n = src.len();
    let mut i: usize = 0;
    while i < n
        invariant
            n == src@.len(),
            i <= n,
            dst@ == old(dst)@ + src@.take(i as int),
        decreases n - i,
    {
        dst.push(src[i]);
        assert(old(dst)@ + src@.take(i as int).push(src@[i as int]) =~= old(dst)@ + src@.take(
            i + 1,
        ));
        i = i + 1;
    }
    assert(src@.take(n as int) =~= src@);
}

/// Whether `p` occurs in `s` at index `i`.
pub fn occurs_at_exec(s: &[char], p: &[char], i: usize) -> (r: bool)
    ensures
        r == occurs_at(s@, p@, i as int),
{
    if i > s.len() || p.len() > s.len() - i {
        return false;
    }
    let n = p.len();
    let mut k: usize = 0;
    while k < n
        invariant
            n == p@.len(),
            i + n <= s.len(),
            k <= n,
            forall|j: int| 0 <= j < k ==> s@[i + j] == p@[j],
        decreases n - k,
    {
        if s[i + k] != p[k] {
            assert(s@.subrange(i as int, i + n)[k as int] != p@[k as int]);
            return false;
        }
        k = k + 1;
    }
    assert(s@.subrange(i as int, i + n) =~= p@);
    true
}

/// Whether the two character sequences are equal.
pub fn chars_eq(a: &[char], b: &[char]) -> (r: bool)
    ensures
        r == (a@ == b@),
{
    if a.len() != b.len() {
        return false;
    }
    let r = occurs_at_exec(a, b, 0);
    assert(a@.subrange(0, b@.len() as int) =~= a@);
    r
}

/// `str::starts_with`.
pub fn starts_with(s: &[char], p: &[char]) -> (r: bool)
    ensures
        r == is_prefix_of(p@, s@),
{
    if p.len() > s.len() {
        return false;
    }
    proof {
        lemma_prefix_occurs(s@, p@);
    }
    occurs_at_exec(s, p, 0)
}

/// `str::ends_with`.
pub fn ends_with(s: &[char], p: &[char]) -> (r: bool)
    ensures
        r == is_suffix_of(p@, s@),
{
    if p.len() > s.len() {
        return false;
    }
    proof {
        lemma_suffix_occurs(s@, p@);
    }
    occurs_at_exec(s, p, s.len() - p.len())
}

/// The first index at or after `from` where `p` occurs in `s`.
pub fn find_from(s: &[char], p: &[char], from: usize) -> (r: Option<usize>)
    ensures
        r matches Some(i) ==> from <= i && occurs_at(s@, p@, i as int) && forall|j: int|
            from <= j < i ==> !occurs_at(s@, p@, j),
        r is None ==> forall|j: int| from <= j ==> !occurs_at(s@, p@, j),
{
    let n = s.len();
    let mut i: usize = from;
    loop
        invariant
            n == s@.len(),
            from <= i,
            forall|j: int| from <= j < i ==> !occurs_at(s@, p@, j),
        decreases n + 1 - i,
    {
        if i > n {
            return None;
        }
        if occurs_at_exec(s, p, i) {
            return Some(i);
        }
        if i == n {
            return None;
        }
        i = i + 1;
    }
}

/// Whether `p` occurs in `s` (`str::contains`).
pub fn contains(s: &[char], p: &[char]) -> (r: bool)
    ensures
        r == contains_seq(s@, p@),
{
    match find_from(s, p, 0) {
        Some(i) => {
            assert(occurs_at(s@, p@, i as int));
            true
        },
        None => false,
    }
}

/// The first index of `c` in `s`.
pub fn find_char(s: &[char], c: char) -> (r: Option<usize>)
    ensures
        r matches Some(i) ==> i < s@.len() && s@[i as int] == c && forall|j: int|
            0 <= j < i ==> s@[j] != c,
        r is None ==> !has_char(s@, c),
{
    let n = s.len();
    let mut i: usize = 0;
    while i < n
        invariant
            n == s@.len(),
            i <= n,
            forall|j: int| 0 <= j < i ==> s@[j] != c,
        decreases n - i,
    {
        if s[i] == c {
            return Some(i);
        }
        i = i + 1;
    }
    None
}

/// `s.split_once(p)` as the index of the first occurrence.
pub fn split_once_idx(s: &[char], p: &[char]) -> (r: Option<usize>)
    ensures
        r matches Some(i) ==> contains_seq(s@, p@) && first_occurrence(s@, p@) == i && i + p@.len() <= s@.len(),
        r is None ==> !contains_seq(s@, p@),
{
    match find_from(s, p, 0) {
        Some(i) => {
            proof {
                lemma_first_occurrence_unique(s@, p@, i as int);
            }
            Some(i)
        },
        None => None,
    }
}

/// `s.split(c).next()`, as characters.
pub fn take_until_char_vec(s: &[char], c: char) -> (r: Vec<char>)
    ensures
        r@ == take_until_char(s@, c),
{
    match find_char(s, c) {
        Some(i) => {
            proof {
                lemma_char_occurs(s@, c, i as int);
                assert forall|j: int| 0 <= j < i implies !occurs_at(s@, seq![c], j) by {
                    lemma_char_occurs(s@, c, j);
                }
                lemma_first_occurrence_unique(s@, seq![c], i as int);
            }
            let r = sub_chars(s, 0, i);
            assert(s@.subrange(0, i as int) =~= s@.take(i as int));
            r
        },
        None => {
            let n = s.len();
            let r = sub_chars(s, 0, n);
            assert(s@.subrange(0, n as int) =~= s@);
            r
        },
    }
}

/// The last index of `c` in `s`.
pub fn rfind_char(s: &[char], c: char) -> (r: Option<usize>)
    ensures
        r matches Some(i) ==> i < s@.len() && s@[i as int] == c && forall|j: int|
            i < j < s@.len() ==> s@[j] != c,
        r is None ==> !has_char(s@, c),
{
    let mut i: usize = s.len();
    while i > 0
        invariant
            i <= s@.len(),
            forall|j: int| i <= j < s@.len() ==> s@[j] != c,
        decreases i,
    {
        if s[i - 1] == c {
            return Some(i - 1);
        }
        i = i - 1;
    }
    None
}

/// The length of `trim_end_char(s, c)`.
pub fn trim_end_char_len(s: &[char], c: char) -> (r: usize)
    ensures
        r <= s@.len(),
        s@.take(r as int) == trim_end_char(s@, c),
{
    let mut k: usize = s.len();
    assert(s@.take(k as int) =~= s@);
    while k > 0 && s[k - 1] == c
        invariant
            k <= s@.len(),
            trim_end_char(s@.take(k as int), c) == trim_end_char(s@, c),
        decreases k,
    {
        assert(s@.take(k as int).drop_last() =~= s@.take(k - 1));
        k = k - 1;
    }
    k
}

/// The index where `trim_start_char(s, c)` begins.
pub fn trim_start_char_idx(s: &[char], c: char) -> (r: usize)
    ensures
        r <= s@.len(),
        s@.skip(r as int) == trim_start_char(s@, c),
{
    let n = s.len();
    let mut k: usize = 0;
    assert(s@.skip(0) =~= s@);
    while k < n && s[k] == c
        invariant
            n == s@.len(),
            k <= n,
            trim_start_char(s@.skip(k as int), c) == trim_start_char(s@, c),
        decreases n - k,
    {
        assert(s@.skip(k as int).drop_first() =~= s@.skip(k + 1));
        k = k + 1;
    }
    k
}

/// `s.trim_end_matches(c)`.
pub fn trim_end_char_vec(s: &[char], c: char) -> (r: Vec<char>)
    ensures
        r@ == trim_end_char(s@, c),
{
    let k = trim_end_char_len(s, c);
    sub_chars(s, 0, k)
}

/// `s.trim_matches(c)`.
pub fn trim_char_vec(s: &[char], c: char) -> (r: Vec<char>)
    ensures
        r@ == trim_char(s@, c),
{
    let t = trim_end_char_vec(s, c);
    let k = trim_start_char_idx(&t, c);
    let r = sub_chars(&t, k, t.len());
    assert(t@.subrange(k as int, t@.len() as int) =~= t@.skip(k as int));
    r
}

/// `s.trim_end_matches(p)` for a non-empty pattern `p`.
pub fn trim_end_seq_vec(s: &[char], p: &[char]) -> (r: Vec<char>)
    requires
        p@.len() > 0,
    ensures
        r@ == trim_end_seq(s@, p@),
{
    let mut k: usize = s.len();
    let mut cur: Vec<char> = sub_chars(s, 0, k);
    assert(s@.subrange(0, k as int) =~= s@);
    while ends_with(&cur, p)
        invariant
            p@.len() > 0,
            cur@.len() <= s@.len(),
            trim_end_seq(cur@, p@) == trim_end_seq(s@, p@),
        decreases cur@.len(),
    {
        let m = cur.len() - p.len();
        let next = sub_chars(&cur, 0, m);
        assert(cur@.subrange(0, m as int) =~= cur@.take(cur@.len() - p@.len()));
        cur = next;
    }
    cur
}

/// `str::trim_end` (Unicode whitespace).
pub fn trim_end_ws_len(s: &[char]) -> (r: usize)
    ensures
        r <= s@.len(),
        s@.take(r as int) == trim_end_ws(s@),
{
    let mut k: usize = s.len();
    assert(s@.take(k as int) =~= s@);
    while k > 0 && is_white_space_exec(s[k - 1])
        invariant
            k <= s@.len(),
            trim_end_ws(s@.take(k as int)) == trim_end_ws(s@),
        decreases k,
    {
        assert(s@.take(k as int).drop_last() =~= s@.take(k - 1));
        k = k - 1;
    }
    k
}

/// `str::trim` (Unicode whitespace).
pub fn trim_ws_vec(s: &[char]) -> (r: Vec<char>)
    ensures
        r@ == trim_ws(s@),
{
    let k = trim_end_ws_len(s);
    let t = sub_chars(s, 0, k);
    let n = t.len();
    let mut i: usize = 0;
    assert(t@.skip(0) =~= t@);
    while i < n && is_white_space_exec(t[i])
        invariant
            n == t@.len(),
            i <= n,
            trim_start_ws(t@.skip(i as int)) == trim_start_ws(t@),
        decreases n - i,
    {
        assert(t@.skip(i as int).drop_first() =~= t@.skip(i + 1));
        i = i + 1;
    }
    let r = sub_chars(&t, i, n);
    assert(t@.subrange(i as int, n as int) =~= t@.skip(i as int));
    r
}

/// `char::is_whitespace`.
pub fn is_white_space_exec(c: char) -> (r: bool)
    ensures
        r == is_white_space(c),
{
    c == '\t' || c == '\n' || c == '\u{0B}' || c == '\u{0C}' || c == '\r' || c == ' ' || c
        == '\u{85}' || c == '\u{A0}' || c == '\u{1680}' || ('\u{2000}' <= c && c <= '\u{200A}')
        || c == '\u{2028}' || c == '\u{2029}' || c == '\u{202F}' || c == '\u{205F}' || c
        == '\u{3000}'
}

/// `char::is_ascii_alphanumeric`.
pub fn is_ascii_alnum_exec(c: char) -> (r: bool)
    ensures
        r == is_ascii_alnum(c),
{
    ('A' <= c && c <= 'Z') || ('a' <= c && c <= 'z') || ('0' <= c && c <= '9')
}

/// `char::to_ascii_lowercase`.
pub fn ascii_lower_char_exec(c: char) -> (r: char)
    ensures
        r == ascii_lower_char(c),
{
    if 'A' <= c && c <= 'Z' {
        ((c as u8) + 32) as char
    } else {
        c
    }
}

/// `str::to_ascii_lowercase`.
pub fn ascii_lower_vec(s: &[char]) -> (r: Vec<char>)
    ensures
        r@ == ascii_lower(s@),
{
    let mut out: Vec<char> = Vec::new();
    let n = s.len();
    let mut i: usize = 0;
    while i < n
        invariant
            n == s@.len(),
            i <= n,
            out@ =~= ascii_lower(s@.take(i as int)),
        decreases n - i,
    {
        out.push(ascii_lower_char_exec(s[i]));
        i = i + 1;
    }
    assert(s@.take(n as int) =~= s@);
    out
}

/// Appends the decimal rendering of `n`.
pub fn push_decimal(out: &mut Vec<char>, n: u64)
    ensures
        final(out)@ == old(out)@ + decimal(n as nat),
    decreases n,
{
    if n >= 10 {
        push_decimal(out, n / 10);
    }
    let d: u64 = n % 10;
    let c: char = ((d as u8) + 48) as char;
    out.push(c);
    proof {
        if n >= 10 {
            assert(decimal(n as nat) == decimal((n / 10) as nat).push(digit_char((n % 10) as nat)));
        }
    }
    assert(out@ =~= old(out)@ + decimal(n as nat));
}

/// Appends the decimal rendering of the signed `n`.
pub fn push_signed_decimal(out: &mut Vec<char>, n: i64)
    ensures
        final(out)@ == old(out)@ + signed_decimal(n as int),
{
    if n < 0 {
        out.push('-');
        let m: u64 = (-(n as i128)) as u64;
        push_decimal(out, m);
        assert(out@ =~= old(out)@ + signed_decimal(n as int));
    } else {
        push_decimal(out, n as u64);
    }
}

} // verus!
