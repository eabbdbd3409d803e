//! Whitespace, trimming and word splitting on text, as `char::is_whitespace`,
//! `str::trim` and `str::splitn(2, char::is_whitespace)` define them.

use vstd::prelude::*;

verus! {

/// Whether `c` has the Unicode `White_Space` property.
pub open spec fn is_whitespace(c: char) -> bool {
    let u = c as u32;
    ||| 0x9 <= u <= 0xD
    ||| u == 0x20
    ||| u == 0x85
    ||| u == 0xA0
    ||| u == 0x1680
    ||| 0x2000 <= u <= 0x200A
    ||| u == 0x2028
    ||| u == 0x2029
    ||| u == 0x202F
    ||| u == 0x205F
    ||| u == 0x3000
}

/// First index at or after `i` that does not hold whitespace, or the
/// length of `s`.
pub open spec fn skip_whitespace(s: Seq<char>, i: int) -> int
    decreases s.len() - i,
{
    if 0 <= i < s.len() && is_whitespace(s[i]) {
        skip_whitespace(s, i + 1)
    } else {
        i
    }
}

/// Smallest index `k <= j` such that `s[k..j]` is all whitespace.
pub open spec fn trailing_whitespace_start(s: Seq<char>, j: int) -> int
    decreases j,
{
    if 0 < j <= s.len() && is_whitespace(s[j - 1]) {
        trailing_whitespace_start(s, j - 1)
    } else {
        j
    }
}

/// `s` without its leading and trailing whitespace.
pub open spec fn spec_trim(s: Seq<char>) -> Seq<char> {
    let a = skip_whitespace(s, 0);
    let b = trailing_whitespace_start(s, s.len() as int);
    if a < b {
        s.subrange(a, b)
    } else {
        Seq::empty()
    }
}

/// First index at or after `i` that holds whitespace, or the length of `s`.
pub open spec fn word_end(s: Seq<char>, i: int) -> int
    decreases s.len() - i,
{
    if 0 <= i < s.len() && !is_whitespace(s[i]) {
        word_end(s, i + 1)
    } else {
        i
    }
}

/// The text of `s` before its first whitespace character.
pub open spec fn first_word(s: Seq<char>) -> Seq<char> {
    s.subrange(0, word_end(s, 0))
}

/// The text of `s` after its first whitespace character, if it has one.
pub open spec fn after_first_word(s: Seq<char>) -> Option<Seq<char>> {
    let k = word_end(s, 0);
    if k < s.len() {
        Some(s.subrange(k + 1, s.len() as int))
    } else {
        None
    }
}

proof fn lemma_skip_whitespace_bounds(s: Seq<char>, i: int)
    requires
        0 <= i <= s.len(),
    ensures
        i <= skip_whitespace(s, i) <= s.len(),
        forall|k: int| i <= k < skip_whitespace(s, i) ==> is_whitespace(#[trigger] s[k]),
        skip_whitespace(s, i) < s.len() ==> !is_whitespace(s[skip_whitespace(s, i)]),
    decreases s.len() - i,
{
    if i < s.len() && is_whitespace(s[i]) {
        lemma_skip_whitespace_bounds(s, i + 1);
    }
}

proof fn lemma_trailing_whitespace_bounds(s: Seq<char>, j: int)
    requires
        0 <= j <= s.len(),
    ensures
        0 <= trailing_whitespace_start(s, j) <= j,
        forall|k: int|
            trailing_whitespace_start(s, j) <= k < j ==> is_whitespace(#[trigger] s[k]),
        trailing_whitespace_start(s, j) > 0 ==> !is_whitespace(
            s[trailing_whitespace_start(s, j) - 1],
        ),
    decreases j,
{
    if 0 < j && is_whitespace(s[j - 1]) {
        lemma_trailing_whitespace_bounds(s, j - 1);
    }
}

/// Whether `c` is whitespace, as `char::is_whitespace` tells.
pub fn char_is_whitespace(c: char) -> (b: bool)
    ensures
        b == is_whitespace(c),
{
    let u = c as u32;
    (0x9 <= u && u <= 0xD) || u == 0x20 || u == 0x85 || u == 0xA0 || u == 0x1680 || (0x2000 <= u
        && u <= 0x200A) || u == 0x2028 || u == 0x2029 || u == 0x202F || u == 0x205F || u == 0x3000
}

/// `s` without leading and trailing whitespace, as `str::trim` returns it.
pub fn trim(s: &str) -> (r: &str)
    ensures
        r@ == spec_trim(s@),
{
    let n = s.unicode_len();
    let mut a: usize = 0;
    while a < n && char_is_whitespace(s.get_char(a))
        invariant
            n == s@.len(),
            a <= n,
            skip_whitespace(s@, a as int) == skip_whitespace(s@, 0),
        decreases n - a,
    {
        a = a + 1;
    }
    let mut b: usize = n;
    while b > 0 && char_is_whitespace(s.get_char(b - 1))
        invariant
            n == s@.len(),
            b <= n,
            trailing_whitespace_start(s@, b as int) == trailing_whitespace_start(s@, n as int),
        decreases b,
    {
        b = b - 1;
    }
    if a < b {
        s.substring_char(a, b)
    } else {
        let e = s.substring_char(0, 0);
        assert(e@ =~= Seq::<char>::empty());
        e
    }
}

/// The first piece of `s` cut at its first whitespace character, and the
/// piece after that character if there is one: the two items that
/// `s.splitn(2, char::is_whitespace)` yields.
pub fn split_first_word(s: &str) -> (r: (&str, Option<&str>))
    ensures
        r.0@ == first_word(s@),
        r.1 matches Some(rest) ==> after_first_word(s@) == Some(rest@),
        r.1 is None ==> after_first_word(s@) is None,
{
    let n = s.unicode_len();
    let mut k: usize = 0;
    while k < n && !char_is_whitespace(s.get_char(k))
        invariant
            n == s@.len(),
            k <= n,
            word_end(s@, k as int) == word_end(s@, 0),
        decreases n - k,
    {
        k = k + 1;
    }
    let first = s.substring_char(0, k);
    if k < n {
        (first, Some(s.substring_char(k + 1, n)))
    } else {
        (first, None)
    }
}

/// The trimmed text holds no whitespace at either end, and it is the
/// part of the original text between the removed whitespace.
pub proof fn lemma_trim_shape(s: Seq<char>)
    ensures
        spec_trim(s).len() > 0 ==> !is_whitespace(spec_trim(s)[0]) && !is_whitespace(
            spec_trim(s).last(),
        ),
        spec_trim(s).len() == 0 <==> forall|k: int| 0 <= k < s.len() ==> is_whitespace(
            #[trigger] s[k],
        ),
        skip_whitespace(s, 0) + spec_trim(s).len() <= s.len(),
        s.subrange(skip_whitespace(s, 0), skip_whitespace(s, 0) + spec_trim(s).len())
            == spec_trim(s),
{
    lemma_skip_whitespace_bounds(s, 0);
    lemma_trailing_whitespace_bounds(s, s.len() as int);
    let a = skip_whitespace(s, 0);
    let b = trailing_whitespace_start(s, s.len() as int);
    if a < b {
        assert(spec_trim(s)[0] == s[a]);
        assert(spec_trim(s).last() == s[b - 1]);
        assert(!is_whitespace(s[a]));
        assert(s.subrange(a, a + spec_trim(s).len()) == spec_trim(s));
    } else {
        assert(s.subrange(a, a) =~= spec_trim(s));
        if a < s.len() {
            assert(!is_whitespace(s[a]));
            assert(a >= b);
            assert(is_whitespace(s[a]));
        }
    }
}

/// Trimming twice changes nothing more.
pub proof fn lemma_trim_idempotent(s: Seq<char>)
    ensures
        spec_trim(spec_trim(s)) == spec_trim(s),
{
    lemma_trim_shape(s);
    let t = spec_trim(s);
    if t.len() > 0 {
        assert(skip_whitespace(t, 0) == 0);
        assert(trailing_whitespace_start(t, t.len() as int) == t.len());
        assert(t.subrange(0, t.len() as int) =~= t);
    } else {
        assert(spec_trim(t) =~= t);
    }
}

/// Whether `p` stands in `s` as a run of consecutive characters.
pub open spec fn is_piece(s: Seq<char>, p: Seq<char>) -> bool {
    exists|i: int, j: int| 0 <= i <= j <= s.len() && #[trigger] s.subrange(i, j) == p
}

/// A piece of a piece of `s` is a piece of `s`.
pub proof fn lemma_piece_of_piece(s: Seq<char>, p: Seq<char>, q: Seq<char>)
    requires
        is_piece(s, p),
        is_piece(p, q),
    ensures
        is_piece(s, q),
{
    let (i, j) = choose|i: int, j: int| 0 <= i <= j <= s.len() && #[trigger] s.subrange(i, j) == p;
    let (x, y) = choose|x: int, y: int| 0 <= x <= y <= p.len() && #[trigger] p.subrange(x, y) == q;
    assert(s.subrange(i + x, i + y) =~= q);
}

/// Every run of consecutive characters of `s` is a piece of it, and so
/// is the empty text.
pub proof fn lemma_subrange_is_piece(s: Seq<char>, i: int, j: int)
    requires
        0 <= i <= j <= s.len(),
    ensures
        is_piece(s, s.subrange(i, j)),
        is_piece(s, Seq::empty()),
{
    assert(s.subrange(0, 0) =~= Seq::<char>::empty());
}

/// Trimming keeps a piece of the text, character for character.
pub proof fn lemma_trim_is_piece(s: Seq<char>)
    ensures
        is_piece(s, spec_trim(s)),
{
    lemma_trim_shape(s);
    lemma_skip_whitespace_bounds(s, 0);
    lemma_subrange_is_piece(s, skip_whitespace(s, 0), skip_whitespace(s, 0) + spec_trim(s).len());
}

proof fn lemma_word_end_bounds(s: Seq<char>, i: int)
    requires
        0 <= i <= s.len(),
    ensures
        i <= word_end(s, i) <= s.len(),
        forall|k: int| i <= k < word_end(s, i) ==> !is_whitespace(#[trigger] s[k]),
        word_end(s, i) < s.len() ==> is_whitespace(s[word_end(s, i)]),
    decreases s.len() - i,
{
    if i < s.len() && !is_whitespace(s[i]) {
        lemma_word_end_bounds(s, i + 1);
    }
}

/// The first word of `s` is the text of `s` up to its first whitespace
/// character, as typed: it starts `s`, holds no whitespace, and is
/// followed by whitespace or the end; the text after that whitespace is
/// the rest of `s`, as typed.
pub proof fn lemma_first_word_shape(s: Seq<char>)
    ensures
        first_word(s).len() <= s.len(),
        first_word(s) == s.subrange(0, first_word(s).len() as int),
        forall|k: int| 0 <= k < first_word(s).len() ==> !is_whitespace(#[trigger] first_word(s)[k]),
        first_word(s).len() < s.len() ==> is_whitespace(s[first_word(s).len() as int]),
        after_first_word(s) matches Some(r) ==> r == s.subrange(
            (first_word(s).len() + 1) as int,
            s.len() as int,
        ),
        after_first_word(s) is None <==> first_word(s).len() == s.len(),
        is_piece(s, first_word(s)),
        after_first_word(s) matches Some(r) ==> is_piece(s, r),
{
    lemma_word_end_bounds(s, 0);
    let k = word_end(s, 0);
    assert(first_word(s).len() == k);
    assert forall|m: int| 0 <= m < first_word(s).len() implies !is_whitespace(
        #[trigger] first_word(s)[m],
    ) by {
        assert(first_word(s)[m] == s[m]);
    }
    lemma_subrange_is_piece(s, 0, k);
    if k < s.len() {
        lemma_subrange_is_piece(s, k + 1, s.len() as int);
    }
}

} // verus!
