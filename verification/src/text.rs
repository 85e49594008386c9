//! Verified helpers on characters, words and strings: word counting for the
//! token estimator, joining fragments with newlines, and the prefix / trim
//! operations that the stream framing needs.

use vstd::arithmetic::div_mod::lemma_div_is_ordered;
use vstd::prelude::*;

verus! {

// ---------------------------------------------------------------------------
// Characters and words
// ---------------------------------------------------------------------------

/// The characters treated as word separators and as trimmable space: the
/// Unicode White_Space set, the same set that `str::trim` and
/// `str::split_whitespace` go by.
pub open spec fn is_space_char(c: char) -> bool {
    let u = c as u32;
    ||| (0x09 <= u && u <= 0x0d)
    ||| u == 0x20
    ||| u == 0x85
    ||| u == 0xa0
    ||| u == 0x1680
    ||| (0x2000 <= u && u <= 0x200a)
    ||| u == 0x2028
    ||| u == 0x2029
    ||| u == 0x202f
    ||| u == 0x205f
    ||| u == 0x3000
}

/// True when a word (a maximal run of non-space characters) starts at
/// index `i` of `s`.
pub open spec fn word_starts_at(s: Seq<char>, i: int) -> bool {
    0 <= i < s.len() && !is_space_char(s[i]) && (i == 0 || is_space_char(s[i - 1]))
}

/// How many words start strictly before index `n` of `s`.
pub open spec fn words_upto(s: Seq<char>, n: int) -> nat
    decreases n,
{
    if n <= 0 {
        0
    } else {
        words_upto(s, n - 1) + if word_starts_at(s, n - 1) {
            1nat
        } else {
            0nat
        }
    }
}

/// The number of words (maximal runs of non-space characters) in `s`.
pub open spec fn word_count(s: Seq<char>) -> nat {
    words_upto(s, s.len() as int)
}

pub fn is_space(c: char) -> (r: bool)
    ensures
        r == is_space_char(c),
{
    let u = c as u32;
    (0x09 <= u && u <= 0x0d) || u == 0x20 || u == 0x85 || u == 0xa0 || u == 0x1680 || (0x2000 <= u
        && u <= 0x200a) || u == 0x2028 || u == 0x2029 || u == 0x202f || u == 0x205f || u == 0x3000
}

/// The word count never decreases as the scanned prefix grows.
pub proof fn lemma_words_upto_monotone(s: Seq<char>, m: int, n: int)
    requires
        m <= n,
    ensures
        words_upto(s, m) <= words_upto(s, n),
    decreases n - m,
{
    if m < n {
        lemma_words_upto_monotone(s, m, n - 1);
    }
}

/// Up to the prefix's length, a prefix has the same word starts as the
/// whole string.
pub proof fn lemma_words_upto_prefix(p: Seq<char>, s: Seq<char>, n: int)
    requires
        p.is_prefix_of(s),
        n <= p.len(),
    ensures
        words_upto(p, n) == words_upto(s, n),
    decreases n,
{
    if n > 0 {
        lemma_words_upto_prefix(p, s, n - 1);
        assert(p =~= s.subrange(0, p.len() as int));
        assert(p[n - 1] == s[n - 1]);
        if n - 1 > 0 {
            assert(p[n - 2] == s[n - 2]);
        }
    }
}

// ---------------------------------------------------------------------------
// The token estimate for one text
// ---------------------------------------------------------------------------

/// The token estimate for a text: the average of a character-based guess
/// (a quarter of the character count) and a word-based guess (thirteen
/// tenths of the word count), rounded up.  Equivalently, with `c`
/// characters and `w` words, the ceiling of `(5c + 26w) / 40`.
pub open spec fn text_tokens(s: Seq<char>) -> nat {
    (5 * s.len() + 26 * word_count(s) + 39) / 40
}

/// A text's estimate never exceeds the estimate of any extension of it.
pub proof fn lemma_text_tokens_prefix(p: Seq<char>, s: Seq<char>)
    requires
        p.is_prefix_of(s),
    ensures
        text_tokens(p) <= text_tokens(s),
{
    lemma_words_upto_prefix(p, s, p.len() as int);
    lemma_words_upto_monotone(s, p.len() as int, s.len() as int);
    lemma_div_is_ordered(
        (5 * p.len() + 26 * word_count(p) + 39) as int,
        (5 * s.len() + 26 * word_count(s) + 39) as int,
        40,
    );
}

// ---------------------------------------------------------------------------
// Joining fragments with newlines
// ---------------------------------------------------------------------------

/// `parts` joined with a single newline between consecutive parts.
pub open spec fn join_nl(parts: Seq<Seq<char>>) -> Seq<char>
    decreases parts.len(),
{
    if parts.len() == 0 {
        Seq::empty()
    } else if parts.len() == 1 {
        parts[0]
    } else {
        join_nl(parts.drop_last()) + seq!['\n'] + parts.last()
    }
}

pub fn join_lines(parts: &Vec<String>) -> (r: String)
    ensures
        r@ == join_nl(parts.deep_view()),
{
    let mut r = String::new();
    let n = parts.len();
    let mut i: usize = 0;
    while i < n
        invariant
            i <= n,
            n == parts.len(),
            r@ == join_nl(parts.deep_view().take(i as int)),
        decreases n - i,
    {
        if i > 0 {
            r.append("\n");
        }
        r.append(parts[i].as_str());
        proof {
            let dv = parts.deep_view();
            assert(dv.take(i as int + 1).drop_last() =~= dv.take(i as int));
            assert(dv.take(i as int + 1).last() == dv[i as int]);
            assert(dv[i as int] == parts@[i as int]@);
            reveal_strlit("\n");
            assert("\n"@ =~= seq!['\n']);
            if i == 0 {
                assert(join_nl(dv.take(1)) == dv.take(1)[0]);
                assert(r@ =~= dv.take(1)[0]);
            }
        }
        i = i + 1;
    }
    proof {
        assert(parts.deep_view().take(n as int) =~= parts.deep_view());
    }
    r
}

// ---------------------------------------------------------------------------
// Prefixes, trimming and equality of strings
// ---------------------------------------------------------------------------

pub fn str_has_prefix(s: &str, p: &str) -> (r: bool)
    ensures
        r == p@.is_prefix_of(s@),
{
    let sl = s.unicode_len();
    let pl = p.unicode_len();
    if pl > sl {
        return false;
    }
    let mut i: usize = 0;
    while i < pl
        invariant
            i <= pl,
            pl <= sl,
            pl == p@.len(),
            sl == s@.len(),
            forall|j: int| 0 <= j < i ==> s@[j] == p@[j],
        decreases pl - i,
    {
        if s.get_char(i) != p.get_char(i) {
            proof {
                assert(s@.subrange(0, pl as int)[i as int] == s@[i as int]);
            }
            return false;
        }
        i = i + 1;
    }
    proof {
        assert(p@ =~= s@.subrange(0, pl as int));
    }
    true
}

pub fn str_eq(a: &str, b: &str) -> (r: bool)
    ensures
        r == (a@ == b@),
{
    let al = a.unicode_len();
    let bl = b.unicode_len();
    if al != bl {
        return false;
    }
    let mut i: usize = 0;
    while i < al
        invariant
            i <= al,
            al == a@.len(),
            bl == b@.len(),
            al == bl,
            forall|j: int| 0 <= j < i ==> a@[j] == b@[j],
        decreases al - i,
    {
        if a.get_char(i) != b.get_char(i) {
            return false;
        }
        i = i + 1;
    }
    proof {
        assert(a@ =~= b@);
    }
    true
}

/// `s` with every leading repetition of `p` removed.
pub open spec fn strip_prefix_rep(s: Seq<char>, p: Seq<char>) -> Seq<char>
    decreases s.len(),
{
    if p.len() > 0 && p.is_prefix_of(s) {
        strip_prefix_rep(s.skip(p.len() as int), p)
    } else {
        s
    }
}

pub fn strip_prefix_loop<'a>(s: &'a str, p: &str) -> (r: &'a str)
    requires
        p@.len() > 0,
    ensures
        r@ == strip_prefix_rep(s@, p@),
{
    let pl = p.unicode_len();
    let mut cur: &str = s;
    while str_has_prefix(cur, p)
        invariant
            pl == p@.len(),
            pl > 0,
            strip_prefix_rep(cur@, p@) == strip_prefix_rep(s@, p@),
        decreases cur@.len(),
    {
        let cl = cur.unicode_len();
        cur = cur.substring_char(pl, cl);
    }
    cur
}

/// `s` with leading space characters removed.
pub open spec fn trim_front(s: Seq<char>) -> Seq<char>
    decreases s.len(),
{
    if s.len() > 0 && is_space_char(s[0]) {
        trim_front(s.skip(1))
    } else {
        s
    }
}

/// `s` with trailing space characters removed.
pub open spec fn trim_back(s: Seq<char>) -> Seq<char>
    decreases s.len(),
{
    if s.len() > 0 && is_space_char(s[s.len() - 1]) {
        trim_back(s.drop_last())
    } else {
        s
    }
}

/// `s` with space characters removed from both ends.
pub open spec fn trim_spaces(s: Seq<char>) -> Seq<char> {
    trim_back(trim_front(s))
}

proof fn lemma_trim_front_is_skip(s: Seq<char>, a: int)
    requires
        0 <= a <= s.len(),
        forall|j: int| 0 <= j < a ==> is_space_char(s[j]),
        a < s.len() ==> !is_space_char(s[a]),
    ensures
        trim_front(s) == s.skip(a),
    decreases a,
{
    if a == 0 {
        assert(s.skip(0) =~= s);
    } else {
        let t = s.skip(1);
        lemma_trim_front_is_skip(t, a - 1);
        assert(t.skip(a - 1) =~= s.skip(a));
    }
}

proof fn lemma_trim_back_is_take(t: Seq<char>, m: int)
    requires
        0 <= m <= t.len(),
        forall|j: int| m <= j < t.len() ==> is_space_char(t[j]),
        m > 0 ==> !is_space_char(t[m - 1]),
    ensures
        trim_back(t) == t.take(m),
    decreases t.len(),
{
    if m == t.len() {
        assert(t.take(m) =~= t);
    } else {
        let u = t.drop_last();
        lemma_trim_back_is_take(u, m);
        assert(u.take(m) =~= t.take(m));
    }
}

pub fn trim_str<'a>(s: &'a str) -> (r: &'a str)
    ensures
        r@ == trim_spaces(s@),
{
    let n = s.unicode_len();
    let mut a: usize = 0;
    while a < n && is_space(s.get_char(a))
        invariant
            a <= n,
            n == s@.len(),
            forall|j: int| 0 <= j < a ==> is_space_char(s@[j]),
        decreases n - a,
    {
        a = a + 1;
    }
    let mut b: usize = n;
    while b > a && is_space(s.get_char(b - 1))
        invariant
            a <= b <= n,
            n == s@.len(),
            forall|j: int| b <= j < n ==> is_space_char(s@[j]),
        decreases b,
    {
        b = b - 1;
    }
    let r = s.substring_char(a, b);
    proof {
        lemma_trim_front_is_skip(s@, a as int);
        let t = s@.skip(a as int);
        assert(forall|j: int|
            b - a <= j < t.len() ==> is_space_char(#[trigger] t[j]));
        lemma_trim_back_is_take(t, b as int - a as int);
        assert(t.take(b as int - a as int) =~= s@.subrange(a as int, b as int));
    }
    r
}

// ---------------------------------------------------------------------------
// Cloning helpers that keep spec equality
// ---------------------------------------------------------------------------

pub fn clone_opt_string(o: &Option<String>) -> (r: Option<String>)
    ensures
        r == *o,
{
    match o {
        Option::Some(s) => Option::Some(s.clone()),
        Option::None => Option::None,
    }
}

pub fn clone_string_vec(v: &Vec<String>) -> (r: Vec<String>)
    ensures
        r@ == v@,
{
    let mut r: Vec<String> = Vec::new();
    let n = v.len();
    let mut i: usize = 0;
    while i < n
        invariant
            i <= n,
            n == v.len(),
            r@ =~= v@.take(i as int),
        decreases n - i,
    {
        r.push(v[i].clone());
        i = i + 1;
    }
    proof {
        assert(v@.take(n as int) =~= v@);
    }
    r
}

} // verus!
