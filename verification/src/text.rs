//! Character-level text operations, specified over `Seq<char>`.
//!
//! Each operation mirrors the std method that it stands for (`str::lines`,
//! `str::trim`, `str::split_whitespace`, `str::contains`, `str::strip_prefix`,
//! `str::replace`) and is proved against a spec function that states its
//! result directly.

use vstd::prelude::*;

verus! {

broadcast use vstd::string::group_string_axioms;

/// `String::push` from std: appends one character.
#[verifier::external_body]
pub(crate) fn push_char(s: &mut String, c: char)
    ensures
        final(s)@ == old(s)@.push(c),
{
    s.push(c);
}

/// The characters of `s`, in order.
pub fn chars_of(s: &str) -> (v: Vec<char>)
    ensures
        v@ == s@,
{
    let mut v: Vec<char> = Vec::new();
    for c in it: s.chars()
        invariant
            v@ == it.seq().take(it.index() as int),
            it.seq() == s@,
    {
        v.push(c);
    }
    v
}

/// A `String` holding `v[lo..hi]`.
pub fn string_from(v: &Vec<char>, lo: usize, hi: usize) -> (s: String)
    requires
        lo <= hi <= v.len(),
    ensures
        s@ == v@.subrange(lo as int, hi as int),
{
    let mut s = String::new();
    let mut i = lo;
    while i < hi
        invariant
            lo <= i <= hi <= v.len(),
            s@ == v@.subrange(lo as int, i as int),
        decreases hi - i,
    {
        push_char(&mut s, v[i]);
        i = i + 1;
    }
    s
}

/// A `String` holding all of `v`.
pub fn string_of(v: &Vec<char>) -> (s: String)
    ensures
        s@ == v@,
{
    let s = string_from(v, 0, v.len());
    assert(v@.subrange(0, v@.len() as int) =~= v@);
    s
}

/// `a` followed by `b`.
pub fn concat(a: &str, b: &str) -> (s: String)
    ensures
        s@ == a@ + b@,
{
    let mut s = a.to_owned();
    s.append(b);
    s
}

/// Appends all of `src` to `dst`.
pub fn push_all(dst: &mut Vec<char>, src: &Vec<char>)
    ensures
        final(dst)@ == old(dst)@ + src@,
{
    let mut i: usize = 0;
    while i < src.len()
        invariant
            i <= src.len(),
            dst@ == old(dst)@ + src@.take(i as int),
        decreases src.len() - i,
    {
        assert(src@.take(i + 1) =~= src@.take(i as int).push(src@[i as int]));
        dst.push(src[i]);
        i = i + 1;
    }
    assert(src@.take(src@.len() as int) =~= src@);
}

// ─── Whitespace ─────────────────────────────────────────────────────────

/// `char::is_whitespace`: the characters with the Unicode property
/// `White_Space`.
pub open spec fn is_white(c: char) -> bool {
    ||| '\u{9}' <= c <= '\u{d}'
    ||| c == ' '
    ||| c == '\u{85}'
    ||| c == '\u{a0}'
    ||| c == '\u{1680}'
    ||| '\u{2000}' <= c <= '\u{200a}'
    ||| c == '\u{2028}'
    ||| c == '\u{2029}'
    ||| c == '\u{202f}'
    ||| c == '\u{205f}'
    ||| c == '\u{3000}'
}

pub fn is_white_char(c: char) -> (b: bool)
    ensures
        b == is_white(c),
{
    ('\u{9}' <= c && c <= '\u{d}') || c == ' ' || c == '\u{85}' || c == '\u{a0}' || c == '\u{1680}'
        || ('\u{2000}' <= c && c <= '\u{200a}') || c == '\u{2028}' || c == '\u{2029}'
        || c == '\u{202f}' || c == '\u{205f}' || c == '\u{3000}'
}

/// `s` without its leading white space.
pub open spec fn trim_start(s: Seq<char>) -> Seq<char>
    decreases s.len(),
{
    if s.len() > 0 && is_white(s[0]) {
        trim_start(s.drop_first())
    } else {
        s
    }
}

/// `s` without its trailing white space.
pub open spec fn trim_end(s: Seq<char>) -> Seq<char>
    decreases s.len(),
{
    if s.len() > 0 && is_white(s.last()) {
        trim_end(s.drop_last())
    } else {
        s
    }
}

/// `str::trim`: `s` without leading and trailing white space.
pub open spec fn trim(s: Seq<char>) -> Seq<char> {
    trim_end(trim_start(s))
}

proof fn lemma_trim_start_skip(s: Seq<char>, i: int)
    requires
        0 <= i < s.len(),
        is_white(s[i]),
    ensures
        trim_start(s.skip(i)) == trim_start(s.skip(i + 1)),
{
    assert(s.skip(i).drop_first() =~= s.skip(i + 1));
}

proof fn lemma_trim_end_take(s: Seq<char>, j: int)
    requires
        0 < j <= s.len(),
        is_white(s[j - 1]),
    ensures
        trim_end(s.take(j)) == trim_end(s.take(j - 1)),
{
    assert(s.take(j).drop_last() =~= s.take(j - 1));
}

/// Bounds `lo..hi` such that `v[lo..hi]` is the trimmed text.
pub fn trim_bounds(v: &Vec<char>) -> (r: (usize, usize))
    ensures
        r.0 <= r.1 <= v.len(),
        v@.subrange(r.0 as int, r.1 as int) == trim(v@),
{
    let n = v.len();
    let mut lo: usize = 0;
    assert(v@.skip(0) =~= v@);
    while lo < n && is_white_char(v[lo])
        invariant
            lo <= n == v.len(),
            trim_start(v@) == trim_start(v@.skip(lo as int)),
        decreases n - lo,
    {
        proof {
            lemma_trim_start_skip(v@, lo as int);
        }
        lo = lo + 1;
    }
    let ghost t = v@.skip(lo as int);
    assert(trim_start(v@) == t) by {
        if t.len() > 0 {
            assert(t[0] == v@[lo as int]);
        }
    }
    let mut hi: usize = n;
    assert(t.take(t.len() as int) =~= t);
    while hi > lo && is_white_char(v[hi - 1])
        invariant
            lo <= hi <= n == v.len(),
            t == v@.skip(lo as int),
            trim_end(t) == trim_end(t.take(hi - lo)),
        decreases hi,
    {
        proof {
            lemma_trim_end_take(t, hi - lo);
        }
        hi = hi - 1;
    }
    assert(t.take(hi - lo) =~= v@.subrange(lo as int, hi as int));
    assert(trim_end(t.take(hi - lo)) == t.take(hi - lo)) by {
        if hi - lo > 0 {
            assert(t.take(hi - lo).last() == v@[hi - 1]);
        }
    }
    (lo, hi)
}

/// The character sequences held by a sequence of vectors.
pub open spec fn seqs_of(v: Seq<Vec<char>>) -> Seq<Seq<char>> {
    v.map_values(|l: Vec<char>| l@)
}

// ─── Lines ──────────────────────────────────────────────────────────────

/// A line that ended in `"\r\n"` loses its `'\r'`.
pub open spec fn strip_cr(line: Seq<char>) -> Seq<char> {
    if line.len() > 0 && line.last() == '\r' {
        line.drop_last()
    } else {
        line
    }
}

/// Reads `s` from the left: the finished lines and the line being read.
pub open spec fn line_scan(s: Seq<char>) -> (Seq<Seq<char>>, Seq<char>)
    decreases s.len(),
{
    if s.len() == 0 {
        (seq![], seq![])
    } else {
        let (done, cur) = line_scan(s.drop_last());
        if s.last() == '\n' {
            (done.push(strip_cr(cur)), seq![])
        } else {
            (done, cur.push(s.last()))
        }
    }
}

/// `str::lines`: the text split at `'\n'`, each line without its
/// `"\n"` or `"\r\n"`, and no empty line after a final `'\n'`.
pub open spec fn lines(s: Seq<char>) -> Seq<Seq<char>> {
    let (done, cur) = line_scan(s);
    if cur.len() > 0 {
        done.push(cur)
    } else {
        done
    }
}

pub fn split_lines(v: &Vec<char>) -> (r: Vec<Vec<char>>)
    ensures
        seqs_of(r@) == lines(v@),
{
    let mut done: Vec<Vec<char>> = Vec::new();
    let mut cur: Vec<char> = Vec::new();
    let mut i: usize = 0;
    assert(v@.take(0) =~= Seq::<char>::empty());
    assert(seqs_of(done@) =~= Seq::<Seq<char>>::empty());
    while i < v.len()
        invariant
            i <= v.len(),
            (seqs_of(done@), cur@) == line_scan(v@.take(i as int)),
        decreases v.len() - i,
    {
        assert(v@.take(i + 1).drop_last() =~= v@.take(i as int));
        let c = v[i];
        if c == '\n' {
            if cur.len() > 0 && cur[cur.len() - 1] == '\r' {
                cur.pop();
            }
            let ghost before = seqs_of(done@);
            done.push(cur);
            assert(seqs_of(done@) =~= before.push(cur@));
            cur = Vec::new();
        } else {
            cur.push(c);
        }
        i = i + 1;
    }
    assert(v@.take(v.len() as int) =~= v@);
    if cur.len() > 0 {
        let ghost before = seqs_of(done@);
        let ghost last = cur@;
        done.push(cur);
        assert(seqs_of(done@) =~= before.push(last));
    }
    done
}

// ─── Words ──────────────────────────────────────────────────────────────

/// Reads `s` from the left: the finished words and the word being read.
pub open spec fn word_scan(s: Seq<char>) -> (Seq<Seq<char>>, Seq<char>)
    decreases s.len(),
{
    if s.len() == 0 {
        (seq![], seq![])
    } else {
        let (done, cur) = word_scan(s.drop_last());
        if is_white(s.last()) {
            if cur.len() > 0 {
                (done.push(cur), seq![])
            } else {
                (done, cur)
            }
        } else {
            (done, cur.push(s.last()))
        }
    }
}

/// `str::split_whitespace`: the maximal runs of characters that are not
/// white space, in order.
pub open spec fn words(s: Seq<char>) -> Seq<Seq<char>> {
    let (done, cur) = word_scan(s);
    if cur.len() > 0 {
        done.push(cur)
    } else {
        done
    }
}

pub fn split_words(v: &Vec<char>, lo: usize, hi: usize) -> (r: Vec<Vec<char>>)
    requires
        lo <= hi <= v.len(),
    ensures
        seqs_of(r@) == words(v@.subrange(lo as int, hi as int)),
{
    let ghost s = v@.subrange(lo as int, hi as int);
    let mut done: Vec<Vec<char>> = Vec::new();
    let mut cur: Vec<char> = Vec::new();
    let mut i: usize = lo;
    assert(s.take(0) =~= Seq::<char>::empty());
    assert(seqs_of(done@) =~= Seq::<Seq<char>>::empty());
    while i < hi
        invariant
            lo <= i <= hi <= v.len(),
            s == v@.subrange(lo as int, hi as int),
            (seqs_of(done@), cur@) == word_scan(s.take(i - lo)),
        decreases hi - i,
    {
        assert(s.take(i + 1 - lo).drop_last() =~= s.take(i - lo));
        assert(s.take(i + 1 - lo).last() == v@[i as int]);
        let c = v[i];
        if is_white_char(c) {
            if cur.len() > 0 {
                let ghost before = seqs_of(done@);
                done.push(cur);
                assert(seqs_of(done@) =~= before.push(cur@));
                cur = Vec::new();
            }
        } else {
            cur.push(c);
        }
        i = i + 1;
    }
    assert(s.take(hi - lo) =~= s);
    if cur.len() > 0 {
        let ghost before = seqs_of(done@);
        let ghost last = cur@;
        done.push(cur);
        assert(seqs_of(done@) =~= before.push(last));
    }
    done
}

/// `w` holds no white space.
pub open spec fn no_white(w: Seq<char>) -> bool {
    forall|k: int| 0 <= k < w.len() ==> !is_white(#[trigger] w[k])
}

proof fn lemma_word_scan(s: Seq<char>)
    ensures
        forall|i: int|
            0 <= i < word_scan(s).0.len() ==> (#[trigger] word_scan(s).0[i]).len() > 0 && no_white(
                word_scan(s).0[i],
            ),
        no_white(word_scan(s).1),
    decreases s.len(),
{
    if s.len() > 0 {
        lemma_word_scan(s.drop_last());
        let (done, cur) = word_scan(s.drop_last());
        if !is_white(s.last()) {
            assert forall|k: int| 0 <= k < cur.push(s.last()).len() implies !is_white(
                #[trigger] cur.push(s.last())[k],
            ) by {
                if k < cur.len() {
                    assert(cur.push(s.last())[k] == cur[k]);
                }
            }
        }
    }
}

/// Every word is a non-empty run without white space.
pub proof fn law_words_are_words(s: Seq<char>)
    ensures
        forall|i: int|
            0 <= i < words(s).len() ==> (#[trigger] words(s)[i]).len() > 0 && no_white(words(s)[i]),
{
    lemma_word_scan(s);
}

// ─── Search ─────────────────────────────────────────────────────────────

/// `needle` occurs in `hay` starting at index `i`.
pub open spec fn occurs_at(hay: Seq<char>, needle: Seq<char>, i: int) -> bool {
    0 <= i && i + needle.len() <= hay.len() && hay.subrange(i, i + needle.len()) == needle
}

/// `str::contains` with a string pattern.
pub open spec fn contains(hay: Seq<char>, needle: Seq<char>) -> bool {
    exists|i: int| occurs_at(hay, needle, i)
}

/// `str::starts_with` with a string pattern.
pub open spec fn starts_with(s: Seq<char>, prefix: Seq<char>) -> bool {
    occurs_at(s, prefix, 0)
}

pub fn matches_at(hay: &Vec<char>, needle: &Vec<char>, i: usize) -> (b: bool)
    ensures
        b == occurs_at(hay@, needle@, i as int),
{
    if i > hay.len() || needle.len() > hay.len() - i {
        return false;
    }
    let mut k: usize = 0;
    while k < needle.len()
        invariant
            i + needle.len() <= hay.len(),
            k <= needle.len(),
            forall|j: int| 0 <= j < k ==> hay@[i + j] == needle@[j],
        decreases needle.len() - k,
    {
        if hay[i + k] != needle[k] {
            assert(hay@.subrange(i as int, i + needle.len())[k as int] != needle@[k as int]);
            return false;
        }
        k = k + 1;
    }
    assert(hay@.subrange(i as int, i + needle.len()) =~= needle@);
    true
}

pub fn contains_chars(hay: &Vec<char>, needle: &Vec<char>) -> (b: bool)
    ensures
        b == contains(hay@, needle@),
{
    let mut i: usize = 0;
    while i < hay.len()
        invariant
            i <= hay.len(),
            forall|j: int| 0 <= j < i ==> !occurs_at(hay@, needle@, j),
        decreases hay.len() - i,
    {
        if matches_at(hay, needle, i) {
            return true;
        }
        i = i + 1;
    }
    if matches_at(hay, needle, i) {
        return true;
    }
    assert forall|j: int| !occurs_at(hay@, needle@, j) by {
        if 0 <= j && j + needle@.len() <= hay@.len() {
            assert(j <= i);
        }
    }
    false
}

/// `str::contains` on `&str`s.
pub fn str_contains(hay: &str, needle: &str) -> (b: bool)
    ensures
        b == contains(hay@, needle@),
{
    let h = chars_of(hay);
    let n = chars_of(needle);
    contains_chars(&h, &n)
}

/// Whether two texts are equal.
pub fn same_text(a: &str, b: &str) -> (r: bool)
    ensures
        r == (a@ == b@),
{
    let x = chars_of(a);
    let y = chars_of(b);
    if x.len() != y.len() {
        return false;
    }
    let r = matches_at(&x, &y, 0);
    assert(x@.subrange(0, y@.len() as int) =~= x@);
    r
}

// ─── Replacement ────────────────────────────────────────────────────────

/// `str::replace`: every occurrence of `pat`, read from the left and without
/// overlap, replaced by `rep`.
pub open spec fn replaced(s: Seq<char>, pat: Seq<char>, rep: Seq<char>) -> Seq<char>
    decreases s.len(),
{
    if s.len() == 0 {
        s
    } else if pat.len() > 0 && occurs_at(s, pat, 0) {
        rep + replaced(s.skip(pat.len() as int), pat, rep)
    } else {
        seq![s[0]] + replaced(s.drop_first(), pat, rep)
    }
}

/// `s` does not hold `c`.
pub open spec fn free_of(s: Seq<char>, c: char) -> bool {
    forall|k: int| 0 <= k < s.len() ==> s[k] != c
}

/// A text without the first character of the pattern is left as it is.
pub proof fn lemma_replaced_untouched(s: Seq<char>, pat: Seq<char>, rep: Seq<char>)
    requires
        pat.len() > 0,
        free_of(s, pat[0]),
    ensures
        replaced(s, pat, rep) == s,
    decreases s.len(),
{
    if s.len() > 0 {
        if pat.len() <= s.len() {
            assert(s.subrange(0, pat.len() as int)[0] == s[0]);
        }
        lemma_replaced_untouched(s.drop_first(), pat, rep);
        assert(seq![s[0]] + s.drop_first() =~= s);
    }
}

/// A prefix without the first character of the pattern is kept, and the
/// rest is replaced on its own.
pub proof fn lemma_replaced_prefix(a: Seq<char>, t: Seq<char>, pat: Seq<char>, rep: Seq<char>)
    requires
        pat.len() > 0,
        free_of(a, pat[0]),
    ensures
        replaced(a + t, pat, rep) == a + replaced(t, pat, rep),
    decreases a.len(),
{
    if a.len() == 0 {
        assert(a + t =~= t);
        assert(a + replaced(t, pat, rep) =~= replaced(t, pat, rep));
    } else {
        let s = a + t;
        assert(s[0] == a[0]);
        if pat.len() <= s.len() {
            assert(s.subrange(0, pat.len() as int)[0] == s[0]);
        }
        assert(s.drop_first() =~= a.drop_first() + t);
        lemma_replaced_prefix(a.drop_first(), t, pat, rep);
        assert(seq![a[0]] + (a.drop_first() + replaced(t, pat, rep)) =~= a + replaced(
            t,
            pat,
            rep,
        ));
    }
}

/// One reference `e` between two texts: the prefix is kept, `e` becomes
/// `rep` if it is the pattern and stays otherwise, and the rest is replaced
/// on its own.
pub proof fn lemma_replaced_around(
    a: Seq<char>,
    e: Seq<char>,
    b: Seq<char>,
    pat: Seq<char>,
    rep: Seq<char>,
)
    requires
        pat.len() > 0,
        e.len() == pat.len(),
        e[0] == pat[0],
        free_of(a, pat[0]),
        free_of(e.drop_first(), pat[0]),
    ensures
        replaced(a + e + b, pat, rep) == a + (if e == pat {
            rep
        } else {
            e
        }) + replaced(b, pat, rep),
{
    assert(a + e + b =~= a + (e + b));
    lemma_replaced_prefix(a, e + b, pat, rep);
    let t = e + b;
    assert(t.subrange(0, pat.len() as int) =~= e);
    if e == pat {
        assert(t.skip(pat.len() as int) =~= b);
        assert(a + (rep + replaced(b, pat, rep)) =~= a + rep + replaced(b, pat, rep));
    } else {
        assert(t.drop_first() =~= e.drop_first() + b);
        lemma_replaced_prefix(e.drop_first(), b, pat, rep);
        assert(seq![t[0]] + (e.drop_first() + replaced(b, pat, rep)) =~= e + replaced(
            b,
            pat,
            rep,
        ));
        assert(a + (e + replaced(b, pat, rep)) =~= a + e + replaced(b, pat, rep));
    }
}

pub fn replace_all(s: &Vec<char>, pat: &Vec<char>, rep: &Vec<char>) -> (r: Vec<char>)
    requires
        pat.len() > 0,
    ensures
        r@ == replaced(s@, pat@, rep@),
{
    let mut out: Vec<char> = Vec::new();
    let mut i: usize = 0;
    assert(s@.skip(0) =~= s@);
    while i < s.len()
        invariant
            i <= s.len(),
            pat.len() > 0,
            out@ + replaced(s@.skip(i as int), pat@, rep@) == replaced(s@, pat@, rep@),
        decreases s.len() - i,
    {
        let ghost rest = s@.skip(i as int);
        let hit = matches_at(s, pat, i);
        proof {
            if occurs_at(s@, pat@, i as int) {
                assert(rest.subrange(0, pat@.len() as int) =~= s@.subrange(
                    i as int,
                    i + pat@.len(),
                ));
            } else if occurs_at(rest, pat@, 0) {
                assert(rest.subrange(0, pat@.len() as int) =~= s@.subrange(
                    i as int,
                    i + pat@.len(),
                ));
            }
        }
        if hit {
            assert(rest.skip(pat@.len() as int) =~= s@.skip(i + pat@.len()));
            assert(out@ + rep@ + replaced(s@.skip(i + pat@.len()), pat@, rep@) =~= out@ + (rep@
                + replaced(s@.skip(i + pat@.len()), pat@, rep@)));
            push_all(&mut out, rep);
            i = i + pat.len();
        } else {
            assert(rest.drop_first() =~= s@.skip(i + 1));
            assert(out@.push(s@[i as int]) + replaced(s@.skip(i + 1), pat@, rep@) =~= out@ + (
            seq![s@[i as int]] + replaced(s@.skip(i + 1), pat@, rep@)));
            out.push(s[i]);
            i = i + 1;
        }
    }
    assert(out@ + replaced(s@.skip(i as int), pat@, rep@) =~= out@);
    out
}

// ─── Numbers ────────────────────────────────────────────────────────────

/// The decimal digit for `d < 10`.
pub open spec fn digit_char(d: nat) -> char {
    if d == 0 {
        '0'
    } else if d == 1 {
        '1'
    } else if d == 2 {
        '2'
    } else if d == 3 {
        '3'
    } else if d == 4 {
        '4'
    } else if d == 5 {
        '5'
    } else if d == 6 {
        '6'
    } else if d == 7 {
        '7'
    } else if d == 8 {
        '8'
    } else {
        '9'
    }
}

/// The decimal notation of `n`, without sign or leading zeros.
pub open spec fn decimal(n: nat) -> Seq<char>
    decreases n,
{
    if n < 10 {
        seq![digit_char(n)]
    } else {
        decimal(n / 10).push(digit_char(n % 10))
    }
}

pub fn digit(d: u64) -> (c: char)
    requires
        d < 10,
    ensures
        c == digit_char(d as nat),
{
    if d == 0 {
        '0'
    } else if d == 1 {
        '1'
    } else if d == 2 {
        '2'
    } else if d == 3 {
        '3'
    } else if d == 4 {
        '4'
    } else if d == 5 {
        '5'
    } else if d == 6 {
        '6'
    } else if d == 7 {
        '7'
    } else if d == 8 {
        '8'
    } else {
        '9'
    }
}

/// Appends the decimal notation of `n` to `s`.
pub fn push_decimal(s: &mut String, n: u64)
    ensures
        final(s)@ == old(s)@ + decimal(n as nat),
    decreases n,
{
    if n >= 10 {
        push_decimal(s, n / 10);
    }
    push_char(s, digit(n % 10));
    assert(n < 10 ==> n % 10 == n);
}

} // verus!
