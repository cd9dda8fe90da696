//! Text processing with the semantics of Rust's `str` methods, stated over
//! `Seq<char>`: trimming, splitting, lines, prefixes, searching, replacing.

use vstd::prelude::*;

verus! {

broadcast use vstd::string::group_string_axioms;

// ---------------------------------------------------------------------------
// Specifications
// ---------------------------------------------------------------------------

/// White space as `char::is_whitespace` defines it (Unicode `White_Space`).
pub open spec fn is_ws(c: char) -> bool {
    let u = c as u32;
    ||| u == 0x20
    ||| (0x09 <= u && u <= 0x0d)
    ||| u == 0x85
    ||| u == 0xa0
    ||| u == 0x1680
    ||| (0x2000 <= u && u <= 0x200a)
    ||| u == 0x2028
    ||| u == 0x2029
    ||| u == 0x202f
    ||| u == 0x205f
    ||| u == 0x3000
}

/// `s` without its leading white space (`str::trim_start`).
pub open spec fn trim_start(s: Seq<char>) -> Seq<char>
    decreases s.len(),
{
    if s.len() > 0 && is_ws(s[0]) {
        trim_start(s.drop_first())
    } else {
        s
    }
}

/// `s` without its trailing white space (`str::trim_end`).
pub open spec fn trim_end(s: Seq<char>) -> Seq<char>
    decreases s.len(),
{
    if s.len() > 0 && is_ws(s.last()) {
        trim_end(s.drop_last())
    } else {
        s
    }
}

/// `s` without white space at either end (`str::trim`).
pub open spec fn trim(s: Seq<char>) -> Seq<char> {
    trim_end(trim_start(s))
}

/// The pieces of `s` between occurrences of `sep` (`str::split` on a char):
/// there is always one piece more than there are separators.
pub open spec fn split(s: Seq<char>, sep: char) -> Seq<Seq<char>>
    decreases s.len(),
{
    if s.len() == 0 {
        seq![Seq::<char>::empty()]
    } else {
        let p = split(s.drop_last(), sep);
        if s.last() == sep {
            p.push(Seq::<char>::empty())
        } else {
            p.update(p.len() - 1, p.last().push(s.last()))
        }
    }
}

/// A line with the `'\r'` of a `"\r\n"` ending removed.
pub open spec fn strip_cr(l: Seq<char>) -> Seq<char> {
    if l.len() > 0 && l.last() == '\r' {
        l.drop_last()
    } else {
        l
    }
}

/// The lines of `s` (`str::lines`): pieces between `'\n'`, a `'\r'` before
/// the `'\n'` removed, and no empty last line after a final `'\n'`.
pub open spec fn lines(s: Seq<char>) -> Seq<Seq<char>> {
    let p = split(s, '\n');
    let body = p.drop_last().map_values(|l: Seq<char>| strip_cr(l));
    if p.last().len() == 0 {
        body
    } else {
        body.push(p.last())
    }
}

/// `p` is a prefix of `s` (`str::starts_with`).
pub open spec fn starts_with(s: Seq<char>, p: Seq<char>) -> bool {
    p.len() <= s.len() && s.take(p.len() as int) == p
}

/// `p` is a suffix of `s` (`str::ends_with`).
pub open spec fn ends_with(s: Seq<char>, p: Seq<char>) -> bool {
    p.len() <= s.len() && s.skip(s.len() - p.len()) == p
}

/// `p` occurs in `s` (`str::contains`).
pub open spec fn contains_seq(s: Seq<char>, p: Seq<char>) -> bool
    decreases s.len(),
{
    starts_with(s, p) || (s.len() > 0 && contains_seq(s.drop_first(), p))
}

/// `s` with every non-overlapping occurrence of `pat`, from left to right,
/// replaced by `rep` (`str::replace`).
pub open spec fn replace_all(s: Seq<char>, pat: Seq<char>, rep: Seq<char>) -> Seq<char>
    recommends
        pat.len() > 0,
    decreases s.len(),
{
    if pat.len() == 0 || s.len() < pat.len() {
        s
    } else if s.take(pat.len() as int) == pat {
        rep + replace_all(s.skip(pat.len() as int), pat, rep)
    } else {
        seq![s[0]] + replace_all(s.drop_first(), pat, rep)
    }
}

/// The index of the first `c` in `s` (`str::find` on a char).
pub open spec fn find_char(s: Seq<char>, c: char) -> Option<nat>
    decreases s.len(),
{
    if s.len() == 0 {
        None
    } else if s[0] == c {
        Some(0)
    } else {
        match find_char(s.drop_first(), c) {
            Some(i) => Some(i + 1),
            None => None,
        }
    }
}

/// The number of leading characters of `t` that are not white space.
pub open spec fn word_len(t: Seq<char>) -> nat
    decreases t.len(),
{
    if t.len() == 0 || is_ws(t[0]) {
        0
    } else {
        1 + word_len(t.drop_first())
    }
}

/// The first white-space separated word of `s` (`split_whitespace().next()`).
pub open spec fn first_word(s: Seq<char>) -> Option<Seq<char>> {
    let t = trim_start(s);
    if t.len() == 0 {
        None
    } else {
        Some(t.take(word_len(t) as int))
    }
}

/// The texts of a sequence of strings.
pub open spec fn views(v: Seq<String>) -> Seq<Seq<char>> {
    v.map_values(|x: String| x@)
}

/// Is `c` an ASCII decimal digit?
pub open spec fn is_digit(c: char) -> bool {
    '0' <= c && c <= '9'
}

/// The value of a decimal digit.
pub open spec fn digit_value(c: char) -> nat {
    (c as u32 - '0' as u32) as nat
}

/// Every character of `s` is an ASCII decimal digit.
pub open spec fn all_digits(s: Seq<char>) -> bool {
    forall|i: int| 0 <= i < s.len() ==> is_digit(#[trigger] s[i])
}

/// The value of a string of decimal digits.
pub open spec fn digits_value(s: Seq<char>) -> nat
    decreases s.len(),
{
    if s.len() == 0 {
        0
    } else {
        digits_value(s.drop_last()) * 10 + digit_value(s.last())
    }
}

/// The decimal numeral of `n`.
pub open spec fn numeral(n: nat) -> Seq<char>
    decreases n,
{
    if n < 10 {
        seq![('0' as u32 + n) as char]
    } else {
        numeral(n / 10).push(('0' as u32 + (n % 10)) as char)
    }
}

/// What `str::parse` gives for an unsigned integer type whose largest value
/// is `max`: an optional `'+'`, then one or more digits, of value at most `max`.
pub open spec fn parse_unsigned(s: Seq<char>, max: nat) -> Option<nat> {
    let d = if s.len() > 0 && s[0] == '+' {
        s.drop_first()
    } else {
        s
    };
    if d.len() > 0 && all_digits(d) && digits_value(d) <= max {
        Some(digits_value(d))
    } else {
        None
    }
}

// ---------------------------------------------------------------------------
// Lemmas
// ---------------------------------------------------------------------------

/// `split` always yields at least one piece.
pub proof fn lemma_split_nonempty(s: Seq<char>, sep: char)
    ensures
        split(s, sep).len() >= 1,
    decreases s.len(),
{
    if s.len() > 0 {
        lemma_split_nonempty(s.drop_last(), sep);
    }
}

/// A piece of `split` holds no separator.
pub proof fn lemma_split_pieces_free(s: Seq<char>, sep: char)
    ensures
        forall|k: int, j: int|
            0 <= k < split(s, sep).len() && 0 <= j < split(s, sep)[k].len()
                ==> #[trigger] split(s, sep)[k][j] != sep,
    decreases s.len(),
{
    if s.len() > 0 {
        lemma_split_nonempty(s.drop_last(), sep);
        lemma_split_pieces_free(s.drop_last(), sep);
    }
}

/// Extending a string of digits never lowers its value.
pub proof fn lemma_digits_value_mono(s: Seq<char>, j: int)
    requires
        0 <= j <= s.len(),
    ensures
        digits_value(s.take(j)) <= digits_value(s),
    decreases s.len(),
{
    if j < s.len() {
        assert(s.drop_last().take(j) =~= s.take(j));
        lemma_digits_value_mono(s.drop_last(), j);
    } else {
        assert(s.take(j) =~= s);
    }
}

/// Pushing to a sequence of strings pushes to its texts.
pub proof fn lemma_views_push(v: Seq<String>, x: String)
    ensures
        views(v.push(x)) == views(v).push(x@),
{
    assert(views(v.push(x)) =~= views(v).push(x@));
}

// ---------------------------------------------------------------------------
// Executable functions
// ---------------------------------------------------------------------------

/// Appends `c` to `s` with `String::push`. Trusted, not proved: the
/// contract claims what std documents of that method, that the text gains
/// `c` at its end and is otherwise unchanged.
#[verifier::external_body]
pub(crate) fn push_char(s: &mut String, c: char)
    ensures
        final(s)@ == old(s)@.push(c),
{
    s.push(c);
}

/// Is `c` white space (`char::is_whitespace`)?
pub fn is_ws_char(c: char) -> (b: bool)
    ensures
        b == is_ws(c),
{
    let u: u32 = c as u32;
    u == 0x20 || (0x09 <= u && u <= 0x0d) || u == 0x85 || u == 0xa0 || u == 0x1680 || (0x2000
        <= u && u <= 0x200a) || u == 0x2028 || u == 0x2029 || u == 0x202f || u == 0x205f || u
        == 0x3000
}

/// The characters of `s`, in order.
pub fn chars_of(s: &str) -> (r: Vec<char>)
    ensures
        r@ == s@,
{
    let mut v: Vec<char> = Vec::new();
    for c in it: s.chars()
        invariant
            v@ == it.seq().take(it.index() as int),
    {
        v.push(c);
    }
    v
}

/// The string made of `cs[lo..hi]`.
pub fn collect(cs: &Vec<char>, lo: usize, hi: usize) -> (r: String)
    requires
        lo <= hi <= cs@.len(),
    ensures
        r@ == cs@.subrange(lo as int, hi as int),
{
    let mut r = String::new();
    let mut i = lo;
    while i < hi
        invariant
            lo <= i <= hi <= cs@.len(),
            r@ == cs@.subrange(lo as int, i as int),
        decreases hi - i,
    {
        push_char(&mut r, cs[i]);
        assert(cs@.subrange(lo as int, i + 1) =~= cs@.subrange(lo as int, i as int).push(cs@[i as int]));
        i = i + 1;
    }
    r
}

/// Are the two character sequences equal?
pub fn chars_eq(a: &Vec<char>, b: &Vec<char>) -> (r: bool)
    ensures
        r == (a@ == b@),
{
    if a.len() != b.len() {
        return false;
    }
    let mut i: usize = 0;
    while i < a.len()
        invariant
            a@.len() == b@.len(),
            i <= a@.len(),
            forall|j: int| 0 <= j < i ==> a@[j] == b@[j],
        decreases a@.len() - i,
    {
        if a[i] != b[i] {
            return false;
        }
        i = i + 1;
    }
    assert(a@ =~= b@);
    true
}

/// Are the two strings equal?
pub fn str_eq(a: &str, b: &str) -> (r: bool)
    ensures
        r == (a@ == b@),
{
    let ca = chars_of(a);
    let cb = chars_of(b);
    chars_eq(&ca, &cb)
}

/// The bounds of `cs[lo..hi]` with white space removed at both ends.
pub fn trim_bounds(cs: &Vec<char>, lo: usize, hi: usize) -> (r: (usize, usize))
    requires
        lo <= hi <= cs@.len(),
    ensures
        lo <= r.0 <= r.1 <= hi,
        cs@.subrange(r.0 as int, r.1 as int) == trim(cs@.subrange(lo as int, hi as int)),
{
    let mut a = lo;
    while a < hi && is_ws_char(cs[a])
        invariant
            lo <= a <= hi <= cs@.len(),
            trim_start(cs@.subrange(lo as int, hi as int)) == trim_start(
                cs@.subrange(a as int, hi as int),
            ),
        decreases hi - a,
    {
        assert(cs@.subrange(a as int, hi as int).drop_first() =~= cs@.subrange(a + 1, hi as int));
        a = a + 1;
    }
    let mut b = hi;
    while b > a && is_ws_char(cs[b - 1])
        invariant
            lo <= a <= b <= hi <= cs@.len(),
            trim_end(cs@.subrange(a as int, hi as int)) == trim_end(
                cs@.subrange(a as int, b as int),
            ),
        decreases b - a,
    {
        assert(cs@.subrange(a as int, b as int).drop_last() =~= cs@.subrange(a as int, b - 1));
        b = b - 1;
    }
    (a, b)
}

/// `s` without white space at either end (`str::trim`).
pub fn trim_str(s: &str) -> (r: String)
    ensures
        r@ == trim(s@),
{
    let cs = chars_of(s);
    let (a, b) = trim_bounds(&cs, 0, cs.len());
    assert(cs@.subrange(0, cs@.len() as int) =~= cs@);
    collect(&cs, a, b)
}

/// The pieces of `s` between occurrences of `sep` (`str::split`).
pub fn split_char(s: &str, sep: char) -> (r: Vec<String>)
    ensures
        views(r@) == split(s@, sep),
        r@.len() >= 1,
{
    let cs = chars_of(s);
    let mut parts: Vec<String> = Vec::new();
    let mut cur = String::new();
    let mut i: usize = 0;
    assert(cs@.take(0) =~= Seq::<char>::empty());
    assert(views(parts@).push(cur@) =~= seq![Seq::<char>::empty()]);
    while i < cs.len()
        invariant
            i <= cs@.len(),
            cs@ == s@,
            views(parts@).push(cur@) == split(cs@.take(i as int), sep),
        decreases cs@.len() - i,
    {
        let c = cs[i];
        let ghost prev = views(parts@).push(cur@);
        assert(cs@.take(i + 1).drop_last() =~= cs@.take(i as int));
        assert(cs@.take(i + 1).last() == c);
        if c == sep {
            proof {
                lemma_views_push(parts@, cur);
            }
            parts.push(cur);
            cur = String::new();
            assert(views(parts@).push(cur@) =~= prev.push(Seq::<char>::empty()));
        } else {
            let ghost old_cur = cur@;
            push_char(&mut cur, c);
            assert(views(parts@).push(cur@) =~= prev.update(prev.len() - 1, prev.last().push(c)));
        }
        i = i + 1;
    }
    assert(cs@.take(cs@.len() as int) =~= cs@);
    proof {
        lemma_views_push(parts@, cur);
    }
    parts.push(cur);
    parts
}

/// `s` with the `'\r'` of a `"\r\n"` line ending removed.
fn strip_cr_str(s: &str) -> (r: String)
    ensures
        r@ == strip_cr(s@),
{
    let cs = chars_of(s);
    let n: usize = cs.len();
    if n > 0 && cs[n - 1] == '\r' {
        collect(&cs, 0, n - 1)
    } else {
        collect(&cs, 0, n)
    }
}

/// The lines of `s` (`str::lines`).
pub fn lines_of(s: &str) -> (r: Vec<String>)
    ensures
        views(r@) == lines(s@),
{
    let parts = split_char(s, '\n');
    let n: usize = parts.len();
    let ghost p = split(s@, '\n');
    let mut out: Vec<String> = Vec::new();
    let mut k: usize = 0;
    while k + 1 < n
        invariant
            n == parts@.len(),
            n >= 1,
            views(parts@) == p,
            k + 1 <= n,
            views(out@) == p.take(k as int).map_values(|l: Seq<char>| strip_cr(l)),
        decreases n - k,
    {
        let line = strip_cr_str(parts[k].as_str());
        proof {
            lemma_views_push(out@, line);
        }
        out.push(line);
        assert(p.take(k + 1) =~= p.take(k as int).push(p[k as int]));
        assert(p.take(k + 1).map_values(|l: Seq<char>| strip_cr(l)) =~= p.take(k as int).map_values(
            |l: Seq<char>| strip_cr(l),
        ).push(strip_cr(p[k as int])));
        k = k + 1;
    }
    assert(p.take(k as int) =~= p.drop_last());
    let last = parts[n - 1].as_str();
    if last.unicode_len() > 0 {
        let l = String::from_str(last);
        proof {
            lemma_views_push(out@, l);
        }
        out.push(l);
    }
    out
}

/// Does `p` occur in `cs` at index `i`?
pub fn matches_at(cs: &Vec<char>, i: usize, p: &Vec<char>) -> (r: bool)
    requires
        i <= cs@.len(),
    ensures
        r == starts_with(cs@.skip(i as int), p@),
{
    let n = cs.len();
    if p.len() > n - i {
        return false;
    }
    let mut j: usize = 0;
    while j < p.len()
        invariant
            n == cs@.len(),
            i <= cs@.len(),
            p@.len() <= cs@.len() - i,
            j <= p@.len(),
            forall|k: int| 0 <= k < j ==> cs@[i + k] == p@[k],
        decreases p@.len() - j,
    {
        assert(i + j < cs@.len());
        if cs[i + j] != p[j] {
            assert(cs@.skip(i as int).take(p@.len() as int)[j as int] != p@[j as int]);
            return false;
        }
        j = j + 1;
    }
    assert(cs@.skip(i as int).take(p@.len() as int) =~= p@);
    true
}

/// Does `s` start with `p` (`str::starts_with`)?
pub fn starts_with_str(s: &str, p: &str) -> (r: bool)
    ensures
        r == starts_with(s@, p@),
{
    let cs = chars_of(s);
    let cp = chars_of(p);
    assert(cs@.skip(0) =~= cs@);
    matches_at(&cs, 0, &cp)
}

/// Does `s` end with `p` (`str::ends_with`)?
pub fn ends_with_str(s: &str, p: &str) -> (r: bool)
    ensures
        r == ends_with(s@, p@),
{
    let cs = chars_of(s);
    let cp = chars_of(p);
    if cp.len() > cs.len() {
        return false;
    }
    let i = cs.len() - cp.len();
    let r = matches_at(&cs, i, &cp);
    assert(cs@.skip(i as int).take(cp@.len() as int) =~= cs@.skip(i as int));
    r
}

/// Does `p` occur in `s` (`str::contains`)?
pub fn contains_str(s: &str, p: &str) -> (r: bool)
    ensures
        r == contains_seq(s@, p@),
{
    let cs = chars_of(s);
    let cp = chars_of(p);
    let n = cs.len();
    let mut i: usize = 0;
    assert(cs@.skip(0) =~= cs@);
    loop
        invariant
            i <= n,
            n == cs@.len(),
            cs@ == s@,
            cp@ == p@,
            contains_seq(s@, p@) == contains_seq(cs@.skip(i as int), p@),
        decreases n - i,
    {
        if matches_at(&cs, i, &cp) {
            return true;
        }
        if i == n {
            return false;
        }
        assert(cs@.skip(i as int).drop_first() =~= cs@.skip(i + 1));
        i = i + 1;
    }
}

/// `s` with every occurrence of `pat` replaced by `rep` (`str::replace`).
pub fn replace_str(s: &str, pat: &str, rep: &str) -> (r: String)
    requires
        pat@.len() > 0,
    ensures
        r@ == replace_all(s@, pat@, rep@),
{
    let cs = chars_of(s);
    let cp = chars_of(pat);
    let n = cs.len();
    let mut out = String::new();
    let mut i: usize = 0;
    assert(cs@.skip(0) =~= cs@);
    while i < n
        invariant
            i <= n,
            n == cs@.len(),
            cs@ == s@,
            cp@ == pat@,
            cp@.len() > 0,
            out@ + replace_all(cs@.skip(i as int), pat@, rep@) == replace_all(s@, pat@, rep@),
        decreases n - i,
    {
        let ghost t = cs@.skip(i as int);
        if matches_at(&cs, i, &cp) {
            let ghost o = out@;
            let ghost x = replace_all(cs@.skip(i + cp@.len()), pat@, rep@);
            assert(t.skip(cp@.len() as int) =~= cs@.skip(i + cp@.len()));
            assert(replace_all(t, pat@, rep@) == rep@ + x);
            out.append(rep);
            assert((o + rep@) + x =~= o + (rep@ + x));
            i = i + cp.len();
        } else {
            let c = cs[i];
            assert(t.drop_first() =~= cs@.skip(i + 1));
            proof {
                if t.len() < cp@.len() {
                    assert(replace_all(t.drop_first(), pat@, rep@) == t.drop_first());
                    assert(seq![c] + t.drop_first() =~= t);
                }
            }
            push_char(&mut out, c);
            i = i + 1;
        }
    }
    assert(cs@.skip(n as int) =~= Seq::<char>::empty());
    assert(out@ + Seq::<char>::empty() =~= out@);
    out
}

/// The index of the first `c` in `cs[from..]`, counted from `from`.
pub fn find_char_from(cs: &Vec<char>, from: usize, c: char) -> (r: Option<usize>)
    requires
        from <= cs@.len(),
    ensures
        match find_char(cs@.skip(from as int), c) {
            Some(k) => r == Some((from + k) as usize),
            None => r is None,
        },
{
    let n = cs.len();
    let mut i = from;
    while i < n
        invariant
            from <= i <= n,
            n == cs@.len(),
            forall|k: int| from <= k < i ==> cs@[k] != c,
            find_char(cs@.skip(from as int), c) == (match find_char(cs@.skip(i as int), c) {
                Some(k) => Some((k + (i - from)) as nat),
                None => None,
            }),
        decreases n - i,
    {
        if cs[i] == c {
            return Some(i);
        }
        assert(cs@.skip(i as int).drop_first() =~= cs@.skip(i + 1));
        i = i + 1;
    }
    None
}

/// The first white-space separated word of `s` (`split_whitespace().next()`).
pub fn first_word_str(s: &str) -> (r: Option<String>)
    ensures
        match first_word(s@) {
            Some(w) => r matches Some(x) && x@ == w,
            None => r is None,
        },
{
    let cs = chars_of(s);
    let n = cs.len();
    let mut a: usize = 0;
    assert(cs@.skip(0) =~= cs@);
    while a < n && is_ws_char(cs[a])
        invariant
            a <= n,
            n == cs@.len(),
            trim_start(s@) == trim_start(cs@.skip(a as int)),
            cs@ == s@,
        decreases n - a,
    {
        assert(cs@.skip(a as int).drop_first() =~= cs@.skip(a + 1));
        a = a + 1;
    }
    if a == n {
        return None;
    }
    let mut b = a;
    while b < n && !is_ws_char(cs[b])
        invariant
            a <= b <= n,
            n == cs@.len(),
            word_len(cs@.skip(a as int)) == (b - a) + word_len(cs@.skip(b as int)),
        decreases n - b,
    {
        assert(cs@.skip(b as int).drop_first() =~= cs@.skip(b + 1));
        b = b + 1;
    }
    assert(cs@.skip(a as int).take((b - a) as int) =~= cs@.subrange(a as int, b as int));
    Some(collect(&cs, a, b))
}

/// The value of `cs[lo..hi]` read as an unsigned decimal number of at most
/// `max` (`str::parse` for an unsigned integer type), if it is one.
pub fn parse_unsigned_range(cs: &Vec<char>, lo: usize, hi: usize, max: u32) -> (r: Option<u32>)
    requires
        lo <= hi <= cs@.len(),
    ensures
        match parse_unsigned(cs@.subrange(lo as int, hi as int), max as nat) {
            Some(v) => r == Some(v as u32),
            None => r is None,
        },
{
    let ghost s = cs@.subrange(lo as int, hi as int);
    let mut start = lo;
    if lo < hi && cs[lo] == '+' {
        start = lo + 1;
        assert(s.drop_first() =~= cs@.subrange(start as int, hi as int));
    }
    let ghost d = cs@.subrange(start as int, hi as int);
    assert(d == (if s.len() > 0 && s[0] == '+' { s.drop_first() } else { s }));
    if start == hi {
        return None;
    }
    let mut acc: u64 = 0;
    let mut j = start;
    assert(d.take(0) =~= Seq::<char>::empty());
    while j < hi
        invariant
            lo <= start <= j <= hi <= cs@.len(),
            d == cs@.subrange(start as int, hi as int),
            s == cs@.subrange(lo as int, hi as int),
            d == (if s.len() > 0 && s[0] == '+' {
                s.drop_first()
            } else {
                s
            }),
            all_digits(d.take(j - start)),
            acc == digits_value(d.take(j - start)),
            acc <= max,
        decreases hi - j,
    {
        let c = cs[j];
        if !('0' <= c && c <= '9') {
            assert(d[j - start] == c);
            assert(!is_digit(d[j - start]));
            assert(!all_digits(d));
            return None;
        }
        let dv: u64 = (c as u32 - '0' as u32) as u64;
        assert(d.take(j - start + 1).drop_last() =~= d.take(j - start));
        assert(d.take(j - start + 1).last() == c);
        assert(acc * 10 + dv <= 0xffff_ffffu64 * 10 + 9) by (nonlinear_arith)
            requires
                acc <= 0xffff_ffffu64,
                dv <= 9,
        ;
        let ghost prev = acc;
        acc = acc * 10 + dv;
        assert(digit_value(c) == dv);
        assert(digits_value(d.take(j - start + 1)) == digits_value(d.take(j - start)) * 10 + digit_value(c));
        assert(acc == digits_value(d.take(j - start + 1)));
        if acc > max as u64 {
            proof {
                lemma_digits_value_mono(d, j - start + 1);
            }
            return None;
        }
        j = j + 1;
    }
    assert(d.take(j - start) =~= d);
    Some(acc as u32)
}

/// Is a trimmed line worth keeping?
pub open spec fn nonblank(l: Seq<char>) -> bool {
    l.len() > 0
}

/// The lines of `s`, trimmed, without the blank ones.
pub open spec fn nonblank_lines(s: Seq<char>) -> Seq<Seq<char>> {
    lines(s).map_values(|l: Seq<char>| trim(l)).filter(|l: Seq<char>| nonblank(l))
}

/// The lines of `s`, trimmed, without the blank ones.
pub fn nonblank_lines_of(s: &str) -> (r: Vec<String>)
    ensures
        views(r@) == nonblank_lines(s@),
{
    let ls = lines_of(s);
    let ghost all = lines(s@);
    let mut out: Vec<String> = Vec::new();
    let mut k: usize = 0;
    assert(all.take(0).map_values(|l: Seq<char>| trim(l)) =~= Seq::<Seq<char>>::empty());
    proof {
        reveal_with_fuel(Seq::filter, 1);
    }
    while k < ls.len()
        invariant
            k <= ls@.len(),
            views(ls@) == all,
            views(out@) == all.take(k as int).map_values(|l: Seq<char>| trim(l)).filter(
                |l: Seq<char>| nonblank(l),
            ),
        decreases ls@.len() - k,
    {
        let t = trim_str(ls[k].as_str());
        let ghost prev = all.take(k as int).map_values(|l: Seq<char>| trim(l));
        assert(all.take(k + 1).map_values(|l: Seq<char>| trim(l)) =~= prev.push(t@));
        proof {
            prev.lemma_filter_push(t@, |l: Seq<char>| nonblank(l));
        }
        if t.as_str().unicode_len() > 0 {
            proof {
                lemma_views_push(out@, t);
            }
            out.push(t);
        }
        k = k + 1;
    }
    assert(all.take(ls@.len() as int) =~= all);
    out
}


// ---------------------------------------------------------------------------
// Joining, and what splitting gives back of a join
// ---------------------------------------------------------------------------

/// The pieces joined with `sep` between them (`join`).
pub open spec fn join(ps: Seq<Seq<char>>, sep: Seq<char>) -> Seq<char>
    decreases ps.len(),
{
    if ps.len() == 0 {
        Seq::empty()
    } else if ps.len() == 1 {
        ps[0]
    } else {
        join(ps.drop_last(), sep) + sep + ps.last()
    }
}

/// The strings of `parts` joined with `sep` between them.
pub fn join_with(parts: &Vec<String>, sep: &str) -> (r: String)
    ensures
        r@ == join(views(parts@), sep@),
{
    let ghost ps = views(parts@);
    let mut out = String::new();
    let mut k: usize = 0;
    assert(ps.take(0) =~= Seq::<Seq<char>>::empty());
    while k < parts.len()
        invariant
            k <= parts@.len(),
            ps == views(parts@),
            out@ == join(ps.take(k as int), sep@),
        decreases parts@.len() - k,
    {
        let ghost t = ps.take(k + 1);
        assert(t.drop_last() =~= ps.take(k as int));
        assert(t.last() == parts@[k as int]@);
        if k > 0 {
            out.append(sep);
        } else {
            assert(out@ =~= Seq::<char>::empty());
        }
        out.append(parts[k].as_str());
        if k == 0 {
            assert(out@ =~= t[0]);
        }
        k = k + 1;
    }
    assert(ps.take(parts@.len() as int) =~= ps);
    out
}

/// `s` holds no white space.
pub open spec fn no_ws(s: Seq<char>) -> bool {
    forall|i: int| 0 <= i < s.len() ==> !is_ws(#[trigger] s[i])
}

/// What `trim_start` leaves starts with a character that is not white space.
pub proof fn lemma_trim_start_head(s: Seq<char>)
    ensures
        trim_start(s).len() > 0 ==> !is_ws(trim_start(s)[0]),
    decreases s.len(),
{
    if s.len() > 0 && is_ws(s[0]) {
        lemma_trim_start_head(s.drop_first());
    }
}

/// The leading word of `t` lies within `t` and holds no white space.
pub proof fn lemma_word_len(t: Seq<char>)
    ensures
        word_len(t) <= t.len(),
        forall|i: int| 0 <= i < word_len(t) ==> !is_ws(#[trigger] t[i]),
        t.len() > 0 && !is_ws(t[0]) ==> word_len(t) >= 1,
    decreases t.len(),
{
    if t.len() > 0 && !is_ws(t[0]) {
        lemma_word_len(t.drop_first());
        assert forall|i: int| 0 <= i < word_len(t) implies !is_ws(#[trigger] t[i]) by {
            if i > 0 {
                assert(t[i] == t.drop_first()[i - 1]);
            }
        }
    }
}

/// A first word is not empty and holds no white space.
pub proof fn lemma_first_word_shape(s: Seq<char>)
    ensures
        first_word(s) matches Some(w) ==> w.len() > 0 && no_ws(w),
{
    let t = trim_start(s);
    lemma_trim_start_head(s);
    lemma_word_len(t);
}

/// A text without white space is its own trim.
pub proof fn lemma_trim_no_ws(s: Seq<char>)
    requires
        no_ws(s),
    ensures
        trim(s) == s,
{
    if s.len() > 0 {
        assert(!is_ws(s[0]));
        assert(!is_ws(s.last()));
    }
}

/// Splitting `a`, a separator, and a text `b` free of separators gives the
/// pieces of `a` followed by `b`.
pub proof fn lemma_split_append(a: Seq<char>, c: char, b: Seq<char>)
    requires
        !b.contains(c),
    ensures
        split(a + seq![c] + b, c) == split(a, c).push(b),
    decreases b.len(),
{
    let whole = a + seq![c] + b;
    if b.len() == 0 {
        assert(whole =~= a.push(c));
        assert(whole.drop_last() =~= a);
        assert(b =~= Seq::<char>::empty());
    } else {
        let shorter = b.drop_last();
        assert(!shorter.contains(c)) by {
            if shorter.contains(c) {
                let i = choose|i: int| 0 <= i < shorter.len() && shorter[i] == c;
                assert(b[i] == c);
            }
        }
        lemma_split_append(a, c, shorter);
        assert(whole.drop_last() =~= a + seq![c] + shorter);
        assert(whole.last() == b.last());
        assert(b.last() != c) by {
            if b.last() == c {
                assert(b[b.len() - 1] == c);
            }
        }
        let p = split(a, c).push(shorter);
        assert(split(whole.drop_last(), c) == p);
        assert(shorter.push(b.last()) =~= b);
        assert(p.last() == shorter);
        assert(p.update(p.len() - 1, p.last().push(whole.last())) =~= split(a, c).push(b));
    }
}

/// A text free of separators is a single piece.
pub proof fn lemma_split_single(b: Seq<char>, c: char)
    requires
        !b.contains(c),
    ensures
        split(b, c) == seq![b],
    decreases b.len(),
{
    if b.len() > 0 {
        let shorter = b.drop_last();
        assert(!shorter.contains(c)) by {
            if shorter.contains(c) {
                let i = choose|i: int| 0 <= i < shorter.len() && shorter[i] == c;
                assert(b[i] == c);
            }
        }
        lemma_split_single(shorter, c);
        assert(b.last() != c) by {
            if b.last() == c {
                assert(b[b.len() - 1] == c);
            }
        }
        assert(shorter.push(b.last()) =~= b);
        assert(seq![shorter].update(0, shorter.push(b.last())) =~= seq![b]);
    } else {
        assert(b =~= Seq::<char>::empty());
    }
}

/// Splitting a join of pieces free of the separator gives the pieces back.
pub proof fn lemma_split_join(xs: Seq<Seq<char>>, c: char)
    requires
        xs.len() >= 1,
        forall|k: int| 0 <= k < xs.len() ==> !(#[trigger] xs[k]).contains(c),
    ensures
        split(join(xs, seq![c]), c) == xs,
    decreases xs.len(),
{
    if xs.len() == 1 {
        lemma_split_single(xs[0], c);
        assert(seq![xs[0]] =~= xs);
    } else {
        let p = xs.drop_last();
        assert forall|k: int| 0 <= k < p.len() implies !(#[trigger] p[k]).contains(c) by {
            assert(p[k] == xs[k]);
        }
        lemma_split_join(p, c);
        assert(!xs.last().contains(c)) by {
            assert(xs.last() == xs[xs.len() - 1]);
        }
        lemma_split_append(join(p, seq![c]), c, xs.last());
        assert(p.push(xs.last()) =~= xs);
    }
}

/// The lines of a join of non-empty words by line breaks are the words.
pub proof fn lemma_lines_join(xs: Seq<Seq<char>>)
    requires
        forall|k: int| 0 <= k < xs.len() ==> (#[trigger] xs[k]).len() > 0 && no_ws(xs[k]),
    ensures
        lines(join(xs, "\n"@)) == xs,
{
    reveal_strlit("\n");
    assert("\n"@ =~= seq!['\n']);
    if xs.len() == 0 {
        assert(split(Seq::<char>::empty(), '\n') =~= seq![Seq::<char>::empty()]);
        assert(lines(join(xs, "\n"@)) =~= xs);
    } else {
        assert forall|k: int| 0 <= k < xs.len() implies !(#[trigger] xs[k]).contains('\n') by {
            if xs[k].contains('\n') {
                let i = choose|i: int| 0 <= i < xs[k].len() && xs[k][i] == '\n';
                assert(is_ws(xs[k][i]));
            }
        }
        lemma_split_join(xs, '\n');
        let p = split(join(xs, "\n"@), '\n');
        assert(p == xs);
        assert forall|k: int| 0 <= k < p.drop_last().len() implies strip_cr(
            #[trigger] p.drop_last()[k],
        ) == p.drop_last()[k] by {
            let l = xs[k];
            assert(p.drop_last()[k] == l);
            assert(!is_ws(l[l.len() - 1]));
        }
        assert(p.drop_last().map_values(|l: Seq<char>| strip_cr(l)) =~= p.drop_last());
        assert(xs.last() == xs[xs.len() - 1]);
        assert(p.drop_last().push(p.last()) =~= xs);
    }
}

/// Keeping the elements that all satisfy `f` keeps them all.
pub proof fn lemma_filter_all<A>(s: Seq<A>, f: spec_fn(A) -> bool)
    requires
        forall|i: int| 0 <= i < s.len() ==> f(#[trigger] s[i]),
    ensures
        s.filter(f) == s,
    decreases s.len(),
{
    reveal_with_fuel(Seq::filter, 1);
    if s.len() > 0 {
        let p = s.drop_last();
        assert forall|i: int| 0 <= i < p.len() implies f(#[trigger] p[i]) by {
            assert(p[i] == s[i]);
        }
        lemma_filter_all(p, f);
        assert(f(s[s.len() - 1]));
        assert(p.push(s.last()) =~= s);
    }
}

/// A text shorter than `p` does not contain it.
pub proof fn lemma_short_not_contains(s: Seq<char>, p: Seq<char>)
    requires
        s.len() < p.len(),
    ensures
        !contains_seq(s, p),
    decreases s.len(),
{
    if s.len() > 0 {
        lemma_short_not_contains(s.drop_first(), p);
    }
}

/// Replacing a pattern that does not occur changes nothing.
pub proof fn lemma_replace_absent(t: Seq<char>, pat: Seq<char>, rep: Seq<char>)
    requires
        pat.len() > 0,
        !contains_seq(t, pat),
    ensures
        replace_all(t, pat, rep) == t,
    decreases t.len(),
{
    if t.len() >= pat.len() {
        assert(t.take(pat.len() as int) != pat);
        lemma_replace_absent(t.drop_first(), pat, rep);
        assert(seq![t[0]] + t.drop_first() =~= t);
    }
}

/// The decimal numeral of `n`.
pub fn decimal_text(n: usize) -> (r: String)
    ensures
        r@ == numeral(n as nat),
    decreases n,
{
    let d: u8 = (n % 10) as u8;
    let c: char = (48u8 + d) as char;
    assert(c == ('0' as u32 + (n % 10) as nat) as char);
    if n < 10 {
        let mut r = String::new();
        push_char(&mut r, c);
        assert(r@ =~= seq![c]);
        r
    } else {
        let mut r = decimal_text(n / 10);
        push_char(&mut r, c);
        r
    }
}

/// What `{:?}` writes for the string `s`: the text in double quotes with
/// quotes, backslashes and unprintable characters escaped.
pub uninterp spec fn str_debug(s: Seq<char>) -> Seq<char>;

/// The text that `format!("{:?}", s)` gives. Trusted, not proved: the
/// contract claims only that the result is `str_debug` of the text (a
/// function of the text alone); the escaping rules are left unsaid.
#[verifier::external_body]
pub(crate) fn debug_text(s: &str) -> (r: String)
    ensures
        r@ == str_debug(s@),
{
    format!("{:?}", s)
}

/// Does `s` hold the character `c`?
pub fn has_char(s: &str, c: char) -> (r: bool)
    ensures
        r == s@.contains(c),
{
    let cs = chars_of(s);
    let mut i: usize = 0;
    while i < cs.len()
        invariant
            i <= cs@.len(),
            cs@ == s@,
            forall|j: int| 0 <= j < i ==> cs@[j] != c,
        decreases cs@.len() - i,
    {
        if cs[i] == c {
            assert(s@[i as int] == c);
            return true;
        }
        i = i + 1;
    }
    false
}

} // verus!
