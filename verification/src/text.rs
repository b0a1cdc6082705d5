//! Text helpers: the small string operations that the other modules build on,
//! each with an exact contract over character sequences.

use vstd::prelude::*;

verus! {

broadcast use vstd::string::group_string_axioms;

/// A sequence of characters, the view of every string type.
pub type Text = Seq<char>;

/// The views of a sequence of strings.
pub open spec fn strs(v: Seq<String>) -> Seq<Seq<char>> {
    v.map_values(|s: String| s@)
}

/// `String::push` appends one character to the end of the string.
pub assume_specification[ String::push ](s: &mut String, c: char)
    ensures
        final(s)@ == old(s)@.push(c),
;

// ---------------------------------------------------------------------
// Characters and strings
// ---------------------------------------------------------------------

/// The characters of `s`, in order.
pub fn chars_of(s: &str) -> (r: Vec<char>)
    ensures
        r@ == s@,
{
    let mut out: Vec<char> = Vec::new();
    for c in it: s.chars()
        invariant
            it.seq() == s@,
            out@ == s@.take(it.index() as int),
    {
        out.push(c);
    }
    out
}

/// The string made of the characters `cs[from..to]`.
pub fn text_of(cs: &Vec<char>, from: usize, to: usize) -> (r: String)
    requires
        from <= to <= cs@.len(),
    ensures
        r@ == cs@.subrange(from as int, to as int),
{
    let mut out = String::new();
    let mut i: usize = from;
    while i < to
        invariant
            from <= i <= to <= cs@.len(),
            out@ == cs@.subrange(from as int, i as int),
        decreases to - i,
    {
        out.push(cs[i]);
        i = i + 1;
    }
    out
}

/// Appends a copy of `s` to `v`.
pub fn push_text(v: &mut Vec<String>, s: &str)
    ensures
        strs(final(v)@) == strs(old(v)@).push(s@),
        final(v)@.len() == old(v)@.len() + 1,
        forall|i: int| 0 <= i < old(v)@.len() ==> final(v)@[i] == old(v)@[i],
        final(v)@.last()@ == s@,
{
    v.push(s.to_owned());
    assert(strs(v@) =~= strs(old(v)@).push(s@));
}

/// `a` followed by `b`.
pub fn cat2(a: &str, b: &str) -> (r: String)
    ensures
        r@ == a@ + b@,
{
    let mut s = a.to_owned();
    s.append(b);
    s
}

/// `a`, `b` and `c` in a row.
pub fn cat3(a: &str, b: &str, c: &str) -> (r: String)
    ensures
        r@ == a@ + b@ + c@,
{
    let mut s = a.to_owned();
    s.append(b);
    s.append(c);
    s
}

/// `a`, `b`, `c` and `d` in a row.
pub fn cat4(a: &str, b: &str, c: &str, d: &str) -> (r: String)
    ensures
        r@ == a@ + b@ + c@ + d@,
{
    let mut s = cat3(a, b, c);
    s.append(d);
    s
}

/// `a`, `b`, `c`, `d` and `e` in a row.
pub fn cat5(a: &str, b: &str, c: &str, d: &str, e: &str) -> (r: String)
    ensures
        r@ == a@ + b@ + c@ + d@ + e@,
{
    let mut s = cat4(a, b, c, d);
    s.append(e);
    s
}

/// Whether two strings hold the same characters.
pub fn same_text(a: &str, b: &str) -> (r: bool)
    ensures
        r == (a@ == b@),
{
    let x = a.to_owned();
    let y = b.to_owned();
    x == y
}

/// A copy of a vector of strings.
pub fn copy_texts(v: &Vec<String>) -> (r: Vec<String>)
    ensures
        r@ == v@,
        strs(r@) == strs(v@),
{
    let mut out: Vec<String> = Vec::new();
    let mut i: usize = 0;
    while i < v.len()
        invariant
            i <= v@.len(),
            out@ == v@.take(i as int),
        decreases v@.len() - i,
    {
        out.push(v[i].clone());
        i = i + 1;
    }
    assert(out@ =~= v@);
    out
}

// ---------------------------------------------------------------------
// Searching
// ---------------------------------------------------------------------

/// The index of the first `x` in `s`, or the length of `s` where there is none.
pub open spec fn first_index<T>(s: Seq<T>, x: T) -> int
    decreases s.len(),
{
    if s.len() == 0 || s[0] == x {
        0
    } else {
        1 + first_index(s.drop_first(), x)
    }
}

pub proof fn lemma_first_index<T>(s: Seq<T>, x: T)
    ensures
        0 <= first_index(s, x) <= s.len(),
        first_index(s, x) < s.len() ==> s[first_index(s, x)] == x,
        forall|j: int| 0 <= j < first_index(s, x) ==> s[j] != x,
        first_index(s, x) < s.len() <==> s.contains(x),
    decreases s.len(),
{
    if s.len() != 0 && s[0] != x {
        let t = s.drop_first();
        lemma_first_index(t, x);
        assert forall|j: int| 0 <= j < first_index(s, x) implies s[j] != x by {
            if j > 0 {
                assert(t[j - 1] == s[j]);
            }
        }
        if s.contains(x) {
            let k = choose|k: int| 0 <= k < s.len() && s[k] == x;
            assert(t[k - 1] == x);
        }
    }
}

pub proof fn lemma_first_index_is<T>(s: Seq<T>, x: T, i: int)
    requires
        0 <= i <= s.len(),
        i < s.len() ==> s[i] == x,
        forall|j: int| 0 <= j < i ==> s[j] != x,
    ensures
        first_index(s, x) == i,
{
    lemma_first_index(s, x);
}

/// The index of the first `c` in `cs[from..]`.
pub fn find_char(cs: &Vec<char>, from: usize, c: char) -> (r: usize)
    requires
        from <= cs@.len(),
    ensures
        from <= r <= cs@.len(),
        r - from == first_index(cs@.skip(from as int), c),
        r < cs@.len() ==> cs@[r as int] == c,
        forall|j: int| from <= j < r ==> cs@[j] != c,
{
    let mut i: usize = from;
    while i < cs.len() && cs[i] != c
        invariant
            from <= i <= cs@.len(),
            forall|j: int| from <= j < i ==> cs@[j] != c,
        decreases cs@.len() - i,
    {
        i = i + 1;
    }
    proof {
        let s = cs@.skip(from as int);
        assert forall|j: int| 0 <= j < i - from implies s[j] != c by {
            assert(s[j] == cs@[j + from]);
        }
        lemma_first_index_is(s, c, i - from);
    }
    i
}

/// The index of the first `b` in `buf`.
pub fn find_byte(buf: &[u8], b: u8) -> (r: Option<usize>)
    ensures
        r matches Some(i) ==> i < buf@.len() && i == first_index(buf@, b),
        r is None <==> first_index(buf@, b) == buf@.len(),
        r is None <==> !buf@.contains(b),
{
    let mut i: usize = 0;
    while i < buf.len() && buf[i] != b
        invariant
            i <= buf@.len(),
            forall|j: int| 0 <= j < i ==> buf@[j] != b,
        decreases buf@.len() - i,
    {
        i = i + 1;
    }
    proof {
        lemma_first_index_is(buf@, b, i as int);
        lemma_first_index(buf@, b);
    }
    if i < buf.len() {
        Some(i)
    } else {
        None
    }
}

/// Whether `needle` stands in `hay` at position `i`.
pub open spec fn occurs_at<T>(hay: Seq<T>, needle: Seq<T>, i: int) -> bool {
    &&& 0 <= i
    &&& i + needle.len() <= hay.len()
    &&& hay.subrange(i, i + needle.len()) == needle
}

/// Whether `needle` stands somewhere in `hay`.
pub open spec fn occurs<T>(hay: Seq<T>, needle: Seq<T>) -> bool {
    exists|i: int| occurs_at(hay, needle, i)
}

/// Whether `needle` stands in `hay` at position `at`.
pub fn matches_at(hay: &Vec<char>, at: usize, needle: &Vec<char>) -> (r: bool)
    requires
        at <= hay@.len(),
    ensures
        r == occurs_at(hay@, needle@, at as int),
{
    let end: usize = hay.len();
    if needle.len() > end - at {
        return false;
    }
    let mut k: usize = 0;
    while k < needle.len()
        invariant
            k <= needle@.len(),
            end == hay@.len(),
            at + needle@.len() <= end,
            forall|j: int| 0 <= j < k ==> hay@[at + j] == needle@[j],
        decreases needle@.len() - k,
    {
        if hay[at + k] != needle[k] {
            proof {
                let w = hay@.subrange(at as int, at + needle@.len());
                assert(w[k as int] != needle@[k as int]);
            }
            return false;
        }
        k = k + 1;
    }
    assert(hay@.subrange(at as int, at + needle@.len()) =~= needle@);
    true
}

/// Whether `needle` occurs in `hay`.
pub fn contains_text(hay: &str, needle: &str) -> (r: bool)
    ensures
        r == occurs(hay@, needle@),
{
    let h = chars_of(hay);
    let n = chars_of(needle);
    let mut i: usize = 0;
    while i < h.len()
        invariant
            h@ == hay@,
            n@ == needle@,
            i <= h@.len(),
            forall|j: int| 0 <= j < i ==> !occurs_at(hay@, needle@, j),
        decreases h@.len() - i,
    {
        if matches_at(&h, i, &n) {
            return true;
        }
        i = i + 1;
    }
    let last = matches_at(&h, i, &n);
    proof {
        if occurs(hay@, needle@) {
            let w = choose|w: int| occurs_at(hay@, needle@, w);
            assert(w == i);
        }
    }
    last
}

/// Whether `s` begins with `prefix`.
pub fn starts_with(s: &str, prefix: &str) -> (r: bool)
    ensures
        r == prefix@.is_prefix_of(s@),
{
    let h = chars_of(s);
    let n = chars_of(prefix);
    let r = matches_at(&h, 0, &n);
    proof {
        if prefix@.len() <= s@.len() {
            assert(s@.subrange(0, prefix@.len() as int) =~= s@.take(prefix@.len() as int));
        }
    }
    r
}

// ---------------------------------------------------------------------
// Case
// ---------------------------------------------------------------------

/// `c` with an ASCII capital made small.
pub open spec fn ascii_lower(c: char) -> char {
    if 'A' <= c <= 'Z' {
        ((c as u32 + 32) as u32) as char
    } else {
        c
    }
}

/// `c` with an ASCII capital made small.
pub fn lower(c: char) -> (r: char)
    ensures
        r == ascii_lower(c),
{
    match c {
        'A' => 'a',
        'B' => 'b',
        'C' => 'c',
        'D' => 'd',
        'E' => 'e',
        'F' => 'f',
        'G' => 'g',
        'H' => 'h',
        'I' => 'i',
        'J' => 'j',
        'K' => 'k',
        'L' => 'l',
        'M' => 'm',
        'N' => 'n',
        'O' => 'o',
        'P' => 'p',
        'Q' => 'q',
        'R' => 'r',
        'S' => 's',
        'T' => 't',
        'U' => 'u',
        'V' => 'v',
        'W' => 'w',
        'X' => 'x',
        'Y' => 'y',
        'Z' => 'z',
        _ => c,
    }
}

// ---------------------------------------------------------------------
// White space
// ---------------------------------------------------------------------

/// The characters with the Unicode property `White_Space`.
pub open spec fn is_space(c: char) -> bool {
    ||| 0x9 <= c as u32 <= 0xd
    ||| c as u32 == 0x20
    ||| c as u32 == 0x85
    ||| c as u32 == 0xa0
    ||| c as u32 == 0x1680
    ||| 0x2000 <= c as u32 <= 0x200a
    ||| c as u32 == 0x2028
    ||| c as u32 == 0x2029
    ||| c as u32 == 0x202f
    ||| c as u32 == 0x205f
    ||| c as u32 == 0x3000
}

pub fn space(c: char) -> (r: bool)
    ensures
        r == is_space(c),
{
    let u: u32 = c as u32;
    (0x9 <= u && u <= 0xd) || u == 0x20 || u == 0x85 || u == 0xa0 || u == 0x1680 || (0x2000 <= u
        && u <= 0x200a) || u == 0x2028 || u == 0x2029 || u == 0x202f || u == 0x205f || u == 0x3000
}

pub open spec fn trim_start(s: Text) -> Text
    decreases s.len(),
{
    if s.len() > 0 && is_space(s[0]) {
        trim_start(s.drop_first())
    } else {
        s
    }
}

pub open spec fn trim_end(s: Text) -> Text
    decreases s.len(),
{
    if s.len() > 0 && is_space(s.last()) {
        trim_end(s.drop_last())
    } else {
        s
    }
}

/// `s` without the white space at its two ends.
pub open spec fn trimmed(s: Text) -> Text {
    trim_end(trim_start(s))
}

/// The bounds of `cs[from..to]` without the white space at its two ends.
pub fn trim_bounds(cs: &Vec<char>, from: usize, to: usize) -> (r: (usize, usize))
    requires
        from <= to <= cs@.len(),
    ensures
        from <= r.0 <= r.1 <= to,
        cs@.subrange(r.0 as int, r.1 as int) == trimmed(cs@.subrange(from as int, to as int)),
{
    let mut a: usize = from;
    while a < to && space(cs[a])
        invariant
            from <= a <= to <= cs@.len(),
            trim_start(cs@.subrange(a as int, to as int)) == trim_start(
                cs@.subrange(from as int, to as int),
            ),
        decreases to - a,
    {
        assert(cs@.subrange(a as int, to as int).drop_first() =~= cs@.subrange(a + 1, to as int));
        a = a + 1;
    }
    let mut b: usize = to;
    while b > a && space(cs[b - 1])
        invariant
            from <= a <= b <= to <= cs@.len(),
            trim_end(cs@.subrange(a as int, b as int)) == trim_end(
                cs@.subrange(a as int, to as int),
            ),
        decreases b - a,
    {
        assert(cs@.subrange(a as int, b as int).drop_last() =~= cs@.subrange(a as int, b - 1));
        b = b - 1;
    }
    (a, b)
}

/// `s` without the white space at its two ends.
pub fn trim_text(s: &str) -> (r: String)
    ensures
        r@ == trimmed(s@),
{
    let cs = chars_of(s);
    let n = cs.len();
    let (a, b) = trim_bounds(&cs, 0, n);
    assert(cs@.subrange(0, n as int) =~= s@);
    text_of(&cs, a, b)
}

pub proof fn lemma_trim_start_len(s: Text)
    ensures
        trim_start(s).len() <= s.len(),
        trim_start(s).len() > 0 ==> !is_space(trim_start(s)[0]),
    decreases s.len(),
{
    if s.len() > 0 && is_space(s[0]) {
        lemma_trim_start_len(s.drop_first());
    }
}

/// The length of the run of non-space characters at the start of `s`.
pub open spec fn word_len(s: Text) -> int
    decreases s.len(),
{
    if s.len() == 0 || is_space(s[0]) {
        0
    } else {
        1 + word_len(s.drop_first())
    }
}

pub proof fn lemma_word_len(s: Text)
    ensures
        0 <= word_len(s) <= s.len(),
        s.len() > 0 && !is_space(s[0]) ==> word_len(s) > 0,
    decreases s.len(),
{
    if s.len() > 0 && !is_space(s[0]) {
        lemma_word_len(s.drop_first());
    }
}

/// The maximal runs of non-space characters of `s`, in order.
pub open spec fn words_of(s: Text) -> Seq<Text>
    decreases s.len(),
{
    let t = trim_start(s);
    if t.len() == 0 {
        seq![]
    } else {
        let n = word_len(t);
        proof {
            lemma_trim_start_len(s);
            lemma_word_len(t);
        }
        seq![t.take(n)] + words_of(t.skip(n))
    }
}

/// The words of `s`, as `str::split_whitespace` yields them.
pub fn split_words(s: &str) -> (r: Vec<String>)
    ensures
        strs(r@) == words_of(s@),
{
    let cs = chars_of(s);
    let mut out: Vec<String> = Vec::new();
    let mut i: usize = 0;
    assert(cs@.skip(0) =~= s@);
    assert(strs(out@) + words_of(cs@.skip(0)) =~= words_of(s@));
    loop
        invariant
            i <= cs@.len(),
            strs(out@) + words_of(cs@.skip(i as int)) == words_of(s@),
        ensures
            strs(out@) == words_of(s@),
        decreases cs@.len() - i,
    {
        let ghost rest = cs@.skip(i as int);
        let mut a: usize = i;
        while a < cs.len() && space(cs[a])
            invariant
                i <= a <= cs@.len(),
                rest == cs@.skip(i as int),
                trim_start(cs@.skip(a as int)) == trim_start(rest),
            decreases cs@.len() - a,
        {
            assert(cs@.skip(a as int).drop_first() =~= cs@.skip(a + 1));
            a = a + 1;
        }
        let ghost t = cs@.skip(a as int);
        assert(trim_start(t) == t);
        if a == cs.len() {
            assert(words_of(rest) =~= Seq::<Text>::empty());
            assert(strs(out@) =~= words_of(s@));
            break ;
        }
        let mut b: usize = a;
        assert(t.skip(0) =~= t);
        while b < cs.len() && !space(cs[b])
            invariant
                a <= b <= cs@.len(),
                t == cs@.skip(a as int),
                word_len(t) == (b - a) + word_len(cs@.skip(b as int)),
            decreases cs@.len() - b,
        {
            assert(cs@.skip(b as int).drop_first() =~= cs@.skip(b + 1));
            b = b + 1;
        }
        assert(word_len(cs@.skip(b as int)) == 0);
        proof {
            lemma_word_len(t);
        }
        let w = text_of(&cs, a, b);
        assert(w@ =~= t.take(word_len(t)));
        assert(t.skip(word_len(t)) =~= cs@.skip(b as int));
        let ghost before = out@;
        out.push(w);
        proof {
            assert(strs(out@) =~= strs(before).push(w@));
            assert(words_of(rest) == seq![w@] + words_of(cs@.skip(b as int)));
            assert(strs(before).push(w@) + words_of(cs@.skip(b as int)) =~= strs(before) + (seq![w@]
                + words_of(cs@.skip(b as int))));
        }
        i = b;
    }
    out
}

// ---------------------------------------------------------------------
// Lines
// ---------------------------------------------------------------------

/// `s` without one carriage return at its end.
pub open spec fn chop_cr(s: Text) -> Text {
    if s.len() > 0 && s.last() == '\r' {
        s.drop_last()
    } else {
        s
    }
}

/// The lines of `s`, as `str::lines` yields them: a line ends with a line feed,
/// before which one carriage return is dropped, or with the text.
pub open spec fn lines_of(s: Text) -> Seq<Text>
    decreases s.len(),
{
    if s.len() == 0 {
        seq![]
    } else {
        let i = first_index(s, '\n');
        proof {
            lemma_first_index(s, '\n');
        }
        if i == s.len() {
            seq![s]
        } else {
            seq![chop_cr(s.take(i))] + lines_of(s.skip(i + 1))
        }
    }
}

/// The lines of `s`.
pub fn split_lines(s: &str) -> (r: Vec<String>)
    ensures
        strs(r@) == lines_of(s@),
{
    let cs = chars_of(s);
    let mut out: Vec<String> = Vec::new();
    let mut i: usize = 0;
    assert(cs@.skip(0) =~= s@);
    assert(strs(out@) + lines_of(cs@.skip(0)) =~= lines_of(s@));
    while i < cs.len()
        invariant
            i <= cs@.len(),
            strs(out@) + lines_of(cs@.skip(i as int)) == lines_of(s@),
        decreases cs@.len() - i,
    {
        let ghost rest = cs@.skip(i as int);
        let ghost before = out@;
        let e = find_char(&cs, i, '\n');
        if e == cs.len() {
            let w = text_of(&cs, i, e);
            assert(w@ =~= rest);
            out.push(w);
            i = e;
            assert(strs(out@) =~= strs(before).push(w@));
            assert(lines_of(rest) == seq![rest]);
            assert(lines_of(cs@.skip(i as int)) =~= Seq::<Text>::empty());
            assert(strs(out@) + lines_of(cs@.skip(i as int)) =~= strs(before) + lines_of(rest));
        } else {
            let to = if e > i && cs[e - 1] == '\r' {
                e - 1
            } else {
                e
            };
            let w = text_of(&cs, i, to);
            proof {
                assert(rest.take(e - i) =~= cs@.subrange(i as int, e as int));
                assert(w@ =~= chop_cr(rest.take(e - i)));
                assert(rest.skip(e - i + 1) =~= cs@.skip(e + 1));
            }
            out.push(w);
            i = e + 1;
            assert(strs(out@) =~= strs(before).push(w@));
            assert(lines_of(rest) == seq![w@] + lines_of(cs@.skip(i as int)));
            assert(strs(out@) + lines_of(cs@.skip(i as int)) =~= strs(before) + lines_of(rest));
        }
    }
    assert(strs(out@) =~= lines_of(s@));
    out
}

// ---------------------------------------------------------------------
// Columns and paths
// ---------------------------------------------------------------------

/// `n` blanks.
pub open spec fn blanks(n: int) -> Text {
    Seq::new(if n < 0 { 0 } else { n as nat }, |i: int| ' ')
}

/// `s` with blanks after it, up to `width` characters.
pub open spec fn left_aligned(s: Text, width: int) -> Text {
    s + blanks(width - s.len())
}

/// `s` with blanks before it, up to `width` characters.
pub open spec fn right_aligned(s: Text, width: int) -> Text {
    blanks(width - s.len()) + s
}

/// `n` times the character `c`.
pub fn repeat_char(c: char, n: usize) -> (r: String)
    ensures
        r@ == Seq::new(n as nat, |i: int| c),
{
    let mut out = String::new();
    let mut i: usize = 0;
    while i < n
        invariant
            i <= n,
            out@ == Seq::new(i as nat, |k: int| c),
        decreases n - i,
    {
        out.push(c);
        i = i + 1;
        assert(out@ =~= Seq::new(i as nat, |k: int| c));
    }
    out
}

/// `s` with blanks after it, up to `width` characters.
pub fn pad_right(s: &str, width: usize) -> (r: String)
    ensures
        r@ == left_aligned(s@, width as int),
{
    let n = s.unicode_len();
    let mut out = s.to_owned();
    if n < width {
        let pad = repeat_char(' ', width - n);
        out.append(pad.as_str());
    }
    assert(out@ =~= left_aligned(s@, width as int));
    out
}

/// `s` with blanks before it, up to `width` characters.
pub fn pad_left(s: &str, width: usize) -> (r: String)
    ensures
        r@ == right_aligned(s@, width as int),
{
    let n = s.unicode_len();
    let mut out = String::new();
    if n < width {
        let pad = repeat_char(' ', width - n);
        out.append(pad.as_str());
    }
    out.append(s);
    assert(out@ =~= right_aligned(s@, width as int));
    out
}

/// The path `rel` below `base`: an absolute `rel` replaces `base`, and one slash
/// separates the two where `base` does not end with one.
pub open spec fn joined(base: Text, rel: Text) -> Text {
    if rel.len() > 0 && rel[0] == '/' {
        rel
    } else if base.len() == 0 || base.last() == '/' {
        base + rel
    } else {
        base + seq!['/'] + rel
    }
}

/// The path `rel` below `base`.
pub fn join_path(base: &str, rel: &str) -> (r: String)
    ensures
        r@ == joined(base@, rel@),
{
    let rn = rel.unicode_len();
    if rn > 0 && rel.get_char(0) == '/' {
        return rel.to_owned();
    }
    let bn = base.unicode_len();
    let mut out = base.to_owned();
    if bn > 0 && base.get_char(bn - 1) != '/' {
        out.push('/');
        assert(out@ =~= base@ + seq!['/']);
    }
    out.append(rel);
    out
}

// ---------------------------------------------------------------------
// Laws
// ---------------------------------------------------------------------

/// Nothing but white space.
pub open spec fn all_space(s: Text) -> bool {
    forall|i: int| 0 <= i < s.len() ==> is_space(#[trigger] s[i])
}

pub proof fn lemma_trim_start_is(a: Text, s: Text)
    requires
        all_space(a),
        s.len() == 0 || !is_space(s[0]),
    ensures
        trim_start(a + s) == s,
    decreases a.len(),
{
    if a.len() == 0 {
        assert(a + s =~= s);
    } else {
        let t = a.drop_first();
        assert forall|i: int| 0 <= i < t.len() implies is_space(#[trigger] t[i]) by {
            assert(t[i] == a[i + 1]);
        }
        assert((a + s)[0] == a[0]);
        assert((a + s).drop_first() =~= t + s);
        lemma_trim_start_is(t, s);
    }
}

pub proof fn lemma_trim_end_is(s: Text, b: Text)
    requires
        all_space(b),
        s.len() == 0 || !is_space(s.last()),
    ensures
        trim_end(s + b) == s,
    decreases b.len(),
{
    if b.len() == 0 {
        assert(s + b =~= s);
    } else {
        let t = b.drop_last();
        assert forall|i: int| 0 <= i < t.len() implies is_space(#[trigger] t[i]) by {
            assert(t[i] == b[i]);
        }
        assert((s + b).last() == b.last());
        assert((s + b).drop_last() =~= s + t);
        lemma_trim_end_is(s, t);
    }
}

/// Trimming takes away the white space before and after a text, and nothing of the
/// text.
pub proof fn law_trim(before: Text, s: Text, after: Text, whole: &str, r: String)
    requires
        all_space(before),
        all_space(after),
        s.len() > 0 ==> !is_space(s[0]) && !is_space(s.last()),
        s.len() == 0 ==> after.len() == 0,
        whole@ == before + s + after,
        call_ensures(trim_text, (whole,), r),
    ensures
        r@ == s,
{
    assert(whole@ =~= before + (s + after));
    lemma_trim_start_is(before, s + after);
    lemma_trim_end_is(s, after);
}

/// Some lines, each ended by a line feed.
pub open spec fn with_feeds(lines: Seq<Text>) -> Text
    decreases lines.len(),
{
    if lines.len() == 0 {
        seq![]
    } else {
        lines[0] + seq!['\n'] + with_feeds(lines.drop_first())
    }
}

pub proof fn lemma_lines(lines: Seq<Text>)
    requires
        forall|i: int|
            0 <= i < lines.len() ==> !(#[trigger] lines[i]).contains('\n') && (lines[i].len() == 0
                || lines[i].last() != '\r'),
    ensures
        lines_of(with_feeds(lines)) == lines,
    decreases lines.len(),
{
    if lines.len() > 0 {
        let rest = lines.drop_first();
        assert forall|i: int| 0 <= i < rest.len() implies !(#[trigger] rest[i]).contains('\n') && (
        rest[i].len() == 0 || rest[i].last() != '\r') by {
            assert(rest[i] == lines[i + 1]);
        }
        lemma_lines(rest);
        let l = lines[0];
        let s = with_feeds(lines);
        let n = l.len() as int;
        assert(s == l + seq!['\n'] + with_feeds(rest));
        assert forall|j: int| 0 <= j < n implies s[j] != '\n' by {
            assert(s[j] == l[j]);
            assert(l.contains(l[j]));
        }
        assert(s[n] == '\n');
        lemma_first_index_is(s, '\n', n);
        assert(s.take(n) =~= l);
        assert(s.skip(n + 1) =~= with_feeds(rest));
        assert(seq![l] + rest =~= lines);
    } else {
        assert(lines =~= Seq::<Text>::empty());
    }
}

/// Lines that were put together with line feeds come apart again.
pub proof fn law_lines_come_apart(lines: Seq<Text>, s: &str, r: Vec<String>)
    requires
        forall|i: int|
            0 <= i < lines.len() ==> !(#[trigger] lines[i]).contains('\n') && (lines[i].len() == 0
                || lines[i].last() != '\r'),
        s@ == with_feeds(lines),
        call_ensures(split_lines, (s,), r),
    ensures
        strs(r@) == lines,
{
    lemma_lines(lines);
}

/// A path below another begins with it and ends with what was asked for, with one
/// slash between them; a path from the root stands for itself.
pub proof fn law_paths_are_joined(base: &str, rel: &str, r: String)
    requires
        call_ensures(join_path, (base, rel), r),
    ensures
        rel@.len() > 0 && rel@[0] == '/' ==> r@ == rel@,
        base@.len() > 0 && base@.last() != '/' && (rel@.len() == 0 || rel@[0] != '/') ==> r@
            == base@ + seq!['/'] + rel@,
        base@.len() > 0 && base@.last() == '/' && (rel@.len() == 0 || rel@[0] != '/') ==> r@ == base@
            + rel@,
        base@.len() == 0 ==> r@ == rel@,
{
    if base@.len() == 0 {
        assert(base@ + rel@ =~= rel@);
    }
}

/// A text in a column keeps its characters, at the left or at the right, with
/// blanks up to the width of the column.
pub proof fn law_columns(s: &str, width: usize, left: String, right: String)
    requires
        call_ensures(pad_right, (s, width), left),
        call_ensures(pad_left, (s, width), right),
    ensures
        s@.len() <= width ==> left@.len() == width && right@.len() == width,
        s@.len() > width ==> left@ == s@ && right@ == s@,
        s@.is_prefix_of(left@),
        s@.is_suffix_of(right@),
        forall|i: int| s@.len() <= i < left@.len() ==> #[trigger] left@[i] == ' ',
        forall|i: int| 0 <= i < right@.len() - s@.len() ==> #[trigger] right@[i] == ' ',
{
    assert(left@.subrange(0, s@.len() as int) =~= s@);
    assert(right@.subrange(right@.len() - s@.len(), right@.len() as int) =~= s@);
    if s@.len() > width {
        assert(left@ =~= s@);
        assert(right@ =~= s@);
    }
}

/// A capital is made small: the letter at the same place of the alphabet; nothing
/// else changes.
pub proof fn law_small_letters(c: char, r: char)
    requires
        call_ensures(lower, (c,), r),
    ensures
        'A' <= c <= 'Z' ==> 'a' <= r <= 'z' && r as u32 - 'a' as u32 == c as u32 - 'A' as u32,
        !('A' <= c <= 'Z') ==> r == c,
{
}

} // verus!
