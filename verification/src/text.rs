//! Character-level text primitives shared by the parsers of this crate.
//!
//! Text is modelled as `Seq<char>`. The executable functions work on a
//! `Vec<char>` obtained once from the input string, so that every scan is
//! linear, and each one is proved against a spec function of this module.

use vstd::prelude::*;

verus! {

/// `String::push` appends one character to the end of the string and leaves
/// the characters before it as they were.
pub assume_specification[ String::push ](s: &mut String, ch: char)
    ensures
        final(s)@ == old(s)@.push(ch),
;

/// Whether `c` has the Unicode property `White_Space`.
pub open spec fn white_space(c: char) -> bool {
    let n = c as u32;
    ||| 0x09 <= n <= 0x0D
    ||| n == 0x20
    ||| n == 0x85
    ||| n == 0xA0
    ||| n == 0x1680
    ||| 0x2000 <= n <= 0x200A
    ||| n == 0x2028
    ||| n == 0x2029
    ||| n == 0x202F
    ||| n == 0x205F
    ||| n == 0x3000
}

/// Whether `c` is one of `0-9`, `A-Z`, `a-z`.
pub open spec fn ascii_alphanumeric(c: char) -> bool {
    ||| '0' <= c <= '9'
    ||| 'A' <= c <= 'Z'
    ||| 'a' <= c <= 'z'
}

/// `c` with `A-Z` mapped to `a-z`; every other character is itself.
pub open spec fn ascii_lower(c: char) -> char {
    if 'A' <= c <= 'Z' {
        ((c as u8) + 32) as char
    } else {
        c
    }
}

/// The length of the longest prefix of `s` whose characters all meet `p`.
pub open spec fn leading_run(s: Seq<char>, p: spec_fn(char) -> bool) -> nat
    decreases s.len(),
{
    if s.len() > 0 && p(s.first()) {
        1 + leading_run(s.drop_first(), p)
    } else {
        0
    }
}

/// The length of the longest suffix of `s` whose characters all meet `p`.
pub open spec fn trailing_run(s: Seq<char>, p: spec_fn(char) -> bool) -> nat
    decreases s.len(),
{
    if s.len() > 0 && p(s.last()) {
        1 + trailing_run(s.drop_last(), p)
    } else {
        0
    }
}

/// [`white_space`] as a predicate.
pub open spec fn is_white_space() -> spec_fn(char) -> bool {
    |c: char| white_space(c)
}

/// `s` without its leading white space.
pub open spec fn trim_start(s: Seq<char>) -> Seq<char> {
    s.skip(leading_run(s, is_white_space()) as int)
}

/// `s` without its trailing white space.
pub open spec fn trim_end(s: Seq<char>) -> Seq<char> {
    s.take(s.len() - trailing_run(s, is_white_space()))
}

/// `s` without leading and trailing white space.
pub open spec fn trim(s: Seq<char>) -> Seq<char> {
    trim_end(trim_start(s))
}

/// `s` with every character lowered by [`ascii_lower`].
pub open spec fn to_ascii_lowercase(s: Seq<char>) -> Seq<char> {
    s.map_values(|c: char| ascii_lower(c))
}

/// Whether `pattern` stands in `s` at index `at`.
pub open spec fn occurs_at(s: Seq<char>, pattern: Seq<char>, at: int) -> bool {
    &&& 0 <= at
    &&& at + pattern.len() <= s.len()
    &&& s.subrange(at, at + pattern.len()) == pattern
}

/// The least index at or after `from` where `pattern` stands in `s`.
pub open spec fn find_from(s: Seq<char>, pattern: Seq<char>, from: int) -> Option<int>
    decreases s.len() + 1 - from,
{
    if from < 0 || from + pattern.len() > s.len() {
        None
    } else if occurs_at(s, pattern, from) {
        Some(from)
    } else {
        find_from(s, pattern, from + 1)
    }
}

/// The least index where `pattern` stands in `s`, if it stands anywhere.
pub open spec fn find(s: Seq<char>, pattern: Seq<char>) -> Option<int> {
    find_from(s, pattern, 0)
}

/// The number of characters before the first line feed of `s`; the length
/// of `s` where it holds none.
pub open spec fn first_newline(s: Seq<char>) -> nat
    decreases s.len(),
{
    if s.len() == 0 || s.first() == '\n' {
        0
    } else {
        1 + first_newline(s.drop_first())
    }
}

/// `line` without one trailing carriage return.
pub open spec fn strip_carriage_return(line: Seq<char>) -> Seq<char> {
    if line.len() > 0 && line.last() == '\r' {
        line.drop_last()
    } else {
        line
    }
}

/// The lines of `text`. A line ends at a line feed, or at a carriage return
/// directly followed by one; the ending is not part of the line. The last
/// line needs no ending, and a text that ends in a line ending has no empty
/// line after it.
pub open spec fn lines(text: Seq<char>) -> Seq<Seq<char>>
    decreases text.len(),
{
    if text.len() == 0 {
        Seq::empty()
    } else {
        let n = first_newline(text);
        if n >= text.len() {
            seq![text]
        } else {
            seq![strip_carriage_return(text.take(n as int))] + lines(text.skip(n as int + 1))
        }
    }
}

/// The texts of a sequence of strings.
pub open spec fn texts(strings: Seq<String>) -> Seq<Seq<char>> {
    strings.map_values(|s: String| s@)
}

/// What [`find`] returns is the first place where the pattern stands: it
/// stands there and nowhere before, and `None` means that it stands nowhere.
pub proof fn lemma_find_is_first(s: Seq<char>, pattern: Seq<char>)
    ensures
        match find(s, pattern) {
            Some(i) => occurs_at(s, pattern, i) && forall|j: int| 0 <= j < i ==> !occurs_at(
                s,
                pattern,
                j,
            ),
            None => forall|j: int| !occurs_at(s, pattern, j),
        },
{
    lemma_find_from(s, pattern, 0);
}

proof fn lemma_find_from(s: Seq<char>, pattern: Seq<char>, from: int)
    requires
        0 <= from,
    ensures
        match find_from(s, pattern, from) {
            Some(i) => from <= i && occurs_at(s, pattern, i) && forall|j: int|
                from <= j < i ==> !occurs_at(s, pattern, j),
            None => forall|j: int| from <= j ==> !occurs_at(s, pattern, j),
        },
    decreases s.len() + 1 - from,
{
    if from + pattern.len() > s.len() {
    } else if occurs_at(s, pattern, from) {
    } else {
        lemma_find_from(s, pattern, from + 1);
    }
}

/// `n` is [`leading_run`] of `s` as soon as the first `n` characters of
/// `s` meet `p` and the next one, if there is one, does not.
pub proof fn lemma_leading_run(s: Seq<char>, p: spec_fn(char) -> bool, n: nat)
    requires
        n <= s.len(),
        forall|i: int| 0 <= i < n ==> p(#[trigger] s[i]),
        n < s.len() ==> !p(s[n as int]),
    ensures
        leading_run(s, p) == n,
    decreases n,
{
    if n > 0 {
        let t = s.drop_first();
        assert forall|i: int| 0 <= i < n - 1 implies p(#[trigger] t[i]) by {
            assert(t[i] == s[i + 1]);
        }
        lemma_leading_run(t, p, (n - 1) as nat);
    }
}

/// `n` is [`trailing_run`] of `s` as soon as the last `n` characters of `s`
/// meet `p` and the one before them, if there is one, does not.
pub proof fn lemma_trailing_run(s: Seq<char>, p: spec_fn(char) -> bool, n: nat)
    requires
        n <= s.len(),
        forall|i: int| s.len() - n <= i < s.len() ==> p(#[trigger] s[i]),
        n < s.len() ==> !p(s[s.len() - n - 1]),
    ensures
        trailing_run(s, p) == n,
    decreases n,
{
    if n > 0 {
        let t = s.drop_last();
        assert forall|i: int| t.len() - (n - 1) <= i < t.len() implies p(#[trigger] t[i]) by {
            assert(t[i] == s[i]);
        }
        lemma_trailing_run(t, p, (n - 1) as nat);
    }
}

/// [`leading_run`] counts a prefix that meets `p` and that no character
/// meeting `p` follows.
pub proof fn lemma_leading_run_bounds(s: Seq<char>, p: spec_fn(char) -> bool)
    ensures
        leading_run(s, p) <= s.len(),
        forall|i: int| 0 <= i < leading_run(s, p) ==> p(#[trigger] s[i]),
        leading_run(s, p) < s.len() ==> !p(s[leading_run(s, p) as int]),
    decreases s.len(),
{
    if s.len() > 0 && p(s.first()) {
        let t = s.drop_first();
        lemma_leading_run_bounds(t, p);
        assert forall|i: int| 0 <= i < leading_run(s, p) implies p(#[trigger] s[i]) by {
            if i > 0 {
                assert(s[i] == t[i - 1]);
            }
        }
        if leading_run(s, p) < s.len() {
            assert(s[leading_run(s, p) as int] == t[leading_run(t, p) as int]);
        }
    }
}

/// [`trailing_run`] counts a suffix that meets `p` and that no character
/// meeting `p` precedes.
pub proof fn lemma_trailing_run_bounds(s: Seq<char>, p: spec_fn(char) -> bool)
    ensures
        trailing_run(s, p) <= s.len(),
        forall|i: int| s.len() - trailing_run(s, p) <= i < s.len() ==> p(#[trigger] s[i]),
        trailing_run(s, p) < s.len() ==> !p(s[s.len() - trailing_run(s, p) - 1]),
    decreases s.len(),
{
    if s.len() > 0 && p(s.last()) {
        let t = s.drop_last();
        lemma_trailing_run_bounds(t, p);
        assert forall|i: int| s.len() - trailing_run(s, p) <= i < s.len() implies p(
            #[trigger] s[i],
        ) by {
            if i < s.len() - 1 {
                assert(s[i] == t[i]);
            }
        }
        if trailing_run(s, p) < s.len() {
            assert(s[s.len() - trailing_run(s, p) - 1] == t[t.len() - trailing_run(t, p) - 1]);
        }
    }
}

/// What [`trim`] returns neither starts nor ends with white space, and
/// trimming it again changes nothing.
pub proof fn lemma_trim_is_trimmed(s: Seq<char>)
    ensures
        trim(s).len() > 0 ==> !white_space(trim(s).first()) && !white_space(trim(s).last()),
        trim(trim(s)) == trim(s),
{
    let p = is_white_space();
    lemma_leading_run_bounds(s, p);
    let t = trim_start(s);
    lemma_trailing_run_bounds(t, p);
    let r = trim(s);
    if r.len() > 0 {
        assert(r.first() == s[leading_run(s, p) as int]);
        assert(r.last() == t[t.len() - trailing_run(t, p) - 1]);
    }
    lemma_leading_run(r, p, 0);
    lemma_trailing_run(r, p, 0);
    assert(r.skip(0) == r);
    assert(r.take(r.len() as int) == r);
}

/// `n` is [`first_newline`] of `s` as soon as no line feed stands before
/// index `n` and one stands at `n`, or `n` is the length of `s`.
pub proof fn lemma_first_newline(s: Seq<char>, n: nat)
    requires
        n <= s.len(),
        forall|i: int| 0 <= i < n ==> #[trigger] s[i] != '\n',
        n < s.len() ==> s[n as int] == '\n',
    ensures
        first_newline(s) == n,
    decreases n,
{
    if n > 0 {
        let t = s.drop_first();
        assert forall|i: int| 0 <= i < n - 1 implies #[trigger] t[i] != '\n' by {
            assert(t[i] == s[i + 1]);
        }
        lemma_first_newline(t, (n - 1) as nat);
    }
}

/// The lines of a text in two parts, cut behind a line feed, are the lines
/// of the first part followed by those of the second.
pub proof fn lemma_lines_concat(head: Seq<char>, tail: Seq<char>)
    requires
        head.len() > 0,
        head.last() == '\n',
    ensures
        lines(head + tail) == lines(head) + lines(tail),
    decreases head.len(),
{
    let all = head + tail;
    lemma_first_newline_bounds(head);
    let n = first_newline(head);
    if n == head.len() {
        assert(head[head.len() - 1] == '\n');
    }
    assert forall|i: int| 0 <= i < n implies #[trigger] all[i] != '\n' by {
        assert(all[i] == head[i]);
    }
    assert(all[n as int] == head[n as int]);
    lemma_first_newline(all, n);
    assert(all.take(n as int) == head.take(n as int));
    let rest = head.skip(n as int + 1);
    assert(all.skip(n as int + 1) == rest + tail);
    if rest.len() == 0 {
        assert(rest + tail == tail);
        assert(lines(rest) == Seq::<Seq<char>>::empty());
    } else {
        assert(rest.last() == head.last());
        lemma_lines_concat(rest, tail);
    }
}

/// [`first_newline`] is at most the length of the text, no line feed stands
/// before it, and one stands at it unless it is the length.
pub proof fn lemma_first_newline_bounds(s: Seq<char>)
    ensures
        first_newline(s) <= s.len(),
        forall|i: int| 0 <= i < first_newline(s) ==> #[trigger] s[i] != '\n',
        first_newline(s) < s.len() ==> s[first_newline(s) as int] == '\n',
    decreases s.len(),
{
    if s.len() > 0 && s.first() != '\n' {
        let t = s.drop_first();
        lemma_first_newline_bounds(t);
        assert forall|i: int| 0 <= i < first_newline(s) implies #[trigger] s[i] != '\n' by {
            if i > 0 {
                assert(s[i] == t[i - 1]);
            }
        }
        if first_newline(s) < s.len() {
            assert(s[first_newline(s) as int] == t[first_newline(t) as int]);
        }
    }
}

/// `filter_map` of a concatenation is the concatenation of the two
/// `filter_map`s.
pub proof fn lemma_filter_map_concat<A, B>(a: Seq<A>, b: Seq<A>, f: spec_fn(A) -> Option<B>)
    ensures
        (a + b).filter_map(f) == a.filter_map(f) + b.filter_map(f),
    decreases b.len(),
{
    if b.len() == 0 {
        assert(a + b == a);
    } else {
        lemma_filter_map_concat(a, b.drop_last(), f);
        assert((a + b).drop_last() == a + b.drop_last());
        assert((a + b).last() == b.last());
    }
}

/// The characters of `s`, in order.
pub fn chars_of(s: &str) -> (out: Vec<char>)
    ensures
        out@ == s@,
{
    let mut out: Vec<char> = Vec::new();
    for c in it: s.chars()
        invariant
            out@ == it.seq().take(it.index()),
            it.seq() == s@,
    {
        out.push(c);
    }
    out
}

/// The string made of `chars[from..to]`.
pub fn string_of(chars: &Vec<char>, from: usize, to: usize) -> (out: String)
    requires
        from <= to <= chars.len(),
    ensures
        out@ == chars@.subrange(from as int, to as int),
{
    let mut out = String::new();
    let mut i: usize = from;
    while i < to
        invariant
            from <= i <= to <= chars.len(),
            out@ == chars@.subrange(from as int, i as int),
        decreases to - i,
    {
        out.push(chars[i]);
        i += 1;
    }
    out
}

/// Appends the characters of `s` to `out`.
pub fn append_text(out: &mut String, s: &str)
    ensures
        final(out)@ == old(out)@ + s@,
{
    let chars = chars_of(s);
    let mut i: usize = 0;
    while i < chars.len()
        invariant
            i <= chars.len(),
            chars@ == s@,
            out@ == old(out)@ + chars@.take(i as int),
        decreases chars.len() - i,
    {
        out.push(chars[i]);
        i += 1;
    }
    assert(chars@.take(chars@.len() as int) == chars@);
}

/// Tests the Unicode property `White_Space`.
pub fn is_whitespace(c: char) -> (r: bool)
    ensures
        r == white_space(c),
{
    let n: u32 = c as u32;
    (0x09 <= n && n <= 0x0D) || n == 0x20 || n == 0x85 || n == 0xA0 || n == 0x1680 || (0x2000 <= n
        && n <= 0x200A) || n == 0x2028 || n == 0x2029 || n == 0x202F || n == 0x205F || n == 0x3000
}

/// Tests for an ASCII letter or digit.
pub fn is_ascii_alphanumeric(c: char) -> (r: bool)
    ensures
        r == ascii_alphanumeric(c),
{
    ('0' <= c && c <= '9') || ('A' <= c && c <= 'Z') || ('a' <= c && c <= 'z')
}

/// Lowers one ASCII letter.
pub fn lower_char(c: char) -> (r: char)
    ensures
        r == ascii_lower(c),
{
    if 'A' <= c && c <= 'Z' {
        ((c as u8) + 32) as char
    } else {
        c
    }
}

/// The bounds of `chars[from..to]` without its leading and trailing white
/// space.
pub fn trim_bounds(chars: &Vec<char>, from: usize, to: usize) -> (r: (usize, usize))
    requires
        from <= to <= chars.len(),
    ensures
        from <= r.0 <= r.1 <= to,
        chars@.subrange(r.0 as int, r.1 as int) == trim(chars@.subrange(from as int, to as int)),
{
    let ghost s = chars@.subrange(from as int, to as int);
    let mut a: usize = from;
    while a < to && is_whitespace(chars[a])
        invariant
            from <= a <= to <= chars.len(),
            forall|i: int| from <= i < a ==> white_space(#[trigger] chars@[i]),
        decreases to - a,
    {
        a += 1;
    }
    let mut b: usize = to;
    while b > a && is_whitespace(chars[b - 1])
        invariant
            a <= b <= to <= chars.len(),
            forall|i: int| b <= i < to ==> white_space(#[trigger] chars@[i]),
        decreases b,
    {
        b -= 1;
    }
    proof {
        assert forall|i: int| 0 <= i < a - from implies white_space(#[trigger] s[i]) by {
            assert(s[i] == chars@[from + i]);
        }
        lemma_leading_run(s, is_white_space(), (a - from) as nat);
        let t = s.skip(a - from);
        assert forall|i: int| t.len() - (to - b) <= i < t.len() implies white_space(
            #[trigger] t[i],
        ) by {
            assert(t[i] == chars@[a + i]);
        }
        lemma_trailing_run(t, is_white_space(), (to - b) as nat);
        assert(t.take(t.len() - (to - b)) == chars@.subrange(a as int, b as int));
    }
    (a, b)
}

/// Whether `pattern` stands in `chars` at index `at`.
pub fn matches_at(chars: &Vec<char>, at: usize, pattern: &Vec<char>) -> (r: bool)
    requires
        at + pattern.len() <= chars.len(),
    ensures
        r == (chars@.subrange(at as int, at + pattern.len()) == pattern@),
{
    let mut k: usize = 0;
    while k < pattern.len()
        invariant
            k <= pattern.len(),
            at + pattern.len() <= chars.len(),
            forall|j: int| 0 <= j < k ==> chars@[at + j] == pattern@[j],
        decreases pattern.len() - k,
    {
        if chars[at + k] != pattern[k] {
            proof {
                let w = chars@.subrange(at as int, at + pattern.len());
                assert(w[k as int] == chars@[at + k]);
            }
            return false;
        }
        k += 1;
    }
    assert(chars@.subrange(at as int, at + pattern.len()) =~= pattern@);
    true
}

/// The first index in `from..to` at which `pattern` stands wholly inside
/// `chars[from..to]`.
pub fn find_in(chars: &Vec<char>, from: usize, to: usize, pattern: &Vec<char>) -> (r: Option<
    usize,
>)
    requires
        from <= to <= chars.len(),
    ensures
        match find(chars@.subrange(from as int, to as int), pattern@) {
            Some(i) => r is Some && r->0 == from + i && 0 <= i && from + i + pattern@.len() <= to,
            None => r is None,
        },
{
    let ghost s = chars@.subrange(from as int, to as int);
    let m = pattern.len();
    let mut i: usize = from;
    while to - i >= m
        invariant
            from <= i <= to <= chars.len(),
            m == pattern@.len(),
            s == chars@.subrange(from as int, to as int),
            find(s, pattern@) == find_from(s, pattern@, i - from),
        decreases to - i,
    {
        let hit = matches_at(chars, i, pattern);
        proof {
            assert(s.subrange(i - from, i - from + m) == chars@.subrange(i as int, i + m));
            if m == 0 {
                assert(chars@.subrange(i as int, i + m) =~= pattern@);
            }
        }
        if hit {
            return Some(i);
        }
        i += 1;
    }
    None
}

/// The index of the first line feed at or after `from`; the length of
/// `chars` where there is none.
pub fn line_end(chars: &Vec<char>, from: usize) -> (r: usize)
    requires
        from <= chars.len(),
    ensures
        from <= r <= chars.len(),
        r - from == first_newline(chars@.skip(from as int)),
{
    let mut r: usize = from;
    while r < chars.len() && chars[r] != '\n'
        invariant
            from <= r <= chars.len(),
            forall|i: int| from <= i < r ==> #[trigger] chars@[i] != '\n',
        decreases chars.len() - r,
    {
        r += 1;
    }
    proof {
        let s = chars@.skip(from as int);
        assert forall|i: int| 0 <= i < r - from implies #[trigger] s[i] != '\n' by {
            assert(s[i] == chars@[from + i]);
        }
        lemma_first_newline(s, (r - from) as nat);
    }
    r
}

/// Whether two strings hold the same characters.
pub fn same_text(a: &str, b: &str) -> (r: bool)
    ensures
        r == (a@ == b@),
{
    let x = chars_of(a);
    let y = chars_of(b);
    if x.len() != y.len() {
        return false;
    }
    let hit = matches_at(&x, 0, &y);
    assert(x@.subrange(0, y@.len() as int) == x@);
    hit
}

/// A copy of `s` without leading and trailing white space.
pub fn trimmed(s: &str) -> (out: String)
    ensures
        out@ == trim(s@),
{
    let chars = chars_of(s);
    assert(chars@.subrange(0, chars@.len() as int) == chars@);
    let (a, b) = trim_bounds(&chars, 0, chars.len());
    string_of(&chars, a, b)
}

/// A copy of `s` with `A-Z` lowered.
pub fn lowercased(s: &str) -> (out: String)
    ensures
        out@ == to_ascii_lowercase(s@),
{
    let chars = chars_of(s);
    let mut out = String::new();
    let mut i: usize = 0;
    while i < chars.len()
        invariant
            i <= chars.len(),
            out@ == to_ascii_lowercase(chars@.take(i as int)),
        decreases chars.len() - i,
    {
        out.push(lower_char(chars[i]));
        proof {
            assert(to_ascii_lowercase(chars@.take(i + 1)) == to_ascii_lowercase(
                chars@.take(i as int),
            ).push(ascii_lower(chars@[i as int])));
        }
        i += 1;
    }
    assert(chars@.take(chars@.len() as int) == chars@);
    out
}

/// The lines of `text`, each as a string of its own.
pub fn split_lines(text: &str) -> (out: Vec<String>)
    ensures
        texts(out@) == lines(text@),
{
    let chars = chars_of(text);
    let mut out: Vec<String> = Vec::new();
    let mut pos: usize = 0;
    proof {
        assert(chars@.skip(0) == chars@);
        assert(texts(out@) == Seq::<Seq<char>>::empty());
    }
    while pos < chars.len()
        invariant
            pos <= chars.len(),
            chars@ == text@,
            lines(text@) == texts(out@) + lines(chars@.skip(pos as int)),
        decreases chars.len() - pos,
    {
        let ghost rest = chars@.skip(pos as int);
        let ghost before = texts(out@);
        let end = line_end(&chars, pos);
        let mut stop = end;
        if end < chars.len() && stop > pos && chars[stop - 1] == '\r' {
            stop = stop - 1;
        }
        let next = if end < chars.len() {
            end + 1
        } else {
            end
        };
        let line = string_of(&chars, pos, stop);
        proof {
            if end < chars.len() {
                assert(rest.take(end - pos) == chars@.subrange(pos as int, end as int));
                assert(strip_carriage_return(chars@.subrange(pos as int, end as int)) == line@);
                assert(rest.skip(end - pos + 1) == chars@.skip(next as int));
            } else {
                assert(rest == line@);
                assert(lines(chars@.skip(next as int)) == Seq::<Seq<char>>::empty());
            }
            assert(lines(rest) == seq![line@] + lines(chars@.skip(next as int)));
            assert(texts(out@.push(line)) == before.push(line@));
        }
        out.push(line);
        pos = next;
    }
    proof {
        assert(chars@.skip(pos as int).len() == 0);
    }
    out
}

} // verus!
