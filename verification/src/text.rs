//! Character-level string operations, each specified over `Seq<char>`.
//!
//! Every operation here works on the characters of a string (`s@`), which is
//! how the rest of the library states its contracts.
use vstd::prelude::*;

verus! {

// ---------------------------------------------------------------------------
// Specifications
// ---------------------------------------------------------------------------

/// `p` is a prefix of `s`.
pub open spec fn has_prefix(s: Seq<char>, p: Seq<char>) -> bool {
    p.len() <= s.len() && s.take(p.len() as int) == p
}

/// `p` is a suffix of `s`.
pub open spec fn has_suffix(s: Seq<char>, p: Seq<char>) -> bool {
    p.len() <= s.len() && s.skip(s.len() - p.len()) == p
}

/// `p` occurs in `s` starting at index `i`.
pub open spec fn occurs_at(s: Seq<char>, p: Seq<char>, i: int) -> bool {
    0 <= i && i + p.len() <= s.len() && s.subrange(i, i + p.len()) == p
}

/// The first index at or after `from` where `p` occurs in `s`, or -1.
pub open spec fn match_from(s: Seq<char>, p: Seq<char>, from: int) -> int
    decreases s.len() + 1 - from,
{
    if from < 0 || from + p.len() > s.len() {
        -1
    } else if occurs_at(s, p, from) {
        from
    } else {
        match_from(s, p, from + 1)
    }
}

/// The first index where `p` occurs in `s`, or -1.
pub open spec fn first_match(s: Seq<char>, p: Seq<char>) -> int {
    match_from(s, p, 0)
}

/// `s` holds `p` somewhere.
pub open spec fn contains_seq(s: Seq<char>, p: Seq<char>) -> bool {
    first_match(s, p) >= 0
}

/// The pieces of `s` between the non-overlapping occurrences of `p`, found left to right
/// (the pieces that `str::split` yields for a non-empty pattern).
pub open spec fn split_on(s: Seq<char>, p: Seq<char>) -> Seq<Seq<char>>
    decreases s.len(),
{
    let i = first_match(s, p);
    if p.len() == 0 || i < 0 {
        seq![s]
    } else {
        proof {
            lemma_match_from_bounds(s, p, 0);
        }
        seq![s.take(i)] + split_on(s.skip(i + p.len()), p)
    }
}

/// `s` with every non-overlapping occurrence of `p` (found left to right) replaced by `r`.
pub open spec fn replace_all(s: Seq<char>, p: Seq<char>, r: Seq<char>) -> Seq<char>
    decreases s.len(),
{
    let i = first_match(s, p);
    if p.len() == 0 || i < 0 {
        s
    } else {
        proof {
            lemma_match_from_bounds(s, p, 0);
        }
        s.take(i) + r + replace_all(s.skip(i + p.len()), p, r)
    }
}

/// The index of the first character of `s` at or after `from` that is `c`, or -1.
pub open spec fn char_from(s: Seq<char>, c: char, from: int) -> int
    decreases s.len() - from,
{
    if from < 0 || from >= s.len() {
        -1
    } else if s[from] == c {
        from
    } else {
        char_from(s, c, from + 1)
    }
}

/// The index of the first `c` in `s`, or -1.
pub open spec fn first_char(s: Seq<char>, c: char) -> int {
    char_from(s, c, 0)
}

/// The index of the last `c` in `s`, or -1.
pub open spec fn last_char(s: Seq<char>, c: char) -> int
    decreases s.len(),
{
    if s.len() == 0 {
        -1
    } else if s.last() == c {
        s.len() - 1
    } else {
        last_char(s.drop_last(), c)
    }
}

/// What follows the last `c` in `s` (all of `s` when it holds no `c`): the first item
/// that `s.rsplit(c)` yields.
pub open spec fn after_last(s: Seq<char>, c: char) -> Seq<char> {
    s.skip(last_char(s, c) + 1)
}

/// The longest prefix of `s` whose characters all fail `stop`: the first item that
/// `s.split(stop)` yields.
pub open spec fn prefix_until(s: Seq<char>, stop: spec_fn(char) -> bool) -> Seq<char>
    decreases s.len(),
{
    if s.len() == 0 {
        s
    } else if stop(s[0]) {
        Seq::empty()
    } else {
        seq![s[0]] + prefix_until(s.skip(1), stop)
    }
}

/// `s` without all its trailing `c`s.
pub open spec fn trim_end_char(s: Seq<char>, c: char) -> Seq<char>
    decreases s.len(),
{
    if s.len() > 0 && s.last() == c {
        trim_end_char(s.drop_last(), c)
    } else {
        s
    }
}

/// Unicode `White_Space`, the property behind `char::is_whitespace`.
pub open spec fn is_ws(c: char) -> bool {
    ||| ('\t' <= c && c <= '\r')
    ||| c == ' '
    ||| c == '\u{85}'
    ||| c == '\u{a0}'
    ||| c == '\u{1680}'
    ||| ('\u{2000}' <= c && c <= '\u{200a}')
    ||| c == '\u{2028}'
    ||| c == '\u{2029}'
    ||| c == '\u{202f}'
    ||| c == '\u{205f}'
    ||| c == '\u{3000}'
}

/// `s` without its leading whitespace.
pub open spec fn trim_start(s: Seq<char>) -> Seq<char>
    decreases s.len(),
{
    if s.len() > 0 && is_ws(s[0]) {
        trim_start(s.skip(1))
    } else {
        s
    }
}

/// `s` without its trailing whitespace.
pub open spec fn trim_end(s: Seq<char>) -> Seq<char>
    decreases s.len(),
{
    if s.len() > 0 && is_ws(s.last()) {
        trim_end(s.drop_last())
    } else {
        s
    }
}

/// `s` without leading and trailing whitespace (`str::trim`).
pub open spec fn trim(s: Seq<char>) -> Seq<char> {
    trim_end(trim_start(s))
}

/// `s` is empty or all whitespace.
pub open spec fn is_blank(s: Seq<char>) -> bool {
    forall|i: int| 0 <= i < s.len() ==> is_ws(#[trigger] s[i])
}

/// `c` is an ASCII decimal digit.
pub open spec fn is_digit(c: char) -> bool {
    '0' <= c && c <= '9'
}

/// Every character of `s` is an ASCII decimal digit (true of the empty sequence).
pub open spec fn all_digits(s: Seq<char>) -> bool {
    forall|i: int| 0 <= i < s.len() ==> is_digit(#[trigger] s[i])
}

/// ASCII lowercase of one character.
pub open spec fn ascii_lower(c: char) -> char {
    if 'A' <= c && c <= 'Z' {
        ((c as u32) + 32) as char
    } else {
        c
    }
}

/// The decimal digits of `n`, without leading zeros ("0" for zero).
pub open spec fn decimal(n: nat) -> Seq<char>
    decreases n,
{
    if n < 10 {
        seq![digit_char(n)]
    } else {
        decimal(n / 10) + seq![digit_char(n % 10)]
    }
}

/// The ASCII digit for `d < 10`.
pub open spec fn digit_char(d: nat) -> char {
    (('0' as u32) + d) as char
}

/// `s` with every ASCII capital letter made small (`str::to_ascii_lowercase`).
pub open spec fn lower_ascii(s: Seq<char>) -> Seq<char> {
    s.map_values(|c: char| ascii_lower(c))
}

/// `s` has a path component `..` when split at `/`.
pub open spec fn has_dotdot_component(s: Seq<char>) -> bool {
    exists|i: int| #[trigger] dotdot_at(s, i)
}

/// A `..` component starts at index `i` of `s`.
pub open spec fn dotdot_at(s: Seq<char>, i: int) -> bool {
    &&& 0 <= i && i + 2 <= s.len()
    &&& s[i] == '.' && s[i + 1] == '.'
    &&& (i == 0 || s[i - 1] == '/')
    &&& (i + 2 == s.len() || s[i + 2] == '/')
}

/// `rel` appended to the path `base` as `PathBuf::push` does on Unix: an absolute
/// `rel` replaces `base`; otherwise a `/` goes between them unless `base` is empty or
/// already ends with one.
pub open spec fn path_join(base: Seq<char>, rel: Seq<char>) -> Seq<char> {
    if rel.len() > 0 && rel[0] == '/' {
        rel
    } else if base.len() == 0 || base.last() == '/' {
        base + rel
    } else {
        base + seq!['/'] + rel
    }
}

/// The characters of each string in `v`.
pub open spec fn views(v: Seq<String>) -> Seq<Seq<char>> {
    v.map_values(|x: String| x@)
}

/// `s` cut before its first character that is in `stops` (all of `s` when none is).
pub open spec fn cut_at_any(s: Seq<char>, stops: Seq<char>) -> Seq<char> {
    prefix_until(s, |c: char| stops.contains(c))
}

/// The whitespace-separated words of `s`, in order (`str::split_whitespace`).
pub open spec fn words(s: Seq<char>) -> Seq<Seq<char>>
    decreases s.len(),
{
    let t = trim_start(s);
    if t.len() == 0 {
        Seq::empty()
    } else {
        let w = prefix_until(t, |c: char| is_ws(c));
        proof {
            lemma_trim_start_len(s);
            lemma_prefix_until_take(t, |c: char| is_ws(c));
        }
        seq![w] + words(t.skip(w.len() as int))
    }
}

/// The items of `parts` joined with `sep` between each two.
pub open spec fn join_with(parts: Seq<Seq<char>>, sep: Seq<char>) -> Seq<char>
    decreases parts.len(),
{
    if parts.len() == 0 {
        Seq::empty()
    } else if parts.len() == 1 {
        parts[0]
    } else {
        join_with(parts.drop_last(), sep) + sep + parts.last()
    }
}

/// The lines of `s` as `str::lines` yields them: split at `\n`, no empty last line after
/// a final `\n`, and one `\r` dropped from the end of each line.
pub open spec fn lines(s: Seq<char>) -> Seq<Seq<char>> {
    let parts = split_on(s, seq!['\n']);
    let kept = if s.len() == 0 || s.last() == '\n' {
        parts.drop_last()
    } else {
        parts
    };
    kept.map_values(|l: Seq<char>| strip_cr(l))
}

/// `l` without one trailing `\r`.
pub open spec fn strip_cr(l: Seq<char>) -> Seq<char> {
    if l.len() > 0 && l.last() == '\r' {
        l.drop_last()
    } else {
        l
    }
}

/// Lexicographic order on characters, by code point: the order `str` and `String`
/// compare in, since UTF-8 keeps code-point order byte by byte.
pub open spec fn text_lt(a: Seq<char>, b: Seq<char>) -> bool
    decreases a.len(),
{
    if a.len() == 0 {
        b.len() > 0
    } else if b.len() == 0 {
        false
    } else if a[0] != b[0] {
        a[0] < b[0]
    } else {
        text_lt(a.skip(1), b.skip(1))
    }
}

/// Each item comes strictly before the next in `text_lt` order (so none repeats).
pub open spec fn strictly_sorted(s: Seq<Seq<char>>) -> bool {
    forall|i: int, j: int| 0 <= i < j < s.len() ==> text_lt(#[trigger] s[i], #[trigger] s[j])
}

/// `s` without its leading `c`s (`str::trim_start_matches` with one character).
pub open spec fn trim_start_char(s: Seq<char>, c: char) -> Seq<char>
    decreases s.len(),
{
    if s.len() > 0 && s[0] == c {
        trim_start_char(s.skip(1), c)
    } else {
        s
    }
}

// ---------------------------------------------------------------------------
// Lemmas
// ---------------------------------------------------------------------------

/// A match found from `from` is a real, in-bounds occurrence, and no earlier one exists.
pub proof fn lemma_match_from_bounds(s: Seq<char>, p: Seq<char>, from: int)
    ensures
        match_from(s, p, from) == -1 || (from <= match_from(s, p, from) && occurs_at(
            s,
            p,
            match_from(s, p, from),
        )),
        match_from(s, p, from) != -1 ==> match_from(s, p, from) + p.len() <= s.len(),
        forall|j: int|
            0 <= from <= j && (match_from(s, p, from) == -1 || j < match_from(s, p, from))
                ==> !occurs_at(s, p, j),
    decreases s.len() + 1 - from,
{
    if from < 0 || from + p.len() > s.len() {
    } else if occurs_at(s, p, from) {
    } else {
        lemma_match_from_bounds(s, p, from + 1);
    }
}

/// A text in which `p` occurs at `k` holds `p`.
pub proof fn lemma_contains_at(s: Seq<char>, p: Seq<char>, k: int)
    requires
        occurs_at(s, p, k),
    ensures
        contains_seq(s, p),
{
    lemma_match_from_bounds(s, p, 0);
}

/// A text that lacks one of the characters of `p` does not hold `p`.
pub proof fn lemma_lacks_char(s: Seq<char>, p: Seq<char>, c: char)
    requires
        p.contains(c),
        !s.contains(c),
    ensures
        !contains_seq(s, p),
{
    lemma_match_from_bounds(s, p, 0);
    if contains_seq(s, p) {
        let k = first_match(s, p);
        let j = choose|j: int| 0 <= j < p.len() && p[j] == c;
        assert(s.subrange(k, k + p.len())[j] == s[k + j]);
        assert(s.contains(c));
    }
}

/// An occurrence of `p` in `a`, `c`, `b` run together, where `c` is not a character of
/// `p`, lies wholly in `a` or wholly in `b`.
pub proof fn lemma_contains_split(a: Seq<char>, c: char, b: Seq<char>, p: Seq<char>)
    requires
        !p.contains(c),
    ensures
        contains_seq(a + seq![c] + b, p) ==> contains_seq(a, p) || contains_seq(b, p),
{
    let s = a + seq![c] + b;
    lemma_match_from_bounds(s, p, 0);
    if contains_seq(s, p) {
        let k = first_match(s, p);
        if k + p.len() <= a.len() {
            assert(a.subrange(k, k + p.len()) =~= s.subrange(k, k + p.len()));
            lemma_contains_at(a, p, k);
        } else if k > a.len() {
            let k2 = k - a.len() - 1;
            assert(b.subrange(k2, k2 + p.len()) =~= s.subrange(k, k + p.len()));
            lemma_contains_at(b, p, k2);
        } else {
            let j = a.len() - k;
            assert(s[a.len() as int] == c);
            assert(s.subrange(k, k + p.len())[j] == s[k + j]);
            assert(p[j] == c);
            assert(false);
        }
    }
}

/// The char search from `from` finds a real `c`, and none before it.
pub proof fn lemma_char_from_bounds(s: Seq<char>, c: char, from: int)
    ensures
        char_from(s, c, from) == -1 || (from <= char_from(s, c, from) < s.len() && s[char_from(
            s,
            c,
            from,
        )] == c),
        forall|j: int|
            0 <= from <= j < s.len() && (char_from(s, c, from) == -1 || j < char_from(
                s,
                c,
                from,
            )) ==> s[j] != c,
    decreases s.len() - from,
{
    if from < 0 || from >= s.len() {
    } else if s[from] == c {
    } else {
        lemma_char_from_bounds(s, c, from + 1);
    }
}

/// The digits of a number are all ASCII digits and there is at least one.
pub proof fn lemma_decimal_digits(n: nat)
    ensures
        decimal(n).len() >= 1,
        all_digits(decimal(n)),
    decreases n,
{
    if n >= 10 {
        lemma_decimal_digits(n / 10);
        assert(all_digits(decimal(n))) by {
            assert forall|i: int| 0 <= i < decimal(n).len() implies is_digit(
                #[trigger] decimal(n)[i],
            ) by {
                if i < decimal(n / 10).len() {
                    assert(decimal(n)[i] == decimal(n / 10)[i]);
                }
            }
        }
    }
}


/// Trimming leading whitespace leaves a suffix of the input.
pub proof fn lemma_trim_start_len(s: Seq<char>)
    ensures
        trim_start(s).len() <= s.len(),
        trim_start(s) == s.skip(s.len() - trim_start(s).len()),
        trim_start(s).len() > 0 ==> !is_ws(trim_start(s)[0]),
        forall|i: int| 0 <= i < s.len() - trim_start(s).len() ==> is_ws(#[trigger] s[i]),
    decreases s.len(),
{
    if s.len() > 0 && is_ws(s[0]) {
        lemma_trim_start_len(s.skip(1));
        assert(s.skip(1).skip(s.skip(1).len() - trim_start(s.skip(1)).len()) =~= s.skip(
            s.len() - trim_start(s).len(),
        ));
        assert forall|i: int| 0 <= i < s.len() - trim_start(s).len() implies is_ws(
            #[trigger] s[i],
        ) by {
            if i > 0 {
                assert(s[i] == s.skip(1)[i - 1]);
            }
        }
    } else {
        assert(s.skip(0) =~= s);
    }
}

/// The prefix before the first stop character is a `take` of the input, and every
/// character in it fails `stop`; the character after it, if any, is a stop.
pub proof fn lemma_prefix_until_take(s: Seq<char>, stop: spec_fn(char) -> bool)
    ensures
        prefix_until(s, stop).len() <= s.len(),
        prefix_until(s, stop) == s.take(prefix_until(s, stop).len() as int),
        forall|i: int| 0 <= i < prefix_until(s, stop).len() ==> !stop(#[trigger] s[i]),
        prefix_until(s, stop).len() < s.len() ==> stop(s[prefix_until(s, stop).len() as int]),
    decreases s.len(),
{
    if s.len() == 0 {
    } else if stop(s[0]) {
        assert(s.take(0) =~= Seq::<char>::empty());
    } else {
        lemma_prefix_until_take(s.skip(1), stop);
        let r = prefix_until(s.skip(1), stop);
        assert(seq![s[0]] + r =~= s.take(r.len() + 1int));
        assert forall|i: int| 0 <= i < prefix_until(s, stop).len() implies !stop(
            #[trigger] s[i],
        ) by {
            if i > 0 {
                assert(s[i] == s.skip(1)[i - 1]);
            }
        }
        if r.len() + 1 < s.len() {
            assert(s[r.len() + 1int] == s.skip(1)[r.len() as int]);
        }
    }
}

/// Searching a suffix of `s` is searching `s` further on.
pub proof fn lemma_match_skip(s: Seq<char>, p: Seq<char>, k: int, j: int)
    requires
        0 <= k <= s.len(),
        0 <= j,
    ensures
        match_from(s.skip(k), p, j) == (if match_from(s, p, j + k) == -1 {
            -1
        } else {
            match_from(s, p, j + k) - k
        }),
    decreases s.len() + 1 - (j + k),
{
    let t = s.skip(k);
    if j + p.len() > t.len() {
    } else {
        assert(t.subrange(j, j + p.len()) =~= s.subrange(j + k, j + k + p.len()));
        if occurs_at(t, p, j) {
        } else {
            lemma_match_skip(s, p, k, j + 1);
        }
    }
}

/// One step of splitting the rest of `s` from index `k`.
pub proof fn lemma_split_step(s: Seq<char>, p: Seq<char>, k: int)
    requires
        0 <= k <= s.len(),
        p.len() > 0,
    ensures
        match_from(s, p, k) == -1 ==> split_on(s.skip(k), p) == seq![s.skip(k)],
        match_from(s, p, k) != -1 ==> k <= match_from(s, p, k) && match_from(s, p, k) + p.len()
            <= s.len() && split_on(s.skip(k), p) == seq![s.subrange(k, match_from(s, p, k))]
            + split_on(s.skip(match_from(s, p, k) + p.len()), p),
        match_from(s, p, k) != -1 ==> replace_all(s.skip(k), p, seq![]) == s.subrange(
            k,
            match_from(s, p, k),
        ) + replace_all(s.skip(match_from(s, p, k) + p.len()), p, seq![]),
{
    lemma_match_skip(s, p, k, 0);
    lemma_match_from_bounds(s, p, k);
    let i = match_from(s, p, k);
    if i != -1 {
        assert(s.skip(k).take(i - k) =~= s.subrange(k, i));
        assert(s.skip(k).skip(i - k + p.len()) =~= s.skip(i + p.len()));
    }
}

/// One step of replacing in the rest of `s` from index `k`.
pub proof fn lemma_replace_step(s: Seq<char>, p: Seq<char>, r: Seq<char>, k: int)
    requires
        0 <= k <= s.len(),
        p.len() > 0,
    ensures
        match_from(s, p, k) == -1 ==> replace_all(s.skip(k), p, r) == s.skip(k),
        match_from(s, p, k) != -1 ==> k <= match_from(s, p, k) && match_from(s, p, k) + p.len()
            <= s.len() && replace_all(s.skip(k), p, r) == s.subrange(k, match_from(s, p, k)) + r
            + replace_all(s.skip(match_from(s, p, k) + p.len()), p, r),
{
    lemma_match_skip(s, p, k, 0);
    lemma_match_from_bounds(s, p, k);
    let i = match_from(s, p, k);
    if i != -1 {
        assert(s.skip(k).take(i - k) =~= s.subrange(k, i));
        assert(s.skip(k).skip(i - k + p.len()) =~= s.skip(i + p.len()));
    }
}


/// Splitting always yields at least one piece.
pub proof fn lemma_split_nonempty(s: Seq<char>, p: Seq<char>)
    ensures
        split_on(s, p).len() >= 1,
    decreases s.len(),
{
    let i = first_match(s, p);
    if p.len() == 0 || i < 0 {
    } else {
        lemma_match_from_bounds(s, p, 0);
        lemma_split_nonempty(s.skip(i + p.len()), p);
    }
}


/// Trimming trailing whitespace leaves a prefix of the input that does not end in
/// whitespace.
pub proof fn lemma_trim_end_take(s: Seq<char>)
    ensures
        trim_end(s).len() <= s.len(),
        trim_end(s) == s.take(trim_end(s).len() as int),
        trim_end(s).len() > 0 ==> !is_ws(trim_end(s).last()),
    decreases s.len(),
{
    if s.len() > 0 && is_ws(s.last()) {
        lemma_trim_end_take(s.drop_last());
        let k = trim_end(s).len() as int;
        assert(s.drop_last().take(k) =~= s.take(k));
    } else {
        assert(s.take(s.len() as int) =~= s);
    }
}

/// Trimming a trimmed text changes nothing.
pub proof fn lemma_trim_idempotent(s: Seq<char>)
    ensures
        trim(trim(s)) == trim(s),
{
    let u = trim_start(s);
    lemma_trim_start_len(s);
    lemma_trim_end_take(u);
    let v = trim_end(u);
    if v.len() > 0 {
        assert(v[0] == u[0]);
    }
    assert(trim_start(v) == v);
    assert(trim_end(v) == v);
}

/// `text_lt` is irreflexive, and any two different texts are ordered one way.
pub proof fn lemma_text_lt_total(a: Seq<char>, b: Seq<char>)
    ensures
        !text_lt(a, a),
        a != b ==> text_lt(a, b) || text_lt(b, a),
        !(text_lt(a, b) && text_lt(b, a)),
    decreases a.len(),
{
    if a.len() > 0 {
        lemma_text_lt_total(a.skip(1), a.skip(1));
        if b.len() > 0 {
            lemma_text_lt_total(a.skip(1), b.skip(1));
            if a[0] == b[0] && a != b {
                if a.skip(1) == b.skip(1) {
                    assert(a =~= seq![a[0]] + a.skip(1));
                    assert(b =~= seq![b[0]] + b.skip(1));
                    assert(false);
                }
            }
        }
    } else if b.len() == 0 {
        assert(a =~= b);
    }
}

/// `text_lt` is transitive.
pub proof fn lemma_text_lt_trans(a: Seq<char>, b: Seq<char>, c: Seq<char>)
    requires
        text_lt(a, b),
        text_lt(b, c),
    ensures
        text_lt(a, c),
    decreases a.len(),
{
    if a.len() > 0 && b.len() > 0 && c.len() > 0 && a[0] == b[0] && b[0] == c[0] {
        lemma_text_lt_trans(a.skip(1), b.skip(1), c.skip(1));
    }
}

// ---------------------------------------------------------------------------
// Trusted std calls
// ---------------------------------------------------------------------------

/// `String::push`: appends one character.
#[verifier::external_body]
pub(crate) fn push_char(s: &mut String, c: char)
    ensures
        final(s)@ == old(s)@.push(c),
{
    s.push(c);
}

// ---------------------------------------------------------------------------
// Executable operations
// ---------------------------------------------------------------------------

/// The characters of a string slice, in order.
pub fn chars_of(s: &str) -> (out: Vec<char>)
    ensures
        out@ == s@,
{
    let mut out: Vec<char> = Vec::new();
    for c in it: s.chars()
        invariant
            out@ == it.seq().take(it.index() as int),
    {
        out.push(c);
    }
    out
}

/// A string holding exactly the characters `v[from..to]`.
pub fn string_from(v: &Vec<char>, from: usize, to: usize) -> (out: String)
    requires
        from <= to <= v.len(),
    ensures
        out@ == v@.subrange(from as int, to as int),
{
    let mut out = String::new();
    let mut i = from;
    while i < to
        invariant
            from <= i <= to <= v.len(),
            out@ == v@.subrange(from as int, i as int),
        decreases to - i,
    {
        push_char(&mut out, v[i]);
        i += 1;
    }
    out
}

/// A string holding exactly the characters of `v`.
pub fn string_of(v: &Vec<char>) -> (out: String)
    ensures
        out@ == v@,
{
    let out = string_from(v, 0, v.len());
    assert(v@.subrange(0, v@.len() as int) =~= v@);
    out
}

/// Appends `v[from..to]` to `out`.
pub fn append_range(out: &mut String, v: &Vec<char>, from: usize, to: usize)
    requires
        from <= to <= v.len(),
    ensures
        final(out)@ == old(out)@ + v@.subrange(from as int, to as int),
{
    let mut i = from;
    while i < to
        invariant
            from <= i <= to <= v.len(),
            out@ == old(out)@ + v@.subrange(from as int, i as int),
        decreases to - i,
    {
        push_char(out, v[i]);
        i += 1;
        assert(v@.subrange(from as int, i as int) =~= v@.subrange(from as int, i - 1).push(
            v@[i - 1],
        ));
    }
}

/// Appends all of `s` to `out`.
pub fn append_str(out: &mut String, s: &str)
    ensures
        final(out)@ == old(out)@ + s@,
{
    let v = chars_of(s);
    append_range(out, &v, 0, v.len());
    assert(v@.subrange(0, v@.len() as int) =~= v@);
}

/// `p` occurs in `v` at index `i`.
pub fn occurs_at_exec(v: &Vec<char>, p: &Vec<char>, i: usize) -> (b: bool)
    ensures
        b == occurs_at(v@, p@, i as int),
{
    if i > v.len() || p.len() > v.len() - i {
        return false;
    }
    let mut k: usize = 0;
    while k < p.len()
        invariant
            i + p.len() <= v.len(),
            k <= p.len(),
            forall|j: int| 0 <= j < k ==> v@[i + j] == p@[j],
        decreases p.len() - k,
    {
        if v[i + k] != p[k] {
            assert(v@.subrange(i as int, i + p.len())[k as int] != p@[k as int]);
            return false;
        }
        k += 1;
    }
    assert(v@.subrange(i as int, i + p.len()) =~= p@);
    true
}

/// The first index at or after `from` where `p` occurs in `v`.
pub fn find_from(v: &Vec<char>, p: &Vec<char>, from: usize) -> (r: Option<usize>)
    ensures
        match r {
            Some(i) => i as int == match_from(v@, p@, from as int),
            None => match_from(v@, p@, from as int) == -1,
        },
{
    let mut i = from;
    while i <= v.len() && p.len() <= v.len() - i
        invariant
            from <= i,
            match_from(v@, p@, from as int) == match_from(v@, p@, i as int),
        decreases v.len() + 1 - i,
    {
        if occurs_at_exec(v, p, i) {
            return Some(i);
        }
        if i == v.len() {
            proof {
                assert(v@.subrange(i as int, i + p@.len()) =~= p@);
            }
            return None;
        }
        i += 1;
    }
    None
}

/// Whether `p` occurs in `v`.
pub fn contains_exec(v: &Vec<char>, p: &Vec<char>) -> (b: bool)
    ensures
        b == contains_seq(v@, p@),
{
    find_from(v, p, 0).is_some()
}

/// Whether `s` starts with `p`.
pub fn starts_with(s: &str, p: &str) -> (b: bool)
    ensures
        b == has_prefix(s@, p@),
{
    let v = chars_of(s);
    let q = chars_of(p);
    let r = occurs_at_exec(&v, &q, 0);
    assert(v@.subrange(0, q@.len() as int) =~= v@.take(q@.len() as int));
    r
}

/// Whether `s` ends with `p`.
pub fn ends_with(s: &str, p: &str) -> (b: bool)
    ensures
        b == has_suffix(s@, p@),
{
    let v = chars_of(s);
    let q = chars_of(p);
    if q.len() > v.len() {
        return false;
    }
    let r = occurs_at_exec(&v, &q, v.len() - q.len());
    assert(v@.subrange(v@.len() - q@.len(), v@.len() as int) =~= v@.skip(
        v@.len() - q@.len(),
    ));
    r
}

/// Whether `s` holds `p`.
pub fn contains(s: &str, p: &str) -> (b: bool)
    ensures
        b == contains_seq(s@, p@),
{
    let v = chars_of(s);
    let q = chars_of(p);
    contains_exec(&v, &q)
}

/// Whether the two strings hold the same characters.
pub fn str_eq(a: &str, b: &str) -> (r: bool)
    ensures
        r == (a@ == b@),
{
    let v = chars_of(a);
    let w = chars_of(b);
    if v.len() != w.len() {
        return false;
    }
    let mut i: usize = 0;
    while i < v.len()
        invariant
            v@ == a@,
            w@ == b@,
            v.len() == w.len(),
            i <= v.len(),
            forall|j: int| 0 <= j < i ==> v@[j] == w@[j],
        decreases v.len() - i,
    {
        if v[i] != w[i] {
            assert(v@[i as int] != w@[i as int]);
            return false;
        }
        i += 1;
    }
    assert(v@ =~= w@);
    true
}

/// Whether `c` is whitespace (`char::is_whitespace`).
pub fn is_ws_exec(c: char) -> (b: bool)
    ensures
        b == is_ws(c),
{
    ('\t' <= c && c <= '\r') || c == ' ' || c == '\u{85}' || c == '\u{a0}' || c == '\u{1680}'
        || ('\u{2000}' <= c && c <= '\u{200a}') || c == '\u{2028}' || c == '\u{2029}' || c
        == '\u{202f}' || c == '\u{205f}' || c == '\u{3000}'
}

/// The bounds `[lo, hi)` of `v` once leading and trailing whitespace are cut away.
pub fn trim_bounds(v: &Vec<char>) -> (r: (usize, usize))
    ensures
        r.0 <= r.1 <= v.len(),
        v@.subrange(r.0 as int, r.1 as int) == trim(v@),
{
    let mut lo: usize = 0;
    assert(v@.skip(0) =~= v@);
    while lo < v.len() && is_ws_exec(v[lo])
        invariant
            lo <= v.len(),
            trim_start(v@) == trim_start(v@.skip(lo as int)),
        decreases v.len() - lo,
    {
        assert(v@.skip(lo as int).skip(1) =~= v@.skip(lo + 1));
        lo += 1;
    }
    let ghost ts = v@.skip(lo as int);
    assert(trim_start(ts) == ts);
    let mut hi: usize = v.len();
    while hi > lo && is_ws_exec(v[hi - 1])
        invariant
            lo <= hi <= v.len(),
            ts == v@.skip(lo as int),
            trim_end(ts) == trim_end(v@.subrange(lo as int, hi as int)),
        decreases hi,
    {
        assert(v@.subrange(lo as int, hi as int).drop_last() =~= v@.subrange(
            lo as int,
            hi - 1,
        ));
        hi -= 1;
    }
    assert(v@.subrange(lo as int, v.len() as int) =~= ts);
    (lo, hi)
}

/// `s` without leading and trailing whitespace.
pub fn trim_string(s: &str) -> (out: String)
    ensures
        out@ == trim(s@),
{
    let v = chars_of(s);
    let (lo, hi) = trim_bounds(&v);
    string_from(&v, lo, hi)
}

/// Whether `s` is empty once trimmed.
pub fn is_blank_str(s: &str) -> (b: bool)
    ensures
        b == (trim(s@).len() == 0),
{
    let v = chars_of(s);
    let (lo, hi) = trim_bounds(&v);
    lo == hi
}

/// Appends the decimal digits of `n` to `out`.
pub fn append_decimal(out: &mut String, n: usize)
    ensures
        final(out)@ == old(out)@ + decimal(n as nat),
    decreases n,
{
    if n >= 10 {
        append_decimal(out, n / 10);
    }
    let c = char_of_digit(n % 10);
    push_char(out, c);
    if n < 10 {
        assert(n % 10 == n);
    }
}

/// The decimal digits of `n`.
pub fn decimal_string(n: usize) -> (out: String)
    ensures
        out@ == decimal(n as nat),
{
    let mut out = String::new();
    append_decimal(&mut out, n);
    assert(out@ =~= decimal(n as nat));
    out
}

/// ASCII lowercase of `s`.
pub fn to_ascii_lower(s: &str) -> (out: String)
    ensures
        out@ == lower_ascii(s@),
{
    let v = chars_of(s);
    let mut out = String::new();
    let mut i: usize = 0;
    while i < v.len()
        invariant
            i <= v.len(),
            out@ == lower_ascii(v@.take(i as int)),
        decreases v.len() - i,
    {
        let c = v[i];
        let l = if 'A' <= c && c <= 'Z' {
            lower_letter(c)
        } else {
            c
        };
        push_char(&mut out, l);
        assert(lower_ascii(v@.take(i + 1)) =~= lower_ascii(v@.take(i as int)).push(l));
        i += 1;
    }
    assert(v@.take(v@.len() as int) =~= v@);
    out
}

/// The small letter for an ASCII capital.
fn lower_letter(c: char) -> (r: char)
    requires
        'A' <= c && c <= 'Z',
    ensures
        r == ascii_lower(c),
{
    match c {
        'A' => 'a', 'B' => 'b', 'C' => 'c', 'D' => 'd', 'E' => 'e', 'F' => 'f', 'G' => 'g',
        'H' => 'h', 'I' => 'i', 'J' => 'j', 'K' => 'k', 'L' => 'l', 'M' => 'm', 'N' => 'n',
        'O' => 'o', 'P' => 'p', 'Q' => 'q', 'R' => 'r', 'S' => 's', 'T' => 't', 'U' => 'u',
        'V' => 'v', 'W' => 'w', 'X' => 'x', 'Y' => 'y', _ => 'z',
    }
}

/// Whether `s` has a `..` path component.
pub fn has_dotdot(s: &str) -> (b: bool)
    ensures
        b == has_dotdot_component(s@),
{
    let v = chars_of(s);
    let mut i: usize = 0;
    while v.len() > 1 && i < v.len() - 1
        invariant
            v@ == s@,
            forall|j: int| 0 <= j < i ==> !dotdot_at(v@, j),
        decreases v.len() - i,
    {
        if v[i] == '.' && v[i + 1] == '.' && (i == 0 || v[i - 1] == '/') && (i + 2 == v.len()
            || v[i + 2] == '/') {
            assert(dotdot_at(v@, i as int));
            return true;
        }
        i += 1;
    }
    assert forall|j: int| !dotdot_at(v@, j) by {
        if 0 <= j < i {
        }
    }
    false
}

/// Whether `c` occurs in `s`.
pub fn has_char(s: &str, c: char) -> (b: bool)
    ensures
        b == s@.contains(c),
{
    let v = chars_of(s);
    let mut i: usize = 0;
    while i < v.len()
        invariant
            v@ == s@,
            i <= v.len(),
            forall|j: int| 0 <= j < i ==> v@[j] != c,
        decreases v.len() - i,
    {
        if v[i] == c {
            assert(v@[i as int] == c);
            return true;
        }
        i += 1;
    }
    false
}

/// `rel` appended to the path `base` (see `path_join`).
pub fn join_path(base: &str, rel: &str) -> (out: String)
    ensures
        out@ == path_join(base@, rel@),
{
    let r = chars_of(rel);
    if r.len() > 0 && r[0] == '/' {
        return string_of(&r);
    }
    let b = chars_of(base);
    let mut out = string_of(&b);
    if b.len() > 0 && b[b.len() - 1] != '/' {
        push_char(&mut out, '/');
    }
    append_str(&mut out, rel);
    out
}

/// The ASCII digit for `d`.
pub fn char_of_digit(d: usize) -> (c: char)
    requires
        d < 10,
    ensures
        c == digit_char(d as nat),
{
    match d {
        0 => '0',
        1 => '1',
        2 => '2',
        3 => '3',
        4 => '4',
        5 => '5',
        6 => '6',
        7 => '7',
        8 => '8',
        _ => '9',
    }
}


/// The pieces of `s` between the occurrences of `p` (`str::split` with a non-empty pattern).
pub fn split_str(s: &str, p: &str) -> (out: Vec<String>)
    requires
        p@.len() > 0,
    ensures
        views(out@) == split_on(s@, p@),
{
    let v = chars_of(s);
    let q = chars_of(p);
    let mut out: Vec<String> = Vec::new();
    let mut start: usize = 0;
    assert(v@.skip(0) =~= v@);
    assert(views(out@) =~= Seq::<Seq<char>>::empty());
    loop
        invariant
            v@ == s@,
            q@ == p@,
            q@.len() > 0,
            start <= v.len(),
            views(out@) + split_on(v@.skip(start as int), q@) == split_on(v@, q@),
        decreases v.len() - start,
    {
        proof {
            lemma_split_step(v@, q@, start as int);
        }
        let ghost before = views(out@);
        match find_from(&v, &q, start) {
            None => {
                let piece = string_from(&v, start, v.len());
                out.push(piece);
                assert(v@.subrange(start as int, v.len() as int) =~= v@.skip(start as int));
                assert(views(out@) =~= before.push(v@.skip(start as int)));
                assert(before + seq![v@.skip(start as int)] =~= before.push(
                    v@.skip(start as int),
                ));
                return out;
            },
            Some(i) => {
                let piece = string_from(&v, start, i);
                out.push(piece);
                assert(views(out@) =~= before.push(v@.subrange(start as int, i as int)));
                let ghost rest = split_on(v@.skip(i + q@.len()), q@);
                assert(before + (seq![v@.subrange(start as int, i as int)] + rest) =~= before.push(
                    v@.subrange(start as int, i as int),
                ) + rest);
                start = i + q.len();
            },
        }
    }
}

/// `s` with every occurrence of `p` replaced by `r` (`str::replace`, non-empty `p`).
pub fn replace_str(s: &str, p: &str, r: &str) -> (out: String)
    requires
        p@.len() > 0,
    ensures
        out@ == replace_all(s@, p@, r@),
{
    let v = chars_of(s);
    let q = chars_of(p);
    let mut out = String::new();
    let mut start: usize = 0;
    assert(v@.skip(0) =~= v@);
    loop
        invariant
            v@ == s@,
            q@ == p@,
            q@.len() > 0,
            start <= v.len(),
            out@ + replace_all(v@.skip(start as int), q@, r@) == replace_all(v@, q@, r@),
        decreases v.len() - start,
    {
        proof {
            lemma_replace_step(v@, q@, r@, start as int);
        }
        let ghost before = out@;
        match find_from(&v, &q, start) {
            None => {
                append_range(&mut out, &v, start, v.len());
                assert(v@.subrange(start as int, v.len() as int) =~= v@.skip(start as int));
                return out;
            },
            Some(i) => {
                append_range(&mut out, &v, start, i);
                append_str(&mut out, r);
                let ghost rest = replace_all(v@.skip(i + q@.len()), q@, r@);
                assert(before + (v@.subrange(start as int, i as int) + r@ + rest) =~= before
                    + v@.subrange(start as int, i as int) + r@ + rest);
                start = i + q.len();
            },
        }
    }
}

/// Whether `c` is one of `stops`.
pub fn is_one_of(c: char, stops: &Vec<char>) -> (b: bool)
    ensures
        b == stops@.contains(c),
{
    let mut i: usize = 0;
    while i < stops.len()
        invariant
            i <= stops.len(),
            forall|j: int| 0 <= j < i ==> stops@[j] != c,
        decreases stops.len() - i,
    {
        if stops[i] == c {
            assert(stops@[i as int] == c);
            return true;
        }
        i += 1;
    }
    false
}

/// `s` cut before its first character that is one of `stops`.
pub fn cut_at(s: &str, stops: &Vec<char>) -> (out: String)
    ensures
        out@ == cut_at_any(s@, stops@),
{
    let v = chars_of(s);
    let ghost f = |c: char| stops@.contains(c);
    let mut i: usize = 0;
    assert(v@.take(0) + v@.skip(0) =~= v@);
    while i < v.len() && !is_one_of(v[i], stops)
        invariant
            v@ == s@,
            i <= v.len(),
            f == (|c: char| stops@.contains(c)),
            prefix_until(v@, f) == v@.take(i as int) + prefix_until(v@.skip(i as int), f),
        decreases v.len() - i,
    {
        assert(v@.skip(i as int).skip(1) =~= v@.skip(i + 1));
        assert(v@.take(i as int) + seq![v@[i as int]] =~= v@.take(i + 1));
        i += 1;
    }
    assert(v@.take(i as int) + Seq::<char>::empty() =~= v@.take(i as int));
    string_from(&v, 0, i)
}

/// What follows the last `c` in `s` (`s.rsplit(c).next()`).
pub fn after_last_char(s: &str, c: char) -> (out: String)
    ensures
        out@ == after_last(s@, c),
{
    let v = chars_of(s);
    let mut i: usize = v.len();
    assert(v@.take(v@.len() as int) =~= v@);
    while i > 0 && v[i - 1] != c
        invariant
            v@ == s@,
            i <= v.len(),
            last_char(v@, c) == last_char(v@.take(i as int), c),
        decreases i,
    {
        assert(v@.take(i as int).drop_last() =~= v@.take(i - 1));
        i -= 1;
    }
    if i > 0 {
        assert(v@.take(i as int).last() == c);
    } else {
        assert(v@.take(0).len() == 0);
    }
    string_from(&v, i, v.len())
}

/// `s` without its trailing `c`s (`str::trim_end_matches` with one character).
pub fn trim_end_matching(s: &str, c: char) -> (out: String)
    ensures
        out@ == trim_end_char(s@, c),
{
    let v = chars_of(s);
    let mut i: usize = v.len();
    assert(v@.take(v@.len() as int) =~= v@);
    while i > 0 && v[i - 1] == c
        invariant
            v@ == s@,
            i <= v.len(),
            trim_end_char(v@, c) == trim_end_char(v@.take(i as int), c),
        decreases i,
    {
        assert(v@.take(i as int).drop_last() =~= v@.take(i - 1));
        i -= 1;
    }
    string_from(&v, 0, i)
}

/// Whether every character of `s` is an ASCII digit.
pub fn all_ascii_digits(s: &str) -> (b: bool)
    ensures
        b == all_digits(s@),
{
    let v = chars_of(s);
    let mut i: usize = 0;
    while i < v.len()
        invariant
            v@ == s@,
            i <= v.len(),
            forall|j: int| 0 <= j < i ==> is_digit(#[trigger] v@[j]),
        decreases v.len() - i,
    {
        if !('0' <= v[i] && v[i] <= '9') {
            assert(!is_digit(v@[i as int]));
            return false;
        }
        i += 1;
    }
    true
}


/// The words of `s` joined by single spaces (`split_whitespace` then `join(" ")`).
pub fn join_words(s: &str) -> (out: String)
    ensures
        out@ == join_with(words(s@), seq![' ']),
{
    let v = chars_of(s);
    let mut out = String::new();
    let mut i: usize = 0;
    let mut first = true;
    let ghost mut ws: Seq<Seq<char>> = Seq::empty();
    assert(v@.skip(0) =~= v@);
    assert(ws + words(v@) =~= words(v@));
    loop
        invariant
            v@ == s@,
            i <= v.len(),
            words(v@) == ws + words(v@.skip(i as int)),
            out@ == join_with(ws, seq![' ']),
            first == (ws.len() == 0),
        decreases v.len() - i,
    {
        let mut a = i;
        while a < v.len() && is_ws_exec(v[a])
            invariant
                i <= a <= v.len(),
                forall|k: int| i <= k < a ==> is_ws(#[trigger] v@[k]),
            decreases v.len() - a,
        {
            a += 1;
        }
        let ghost x = v@.skip(i as int);
        let ghost t = trim_start(x);
        proof {
            lemma_trim_start_len(x);
            let k = x.len() - t.len();
            if k < a - i {
                assert(is_ws(v@[i + k]));
                assert(t[0] == x[k]);
            }
            if k > a - i {
                assert(is_ws(x[a - i]));
                assert(x[a - i] == v@[a as int]);
            }
            assert(x.skip(k) =~= v@.skip(a as int));
        }
        if a == v.len() {
            assert(words(x) =~= Seq::<Seq<char>>::empty());
            assert(ws + Seq::<Seq<char>>::empty() =~= ws);
            return out;
        }
        let mut b = a;
        while b < v.len() && !is_ws_exec(v[b])
            invariant
                a <= b <= v.len(),
                forall|k: int| a <= k < b ==> !is_ws(#[trigger] v@[k]),
            decreases v.len() - b,
        {
            b += 1;
        }
        let ghost f = |c: char| is_ws(c);
        let ghost w = prefix_until(t, f);
        proof {
            lemma_prefix_until_take(t, f);
            let n = w.len() as int;
            if n < b - a {
                assert(t[n] == v@[a + n]);
                assert(!is_ws(v@[a + n]));
            }
            if n > b - a {
                assert(t[b - a] == v@[b as int]);
                assert(!f(t[b - a]));
            }
            assert(w =~= v@.subrange(a as int, b as int));
            assert(t.skip(n) =~= v@.skip(b as int));
            assert(words(x) == seq![w] + words(t.skip(n)));
        }
        if !first {
            push_char(&mut out, ' ');
        }
        append_range(&mut out, &v, a, b);
        proof {
            let nws = ws.push(w);
            assert(nws.drop_last() =~= ws);
            if ws.len() == 0 {
                assert(out@ =~= w);
            }
            assert(ws + (seq![w] + words(v@.skip(b as int))) =~= nws + words(v@.skip(b as int)));
            ws = nws;
        }
        first = false;
        i = b;
    }
}

/// The whitespace-separated words of `s` (`str::split_whitespace`).
pub fn words_of(s: &str) -> (out: Vec<String>)
    ensures
        views(out@) == words(s@),
{
    let v = chars_of(s);
    let mut out: Vec<String> = Vec::new();
    let mut i: usize = 0;
    let ghost mut ws: Seq<Seq<char>> = Seq::empty();
    assert(v@.skip(0) =~= v@);
    assert(ws + words(v@) =~= words(v@));
    assert(views(out@) =~= ws);
    loop
        invariant
            v@ == s@,
            i <= v.len(),
            words(v@) == ws + words(v@.skip(i as int)),
            views(out@) == ws,
        decreases v.len() - i,
    {
        let mut a = i;
        while a < v.len() && is_ws_exec(v[a])
            invariant
                i <= a <= v.len(),
                forall|k: int| i <= k < a ==> is_ws(#[trigger] v@[k]),
            decreases v.len() - a,
        {
            a += 1;
        }
        let ghost x = v@.skip(i as int);
        let ghost t = trim_start(x);
        proof {
            lemma_trim_start_len(x);
            let k = x.len() - t.len();
            if k < a - i {
                assert(is_ws(v@[i + k]));
                assert(t[0] == x[k]);
            }
            if k > a - i {
                assert(is_ws(x[a - i]));
                assert(x[a - i] == v@[a as int]);
            }
            assert(x.skip(k) =~= v@.skip(a as int));
        }
        if a == v.len() {
            assert(words(x) =~= Seq::<Seq<char>>::empty());
            assert(ws + Seq::<Seq<char>>::empty() =~= ws);
            return out;
        }
        let mut b = a;
        while b < v.len() && !is_ws_exec(v[b])
            invariant
                a <= b <= v.len(),
                forall|k: int| a <= k < b ==> !is_ws(#[trigger] v@[k]),
            decreases v.len() - b,
        {
            b += 1;
        }
        let ghost f = |c: char| is_ws(c);
        let ghost w = prefix_until(t, f);
        proof {
            lemma_prefix_until_take(t, f);
            let n = w.len() as int;
            if n < b - a {
                assert(t[n] == v@[a + n]);
                assert(!is_ws(v@[a + n]));
            }
            if n > b - a {
                assert(t[b - a] == v@[b as int]);
                assert(!f(t[b - a]));
            }
            assert(w =~= v@.subrange(a as int, b as int));
            assert(t.skip(n) =~= v@.skip(b as int));
            assert(words(x) == seq![w] + words(t.skip(n)));
        }
        let piece = string_from(&v, a, b);
        out.push(piece);
        proof {
            let nws = ws.push(w);
            assert(views(out@) =~= nws);
            assert(ws + (seq![w] + words(v@.skip(b as int))) =~= nws + words(v@.skip(b as int)));
            ws = nws;
        }
        i = b;
    }
}

/// The lines of `s` (`str::lines`).
pub fn lines_of(s: &str) -> (out: Vec<String>)
    ensures
        views(out@) == lines(s@),
{
    proof {
        reveal_strlit("\n");
        assert("\n"@ =~= seq!['\n']);
        lemma_split_nonempty(s@, seq!['\n']);
    }
    let parts = split_str(s, "\n");
    let v = chars_of(s);
    let n = if v.len() == 0 || v[v.len() - 1] == '\n' {
        parts.len() - 1
    } else {
        parts.len()
    };
    let ghost all = split_on(s@, seq!['\n']);
    let ghost kept = if s@.len() == 0 || s@.last() == '\n' {
        all.drop_last()
    } else {
        all
    };
    assert(kept.len() == n);
    let mut out: Vec<String> = Vec::new();
    let mut i: usize = 0;
    while i < n
        invariant
            n <= parts.len(),
            views(parts@) == all,
            kept.len() == n,
            forall|j: int| 0 <= j < n ==> kept[j] == all[j],
            i <= n,
            views(out@) == kept.take(i as int).map_values(|l: Seq<char>| strip_cr(l)),
        decreases n - i,
    {
        let line = parts[i].as_str();
        let w = chars_of(line);
        let cut = if w.len() > 0 && w[w.len() - 1] == '\r' {
            w.len() - 1
        } else {
            w.len()
        };
        let piece = string_from(&w, 0, cut);
        proof {
            assert(all[i as int] == parts@[i as int]@);
            if w.len() > 0 && w@.last() == '\r' {
                assert(w@.subrange(0, cut as int) =~= w@.drop_last());
            } else {
                assert(w@.subrange(0, cut as int) =~= w@);
            }
            assert(piece@ == strip_cr(kept[i as int]));
        }
        let ghost before = views(out@);
        out.push(piece);
        assert(views(out@) =~= before.push(piece@));
        assert(kept.take(i + 1).map_values(|l: Seq<char>| strip_cr(l)) =~= kept.take(
            i as int,
        ).map_values(|l: Seq<char>| strip_cr(l)).push(strip_cr(kept[i as int])));
        i += 1;
    }
    assert(kept.take(n as int) =~= kept);
    out
}


/// Whether `a` comes before `b` (`a < b` on strings).
pub fn text_less(a: &str, b: &str) -> (r: bool)
    ensures
        r == text_lt(a@, b@),
{
    let v = chars_of(a);
    let w = chars_of(b);
    let mut i: usize = 0;
    assert(v@.skip(0) =~= v@);
    assert(w@.skip(0) =~= w@);
    while i < v.len() && i < w.len() && v[i] == w[i]
        invariant
            v@ == a@,
            w@ == b@,
            i <= v.len(),
            i <= w.len(),
            text_lt(a@, b@) == text_lt(v@.skip(i as int), w@.skip(i as int)),
        decreases v.len() - i,
    {
        assert(v@.skip(i as int).skip(1) =~= v@.skip(i + 1));
        assert(w@.skip(i as int).skip(1) =~= w@.skip(i + 1));
        i += 1;
    }
    if i == v.len() {
        i < w.len()
    } else if i == w.len() {
        false
    } else {
        assert(v@.skip(i as int)[0] == v@[i as int]);
        assert(w@.skip(i as int)[0] == w@[i as int]);
        v[i] < w[i]
    }
}

/// Adds `item` to a strictly sorted list at its place, unless it is already there.
pub fn insert_sorted(list: &mut Vec<String>, item: String)
    requires
        strictly_sorted(views(old(list)@)),
    ensures
        strictly_sorted(views(final(list)@)),
        forall|x: Seq<char>| views(final(list)@).contains(x) <==> (views(old(list)@).contains(x) || x == item@),
{
    let ghost old_v = views(list@);
    let mut p: usize = 0;
    while p < list.len() && text_less(list[p].as_str(), item.as_str())
        invariant
            p <= list.len(),
            views(list@) == old_v,
            forall|k: int| 0 <= k < p ==> text_lt(#[trigger] old_v[k], item@),
        decreases list.len() - p,
    {
        assert(old_v[p as int] == list@[p as int]@);
        p += 1;
    }
    if p < list.len() && str_eq(list[p].as_str(), item.as_str()) {
        assert(old_v[p as int] == item@);
        assert(old_v.contains(item@));
        return;
    }
    let ghost it = item@;
    proof {
        if p < list.len() {
            assert(old_v[p as int] == list@[p as int]@);
            lemma_text_lt_total(old_v[p as int], it);
        }
    }
    list.insert(p, item);
    let ghost nv = old_v.insert(p as int, it);
    assert(views(list@) =~= nv);
    assert forall|i: int, j: int| 0 <= i < j < nv.len() implies text_lt(#[trigger] nv[i], #[trigger] nv[j]) by {
        if j < p {
        } else if j == p {
            assert(nv[i] == old_v[i]);
        } else if i < p {
            assert(nv[i] == old_v[i]);
            assert(nv[j] == old_v[j - 1]);
            lemma_text_lt_trans(old_v[i], it, old_v[p as int]);
            if j - 1 > p {
                lemma_text_lt_trans(old_v[i], old_v[p as int], old_v[j - 1]);
            }
        } else if i == p {
            assert(nv[j] == old_v[j - 1]);
            if j - 1 > p {
                lemma_text_lt_trans(it, old_v[p as int], old_v[j - 1]);
            }
        } else {
            assert(nv[i] == old_v[i - 1]);
            assert(nv[j] == old_v[j - 1]);
        }
    }
    assert forall|x: Seq<char>| nv.contains(x) <==> (old_v.contains(x) || x == it) by {
        if nv.contains(x) {
            let k = choose|k: int| 0 <= k < nv.len() && nv[k] == x;
            if k < p {
                assert(old_v[k] == x);
            } else if k > p {
                assert(old_v[k - 1] == x);
            }
        }
        if old_v.contains(x) {
            let k = choose|k: int| 0 <= k < old_v.len() && old_v[k] == x;
            if k < p {
                assert(nv[k] == x);
            } else {
                assert(nv[k + 1] == x);
            }
        }
        if x == it {
            assert(nv[p as int] == x);
        }
    }
}


/// `s` without its leading `c`s.
pub fn trim_start_matching(s: &str, c: char) -> (out: String)
    ensures
        out@ == trim_start_char(s@, c),
{
    let v = chars_of(s);
    let mut i: usize = 0;
    assert(v@.skip(0) =~= v@);
    while i < v.len() && v[i] == c
        invariant
            v@ == s@,
            i <= v.len(),
            trim_start_char(s@, c) == trim_start_char(v@.skip(i as int), c),
        decreases v.len() - i,
    {
        assert(v@.skip(i as int).skip(1) =~= v@.skip(i + 1));
        i += 1;
    }
    assert(v@.subrange(i as int, v@.len() as int) =~= v@.skip(i as int));
    string_from(&v, i, v.len())
}

} // verus!
