//! Character-level text functions: the pieces of `str` behaviour that the
//! signing steps rely on, each stated over `Seq<char>`.
use vstd::prelude::*;

verus! {

/// Appends one character to a string (`String::push`).
#[verifier::external_body]
pub(crate) fn push_char(s: &mut String, c: char)
    ensures
        final(s)@ == old(s)@.push(c),
{
    s.push(c);
}

/// The characters of `s`, in order.
pub fn chars_of(s: &str) -> (v: Vec<char>)
    ensures
        v@ == s@,
{
    let mut v: Vec<char> = Vec::new();
    for c in it: s.chars()
        invariant
            v@ == it.seq().take(it.index() as int),
            it.seq() == s@,
    {
        v.push(c);
    }
    v
}

/// The string made of the characters `v[from..to]`.
pub fn string_of(v: &Vec<char>, from: usize, to: usize) -> (s: String)
    requires
        from <= to <= v@.len(),
    ensures
        s@ == v@.subrange(from as int, to as int),
{
    let mut s = String::new();
    let mut i: usize = from;
    while i < to
        invariant
            from <= i <= to <= v@.len(),
            s@ == v@.subrange(from as int, i as int),
        decreases to - i,
    {
        push_char(&mut s, v[i]);
        assert(v@.subrange(from as int, i + 1) =~= v@.subrange(from as int, i as int).push(
            v@[i as int],
        ));
        i = i + 1;
    }
    s
}

/// Unicode `White_Space`, the property that `char::is_whitespace` tests.
pub open spec fn is_space(c: char) -> bool {
    ||| c == '\t'
    ||| c == '\n'
    ||| c == '\u{0B}'
    ||| c == '\u{0C}'
    ||| c == '\r'
    ||| c == ' '
    ||| c == '\u{85}'
    ||| c == '\u{A0}'
    ||| c == '\u{1680}'
    ||| ('\u{2000}' <= c && c <= '\u{200A}')
    ||| c == '\u{2028}'
    ||| c == '\u{2029}'
    ||| c == '\u{202F}'
    ||| c == '\u{205F}'
    ||| c == '\u{3000}'
}

/// Whether `c` is white space in the sense of `is_space`.
pub fn is_white_space(c: char) -> (b: bool)
    ensures
        b == is_space(c),
{
    c == '\t' || c == '\n' || c == '\u{0B}' || c == '\u{0C}' || c == '\r' || c == ' ' || c
        == '\u{85}' || c == '\u{A0}' || c == '\u{1680}' || ('\u{2000}' <= c && c <= '\u{200A}')
        || c == '\u{2028}' || c == '\u{2029}' || c == '\u{202F}' || c == '\u{205F}' || c
        == '\u{3000}'
}

/// `s` with every occurrence of `c` removed.
pub open spec fn without_char(s: Seq<char>, c: char) -> Seq<char>
    decreases s.len(),
{
    if s.len() == 0 {
        s
    } else if s.last() == c {
        without_char(s.drop_last(), c)
    } else {
        without_char(s.drop_last(), c).push(s.last())
    }
}

/// `s` with every occurrence of `c` removed (`str::replace(c, "")`).
pub fn remove_char(s: &str, c: char) -> (r: String)
    ensures
        r@ == without_char(s@, c),
{
    let v = chars_of(s);
    let mut r = String::new();
    let mut i: usize = 0;
    while i < v.len()
        invariant
            i <= v@.len(),
            v@ == s@,
            r@ == without_char(v@.take(i as int), c),
        decreases v@.len() - i,
    {
        let x = v[i];
        let ghost t = v@.take(i + 1);
        assert(t.drop_last() =~= v@.take(i as int));
        assert(t.last() == x);
        assert(without_char(t, c) == if x != c {
            without_char(v@.take(i as int), c).push(x)
        } else {
            without_char(v@.take(i as int), c)
        });
        if x != c {
            push_char(&mut r, x);
        }
        i = i + 1;
    }
    assert(v@.take(v@.len() as int) =~= v@);
    r
}

/// The index of the first `c` in `s` at or after `i`, or `s.len()`.
pub open spec fn position(s: Seq<char>, c: char, i: int) -> int
    decreases s.len() - i,
{
    if 0 <= i < s.len() && s[i] != c {
        position(s, c, i + 1)
    } else {
        i
    }
}

/// What `str::lines().next()` gives: `None` for the empty string, else the
/// text before the first `'\n'` (or all of it), without the `'\r'` of a
/// `"\r\n"` ending.
pub open spec fn first_line(s: Seq<char>) -> Option<Seq<char>> {
    if s.len() == 0 {
        None
    } else {
        let e = position(s, '\n', 0);
        if e < s.len() && e > 0 && s[e - 1] == '\r' {
            Some(s.take(e - 1))
        } else {
            Some(s.take(e))
        }
    }
}

pub proof fn lemma_position(s: Seq<char>, c: char, i: int)
    requires
        0 <= i <= s.len(),
    ensures
        i <= position(s, c, i) <= s.len(),
        position(s, c, i) < s.len() ==> s[position(s, c, i)] == c,
    decreases s.len() - i,
{
    if i < s.len() && s[i] != c {
        lemma_position(s, c, i + 1);
    }
}

/// Where `s[i..j]` holds no `c` and `s[j]` is `c`, the first `c` at or
/// after `i` is at `j`; where `s[i..]` holds no `c`, there is none.
pub proof fn lemma_position_found(s: Seq<char>, c: char, i: int, j: int)
    requires
        0 <= i <= j <= s.len(),
        j < s.len() ==> s[j] == c,
        forall|k: int| i <= k < j ==> s[k] != c,
    ensures
        position(s, c, i) == j,
    decreases j - i,
{
    if i < j {
        lemma_position_found(s, c, i + 1, j);
    }
}

/// The index of the first `c` in `v` at or after `from`, or `v.len()`.
pub fn find(v: &Vec<char>, c: char, from: usize) -> (r: usize)
    requires
        from <= v@.len(),
    ensures
        r == position(v@, c, from as int),
        from <= r <= v@.len(),
{
    let mut e: usize = from;
    while e < v.len() && v[e] != c
        invariant
            from <= e <= v@.len(),
            position(v@, c, from as int) == position(v@, c, e as int),
        decreases v@.len() - e,
    {
        e = e + 1;
    }
    e
}

/// The first line of `s`, as `str::lines().next()` gives it.
pub fn line_one(s: &str) -> (r: Option<String>)
    ensures
        match r {
            Some(l) => first_line(s@) == Some(l@),
            None => first_line(s@) is None,
        },
{
    let v = chars_of(s);
    if v.len() == 0 {
        return None;
    }
    let e = find(&v, '\n', 0);
    if e < v.len() && e > 0 && v[e - 1] == '\r' {
        Some(string_of(&v, 0, e - 1))
    } else {
        Some(string_of(&v, 0, e))
    }
}

/// Whether `c` separates words: white space in the sense of `is_space`, or,
/// where `shell` holds, a space, tab or newline (the characters by which the
/// shell splits the output of a command).
pub open spec fn separates(c: char, shell: bool) -> bool {
    if shell {
        c == ' ' || c == '\t' || c == '\n'
    } else {
        is_space(c)
    }
}

/// Whether `c` separates words in the sense of `separates`.
pub fn is_separator(c: char, shell: bool) -> (b: bool)
    ensures
        b == separates(c, shell),
{
    if shell {
        c == ' ' || c == '\t' || c == '\n'
    } else {
        is_white_space(c)
    }
}

/// The first index at or after `i` that does not hold a separator.
pub open spec fn skip_spaces(s: Seq<char>, i: int, shell: bool) -> int
    decreases s.len() - i,
{
    if 0 <= i < s.len() && separates(s[i], shell) {
        skip_spaces(s, i + 1, shell)
    } else {
        i
    }
}

/// The first index at or after `i` that holds a separator, or `s.len()`.
pub open spec fn skip_word(s: Seq<char>, i: int, shell: bool) -> int
    decreases s.len() - i,
{
    if 0 <= i < s.len() && !separates(s[i], shell) {
        skip_word(s, i + 1, shell)
    } else {
        i
    }
}

pub proof fn lemma_skip_spaces(s: Seq<char>, i: int, shell: bool)
    requires
        0 <= i,
    ensures
        i <= skip_spaces(s, i, shell),
        i <= s.len() ==> skip_spaces(s, i, shell) <= s.len(),
        skip_spaces(s, i, shell) < s.len() ==> !separates(s[skip_spaces(s, i, shell)], shell),
        forall|k: int| i <= k < skip_spaces(s, i, shell) ==> separates(#[trigger] s[k], shell),
    decreases s.len() - i,
{
    if 0 <= i < s.len() && separates(s[i], shell) {
        lemma_skip_spaces(s, i + 1, shell);
    }
}

pub proof fn lemma_skip_word(s: Seq<char>, i: int, shell: bool)
    requires
        0 <= i <= s.len(),
    ensures
        i <= skip_word(s, i, shell) <= s.len(),
        skip_word(s, i, shell) < s.len() ==> separates(s[skip_word(s, i, shell)], shell),
        forall|k: int| i <= k < skip_word(s, i, shell) ==> !separates(#[trigger] s[k], shell),
        i < s.len() && !separates(s[i], shell) ==> skip_word(s, i, shell) > i,
    decreases s.len() - i,
{
    if 0 <= i < s.len() && !separates(s[i], shell) {
        lemma_skip_word(s, i + 1, shell);
    }
}

/// The maximal runs of characters of `s[i..]` that hold no separator, in
/// order.
pub open spec fn words_from(s: Seq<char>, i: int, shell: bool) -> Seq<Seq<char>>
    decreases s.len() - i,
{
    if i < 0 {
        seq![]
    } else {
        let j = skip_spaces(s, i, shell);
        if j >= s.len() {
            seq![]
        } else {
            let k = skip_word(s, j, shell);
            proof {
                lemma_skip_spaces(s, i, shell);
                lemma_skip_word(s, j, shell);
            }
            seq![s.subrange(j, k)] + words_from(s, k, shell)
        }
    }
}

/// The words of `s`, as `str::split_whitespace` gives them.
pub open spec fn words(s: Seq<char>) -> Seq<Seq<char>> {
    words_from(s, 0, false)
}

/// The fields of `s`, as the shell splits the output of a command (with its
/// default separators: space, tab and newline).
pub open spec fn fields(s: Seq<char>) -> Seq<Seq<char>> {
    words_from(s, 0, true)
}

/// The words of `s`: as `s.split_whitespace()` gives them, or, where `shell`
/// holds, as the shell splits them.
pub fn split_words(s: &str, shell: bool) -> (r: Vec<String>)
    ensures
        r.deep_view() == words_from(s@, 0, shell),
{
    let v = chars_of(s);
    let mut r: Vec<String> = Vec::new();
    let mut i: usize = 0;
    assert(r.deep_view() =~= Seq::<Seq<char>>::empty());
    loop
        invariant
            i <= v@.len(),
            v@ == s@,
            r.deep_view() + words_from(v@, i as int, shell) == words_from(v@, 0, shell),
        decreases v@.len() - i,
    {
        let mut j: usize = i;
        while j < v.len() && is_separator(v[j], shell)
            invariant
                i <= j <= v@.len(),
                skip_spaces(v@, i as int, shell) == skip_spaces(v@, j as int, shell),
            decreases v@.len() - j,
        {
            j = j + 1;
        }
        proof {
            lemma_skip_spaces(v@, i as int, shell);
        }
        if j >= v.len() {
            assert(words_from(v@, i as int, shell) =~= seq![]);
            assert(r.deep_view() + words_from(v@, i as int, shell) =~= r.deep_view());
            return r;
        }
        let mut k: usize = j;
        while k < v.len() && !is_separator(v[k], shell)
            invariant
                j <= k <= v@.len(),
                skip_word(v@, j as int, shell) == skip_word(v@, k as int, shell),
            decreases v@.len() - k,
        {
            k = k + 1;
        }
        proof {
            lemma_skip_word(v@, j as int, shell);
        }
        let ghost before = r.deep_view();
        let w = string_of(&v, j, k);
        let ghost wv = w@;
        r.push(w);
        assert(r.deep_view() =~= before.push(wv));
        assert(words_from(v@, i as int, shell) == seq![wv] + words_from(v@, k as int, shell));
        assert(before + words_from(v@, i as int, shell) =~= before.push(wv) + words_from(
            v@,
            k as int,
            shell,
        ));
        i = k;
    }
}

/// The decimal digit for `d < 10`.
pub open spec fn digit(d: nat) -> char {
    (48 + d) as char
}

/// The decimal rendering of `n`, without sign or leading zeros.
pub open spec fn decimal(n: nat) -> Seq<char>
    decreases n,
{
    if n < 10 {
        seq![digit(n)]
    } else {
        decimal(n / 10).push(digit(n % 10))
    }
}

/// The number that the decimal digits `s` stand for.
pub open spec fn decimal_value(s: Seq<char>) -> int
    decreases s.len(),
{
    if s.len() == 0 {
        0
    } else {
        decimal_value(s.drop_last()) * 10 + (s.last() as int - 48)
    }
}

/// The decimal rendering of `n` stands for `n`: distinct numbers have
/// distinct renderings.
pub proof fn lemma_decimal_value(n: nat)
    ensures
        decimal_value(decimal(n)) == n,
        decimal(n).len() > 0,
    decreases n,
{
    if n < 10 {
        assert(decimal(n).drop_last() =~= Seq::<char>::empty());
        assert(digit(n) as int == 48 + n);
        assert(decimal(n).last() == digit(n));
        assert(decimal_value(Seq::<char>::empty()) == 0);
        assert(decimal_value(decimal(n)) == decimal_value(Seq::<char>::empty()) * 10 + n);
    } else {
        lemma_decimal_value(n / 10);
        let d = decimal(n);
        assert(d.drop_last() =~= decimal(n / 10));
        assert(d.last() == digit(n % 10));
        assert(digit(n % 10) as int == 48 + n % 10);
        assert(decimal_value(d) == decimal_value(decimal(n / 10)) * 10 + (n % 10) as int);
        assert((n / 10) * 10 + n % 10 == n) by (nonlinear_arith);
    }
}

/// Appends the decimal rendering of `n` (as `format!("{}", n)`).
pub fn push_decimal(s: &mut String, n: u16)
    ensures
        final(s)@ == old(s)@ + decimal(n as nat),
    decreases n,
{
    if n >= 10 {
        push_decimal(s, n / 10);
    }
    let d: u8 = (n % 10) as u8;
    let c: char = (48u8 + d) as char;
    assert(c == digit((n % 10) as nat));
    push_char(s, c);
}

/// `dir` and `name` joined as `Path::join` joins a relative name on Unix.
pub open spec fn join_path(dir: Seq<char>, name: Seq<char>) -> Seq<char> {
    if dir.len() == 0 || dir.last() == '/' {
        dir + name
    } else {
        dir + seq!['/'] + name
    }
}

/// `dir` joined with the relative file name `name`.
pub fn join(dir: &str, name: &str) -> (r: String)
    ensures
        r@ == join_path(dir@, name@),
{
    let v = chars_of(dir);
    let mut r = String::from_str(dir);
    if v.len() > 0 && v[v.len() - 1] != '/' {
        push_char(&mut r, '/');
    }
    r.append(name);
    r
}

/// Where `a` and `b` meet, a separator stands (or one side is empty).
pub open spec fn meet_at_separator(a: Seq<char>, b: Seq<char>, shell: bool) -> bool {
    a.len() == 0 || separates(a.last(), shell) || b.len() == 0 || separates(b[0], shell)
}

proof fn lemma_skip_spaces_shift(a: Seq<char>, b: Seq<char>, m: int, shell: bool)
    requires
        0 <= m,
    ensures
        skip_spaces(a + b, a.len() + m, shell) == a.len() + skip_spaces(b, m, shell),
    decreases b.len() - m,
{
    if m < b.len() && separates(b[m], shell) {
        assert((a + b)[a.len() + m] == b[m]);
        lemma_skip_spaces_shift(a, b, m + 1, shell);
    } else if m < b.len() {
        assert((a + b)[a.len() + m] == b[m]);
    }
}

proof fn lemma_skip_word_shift(a: Seq<char>, b: Seq<char>, m: int, shell: bool)
    requires
        0 <= m,
    ensures
        skip_word(a + b, a.len() + m, shell) == a.len() + skip_word(b, m, shell),
    decreases b.len() - m,
{
    if m < b.len() && !separates(b[m], shell) {
        assert((a + b)[a.len() + m] == b[m]);
        lemma_skip_word_shift(a, b, m + 1, shell);
    } else if m < b.len() {
        assert((a + b)[a.len() + m] == b[m]);
    }
}

proof fn lemma_words_shift(a: Seq<char>, b: Seq<char>, m: int, shell: bool)
    requires
        0 <= m <= b.len(),
    ensures
        words_from(a + b, a.len() + m, shell) == words_from(b, m, shell),
    decreases b.len() - m,
{
    let s = a + b;
    lemma_skip_spaces_shift(a, b, m, shell);
    lemma_skip_spaces(b, m, shell);
    let j = skip_spaces(b, m, shell);
    if j < b.len() {
        lemma_skip_word_shift(a, b, j, shell);
        lemma_skip_word(b, j, shell);
        let k = skip_word(b, j, shell);
        assert(s.subrange(a.len() + j, a.len() + k) =~= b.subrange(j, k));
        lemma_words_shift(a, b, k, shell);
    }
}

proof fn lemma_skip_spaces_prefix(a: Seq<char>, b: Seq<char>, i: int, shell: bool)
    requires
        0 <= i <= a.len(),
    ensures
        skip_spaces(a, i, shell) < a.len() ==> skip_spaces(a + b, i, shell) == skip_spaces(
            a,
            i,
            shell,
        ),
        skip_spaces(a, i, shell) >= a.len() ==> skip_spaces(a + b, i, shell) == skip_spaces(
            a + b,
            a.len() as int,
            shell,
        ),
    decreases a.len() - i,
{
    if i < a.len() {
        assert((a + b)[i] == a[i]);
        if separates(a[i], shell) {
            lemma_skip_spaces_prefix(a, b, i + 1, shell);
        }
    }
}

proof fn lemma_skip_word_prefix(a: Seq<char>, b: Seq<char>, j: int, shell: bool)
    requires
        0 <= j < a.len(),
        !separates(a[j], shell),
        meet_at_separator(a, b, shell),
    ensures
        skip_word(a + b, j, shell) == skip_word(a, j, shell),
    decreases a.len() - j,
{
    assert((a + b)[j] == a[j]);
    assert(skip_word(a + b, j, shell) == skip_word(a + b, j + 1, shell));
    assert(skip_word(a, j, shell) == skip_word(a, j + 1, shell));
    if j + 1 < a.len() {
        assert((a + b)[j + 1] == a[j + 1]);
        if !separates(a[j + 1], shell) {
            lemma_skip_word_prefix(a, b, j + 1, shell);
        }
    } else {
        assert(a.last() == a[j]);
        if b.len() > 0 {
            assert((a + b)[a.len() as int] == b[0]);
        }
    }
}

proof fn lemma_words_prefix(a: Seq<char>, b: Seq<char>, i: int, shell: bool)
    requires
        0 <= i <= a.len(),
        meet_at_separator(a, b, shell),
    ensures
        words_from(a + b, i, shell) == words_from(a, i, shell) + words_from(
            a + b,
            a.len() as int,
            shell,
        ),
    decreases a.len() - i,
{
    let s = a + b;
    lemma_skip_spaces(a, i, shell);
    lemma_skip_spaces_prefix(a, b, i, shell);
    let j = skip_spaces(a, i, shell);
    if j < a.len() {
        lemma_skip_word_prefix(a, b, j, shell);
        lemma_skip_word(a, j, shell);
        let k = skip_word(a, j, shell);
        assert(s.subrange(j, k) =~= a.subrange(j, k));
        lemma_words_prefix(a, b, k, shell);
        assert(words_from(s, i, shell) =~= seq![a.subrange(j, k)] + words_from(s, k, shell));
        assert(words_from(a, i, shell) =~= seq![a.subrange(j, k)] + words_from(a, k, shell));
    } else {
        assert(words_from(a, i, shell) =~= seq![]);
    }
}

/// The words of `a + b` are those of `a` followed by those of `b` where a
/// separator stands where they meet.
pub proof fn lemma_words_concat(a: Seq<char>, b: Seq<char>, shell: bool)
    requires
        meet_at_separator(a, b, shell),
    ensures
        words_from(a + b, 0, shell) == words_from(a, 0, shell) + words_from(b, 0, shell),
{
    lemma_words_prefix(a, b, 0, shell);
    lemma_words_shift(a, b, 0, shell);
}

/// A non-empty run of characters that are not separators.
pub open spec fn is_token(t: Seq<char>, shell: bool) -> bool {
    t.len() > 0 && forall|i: int| 0 <= i < t.len() ==> !separates(#[trigger] t[i], shell)
}

/// A non-empty run of separators.
pub open spec fn is_blank(t: Seq<char>, shell: bool) -> bool {
    t.len() > 0 && forall|i: int| 0 <= i < t.len() ==> separates(#[trigger] t[i], shell)
}

proof fn lemma_skip_word_to_end(t: Seq<char>, j: int, shell: bool)
    requires
        0 <= j <= t.len(),
        forall|i: int| 0 <= i < t.len() ==> !separates(#[trigger] t[i], shell),
    ensures
        skip_word(t, j, shell) == t.len(),
    decreases t.len() - j,
{
    if j < t.len() {
        lemma_skip_word_to_end(t, j + 1, shell);
    }
}

proof fn lemma_skip_spaces_to_end(t: Seq<char>, j: int, shell: bool)
    requires
        0 <= j <= t.len(),
        forall|i: int| 0 <= i < t.len() ==> separates(#[trigger] t[i], shell),
    ensures
        skip_spaces(t, j, shell) == t.len(),
    decreases t.len() - j,
{
    if j < t.len() {
        lemma_skip_spaces_to_end(t, j + 1, shell);
    }
}

/// A token is one word.
pub proof fn lemma_token_words(t: Seq<char>, shell: bool)
    requires
        is_token(t, shell),
    ensures
        words_from(t, 0, shell) == seq![t],
{
    lemma_skip_word_to_end(t, 0, shell);
    assert(words_from(t, t.len() as int, shell) =~= seq![]);
    assert(t.subrange(0, t.len() as int) =~= t);
}

/// A blank has no words.
pub proof fn lemma_blank_words(t: Seq<char>, shell: bool)
    requires
        is_blank(t, shell),
    ensures
        words_from(t, 0, shell) == Seq::<Seq<char>>::empty(),
{
    lemma_skip_spaces_to_end(t, 0, shell);
}

/// The first `n` pieces of `ps`, one after the other.
pub open spec fn glue(ps: Seq<Seq<char>>, n: int) -> Seq<char>
    decreases n,
{
    if n <= 0 {
        Seq::empty()
    } else {
        glue(ps, n - 1) + ps[n - 1]
    }
}

/// Whether the first `n` pieces of `ps` are tokens or blanks, with no two
/// tokens side by side.
pub open spec fn alternating(ps: Seq<Seq<char>>, n: int, shell: bool) -> bool
    decreases n,
{
    if n <= 0 {
        true
    } else {
        &&& alternating(ps, n - 1, shell)
        &&& is_token(ps[n - 1], shell) || is_blank(ps[n - 1], shell)
        &&& n >= 2 && is_token(ps[n - 1], shell) ==> is_blank(ps[n - 2], shell)
    }
}

/// The tokens among the first `n` pieces of `ps`, in order.
pub open spec fn tokens_of(ps: Seq<Seq<char>>, n: int, shell: bool) -> Seq<Seq<char>>
    decreases n,
{
    if n <= 0 {
        seq![]
    } else if is_token(ps[n - 1], shell) {
        tokens_of(ps, n - 1, shell).push(ps[n - 1])
    } else {
        tokens_of(ps, n - 1, shell)
    }
}

/// The words of tokens and blanks glued together are the tokens.
pub proof fn lemma_glued_words(ps: Seq<Seq<char>>, n: int, shell: bool)
    requires
        0 <= n <= ps.len(),
        alternating(ps, n, shell),
    ensures
        words_from(glue(ps, n), 0, shell) == tokens_of(ps, n, shell),
    decreases n,
{
    if n == 0 {
        assert(words_from(glue(ps, n), 0, shell) =~= seq![]);
    } else {
        let p = ps[n - 1];
        lemma_glued_words(ps, n - 1, shell);
        if is_token(p, shell) {
            if n >= 2 {
                let q = ps[n - 2];
                assert(is_blank(q, shell));
                assert(glue(ps, n - 1) == glue(ps, n - 2) + q);
                assert(glue(ps, n - 1).last() == q[q.len() - 1]);
            }
            lemma_words_concat(glue(ps, n - 1), p, shell);
            lemma_token_words(p, shell);
        } else {
            assert(separates(p[0], shell));
            lemma_words_concat(glue(ps, n - 1), p, shell);
            lemma_blank_words(p, shell);
            assert(tokens_of(ps, n - 1, shell) + Seq::<Seq<char>>::empty() =~= tokens_of(
                ps,
                n - 1,
                shell,
            ));
        }
    }
}

} // verus!
