//! Text helpers shared by the planners: decimal rendering, word splitting
//! and path joining, all stated over `Seq<char>`.

use vstd::prelude::*;

verus! {

/// `String::push` appends one character.
pub assume_specification[ std::string::String::push ](s: &mut std::string::String, c: char)
    ensures
        final(s)@ == old(s)@.push(c),
;

/// Whether `c` is an ASCII letter or digit.
pub open spec fn is_alphanumeric(c: char) -> bool {
    ('A' <= c && c <= 'Z') || ('a' <= c && c <= 'z') || ('0' <= c && c <= '9')
}

/// Whether every character of `s` is an ASCII letter or digit.
pub open spec fn all_alphanumeric(s: Seq<char>) -> bool {
    forall|i: int| 0 <= i < s.len() ==> is_alphanumeric(#[trigger] s[i])
}

/// `rel` appended to the directory `base`, with one separator between.
pub open spec fn join(base: Seq<char>, rel: Seq<char>) -> Seq<char> {
    base + seq!['/'] + rel
}

/// Whether a path component `..` starts at index `i` of `p`.
pub open spec fn is_parent_ref(p: Seq<char>, i: int) -> bool {
    &&& 0 <= i
    &&& i + 2 <= p.len()
    &&& p[i] == '.'
    &&& p[i + 1] == '.'
    &&& (i == 0 || p[i - 1] == '/')
    &&& (i + 2 == p.len() || p[i + 2] == '/')
}

/// Whether `p` is a relative path that cannot climb out of the directory
/// it is joined to: it does not start at the root and has no `..`
/// component.
pub open spec fn is_confined(p: Seq<char>) -> bool {
    &&& (p.len() > 0 ==> p[0] != '/')
    &&& forall|i: int| !is_parent_ref(p, i)
}

/// Whether `name` can be one component of a path: it is not empty, holds
/// neither a separator nor a NUL, and is neither `.` nor `..`.
pub open spec fn is_path_component(name: Seq<char>) -> bool {
    &&& name.len() > 0
    &&& !name.contains('/')
    &&& !name.contains('\0')
    &&& name != seq!['.']
    &&& name != seq!['.', '.']
}

/// Whether `p` names `base` itself or something below it: `base` joined
/// with a relative path that cannot climb out of it.
pub open spec fn is_under(p: Seq<char>, base: Seq<char>) -> bool {
    p == base || exists|rel: Seq<char>| is_confined(rel) && p == #[trigger] join(base, rel)
}

/// Whether `c` is ASCII whitespace: space, tab, line feed, form feed or
/// carriage return.
pub open spec fn is_space(c: char) -> bool {
    c == ' ' || c == '\t' || c == '\n' || c == '\x0C' || c == '\r'
}

/// The length of the longest prefix of `s` that holds no whitespace.
pub open spec fn word_len(s: Seq<char>) -> nat
    decreases s.len(),
{
    if s.len() == 0 || is_space(s[0]) {
        0
    } else {
        1 + word_len(s.drop_first())
    }
}

/// The words of `s`: its maximal runs of characters that are not
/// whitespace, in order.
pub open spec fn words(s: Seq<char>) -> Seq<Seq<char>>
    decreases s.len(),
{
    if s.len() == 0 {
        Seq::empty()
    } else if is_space(s[0]) {
        words(s.drop_first())
    } else {
        let n = word_len(s);
        if 0 < n <= s.len() {
            seq![s.take(n as int)] + words(s.skip(n as int))
        } else {
            Seq::empty()
        }
    }
}

/// The index of the first `c` in `s`, or the length of `s` if `c` does
/// not occur.
pub open spec fn index_of(s: Seq<char>, c: char) -> nat
    decreases s.len(),
{
    if s.len() == 0 || s[0] == c {
        0
    } else {
        1 + index_of(s.drop_first(), c)
    }
}

/// Whether `c` is a decimal digit.
pub open spec fn is_digit(c: char) -> bool {
    '0' <= c && c <= '9'
}

/// How many decimal digits `s` starts with.
pub open spec fn digit_count(s: Seq<char>) -> nat
    decreases s.len(),
{
    if s.len() == 0 || !is_digit(s[0]) {
        0
    } else {
        1 + digit_count(s.drop_first())
    }
}

/// The number that a string of decimal digits stands for.
pub open spec fn digits_value(s: Seq<char>) -> nat
    decreases s.len(),
{
    if s.len() == 0 {
        0
    } else {
        digits_value(s.drop_last()) * 10 + (s.last() as nat - 48) as nat
    }
}

/// The character for a decimal digit `d` in `0..10`.
pub open spec fn digit(d: nat) -> char {
    (d + 48) as char
}

/// The decimal rendering of `n`, most significant digit first, without
/// leading zeros.
pub open spec fn decimal(n: nat) -> Seq<char>
    decreases n,
{
    if n < 10 {
        seq![digit(n)]
    } else {
        decimal(n / 10).push(digit(n % 10))
    }
}

/// The decimal rendering of a signed number: a minus sign before the
/// magnitude of a negative one.
pub open spec fn signed_decimal(i: int) -> Seq<char> {
    if i < 0 {
        seq!['-'] + decimal((-i) as nat)
    } else {
        decimal(i as nat)
    }
}

fn digit_char(d: u8) -> (c: char)
    requires
        d < 10,
    ensures
        c == digit(d as nat),
{
    (d + 48) as char
}

/// Appends the decimal rendering of `n` to `s`.
pub fn push_decimal(s: &mut String, n: u64)
    ensures
        final(s)@ == old(s)@ + decimal(n as nat),
    decreases n,
{
    if n >= 10 {
        push_decimal(s, n / 10);
    }
    s.push(digit_char((n % 10) as u8));
}

/// Renders `n` in decimal.
pub fn format_u64(n: u64) -> (s: String)
    ensures
        s@ == decimal(n as nat),
{
    let mut s = String::new();
    push_decimal(&mut s, n);
    s
}

/// Renders `i` in decimal, with a leading minus sign if it is negative.
pub fn format_i32(i: i32) -> (s: String)
    ensures
        s@ == signed_decimal(i as int),
{
    let mut s = String::new();
    if i < 0 {
        s.push('-');
        let magnitude: u64 = (-(i as i64)) as u64;
        push_decimal(&mut s, magnitude);
    } else {
        push_decimal(&mut s, i as u64);
    }
    s
}

/// The concatenation of two texts.
pub fn concat2(a: &str, b: &str) -> (s: String)
    ensures
        s@ == a@ + b@,
{
    let mut s = String::from_str(a);
    s.append(b);
    s
}

/// The concatenation of three texts.
pub fn concat3(a: &str, b: &str, c: &str) -> (s: String)
    ensures
        s@ == a@ + b@ + c@,
{
    let mut s = concat2(a, b);
    s.append(c);
    s
}

/// The concatenation of four texts.
pub fn concat4(a: &str, b: &str, c: &str, d: &str) -> (s: String)
    ensures
        s@ == a@ + b@ + c@ + d@,
{
    let mut s = concat3(a, b, c);
    s.append(d);
    s
}

/// The concatenation of five texts.
pub fn concat5(a: &str, b: &str, c: &str, d: &str, e: &str) -> (s: String)
    ensures
        s@ == a@ + b@ + c@ + d@ + e@,
{
    let mut s = concat4(a, b, c, d);
    s.append(e);
    s
}

/// The concatenation of six texts.
pub fn concat6(a: &str, b: &str, c: &str, d: &str, e: &str, f: &str) -> (s: String)
    ensures
        s@ == a@ + b@ + c@ + d@ + e@ + f@,
{
    let mut s = concat5(a, b, c, d, e);
    s.append(f);
    s
}

/// Appends a copy of `word` to `words`.
pub fn push_word(words: &mut Vec<String>, word: &str)
    ensures
        final(words).deep_view() == old(words).deep_view().push(word@),
{
    words.push(String::from_str(word));
    assert(words.deep_view() =~= old(words).deep_view().push(word@));
}

fn is_space_char(c: char) -> (b: bool)
    ensures
        b == is_space(c),
{
    c == ' ' || c == '\t' || c == '\n' || c == '\x0C' || c == '\r'
}

/// A prefix without whitespace that ends at whitespace or at the end of
/// the text is the first word.
pub proof fn lemma_word_len(s: Seq<char>, n: nat)
    requires
        n <= s.len(),
        forall|k: int| 0 <= k < n ==> !is_space(s[k]),
        n == s.len() || is_space(s[n as int]),
    ensures
        word_len(s) == n,
    decreases n,
{
    if n > 0 {
        let rest = s.drop_first();
        assert forall|k: int| 0 <= k < n - 1 implies !is_space(rest[k]) by {
            assert(rest[k] == s[k + 1]);
        }
        lemma_word_len(rest, (n - 1) as nat);
    }
}

/// Splits `s` at ASCII whitespace into its words.
pub fn split_ascii_whitespace(s: &str) -> (out: Vec<String>)
    ensures
        out.deep_view() == words(s@),
{
    let n = s.unicode_len();
    let mut out: Vec<String> = Vec::new();
    let mut i: usize = 0;
    assert(s@.skip(0) =~= s@);
    assert(out.deep_view() =~= Seq::<Seq<char>>::empty());
    while i < n
        invariant
            i <= n,
            n == s@.len(),
            out.deep_view() + words(s@.skip(i as int)) == words(s@),
        decreases n - i,
    {
        let c = s.get_char(i);
        let ghost rest = s@.skip(i as int);
        if is_space_char(c) {
            assert(rest.drop_first() =~= s@.skip(i as int + 1));
            i += 1;
        } else {
            let mut j: usize = i + 1;
            while j < n && !is_space_char(s.get_char(j))
                invariant
                    i < j <= n,
                    n == s@.len(),
                    forall|k: int| i <= k < j ==> !is_space(s@[k]),
                decreases n - j,
            {
                j += 1;
            }
            let ghost before = out.deep_view();
            proof {
                lemma_word_len(rest, (j - i) as nat);
                assert(rest.take(j - i) =~= s@.subrange(i as int, j as int));
                assert(rest.skip(j - i) =~= s@.skip(j as int));
            }
            push_word(&mut out, s.substring_char(i, j));
            assert(out.deep_view() + words(s@.skip(j as int)) =~= before + words(rest));
            i = j;
        }
    }
    assert(out.deep_view() + Seq::<Seq<char>>::empty() =~= out.deep_view());
    out
}

/// A prefix without `c` that ends at a `c` or at the end of the text ends
/// at the first `c`.
pub proof fn lemma_index_of(s: Seq<char>, c: char, n: nat)
    requires
        n <= s.len(),
        forall|k: int| 0 <= k < n ==> s[k] != c,
        n == s.len() || s[n as int] == c,
    ensures
        index_of(s, c) == n,
    decreases n,
{
    if n > 0 {
        let rest = s.drop_first();
        assert forall|k: int| 0 <= k < n - 1 implies rest[k] != c by {
            assert(rest[k] == s[k + 1]);
        }
        lemma_index_of(rest, c, (n - 1) as nat);
    }
}

/// Finds the first `c` at or after `start`: the result is `start` plus
/// the index of the first `c` in what follows `start`, and the length of
/// `s` if there is none.
pub fn find_char(s: &str, c: char, start: usize) -> (i: usize)
    requires
        start <= s@.len(),
    ensures
        i == start + index_of(s@.skip(start as int), c),
        start <= i <= s@.len(),
{
    let n = s.unicode_len();
    let mut i: usize = start;
    while i < n && s.get_char(i) != c
        invariant
            start <= i <= n,
            n == s@.len(),
            forall|k: int| start <= k < i ==> s@[k] != c,
        decreases n - i,
    {
        i += 1;
    }
    proof {
        lemma_index_of(s@.skip(start as int), c, (i - start) as nat);
    }
    i
}

/// A prefix of digits that ends at a character that is no digit, or at
/// the end of the text, is the whole run of leading digits.
pub proof fn lemma_digit_count(s: Seq<char>, n: nat)
    requires
        n <= s.len(),
        forall|k: int| 0 <= k < n ==> is_digit(s[k]),
        n == s.len() || !is_digit(s[n as int]),
    ensures
        digit_count(s) == n,
    decreases n,
{
    if n > 0 {
        let rest = s.drop_first();
        assert forall|k: int| 0 <= k < n - 1 implies is_digit(rest[k]) by {
            assert(rest[k] == s[k + 1]);
        }
        lemma_digit_count(rest, (n - 1) as nat);
    }
}

/// Reads the decimal number that starts at `start`. The result is the
/// index after its last digit and its value, capped at the largest `u32`.
pub fn scan_number(s: &str, start: usize) -> (r: (usize, u32))
    requires
        start <= s@.len(),
    ensures
        r.0 == start + digit_count(s@.skip(start as int)),
        start <= r.0 <= s@.len(),
        r.1 as nat == if digits_value(s@.subrange(start as int, r.0 as int)) <= u32::MAX {
            digits_value(s@.subrange(start as int, r.0 as int))
        } else {
            u32::MAX as nat
        },
{
    let n = s.unicode_len();
    let mut i: usize = start;
    let mut value: u32 = 0;
    assert(s@.subrange(start as int, start as int) =~= Seq::<char>::empty());
    while i < n && is_digit_char(s.get_char(i))
        invariant
            start <= i <= n,
            n == s@.len(),
            forall|k: int| start <= k < i ==> is_digit(s@[k]),
            value as nat == if digits_value(s@.subrange(start as int, i as int)) <= u32::MAX {
                digits_value(s@.subrange(start as int, i as int))
            } else {
                u32::MAX as nat
            },
        decreases n - i,
    {
        let c = s.get_char(i);
        let d: u32 = (c as u32) - 48;
        proof {
            let grown = s@.subrange(start as int, i as int + 1);
            assert(grown.drop_last() =~= s@.subrange(start as int, i as int));
            assert(grown.last() == c);
        }
        if value > (u32::MAX - d) / 10 {
            value = u32::MAX;
        } else {
            value = value * 10 + d;
        }
        i += 1;
    }
    proof {
        lemma_digit_count(s@.skip(start as int), (i - start) as nat);
    }
    (i, value)
}

fn is_digit_char(c: char) -> (b: bool)
    ensures
        b == is_digit(c),
{
    '0' <= c && c <= '9'
}

/// Decides whether `c` occurs in `s`.
pub fn contains_char(s: &str, c: char) -> (b: bool)
    ensures
        b == s@.contains(c),
{
    let i = find_char(s, c, 0);
    proof {
        assert(s@.skip(0) =~= s@);
        lemma_index_of_bounds(s@, c);
    }
    i < s.unicode_len()
}

/// The first index of `c` is within the text exactly if `c` occurs, and
/// nothing before it is `c`.
pub proof fn lemma_index_of_bounds(s: Seq<char>, c: char)
    ensures
        index_of(s, c) <= s.len(),
        index_of(s, c) < s.len() <==> s.contains(c),
        index_of(s, c) < s.len() ==> s[index_of(s, c) as int] == c,
        forall|k: int| 0 <= k < index_of(s, c) ==> s[k] != c,
    decreases s.len(),
{
    if s.len() == 0 {
    } else if s[0] == c {
        assert(s.contains(c));
    } else {
        let rest = s.drop_first();
        lemma_index_of_bounds(rest, c);
        if rest.contains(c) {
            let k = choose|k: int| 0 <= k < rest.len() && rest[k] == c;
            assert(s[k + 1] == c);
        }
        if s.contains(c) {
            let k = choose|k: int| 0 <= k < s.len() && s[k] == c;
            assert(rest[k - 1] == c);
        }
        assert forall|k: int| 0 <= k < index_of(s, c) implies s[k] != c by {
            if k > 0 {
                assert(rest[k - 1] == s[k]);
            }
        }
    }
}

/// Decides whether `name` can be one component of a path.
pub fn check_path_component(name: &str) -> (b: bool)
    ensures
        b == is_path_component(name@),
{
    let n = name.unicode_len();
    if n == 0 {
        return false;
    }
    if contains_char(name, '/') || contains_char(name, '\0') {
        return false;
    }
    if n == 1 && name.get_char(0) == '.' {
        assert(name@ =~= seq!['.']);
        return false;
    }
    if n == 2 && name.get_char(0) == '.' && name.get_char(1) == '.' {
        assert(name@ =~= seq!['.', '.']);
        return false;
    }
    proof {
        if name@ == seq!['.'] {
            assert(name@.len() == 1 && name@[0] == '.');
        }
        if name@ == seq!['.', '.'] {
            assert(name@.len() == 2 && name@[0] == '.' && name@[1] == '.');
        }
    }
    true
}

/// `rel` appended to the directory `base`.
pub fn join_path(base: &str, rel: &str) -> (s: String)
    ensures
        s@ == join(base@, rel@),
{
    let mut s = String::from_str(base);
    s.push('/');
    s.append(rel);
    s
}

/// Decides whether `p` is a confined relative path.
pub fn check_confined(p: &str) -> (b: bool)
    ensures
        b == is_confined(p@),
{
    let n = p.unicode_len();
    if n > 0 && p.get_char(0) == '/' {
        return false;
    }
    let mut i: usize = 0;
    while i < n
        invariant
            i <= n,
            n == p@.len(),
            forall|j: int| 0 <= j < i ==> !is_parent_ref(p@, j),
        decreases n - i,
    {
        if n - i >= 2 && p.get_char(i) == '.' && p.get_char(i + 1) == '.' && (i == 0 || p.get_char(
            i - 1,
        ) == '/') && (i + 2 == n || p.get_char(i + 2) == '/') {
            assert(is_parent_ref(p@, i as int));
            return false;
        }
        i += 1;
    }
    true
}

/// A confined path joined to a directory names something below that
/// directory.
pub proof fn lemma_join_under(base: Seq<char>, rel: Seq<char>)
    requires
        is_confined(rel),
    ensures
        is_under(join(base, rel), base),
{
}

} // verus!
