//! Character classes and string helpers shared by the validators and queries.
//! Strings are modelled by their sequence of characters.

use vstd::prelude::*;
use vstd::string::*;

verus! {

/// `'0'..='9'`.
pub open spec fn is_ascii_digit(c: char) -> bool {
    '0' <= c && c <= '9'
}

/// `'a'..='z'` or `'A'..='Z'`.
pub open spec fn is_ascii_letter(c: char) -> bool {
    ('a' <= c && c <= 'z') || ('A' <= c && c <= 'Z')
}

/// `'A'..='Z'`.
pub open spec fn is_ascii_upper(c: char) -> bool {
    'A' <= c && c <= 'Z'
}

/// A character allowed in a TADIG code: an ASCII letter, an ASCII digit or `_`.
pub open spec fn is_tadig_char(c: char) -> bool {
    is_ascii_letter(c) || is_ascii_digit(c) || c == '_'
}

/// Whether a character has the Unicode `White_Space` property, as
/// `char::is_whitespace` reports it.
pub uninterp spec fn is_whitespace(c: char) -> bool;

/// Every character of `s` is an ASCII digit.
pub open spec fn all_digits(s: Seq<char>) -> bool {
    forall|i: int| 0 <= i < s.len() ==> is_ascii_digit(#[trigger] s[i])
}

/// Every character of `s` is an ASCII letter.
pub open spec fn all_letters(s: Seq<char>) -> bool {
    forall|i: int| 0 <= i < s.len() ==> is_ascii_letter(#[trigger] s[i])
}

/// Every character of `s` is an upper-case ASCII letter.
pub open spec fn all_upper(s: Seq<char>) -> bool {
    forall|i: int| 0 <= i < s.len() ==> is_ascii_upper(#[trigger] s[i])
}

/// Every character of `s` is an ASCII letter or whitespace.
pub open spec fn all_letters_or_spaces(s: Seq<char>) -> bool {
    forall|i: int|
        0 <= i < s.len() ==> is_ascii_letter(#[trigger] s[i]) || is_whitespace(s[i])
}

/// Every character of `s` may stand in a TADIG code.
pub open spec fn all_tadig_chars(s: Seq<char>) -> bool {
    forall|i: int| 0 <= i < s.len() ==> is_tadig_char(#[trigger] s[i])
}

/// Whether `c` is an ASCII digit.
pub fn char_is_ascii_digit(c: char) -> (b: bool)
    ensures
        b == is_ascii_digit(c),
{
    c >= '0' && c <= '9'
}

/// Whether `c` is an ASCII letter.
pub fn char_is_ascii_letter(c: char) -> (b: bool)
    ensures
        b == is_ascii_letter(c),
{
    (c >= 'a' && c <= 'z') || (c >= 'A' && c <= 'Z')
}

/// Whether `c` is an upper-case ASCII letter.
pub fn char_is_ascii_upper(c: char) -> (b: bool)
    ensures
        b == is_ascii_upper(c),
{
    c >= 'A' && c <= 'Z'
}

/// Whether `c` may stand in a TADIG code.
pub fn char_is_tadig_char(c: char) -> (b: bool)
    ensures
        b == is_tadig_char(c),
{
    char_is_ascii_letter(c) || char_is_ascii_digit(c) || c == '_'
}

/// `char::is_whitespace`: the result is the character's `White_Space`
/// property, which this library does not define itself.
#[verifier::external_body]
fn char_is_whitespace(c: char) -> (b: bool)
    ensures
        b == is_whitespace(c),
{
    c.is_whitespace()
}

/// The characters of `s`, in order.
pub fn chars_of(s: &str) -> (v: Vec<char>)
    ensures
        v@ == s@,
{
    let mut v: Vec<char> = Vec::new();
    for c in it: s.chars()
        invariant
            v@ == it.seq().take(it.index() as int),
            it.seq() == s@,
    {
        v.push(c);
    }
    v
}

/// Whether `s` is made of ASCII digits alone; the empty string is.
pub fn is_all_digits(s: &str) -> (b: bool)
    ensures
        b == all_digits(s@),
{
    let mut ok = true;
    for c in it: s.chars()
        invariant
            it.seq() == s@,
            ok == (forall|j: int| 0 <= j < it.index() ==> is_ascii_digit(#[trigger] s@[j])),
    {
        if !char_is_ascii_digit(c) {
            ok = false;
        }
    }
    ok
}

/// Whether `s` is made of ASCII letters alone.
pub fn is_all_letters(s: &str) -> (b: bool)
    ensures
        b == all_letters(s@),
{
    let mut ok = true;
    for c in it: s.chars()
        invariant
            it.seq() == s@,
            ok == (forall|j: int| 0 <= j < it.index() ==> is_ascii_letter(#[trigger] s@[j])),
    {
        if !char_is_ascii_letter(c) {
            ok = false;
        }
    }
    ok
}

/// Whether `s` is made of upper-case ASCII letters alone.
pub fn is_all_upper(s: &str) -> (b: bool)
    ensures
        b == all_upper(s@),
{
    let mut ok = true;
    for c in it: s.chars()
        invariant
            it.seq() == s@,
            ok == (forall|j: int| 0 <= j < it.index() ==> is_ascii_upper(#[trigger] s@[j])),
    {
        if !char_is_ascii_upper(c) {
            ok = false;
        }
    }
    ok
}

/// Whether `s` is made of ASCII letters and whitespace alone.
pub fn is_all_letters_or_spaces(s: &str) -> (b: bool)
    ensures
        b == all_letters_or_spaces(s@),
{
    let mut ok = true;
    for c in it: s.chars()
        invariant
            it.seq() == s@,
            ok == (forall|j: int|
                0 <= j < it.index() ==> is_ascii_letter(#[trigger] s@[j]) || is_whitespace(
                    s@[j],
                )),
    {
        if !(char_is_ascii_letter(c) || char_is_whitespace(c)) {
            ok = false;
        }
    }
    ok
}

/// Whether every character of `s` may stand in a TADIG code.
pub fn is_all_tadig_chars(s: &str) -> (b: bool)
    ensures
        b == all_tadig_chars(s@),
{
    let mut ok = true;
    for c in it: s.chars()
        invariant
            it.seq() == s@,
            ok == (forall|j: int| 0 <= j < it.index() ==> is_tadig_char(#[trigger] s@[j])),
    {
        if !char_is_tadig_char(c) {
            ok = false;
        }
    }
    ok
}

/// The first index at or after `i` whose character is not whitespace, or the
/// length of `s` if there is none.
pub open spec fn skip_whitespace_forward(s: Seq<char>, i: int) -> int
    decreases s.len() - i,
{
    if 0 <= i < s.len() && is_whitespace(s[i]) {
        skip_whitespace_forward(s, i + 1)
    } else {
        i
    }
}

/// The end of `s` once the whitespace that precedes `j` is dropped, never
/// going below `lo`.
pub open spec fn skip_whitespace_backward(s: Seq<char>, lo: int, j: int) -> int
    decreases j,
{
    if 0 <= lo < j <= s.len() && is_whitespace(s[j - 1]) {
        skip_whitespace_backward(s, lo, j - 1)
    } else {
        j
    }
}

/// `s` without its leading and trailing whitespace.
pub open spec fn trimmed(s: Seq<char>) -> Seq<char> {
    let start = skip_whitespace_forward(s, 0);
    let end = skip_whitespace_backward(s, start, s.len() as int);
    s.subrange(start, end)
}

/// `s` without its leading and trailing whitespace, as `str::trim` gives it.
pub fn trim(s: &str) -> (r: &str)
    ensures
        r@ == trimmed(s@),
{
    let v = chars_of(s);
    let n = v.len();
    let mut start: usize = 0;
    while start < n && char_is_whitespace(v[start])
        invariant
            start <= n,
            n == v@.len(),
            v@ == s@,
            skip_whitespace_forward(s@, 0) == skip_whitespace_forward(s@, start as int),
        decreases n - start,
    {
        start += 1;
    }
    let mut end: usize = n;
    while end > start && char_is_whitespace(v[end - 1])
        invariant
            start <= end <= n,
            n == v@.len(),
            v@ == s@,
            skip_whitespace_backward(s@, start as int, n as int) == skip_whitespace_backward(
                s@,
                start as int,
                end as int,
            ),
        decreases end,
    {
        end -= 1;
    }
    s.substring_char(start, end)
}

/// The lower-case form of a string, as `str::to_lowercase` gives it.
pub uninterp spec fn lowercase_of(s: Seq<char>) -> Seq<char>;

/// The upper-case form of a string, as `str::to_uppercase` gives it.
pub uninterp spec fn uppercase_of(s: Seq<char>) -> Seq<char>;

/// The upper-case form of one character, as `char::to_uppercase` gives it;
/// it may be longer than one character.
pub uninterp spec fn char_uppercase_of(c: char) -> Seq<char>;

/// `s` with each of `'a'..='z'` replaced by its upper-case letter and every
/// other character kept.
pub open spec fn ascii_uppercased(s: Seq<char>) -> Seq<char> {
    Seq::new(s.len(), |i: int| ascii_upper_of(s[i]))
}

/// The upper-case letter of `'a'..='z'`; any other character itself.
pub open spec fn ascii_upper_of(c: char) -> char {
    if 'a' <= c && c <= 'z' {
        ((c as u8) - 32) as char
    } else {
        c
    }
}

/// `str::to_lowercase`: the result is the Unicode lower-case form of the
/// whole string, named here and not defined.
#[verifier::external_body]
pub(crate) fn to_lowercase(s: &str) -> (r: String)
    ensures
        r@ == lowercase_of(s@),
{
    s.to_lowercase()
}

/// `str::to_uppercase`: the result is the Unicode upper-case form of the
/// whole string, named here and not defined.
#[verifier::external_body]
pub(crate) fn to_uppercase(s: &str) -> (r: String)
    ensures
        r@ == uppercase_of(s@),
{
    s.to_uppercase()
}

/// `char::to_uppercase`, collected into a string: the Unicode upper-case
/// form of one character, named here and not defined.
#[verifier::external_body]
fn char_to_uppercase(c: char) -> (r: String)
    ensures
        r@ == char_uppercase_of(c),
{
    c.to_uppercase().to_string()
}

/// `str::to_ascii_uppercase`: the letters `'a'..='z'` become `'A'..='Z'` and
/// every other character stays as it is.
#[verifier::external_body]
pub(crate) fn to_ascii_uppercase(s: &str) -> (r: String)
    ensures
        r@ == ascii_uppercased(s@),
{
    s.to_ascii_uppercase()
}

/// The upper-case form of the first character followed by the lower-case
/// form of the rest; the empty string stays empty.
pub open spec fn capitalized(s: Seq<char>) -> Seq<char> {
    if s.len() == 0 {
        Seq::empty()
    } else {
        char_uppercase_of(s[0]) + lowercase_of(s.subrange(1, s.len() as int))
    }
}

/// Upper-cases the first character and lower-cases the rest.
pub fn capitalize(s: &str) -> (r: String)
    ensures
        r@ == capitalized(s@),
{
    let n = s.unicode_len();
    if n == 0 {
        return String::new();
    }
    let first = char_to_uppercase(s.get_char(0));
    let rest = to_lowercase(s.substring_char(1, n));
    first.concat(rest.as_str())
}

/// `needle` occurs in `hay` at index `i`.
pub open spec fn occurs_at(hay: Seq<char>, needle: Seq<char>, i: int) -> bool {
    0 <= i && i + needle.len() <= hay.len() && hay.subrange(i, i + needle.len()) == needle
}

/// `needle` occurs somewhere in `hay` as a contiguous run of characters.
pub open spec fn is_substring(needle: Seq<char>, hay: Seq<char>) -> bool {
    exists|i: int| occurs_at(hay, needle, i)
}

fn matches_at(hay: &Vec<char>, needle: &Vec<char>, i: usize) -> (b: bool)
    requires
        i + needle@.len() <= hay@.len(),
    ensures
        b == occurs_at(hay@, needle@, i as int),
{
    let m = needle.len();
    let mut k: usize = 0;
    while k < m
        invariant
            k <= m,
            m == needle.len(),
            i + m <= hay.len(),
            forall|j: int| 0 <= j < k ==> hay@[i + j] == needle@[j],
        decreases m - k,
    {
        if hay[i + k] != needle[k] {
            proof {
                assert(hay@.subrange(i as int, i + m)[k as int] == hay@[i + k]);
            }
            return false;
        }
        k += 1;
    }
    proof {
        assert(hay@.subrange(i as int, i + m) =~= needle@);
    }
    true
}

/// Whether `needle` occurs in `hay`, as `str::contains` reports it for a
/// string pattern.
pub fn contains(hay: &str, needle: &str) -> (b: bool)
    ensures
        b == is_substring(needle@, hay@),
{
    let h = chars_of(hay);
    let n = chars_of(needle);
    if n.len() > h.len() {
        return false;
    }
    let last = h.len() - n.len();
    let mut i: usize = 0;
    loop
        invariant
            i <= last,
            last == h.len() - n.len(),
            h@ == hay@,
            n@ == needle@,
            forall|j: int| 0 <= j < i ==> !occurs_at(hay@, needle@, j),
        decreases last - i,
    {
        if matches_at(&h, &n, i) {
            return true;
        }
        if i == last {
            return false;
        }
        i += 1;
    }
}

/// Two characters are equal once ASCII letters are compared without case.
pub open spec fn ascii_case_eq(a: char, b: char) -> bool {
    ascii_upper_of(a) == ascii_upper_of(b)
}

/// Two strings have the same length and agree character by character once
/// ASCII letters are compared without case.
pub open spec fn eq_ignoring_ascii_case(a: Seq<char>, b: Seq<char>) -> bool {
    a.len() == b.len() && forall|i: int| 0 <= i < a.len() ==> ascii_case_eq(#[trigger] a[i], b[i])
}

fn char_ascii_case_eq(a: char, b: char) -> (r: bool)
    ensures
        r == ascii_case_eq(a, b),
{
    if a == b {
        true
    } else if a >= 'a' && a <= 'z' && b >= 'A' && b <= 'Z' {
        (a as u32) - 32 == (b as u32)
    } else if b >= 'a' && b <= 'z' && a >= 'A' && a <= 'Z' {
        (b as u32) - 32 == (a as u32)
    } else {
        false
    }
}

/// Equality of two strings without regard to the case of ASCII letters, as
/// `str::eq_ignore_ascii_case` reports it.
pub fn eq_ignore_ascii_case(a: &str, b: &str) -> (r: bool)
    ensures
        r == eq_ignoring_ascii_case(a@, b@),
{
    let x = chars_of(a);
    let y = chars_of(b);
    if x.len() != y.len() {
        return false;
    }
    let n = x.len();
    let mut i: usize = 0;
    while i < n
        invariant
            i <= n,
            n == x@.len(),
            n == y@.len(),
            x@ == a@,
            y@ == b@,
            forall|j: int| 0 <= j < i ==> ascii_case_eq(#[trigger] a@[j], b@[j]),
        decreases n - i,
    {
        if !char_ascii_case_eq(x[i], y[i]) {
            return false;
        }
        i += 1;
    }
    true
}

/// The number of leading positions at which `a` and `b` hold the same
/// character, counted from index `i`.
pub open spec fn common_prefix_from(a: Seq<char>, b: Seq<char>, i: int) -> nat
    decreases a.len() - i,
{
    if 0 <= i < a.len() && i < b.len() && a[i] == b[i] {
        1 + common_prefix_from(a, b, i + 1)
    } else {
        0
    }
}

/// The length of the longest common prefix of `a` and `b`.
pub open spec fn common_prefix_len(a: Seq<char>, b: Seq<char>) -> nat {
    common_prefix_from(a, b, 0)
}

/// The length of the longest common prefix of two strings, in characters.
pub fn common_prefix_length(str1: &str, str2: &str) -> (n: usize)
    ensures
        n == common_prefix_len(str1@, str2@),
{
    let a = chars_of(str1);
    let b = chars_of(str2);
    let mut i: usize = 0;
    while i < a.len() && i < b.len() && a[i] == b[i]
        invariant
            i <= a.len(),
            i <= b.len(),
            a@ == str1@,
            b@ == str2@,
            common_prefix_len(str1@, str2@) == i + common_prefix_from(str1@, str2@, i as int),
        decreases a.len() - i,
    {
        i += 1;
    }
    i
}

/// What `common_prefix_len` counts: the two strings agree on exactly that
/// many leading characters, and differ at the next one if both have one.
pub proof fn lemma_common_prefix_len(a: Seq<char>, b: Seq<char>)
    ensures
        common_prefix_len(a, b) <= a.len(),
        common_prefix_len(a, b) <= b.len(),
        forall|j: int| 0 <= j < common_prefix_len(a, b) ==> a[j] == b[j],
        common_prefix_len(a, b) < a.len() && common_prefix_len(a, b) < b.len() ==> a[common_prefix_len(
            a,
            b,
        ) as int] != b[common_prefix_len(a, b) as int],
{
    lemma_common_prefix_from(a, b, 0);
}

proof fn lemma_common_prefix_from(a: Seq<char>, b: Seq<char>, i: int)
    requires
        0 <= i,
    ensures
        i <= a.len() && i <= b.len() ==> i + common_prefix_from(a, b, i) <= a.len(),
        i <= a.len() && i <= b.len() ==> i + common_prefix_from(a, b, i) <= b.len(),
        forall|j: int| i <= j < i + common_prefix_from(a, b, i) ==> a[j] == b[j],
        i + common_prefix_from(a, b, i) < a.len() && i + common_prefix_from(a, b, i) < b.len()
            ==> a[i + common_prefix_from(a, b, i)] != b[i + common_prefix_from(a, b, i)],
    decreases a.len() - i,
{
    if 0 <= i < a.len() && i < b.len() && a[i] == b[i] {
        lemma_common_prefix_from(a, b, i + 1);
    }
}

/// Equality of two string slices by their characters.
pub assume_specification[ <str as PartialEq>::eq ](a: &str, b: &str) -> (r: bool)
    ensures
        r == (a@ == b@),
;

/// Whether two string slices hold the same characters.
pub fn same_text(a: &str, b: &str) -> (r: bool)
    ensures
        r == (a@ == b@),
{
    *a == *b
}

/// `a` sorts strictly before `b` when the two are compared from index `i`
/// on, character by character by code point; a string that ends first sorts
/// first.
pub open spec fn sorts_before_from(a: Seq<char>, b: Seq<char>, i: int) -> bool
    decreases a.len() - i,
{
    if i < 0 || i >= b.len() {
        false
    } else if i >= a.len() {
        true
    } else if a[i] != b[i] {
        a[i] < b[i]
    } else {
        sorts_before_from(a, b, i + 1)
    }
}

/// `a` sorts strictly before `b` in the order of `str`: lexicographic by
/// code point.
pub open spec fn sorts_before(a: Seq<char>, b: Seq<char>) -> bool {
    sorts_before_from(a, b, 0)
}

/// How one string stands to another in the order of `str`.
#[derive(Clone, Copy, Debug, PartialEq, Eq, Structural)]
pub enum TextOrder {
    Before,
    Same,
    After,
}

/// Compares two strings in the order of `str`.
pub fn text_order(x: &str, y: &str) -> (r: TextOrder)
    ensures
        r == TextOrder::Before <==> sorts_before(x@, y@),
        r == TextOrder::Same <==> x@ == y@,
        r == TextOrder::After <==> sorts_before(y@, x@),
{
    let a = chars_of(x);
    let b = chars_of(y);
    let mut i: usize = 0;
    while i < a.len() && i < b.len() && a[i] == b[i]
        invariant
            i <= a.len(),
            i <= b.len(),
            a@ == x@,
            b@ == y@,
            forall|j: int| 0 <= j < i ==> x@[j] == y@[j],
            sorts_before(x@, y@) == sorts_before_from(x@, y@, i as int),
            sorts_before(y@, x@) == sorts_before_from(y@, x@, i as int),
        decreases a.len() - i,
    {
        i += 1;
    }
    if i == a.len() && i == b.len() {
        proof {
            assert(x@ =~= y@);
        }
        TextOrder::Same
    } else if i == a.len() {
        TextOrder::Before
    } else if i == b.len() {
        TextOrder::After
    } else if a[i] < b[i] {
        TextOrder::Before
    } else {
        TextOrder::After
    }
}

proof fn lemma_sorts_before_from_irreflexive(a: Seq<char>, i: int)
    requires
        0 <= i,
    ensures
        !sorts_before_from(a, a, i),
    decreases a.len() - i,
{
    if i < a.len() {
        lemma_sorts_before_from_irreflexive(a, i + 1);
    }
}

proof fn lemma_sorts_before_from_transitive(a: Seq<char>, b: Seq<char>, c: Seq<char>, i: int)
    requires
        0 <= i,
        sorts_before_from(a, b, i),
        sorts_before_from(b, c, i),
    ensures
        sorts_before_from(a, c, i),
    decreases a.len() - i,
{
    if i < a.len() && i < b.len() && i < c.len() && a[i] == b[i] && b[i] == c[i] {
        lemma_sorts_before_from_transitive(a, b, c, i + 1);
    }
}

proof fn lemma_sorts_before_from_total(a: Seq<char>, b: Seq<char>, i: int)
    requires
        0 <= i <= a.len(),
        i <= b.len(),
        forall|j: int| 0 <= j < i ==> a[j] == b[j],
        !sorts_before_from(a, b, i),
        !sorts_before_from(b, a, i),
    ensures
        a == b,
    decreases a.len() - i,
{
    if i < a.len() && i < b.len() {
        lemma_sorts_before_from_total(a, b, i + 1);
    } else {
        assert(a =~= b);
    }
}

/// No string sorts before itself.
pub proof fn lemma_sorts_before_irreflexive(a: Seq<char>)
    ensures
        !sorts_before(a, a),
{
    lemma_sorts_before_from_irreflexive(a, 0);
}

/// The order of strings is transitive.
pub proof fn lemma_sorts_before_transitive(a: Seq<char>, b: Seq<char>, c: Seq<char>)
    requires
        sorts_before(a, b),
        sorts_before(b, c),
    ensures
        sorts_before(a, c),
{
    lemma_sorts_before_from_transitive(a, b, c, 0);
}

/// Of two different strings, one sorts before the other.
pub proof fn lemma_sorts_before_total(a: Seq<char>, b: Seq<char>)
    requires
        a != b,
    ensures
        sorts_before(a, b) || sorts_before(b, a),
{
    if !sorts_before(a, b) && !sorts_before(b, a) {
        lemma_sorts_before_from_total(a, b, 0);
    }
}

/// A string as `str`'s `Debug` formatting writes it: between double quotes,
/// with the characters that need it escaped.
pub uninterp spec fn quoted(s: Seq<char>) -> Seq<char>;

/// `format!("{:?}", s)` for a string: the quoted and escaped form, named
/// here and not defined.
#[verifier::external_body]
pub(crate) fn debug_quoted(s: &str) -> (r: String)
    ensures
        r@ == quoted(s@),
{
    format!("{:?}", s)
}

/// The character of one decimal digit.
pub open spec fn digit_char(d: nat) -> char
    recommends
        d < 10,
{
    ((48 + d) as u8) as char
}

/// The decimal numeral of `n`, without leading zeros.
pub open spec fn decimal_of(n: nat) -> Seq<char>
    decreases n,
{
    if n < 10 {
        seq![digit_char(n)]
    } else {
        decimal_of(n / 10).push(digit_char(n % 10))
    }
}

fn digit_text(d: usize) -> (r: &'static str)
    requires
        d < 10,
    ensures
        r@ == seq![digit_char(d as nat)],
{
    proof {
        reveal_strlit("0");
        reveal_strlit("1");
        reveal_strlit("2");
        reveal_strlit("3");
        reveal_strlit("4");
        reveal_strlit("5");
        reveal_strlit("6");
        reveal_strlit("7");
        reveal_strlit("8");
        reveal_strlit("9");
    }
    let r = if d == 0 {
        "0"
    } else if d == 1 {
        "1"
    } else if d == 2 {
        "2"
    } else if d == 3 {
        "3"
    } else if d == 4 {
        "4"
    } else if d == 5 {
        "5"
    } else if d == 6 {
        "6"
    } else if d == 7 {
        "7"
    } else if d == 8 {
        "8"
    } else {
        "9"
    };
    assert(r@ =~= seq![digit_char(d as nat)]);
    r
}

/// Appends the decimal numeral of `n` to `out`.
pub fn append_decimal(out: &mut String, n: usize)
    ensures
        final(out)@ == old(out)@ + decimal_of(n as nat),
    decreases n,
{
    if n >= 10 {
        append_decimal(out, n / 10);
    }
    out.append(digit_text(n % 10));
    proof {
        if n >= 10 {
            assert(old(out)@ + decimal_of((n / 10) as nat) + seq![digit_char((n % 10) as nat)]
                =~= old(out)@ + decimal_of(n as nat));
        }
    }
}

} // verus!
