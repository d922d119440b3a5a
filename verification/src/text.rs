//! Text operations of the standard library, with the contracts that the rest
//! of the crate reasons from.

use vstd::prelude::*;
use vstd::string::StringExecFns;
use vstd::utf8::{decode_utf8, valid_utf8};

verus! {

/// The characters with the Unicode property `White_Space`.
pub open spec fn is_whitespace(c: char) -> bool {
    let n = c as u32;
    ||| 0x09 <= n <= 0x0D
    ||| n == 0x20
    ||| n == 0x85
    ||| n == 0xA0
    ||| n == 0x1680
    ||| 0x2000 <= n <= 0x200A
    ||| n == 0x2028
    ||| n == 0x2029
    ||| n == 0x202F
    ||| n == 0x205F
    ||| n == 0x3000
}

/// `s` without its leading whitespace.
pub open spec fn trim_start_of(s: Seq<char>) -> Seq<char>
    decreases s.len(),
{
    if s.len() > 0 && is_whitespace(s.first()) {
        trim_start_of(s.drop_first())
    } else {
        s
    }
}

/// `s` without its trailing whitespace.
pub open spec fn trim_end_of(s: Seq<char>) -> Seq<char>
    decreases s.len(),
{
    if s.len() > 0 && is_whitespace(s.last()) {
        trim_end_of(s.drop_last())
    } else {
        s
    }
}

/// `s` without its leading and trailing whitespace.
pub open spec fn trim_of(s: Seq<char>) -> Seq<char> {
    trim_end_of(trim_start_of(s))
}

/// The position of the first `x` in `s`, or the length of `s` if there is none.
pub open spec fn first_index_of<A>(s: Seq<A>, x: A) -> nat
    decreases s.len(),
{
    if s.len() == 0 || s.first() == x {
        0
    } else {
        1 + first_index_of(s.drop_first(), x)
    }
}

/// `first_index_of` is the one position that holds `x` with no `x` before it.
pub proof fn lemma_first_index_of<A>(s: Seq<A>, x: A, at: int)
    requires
        0 <= at <= s.len(),
        forall|k: int| 0 <= k < at ==> s[k] != x,
        at < s.len() ==> s[at] == x,
    ensures
        first_index_of(s, x) == at,
    decreases s.len(),
{
    if s.len() > 0 && at > 0 {
        assert(s.first() == s[0]);
        lemma_first_index_of(s.drop_first(), x, at - 1);
    }
}

/// The pieces of `s` between occurrences of `sep`, at most `n` of them; the
/// last piece holds whatever is left, separators included.
pub open spec fn splitn_of(s: Seq<char>, n: nat, sep: char) -> Seq<Seq<char>>
    decreases n,
{
    let at = first_index_of(s, sep) as int;
    if n == 0 {
        Seq::empty()
    } else if n == 1 || at == s.len() {
        seq![s]
    } else {
        seq![s.subrange(0, at)] + splitn_of(
            s.subrange(at + 1, s.len() as int),
            (n - 1) as nat,
            sep,
        )
    }
}

/// The code of a character, with the ASCII capitals moved to their small
/// letters.
pub open spec fn ascii_lower_code(c: char) -> u32 {
    let n = c as u32;
    if 0x41 <= n <= 0x5A {
        (n + 0x20) as u32
    } else {
        n
    }
}

/// Whether two texts are the same but for the case of their ASCII letters.
pub open spec fn same_ignoring_ascii_case(a: Seq<char>, b: Seq<char>) -> bool {
    &&& a.len() == b.len()
    &&& forall|i: int| 0 <= i < a.len() ==> ascii_lower_code(a[i]) == ascii_lower_code(b[i])
}

/// Whether `pattern` occurs in `s` as a run of adjacent characters.
pub open spec fn occurs_in(pattern: Seq<char>, s: Seq<char>) -> bool {
    exists|at: int|
        0 <= at && at + pattern.len() <= s.len() && #[trigger] s.subrange(
            at,
            at + pattern.len(),
        ) == pattern
}

/// `s` with every occurrence of `from` replaced by `to`, the occurrences
/// found from the left and none overlapping another. Stated for a `from`
/// that is not empty.
pub open spec fn replace_of(s: Seq<char>, from: Seq<char>, to: Seq<char>) -> Seq<char>
    decreases s.len(),
{
    if from.len() == 0 || s.len() < from.len() {
        s
    } else if from.is_prefix_of(s) {
        to + replace_of(s.skip(from.len() as int), from, to)
    } else {
        seq![s.first()] + replace_of(s.drop_first(), from, to)
    }
}

/// The character that stands for a digit.
pub open spec fn digit_of(d: nat) -> char {
    if d == 0 {
        '0'
    } else if d == 1 {
        '1'
    } else if d == 2 {
        '2'
    } else if d == 3 {
        '3'
    } else if d == 4 {
        '4'
    } else if d == 5 {
        '5'
    } else if d == 6 {
        '6'
    } else if d == 7 {
        '7'
    } else if d == 8 {
        '8'
    } else {
        '9'
    }
}

/// A number written in decimal, without leading zeros.
pub open spec fn decimal_of(n: nat) -> Seq<char>
    decreases n,
{
    if n < 10 {
        seq![digit_of(n)]
    } else {
        decimal_of(n / 10).push(digit_of(n % 10))
    }
}

/// The upper-case form of a text, as Unicode defines it.
pub uninterp spec fn uppercase_of(s: Seq<char>) -> Seq<char>;

/// The lower-case form of a text, as Unicode defines it.
pub uninterp spec fn lowercase_of(s: Seq<char>) -> Seq<char>;

/// What `{:?}` writes for a text that may be absent.
pub uninterp spec fn debug_text(text: Option<Seq<char>>) -> Seq<char>;

/// The text that a byte string stands for when every invalid UTF-8 sequence
/// in it is read as U+FFFD.
pub uninterp spec fn lossy_text_of(bytes: Seq<u8>) -> Seq<char>;

/// `str::trim`: the slice between the first and the last character that is
/// not whitespace.
#[verifier::external_body]
pub(crate) fn trim<'a>(s: &'a str) -> (r: &'a str)
    ensures
        r@ == trim_of(s@),
{
    s.trim()
}

/// `str::trim_end`: the slice up to the last character that is not
/// whitespace.
#[verifier::external_body]
pub(crate) fn trim_end<'a>(s: &'a str) -> (r: &'a str)
    ensures
        r@ == trim_end_of(s@),
{
    s.trim_end()
}

/// `str::to_uppercase`: a new string, the upper-case form of `s`. The result
/// depends on the characters of `s` alone.
#[verifier::external_body]
pub(crate) fn to_uppercase(s: &str) -> (r: String)
    ensures
        r@ == uppercase_of(s@),
{
    s.to_uppercase()
}

/// `str::to_lowercase`: a new string, the lower-case form of `s`. The result
/// depends on the characters of `s` alone.
#[verifier::external_body]
pub(crate) fn to_lowercase(s: &str) -> (r: String)
    ensures
        r@ == lowercase_of(s@),
{
    s.to_lowercase()
}

/// `str::eq_ignore_ascii_case`: whether the two strings are equal once the
/// ASCII letters of both are put in the same case.
#[verifier::external_body]
pub(crate) fn eq_ignore_ascii_case(a: &str, b: &str) -> (r: bool)
    ensures
        r == same_ignoring_ascii_case(a@, b@),
{
    a.eq_ignore_ascii_case(b)
}

/// `str::contains` for a string pattern: whether `pattern` occurs in `s`.
#[verifier::external_body]
pub(crate) fn contains(s: &str, pattern: &str) -> (r: bool)
    ensures
        r == occurs_in(pattern@, s@),
{
    s.contains(pattern)
}

/// `str::replace` for a string pattern that is not empty: a new string in
/// which every match of `from`, found from the left, is replaced by `to`.
#[verifier::external_body]
pub(crate) fn replace(s: &str, from: &str, to: &str) -> (r: String)
    ensures
        from@.len() > 0 ==> r@ == replace_of(s@, from@, to@),
{
    s.replace(from, to)
}

/// The `Debug` form of an `Option<String>`, as `format!` writes it with
/// `{:?}`. It depends on the text alone.
#[verifier::external_body]
pub(crate) fn debug_option(text: &Option<String>) -> (r: String)
    ensures
        r@ == debug_text(
            match *text {
                Some(s) => Some(s@),
                None => None,
            },
        ),
{
    format!("{:?}", text)
}

/// `usize::to_string`: the number written in decimal.
#[verifier::external_body]
pub(crate) fn decimal(n: usize) -> (r: String)
    ensures
        r@ == decimal_of(n as nat),
{
    n.to_string()
}

/// `str::starts_with` for a string pattern: whether `s` begins with `prefix`.
#[verifier::external_body]
pub(crate) fn starts_with(s: &str, prefix: &str) -> (r: bool)
    ensures
        r == prefix@.is_prefix_of(s@),
{
    s.starts_with(prefix)
}

/// `str::splitn` for a character pattern, its items collected: the pieces of
/// `s` between occurrences of `sep`, the `n`th one taking the remainder.
#[verifier::external_body]
pub(crate) fn splitn<'a>(s: &'a str, n: usize, sep: char) -> (r: Vec<&'a str>)
    ensures
        r@.len() == splitn_of(s@, n as nat, sep).len(),
        forall|i: int| 0 <= i < r@.len() ==> (#[trigger] r@[i])@ == splitn_of(s@, n as nat, sep)[i],
{
    s.splitn(n, sep).collect()
}

/// `String::from_utf8_lossy`, made an owned string: the text of `bytes`
/// with each invalid sequence replaced by U+FFFD. Nothing is dropped, so
/// only an empty byte string gives an empty text. The text depends on the
/// bytes alone.
#[verifier::external_body]
pub(crate) fn from_utf8_lossy(bytes: &[u8]) -> (r: String)
    ensures
        r@ == lossy_text_of(bytes@),
        r@.len() == 0 <==> bytes@.len() == 0,
{
    String::from_utf8_lossy(bytes).into_owned()
}

/// `String::from_utf8`: the text that `bytes` encodes, if they are valid
/// UTF-8.
#[verifier::external_body]
pub(crate) fn from_utf8(bytes: Vec<u8>) -> (r: Option<String>)
    ensures
        r.is_some() == valid_utf8(bytes@),
        r matches Some(s) ==> s@ == decode_utf8(bytes@),
{
    String::from_utf8(bytes).ok()
}

/// A text that may be absent.
pub open spec fn opt_text(o: Option<String>) -> Option<Seq<char>> {
    match o {
        Some(s) => Some(s@),
        None => None,
    }
}

/// The texts that a vector of strings holds.
pub open spec fn texts_of(strings: Seq<String>) -> Seq<Seq<char>> {
    Seq::new(strings.len(), |i: int| strings[i]@)
}

/// A copy of a text that may be absent.
pub fn clone_opt(o: &Option<String>) -> (r: Option<String>)
    ensures
        opt_text(r) == opt_text(*o),
{
    match o {
        Some(s) => Some(s.clone()),
        None => None,
    }
}

/// The lines joined into one text.
pub fn join(lines: &Vec<String>) -> (content: String)
    ensures
        content@ == texts_of(lines@).flatten(),
{
    let mut content = String::new();
    let mut i: usize = 0;
    assert(texts_of(lines@).subrange(0, 0).flatten() == Seq::<char>::empty());
    while i < lines.len()
        invariant
            i <= lines@.len(),
            content@ == texts_of(lines@).subrange(0, i as int).flatten(),
        decreases lines@.len() - i,
    {
        proof {
            let texts = texts_of(lines@);
            assert(texts.subrange(0, i + 1) == texts.subrange(0, i as int).push(lines@[i as int]@));
            texts.subrange(0, i as int).lemma_flatten_push(lines@[i as int]@);
        }
        content.append(lines[i].as_str());
        i += 1;
    }
    assert(texts_of(lines@).subrange(0, i as int) == texts_of(lines@));
    content
}

/// Whether two byte strings are equal.
pub fn same_bytes(x: &[u8], y: &[u8]) -> (r: bool)
    ensures
        r == (x@ == y@),
{
    if x.len() != y.len() {
        return false;
    }
    let mut i: usize = 0;
    while i < x.len()
        invariant
            x@.len() == y@.len(),
            i <= x@.len(),
            forall|k: int| 0 <= k < i ==> x@[k] == y@[k],
        decreases x@.len() - i,
    {
        if x[i] != y[i] {
            return false;
        }
        i += 1;
    }
    assert(x@ =~= y@);
    true
}

/// Whether two string slices hold the same text.
pub fn same_text(a: &str, b: &str) -> (r: bool)
    ensures
        r == (a@ == b@),
{
    proof {
        vstd::utf8::encode_utf8_decode_utf8(a@);
        vstd::utf8::encode_utf8_decode_utf8(b@);
    }
    same_bytes(a.as_bytes(), b.as_bytes())
}

} // verus!
