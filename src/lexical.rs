//! Lexical primitives: keywords, single characters, whitespace, identifiers
//! and literals.
use vstd::prelude::*;
use vstd::string::StringSliceAdditionalSpecFns;
use vstd::utf8::*;

use crate::error::{fail_at, furthest_error, or_else, ErrorKind, Expected, ParseError, SpecResult};

verus! {

broadcast use {encode_utf8_valid_utf8, encode_utf8_decode_utf8};

/// A recognizer's result agrees with its specification: the same error, or a
/// value whose view is the specified one and the specified rest of the input.
pub open spec fn agrees<T: View>(r: Result<(&str, T), ParseError>, spec: SpecResult<T::V>) -> bool {
    match (r, spec) {
        (Ok((rest, v)), Ok((w, srest))) => v@ == w && rest.spec_bytes() == srest,
        (Err(e), Err(f)) => e == f,
        _ => false,
    }
}

/// Like [`agrees`], for a recognizer whose value is a vector: the views of
/// its elements are the specified sequence.
pub open spec fn agrees_list<T: View>(r: Result<(&str, Vec<T>), ParseError>, spec: SpecResult<Seq<T::V>>) -> bool {
    match (r, spec) {
        (Ok((rest, v)), Ok((w, srest))) => views(v@) == w && rest.spec_bytes() == srest,
        (Err(e), Err(f)) => e == f,
        _ => false,
    }
}

/// A recognizer that succeeds consumes at least one byte.
pub open spec fn consumes<T>(input: &str, r: Result<(&str, T), ParseError>) -> bool {
    r is Ok ==> r->Ok_0.0.spec_bytes().len() < input.spec_bytes().len()
}

/// The rest of `s` after its first `n` bytes.
pub open spec fn after(s: Seq<u8>, n: int) -> Seq<u8> {
    s.subrange(n, s.len() as int)
}

/// The failure kind at input `s`: `Incomplete` when nothing is left.
pub open spec fn kind_at(s: Seq<u8>) -> ErrorKind {
    if s.len() == 0 { ErrorKind::Incomplete } else { ErrorKind::Mismatch }
}

/// The views of a sequence of values.
pub open spec fn views<T: View>(v: Seq<T>) -> Seq<T::V> {
    v.map_values(|x: T| x@)
}

pub proof fn lemma_views_push<T: View>(v: Seq<T>, x: T)
    ensures
        views(v.push(x)) == views(v).push(x@),
{
    assert(views(v.push(x)) =~= views(v).push(x@));
}

/// The length of `s` in bytes.
pub fn byte_len(s: &str) -> (n: usize)
    ensures
        n == s.spec_bytes().len(),
{
    s.as_bytes().len()
}

/// A recognizer in the specification.
pub type SpecParser<T> = spec_fn(Seq<u8>) -> SpecResult<T>;

/// Zero or more items of `p` separated by commas, after `acc`. A separator
/// whose item does not follow is left unconsumed.
pub open spec fn sep_tail<T>(p: SpecParser<T>, s: Seq<u8>, acc: Seq<T>) -> (Seq<T>, Seq<u8>)
    decreases s.len(),
{
    match spec_char(s, 0x2c) {
        Err(_) => (acc, s),
        Ok((_, s1)) => match p(s1) {
            Err(_) => (acc, s),
            Ok((x, s2)) => if s2.len() < s.len() {
                sep_tail(p, s2, acc.push(x))
            } else {
                (acc, s)
            },
        },
    }
}

/// Zero or more items of `p` separated by commas; never fails.
pub open spec fn sep_list<T>(p: SpecParser<T>, s: Seq<u8>) -> (Seq<T>, Seq<u8>) {
    match p(s) {
        Err(_) => (Seq::empty(), s),
        Ok((x, s1)) => sep_tail(p, s1, seq![x]),
    }
}

/// Zero or more items of `p` in a row, after `acc`; never fails.
pub open spec fn many_tail<T>(p: SpecParser<T>, s: Seq<u8>, acc: Seq<T>) -> (Seq<T>, Seq<u8>)
    decreases s.len(),
{
    match p(s) {
        Err(_) => (acc, s),
        Ok((x, s1)) => if s1.len() < s.len() {
            many_tail(p, s1, acc.push(x))
        } else {
            (acc, s)
        },
    }
}

// ---------------------------------------------------------------------------
// UTF-8 facts needed to cut the input text after consumed ASCII bytes.

proof fn lemma_ascii_prefix_boundary(bytes: Seq<u8>, k: int)
    requires
        valid_utf8(bytes),
        0 <= k <= bytes.len(),
        forall|i: int| 0 <= i < k ==> bytes[i] < 128,
    ensures
        is_char_boundary(bytes, k),
    decreases k,
{
    if k > 0 {
        let rest = pop_first_scalar(bytes);
        assert(length_of_first_scalar(bytes) == 1);
        assert forall|i: int| 0 <= i < k - 1 implies rest[i] < 128 by {
            assert(rest[i] == bytes[i + 1]);
        }
        lemma_ascii_prefix_boundary(rest, k - 1);
    }
}

proof fn lemma_concat_boundary(a: Seq<u8>, b: Seq<u8>)
    requires
        valid_utf8(a),
        valid_utf8(a + b),
    ensures
        is_char_boundary(a + b, a.len() as int),
    decreases a.len(),
{
    if a.len() > 0 {
        let ab = a + b;
        assert(ab[0] == a[0]);
        assert(length_of_first_scalar(ab) == length_of_first_scalar(a));
        assert(pop_first_scalar(ab) =~= pop_first_scalar(a) + b);
        lemma_concat_boundary(pop_first_scalar(a), b);
    }
}

/// The characters of ASCII bytes, one for each.
pub open spec fn ascii_text(b: Seq<u8>) -> Seq<char> {
    b.map_values(|x: u8| x as char)
}

proof fn lemma_decode_ascii(b: Seq<u8>)
    requires
        forall|i: int| 0 <= i < b.len() ==> b[i] < 128,
    ensures
        valid_utf8(b),
        decode_utf8(b) == ascii_text(b),
    decreases b.len(),
{
    if b.len() > 0 {
        let x = b[0];
        assert(x < 128);
        assert(x & 0x7f == x) by (bit_vector)
            requires
                x < 128,
        ;
        let rest = pop_first_scalar(b);
        assert(rest =~= b.subrange(1, b.len() as int));
        assert forall|i: int| 0 <= i < rest.len() implies rest[i] < 128 by {
            assert(rest[i] == b[i + 1]);
        }
        lemma_decode_ascii(rest);
        assert(decode_first_scalar(b) == x as u32);
        assert(decode_utf8(b) =~= ascii_text(b));
    }
}

/// Cuts `input` after its first `k` bytes, which are ASCII.
fn split_ascii(input: &str, k: usize) -> (r: (&str, &str))
    requires
        k <= input.spec_bytes().len(),
        forall|i: int| 0 <= i < k ==> input.spec_bytes()[i] < 128,
    ensures
        r.0.spec_bytes() == input.spec_bytes().subrange(0, k as int),
        r.0@ == ascii_text(input.spec_bytes().subrange(0, k as int)),
        r.1.spec_bytes() == after(input.spec_bytes(), k as int),
{
    proof {
        let b = input.spec_bytes();
        lemma_ascii_prefix_boundary(b, k as int);
        assert forall|i: int| 0 <= i < k implies b.subrange(0, k as int)[i] < 128 by {
            assert(b.subrange(0, k as int)[i] == b[i]);
        }
        lemma_decode_ascii(b.subrange(0, k as int));
    }
    input.split_at(k)
}

// ---------------------------------------------------------------------------
// Keywords and single characters.

/// Recognizes the fixed text `kw` at the start of `s`.
pub open spec fn spec_tag(s: Seq<u8>, kw: Seq<u8>) -> SpecResult<()> {
    if kw.len() <= s.len() && s.subrange(0, kw.len() as int) == kw {
        Ok(((), after(s, kw.len() as int)))
    } else if s.len() < kw.len() && s == kw.subrange(0, s.len() as int) {
        Err(fail_at(s, ErrorKind::Incomplete, Expected::Keyword))
    } else {
        Err(fail_at(s, ErrorKind::Mismatch, Expected::Keyword))
    }
}

/// Recognizes the text `kw`.
pub fn tag<'a>(input: &'a str, kw: &str) -> (r: Result<(&'a str, ()), ParseError>)
    ensures
        agrees(r, spec_tag(input.spec_bytes(), kw.spec_bytes())),
{
    let b = input.as_bytes();
    let k = kw.as_bytes();
    let ghost s = b@;
    let ghost t = k@;
    let mut i: usize = 0;
    while i < k.len() && i < b.len()
        invariant
            b@ == s,
            k@ == t,
            input.spec_bytes() == s,
            kw.spec_bytes() == t,
            i <= t.len(),
            i <= s.len(),
            s.subrange(0, i as int) == t.subrange(0, i as int),
        decreases t.len() - i,
    {
        if b[i] != k[i] {
            assert(!(t.len() <= s.len() && s.subrange(0, t.len() as int) == t)) by {
                if t.len() <= s.len() {
                    assert(s.subrange(0, t.len() as int)[i as int] == s[i as int]);
                }
            }
            assert(!(s.len() < t.len() && s == t.subrange(0, s.len() as int))) by {
                if s.len() < t.len() {
                    assert(t.subrange(0, s.len() as int)[i as int] == t[i as int]);
                }
            }
            let e = ParseError { kind: ErrorKind::Mismatch, expected: Expected::Keyword, remaining: b.len() };
            return Err(e);
        }
        assert(s.subrange(0, i + 1) =~= s.subrange(0, i as int).push(s[i as int]));
        assert(t.subrange(0, i + 1) =~= t.subrange(0, i as int).push(t[i as int]));
        i = i + 1;
    }
    if i < k.len() {
        assert(s =~= s.subrange(0, i as int));
        return Err(ParseError { kind: ErrorKind::Incomplete, expected: Expected::Keyword, remaining: b.len() });
    }
    assert(t =~= t.subrange(0, i as int));
    proof {
        assert(s =~= t + after(s, t.len() as int));
        lemma_concat_boundary(t, after(s, t.len() as int));
    }
    let (_, rest) = input.split_at(i);
    Ok((rest, ()))
}

/// Recognizes the single ASCII character `c` at the start of `s`.
pub open spec fn spec_char(s: Seq<u8>, c: u8) -> SpecResult<()> {
    if s.len() > 0 && s[0] == c {
        Ok(((), after(s, 1)))
    } else {
        Err(fail_at(s, kind_at(s), Expected::Char(c)))
    }
}

/// Recognizes the single ASCII character `c`.
pub fn ascii_char(input: &str, c: u8) -> (r: Result<(&str, ()), ParseError>)
    requires
        c < 128,
    ensures
        agrees(r, spec_char(input.spec_bytes(), c)),
        consumes(input, r),
{
    let b = input.as_bytes();
    if b.len() > 0 && b[0] == c {
        let (_, rest) = split_ascii(input, 1);
        Ok((rest, ()))
    } else if b.len() == 0 {
        Err(ParseError { kind: ErrorKind::Incomplete, expected: Expected::Char(c), remaining: 0 })
    } else {
        Err(ParseError { kind: ErrorKind::Mismatch, expected: Expected::Char(c), remaining: b.len() })
    }
}

// ---------------------------------------------------------------------------
// Character classes and runs of them.

/// The classes of bytes that runs are made of.
pub enum Class {
    /// A space or a tab.
    Space,
    /// A decimal digit.
    Digit,
    /// A letter, a digit or an underscore.
    IdentRest,
}

pub open spec fn is_letter(b: u8) -> bool {
    (0x61 <= b <= 0x7a) || (0x41 <= b <= 0x5a)
}

pub open spec fn is_digit(b: u8) -> bool {
    0x30 <= b <= 0x39
}

pub open spec fn in_class(c: Class, b: u8) -> bool {
    match c {
        Class::Space => b == 0x20 || b == 0x09,
        Class::Digit => is_digit(b),
        Class::IdentRest => is_letter(b) || is_digit(b) || b == 0x5f,
    }
}

/// The length of the longest prefix of `s` whose bytes are all in class `c`.
pub open spec fn run_len(s: Seq<u8>, c: Class) -> nat
    decreases s.len(),
{
    if s.len() > 0 && in_class(c, s[0]) {
        1 + run_len(after(s, 1), c)
    } else {
        0
    }
}

proof fn lemma_run_len(s: Seq<u8>, c: Class, n: int)
    requires
        0 <= n <= s.len(),
        forall|i: int| 0 <= i < n ==> in_class(c, #[trigger] s[i]),
        n == s.len() || !in_class(c, s[n]),
    ensures
        run_len(s, c) == n,
    decreases n,
{
    if n > 0 {
        let t = after(s, 1);
        assert forall|i: int| 0 <= i < n - 1 implies in_class(c, #[trigger] t[i]) by {
            assert(t[i] == s[i + 1]);
        }
        if n < s.len() {
            assert(t[n - 1] == s[n]);
        }
        lemma_run_len(t, c, n - 1);
    }
}

fn class_has(c: &Class, b: u8) -> (r: bool)
    ensures
        r == in_class(*c, b),
{
    match c {
        Class::Space => b == 0x20 || b == 0x09,
        Class::Digit => 0x30 <= b && b <= 0x39,
        Class::IdentRest => is_identifier_rest(b as char),
    }
}

/// The number of leading bytes of `b`, from `start`, that are in class `c`.
fn run_from(b: &[u8], start: usize, c: &Class) -> (n: usize)
    requires
        start <= b@.len(),
    ensures
        n == run_len(after(b@, start as int), *c),
        start + n <= b@.len(),
        forall|i: int| start <= i < start + n ==> in_class(*c, #[trigger] b@[i]),
{
    let mut i: usize = start;
    while i < b.len() && class_has(c, b[i])
        invariant
            start <= i <= b@.len(),
            forall|j: int| start <= j < i ==> in_class(*c, #[trigger] b@[j]),
        decreases b@.len() - i,
    {
        i = i + 1;
    }
    proof {
        let s = after(b@, start as int);
        assert forall|j: int| 0 <= j < i - start implies in_class(*c, #[trigger] s[j]) by {
            assert(s[j] == b@[start + j]);
        }
        if i < b@.len() {
            assert(s[i - start] == b@[i as int]);
        }
        lemma_run_len(s, *c, i - start);
    }
    i - start
}

/// Skips zero or more spaces and tabs.
pub open spec fn spec_space0(s: Seq<u8>) -> SpecResult<()> {
    Ok(((), after(s, run_len(s, Class::Space) as int)))
}

/// Skips one or more spaces and tabs.
pub open spec fn spec_space1(s: Seq<u8>) -> SpecResult<()> {
    if run_len(s, Class::Space) == 0 {
        Err(fail_at(s, kind_at(s), Expected::Whitespace))
    } else {
        spec_space0(s)
    }
}

/// Skips zero or more spaces and tabs.
pub fn space0(input: &str) -> (r: Result<(&str, ()), ParseError>)
    ensures
        agrees(r, spec_space0(input.spec_bytes())),
{
    let b = input.as_bytes();
    let n = run_from(b, 0, &Class::Space);
    assert(after(b@, 0) =~= b@);
    let (_, rest) = split_ascii(input, n);
    Ok((rest, ()))
}

/// Skips one or more spaces and tabs.
pub fn space1(input: &str) -> (r: Result<(&str, ()), ParseError>)
    ensures
        agrees(r, spec_space1(input.spec_bytes())),
        consumes(input, r),
{
    let b = input.as_bytes();
    let n = run_from(b, 0, &Class::Space);
    assert(after(b@, 0) =~= b@);
    if n == 0 {
        if b.len() == 0 {
            return Err(ParseError { kind: ErrorKind::Incomplete, expected: Expected::Whitespace, remaining: 0 });
        }
        return Err(ParseError { kind: ErrorKind::Mismatch, expected: Expected::Whitespace, remaining: b.len() });
    }
    let (_, rest) = split_ascii(input, n);
    Ok((rest, ()))
}

// ---------------------------------------------------------------------------
// Identifiers.

/// A byte that may continue an identifier: a letter, a digit or `_`.
pub open spec fn ident_rest_char(c: char) -> bool {
    ('a' <= c && c <= 'z') || ('A' <= c && c <= 'Z') || ('0' <= c && c <= '9') || c == '_'
}

/// Whether `c` may stand after the first character of an identifier.
pub fn is_identifier_rest(c: char) -> (r: bool)
    ensures
        r == ident_rest_char(c),
{
    ('a' <= c && c <= 'z') || ('A' <= c && c <= 'Z') || ('0' <= c && c <= '9') || c == '_'
}

/// An identifier: a letter (or, when `underscore` holds, an underscore)
/// followed by letters, digits and underscores.
pub open spec fn spec_ident_with(s: Seq<u8>, underscore: bool) -> SpecResult<Seq<char>> {
    if s.len() == 0 {
        Err(fail_at(s, ErrorKind::Incomplete, Expected::Letter))
    } else if !(is_letter(s[0]) || (underscore && s[0] == 0x5f)) {
        Err(fail_at(s, ErrorKind::Mismatch, Expected::Letter))
    } else {
        let n = 1 + run_len(after(s, 1), Class::IdentRest) as int;
        Ok((ascii_text(s.subrange(0, n)), after(s, n)))
    }
}

pub open spec fn spec_identifier(s: Seq<u8>) -> SpecResult<Seq<char>> {
    spec_ident_with(s, false)
}

pub open spec fn spec_var_par_identifier(s: Seq<u8>) -> SpecResult<Seq<char>> {
    spec_ident_with(s, true)
}

fn ident_with(input: &str, underscore: bool) -> (r: Result<(&str, String), ParseError>)
    ensures
        agrees(r, spec_ident_with(input.spec_bytes(), underscore)),
        consumes(input, r),
{
    let b = input.as_bytes();
    if b.len() == 0 {
        return Err(ParseError { kind: ErrorKind::Incomplete, expected: Expected::Letter, remaining: 0 });
    }
    let c = b[0];
    let first = (0x61 <= c && c <= 0x7a) || (0x41 <= c && c <= 0x5a) || (underscore && c == 0x5f);
    if !first {
        return Err(ParseError { kind: ErrorKind::Mismatch, expected: Expected::Letter, remaining: b.len() });
    }
    let n = run_from(b, 1, &Class::IdentRest);
    let (head, rest) = split_ascii(input, 1 + n);
    proof {
        assert(after(after(b@, 1), n as int) =~= after(b@, 1 + n));
    }
    Ok((rest, head.to_owned()))
}

/// Recognizes an identifier: a letter, then letters, digits and underscores.
pub fn identifier(input: &str) -> (r: Result<(&str, String), ParseError>)
    ensures
        agrees(r, spec_identifier(input.spec_bytes())),
        consumes(input, r),
{
    ident_with(input, false)
}

/// Recognizes a variable or parameter identifier, which may also start with
/// an underscore.
pub fn var_par_identifier(input: &str) -> (r: Result<(&str, String), ParseError>)
    ensures
        agrees(r, spec_var_par_identifier(input.spec_bytes())),
        consumes(input, r),
{
    ident_with(input, true)
}

// ---------------------------------------------------------------------------
// Literals.

/// `kw`, yielding `v`.
pub open spec fn tag_as<T>(s: Seq<u8>, kw: Seq<u8>, v: T) -> SpecResult<T> {
    match spec_tag(s, kw) {
        Ok((_, r)) => Ok((v, r)),
        Err(e) => Err(e),
    }
}

/// Recognizes `true` or `false`.
pub open spec fn spec_bool_literal(s: Seq<u8>) -> SpecResult<bool> {
    or_else(tag_as(s, "true".spec_bytes(), true), tag_as(s, "false".spec_bytes(), false))
}

/// Recognizes a boolean literal.
pub fn bool_literal(input: &str) -> (r: Result<(&str, bool), ParseError>)
    ensures
        agrees(r, spec_bool_literal(input.spec_bytes())),
{
    match tag(input, "true") {
        Ok((rest, _)) => Ok((rest, true)),
        Err(e1) => match tag(input, "false") {
            Ok((rest, _)) => Ok((rest, false)),
            Err(e2) => Err(furthest_error(e1, e2)),
        },
    }
}

/// The value of a run of decimal digits.
pub open spec fn digits_value(d: Seq<u8>) -> nat
    decreases d.len(),
{
    if d.len() == 0 {
        0
    } else {
        digits_value(d.drop_last()) * 10 + (d.last() - 0x30) as nat
    }
}

proof fn lemma_digits_value_grows(d: Seq<u8>, i: int)
    requires
        0 <= i <= d.len(),
        forall|j: int| 0 <= j < d.len() ==> is_digit(#[trigger] d[j]),
    ensures
        digits_value(d.subrange(0, i)) <= digits_value(d),
    decreases d.len() - i,
{
    if i < d.len() {
        assert(d.drop_last() == d.subrange(0, d.len() - 1));
        assert(d.drop_last().subrange(0, i) =~= d.subrange(0, i));
        lemma_digits_value_grows(d.drop_last(), i);
    } else {
        assert(d.subrange(0, i) =~= d);
    }
}

/// Every byte of `s` is a decimal digit.
pub open spec fn all_digits(s: Seq<u8>) -> bool {
    forall|j: int| 0 <= j < s.len() ==> is_digit(#[trigger] s[j])
}

/// The number whose decimal digits `digits` holds; `None` where `digits` is
/// empty, holds anything but decimal digits, or does not fit in 128 unsigned
/// bits.
pub fn from_dec(digits: &str) -> (r: Option<u128>)
    ensures
        r == (if digits.spec_bytes().len() > 0 && all_digits(digits.spec_bytes())
            && digits_value(digits.spec_bytes()) <= u128::MAX {
            Some(digits_value(digits.spec_bytes()) as u128)
        } else {
            None
        }),
{
    let d = digits.as_bytes();
    if d.len() == 0 {
        return None;
    }
    let mut k: usize = 0;
    while k < d.len()
        invariant
            k <= d@.len(),
            d@ == digits.spec_bytes(),
            forall|j: int| 0 <= j < k ==> is_digit(#[trigger] d@[j]),
        decreases d@.len() - k,
    {
        if !(0x30 <= d[k] && d[k] <= 0x39) {
            return None;
        }
        k = k + 1;
    }
    let mut acc: u128 = 0;
    let mut i: usize = 0;
    while i < d.len()
        invariant
            i <= d@.len(),
            d@ == digits.spec_bytes(),
            acc == digits_value(d@.subrange(0, i as int)),
            forall|j: int| 0 <= j < d@.len() ==> is_digit(#[trigger] d@[j]),
        decreases d@.len() - i,
    {
        let digit = (d[i] - 0x30) as u128;
        let ghost pre = d@.subrange(0, i + 1);
        assert(pre.drop_last() =~= d@.subrange(0, i as int));
        proof {
            lemma_digits_value_grows(d@, i + 1);
        }
        match acc.checked_mul(10) {
            None => return None,
            Some(m) => match m.checked_add(digit) {
                None => return None,
                Some(v) => {
                    acc = v;
                },
            },
        }
        i = i + 1;
    }
    assert(d@.subrange(0, i as int) =~= d@);
    Some(acc)
}

/// 2 to the power 127: one more than the largest `i128`.
pub open spec fn two_pow_127() -> nat {
    0x8000_0000_0000_0000_0000_0000_0000_0000
}

/// Recognizes an optional `-` and one or more decimal digits whose signed
/// value fits in an `i128`.
pub open spec fn spec_int_literal(s: Seq<u8>) -> SpecResult<i128> {
    let neg = s.len() > 0 && s[0] == 0x2d;
    let t = if neg { after(s, 1) } else { s };
    let n = run_len(t, Class::Digit);
    if n == 0 {
        Err(fail_at(t, kind_at(t), Expected::Digit))
    } else {
        let v = digits_value(t.subrange(0, n as int));
        if (neg && v > two_pow_127()) || (!neg && v >= two_pow_127()) {
            Err(fail_at(t, ErrorKind::Mismatch, Expected::IntegerInRange))
        } else if neg {
            Ok(((0 - v) as i128, after(t, n as int)))
        } else {
            Ok((v as i128, after(t, n as int)))
        }
    }
}

/// Recognizes a decimal integer literal.
pub fn int_literal(input: &str) -> (r: Result<(&str, i128), ParseError>)
    ensures
        agrees(r, spec_int_literal(input.spec_bytes())),
        consumes(input, r),
{
    let b = input.as_bytes();
    let neg = b.len() > 0 && b[0] == 0x2d;
    let start: usize = if neg { 1 } else { 0 };
    let ghost t = after(b@, start as int);
    assert(after(b@, 0) =~= b@);
    let n = run_from(b, start, &Class::Digit);
    if n == 0 {
        if b.len() == start {
            return Err(ParseError { kind: ErrorKind::Incomplete, expected: Expected::Digit, remaining: 0 });
        }
        return Err(ParseError { kind: ErrorKind::Mismatch, expected: Expected::Digit, remaining: b.len() - start });
    }
    let (_, after_sign) = split_ascii(input, start);
    assert forall|i: int| 0 <= i < n implies after_sign.spec_bytes()[i] < 128 by {
        assert(after_sign.spec_bytes()[i] == b@[start + i]);
        assert(in_class(Class::Digit, b@[start + i]));
    }
    let (ds, rest) = split_ascii(after_sign, n);
    assert forall|j: int| 0 <= j < ds.spec_bytes().len() implies is_digit(#[trigger] ds.spec_bytes()[j]) by {
        assert(ds.spec_bytes()[j] == b@[start + j]);
        assert(in_class(Class::Digit, b@[start + j]));
    }
    let v = match from_dec(ds) {
        Some(v) => v,
        None => {
            return Err(ParseError { kind: ErrorKind::Mismatch, expected: Expected::IntegerInRange, remaining: b.len() - start });
        },
    };
    let value: i128 = if neg {
        if v > 0x8000_0000_0000_0000_0000_0000_0000_0000 {
            return Err(ParseError { kind: ErrorKind::Mismatch, expected: Expected::IntegerInRange, remaining: b.len() - start });
        }
        if v == 0x8000_0000_0000_0000_0000_0000_0000_0000 {
            i128::MIN
        } else {
            0 - (v as i128)
        }
    } else {
        if v >= 0x8000_0000_0000_0000_0000_0000_0000_0000 {
            return Err(ParseError { kind: ErrorKind::Mismatch, expected: Expected::IntegerInRange, remaining: b.len() - start });
        }
        v as i128
    };
    Ok((rest, value))
}

pub open spec fn int_literal_parser() -> SpecParser<i128> {
    |s: Seq<u8>| spec_int_literal(s)
}

pub open spec fn float_literal_parser() -> SpecParser<Float> {
    |s: Seq<u8>| spec_float_literal(s)
}

/// Zero or more integer literals separated by commas.
pub fn int_list(input: &str) -> (r: (&str, Vec<i128>))
    ensures
        r.0.spec_bytes() == sep_list(int_literal_parser(), input.spec_bytes()).1,
        views(r.1@) == sep_list(int_literal_parser(), input.spec_bytes()).0,
{
    let ghost p = int_literal_parser();
    let mut v: Vec<i128> = Vec::new();
    let (mut cur, x) = match int_literal(input) {
        Err(_) => {
            assert(views(v@) =~= Seq::<i128>::empty());
            return (input, v);
        },
        Ok(q) => q,
    };
    v.push(x);
    assert(views(v@) =~= seq![x]);
    loop
        invariant
            sep_tail(p, cur.spec_bytes(), views(v@)) == sep_list(p, input.spec_bytes()),
            p == int_literal_parser(),
        decreases cur.spec_bytes().len(),
    {
        let cur1 = match ascii_char(cur, 0x2c) {
            Err(_) => return (cur, v),
            Ok((c, _)) => c,
        };
        let (cur2, x) = match int_literal(cur1) {
            Err(_) => return (cur, v),
            Ok(q) => q,
        };
        proof {
            lemma_views_push(v@, x);
        }
        v.push(x);
        cur = cur2;
    }
}

/// The decimal digits of `v`, most significant first, without leading zeros.
pub open spec fn digits_of(v: nat) -> Seq<u8>
    decreases v,
{
    if v < 10 {
        seq![(0x30 + v) as u8]
    } else {
        digits_of(v / 10).push((0x30 + v % 10) as u8)
    }
}

/// The decimal text of `n`: a `-` where it is negative, then its digits.
pub open spec fn decimal_text(n: int) -> Seq<u8> {
    if n < 0 {
        seq![0x2du8] + digits_of((0 - n) as nat)
    } else {
        digits_of(n as nat)
    }
}

proof fn lemma_digits_of(v: nat)
    ensures
        digits_of(v).len() > 0,
        forall|i: int| 0 <= i < digits_of(v).len() ==> is_digit(#[trigger] digits_of(v)[i]),
        digits_value(digits_of(v)) == v,
    decreases v,
{
    if v >= 10 {
        lemma_digits_of(v / 10);
        let d = digits_of(v);
        assert(d.drop_last() =~= digits_of(v / 10));
        assert forall|i: int| 0 <= i < d.len() implies is_digit(#[trigger] d[i]) by {
            if i < d.len() - 1 {
                assert(d[i] == digits_of(v / 10)[i]);
            }
        }
        assert(d.last() == (0x30 + v % 10) as u8);
        assert((d.last() - 0x30) as nat == v % 10);
        assert(digits_value(d) == digits_value(d.drop_last()) * 10 + (d.last() - 0x30) as nat);
        assert((v / 10) * 10 + v % 10 == v);
    } else {
        let d = digits_of(v);
        assert(d.drop_last() =~= Seq::<u8>::empty());
        assert(digits_value(d) == digits_value(d.drop_last()) * 10 + (d.last() - 0x30) as nat);
    }
}

/// Parsing the decimal text of any `i128`, followed by anything that does
/// not start with a digit, yields exactly that integer and leaves what
/// followed.
pub proof fn lemma_int_literal_decimal_text(n: i128, rest: Seq<u8>)
    requires
        rest.len() == 0 || !is_digit(rest[0]),
    ensures
        spec_int_literal(decimal_text(n as int) + rest) == Ok::<(i128, Seq<u8>), ParseError>((n, rest)),
{
    let v: nat = if n < 0 { (0 - n) as nat } else { n as nat };
    let d = digits_of(v);
    lemma_digits_of(v);
    let s = decimal_text(n as int) + rest;
    let t = d + rest;
    if n < 0 {
        assert(after(s, 1) =~= t);
    } else {
        assert(s =~= t);
        assert(s[0] == d[0]);
    }
    assert forall|i: int| 0 <= i < d.len() implies in_class(Class::Digit, #[trigger] t[i]) by {
        assert(t[i] == d[i]);
    }
    if rest.len() > 0 {
        assert(t[d.len() as int] == rest[0]);
    }
    lemma_run_len(t, Class::Digit, d.len() as int);
    assert(t.subrange(0, d.len() as int) =~= d);
    assert(after(t, d.len() as int) =~= rest);
}

/// Floating-point literals are not part of the recognized grammar yet: every
/// attempt fails, and no value is ever made up.
pub open spec fn spec_float_literal(s: Seq<u8>) -> SpecResult<Float> {
    Err(fail_at(s, kind_at(s), Expected::FloatLiteral))
}

/// A floating-point value, held as its IEEE 754 binary64 bit pattern.
#[derive(Clone, Copy, Debug, PartialEq, Eq, Structural)]
pub struct Float {
    pub bits: u64,
}

impl View for Float {
    type V = Float;

    open spec fn view(&self) -> Float {
        *self
    }
}

/// Recognizes a floating-point literal; none is recognized yet, so this
/// always fails.
pub fn float_literal(input: &str) -> (r: Result<(&str, Float), ParseError>)
    ensures
        agrees(r, spec_float_literal(input.spec_bytes())),
        r is Err,
{
    let n = input.as_bytes().len();
    if n == 0 {
        Err(ParseError { kind: ErrorKind::Incomplete, expected: Expected::FloatLiteral, remaining: 0 })
    } else {
        Err(ParseError { kind: ErrorKind::Mismatch, expected: Expected::FloatLiteral, remaining: n })
    }
}

} // verus!
