use vstd::prelude::*;

use crate::config::file_loader::{FileLoader, LoaderNames};
use crate::config::text::{lemma_first_non_alphanumeric_bound, lemma_leading_bound, lemma_trailing_bound, first_non_alphanumeric, first_non_numeric, first_separator, find_non_alphanumeric, find_non_numeric, find_separator, prefix, spec_trim, spec_trim_end, spec_trim_start, starts_with_char, suffix, to_string, trim, trim_end, trim_start};
use crate::config::{ConfigError, ConfigParseError};
use crate::fraction::Fraction;

verus! {

/// Whether a parse result agrees with the value a spec function gives.
pub open spec fn parsed_as<T>(r: Result<(T, &[char]), ConfigParseError>, spec: Result<(T, Seq<char>), ConfigError>) -> bool {
    match r {
        Ok((v, rest)) => spec == Ok::<(T, Seq<char>), ConfigError>((v, rest@)),
        Err(e) => spec == Err::<(T, Seq<char>), ConfigError>(e@),
    }
}

/// A value that can be read from the start of a configuration text.
pub trait FromConfig: Sized {
    /// The value that `s` starts with and the text after it; `names` are
    /// the names the loader knows.
    spec fn spec_from_conf(s: Seq<char>, names: LoaderNames) -> Result<(Self, Seq<char>), ConfigError>;

    fn from_conf<'a>(s: &'a [char], loader: &FileLoader) -> (r: Result<(Self, &'a [char]), ConfigParseError>)
        ensures
            parsed_as(r, Self::spec_from_conf(s@, loader@)),
    ;
}

/// The name at the start of `s` and the text after it: `s` is split before
/// its first character that is not alphanumeric, and both parts are trimmed
/// where they meet.
pub open spec fn spec_string_base(s: Seq<char>) -> (Seq<char>, Seq<char>) {
    let t = spec_trim_start(s);
    match first_non_alphanumeric(t) {
        Some(i) => (spec_trim_end(t.take(i)), spec_trim_start(t.skip(i))),
        None => (t, seq![]),
    }
}

pub fn string_base(s: &[char]) -> (r: (&[char], &[char]))
    ensures
        (r.0@, r.1@) == spec_string_base(s@),
{
    let t = trim_start(s);
    match find_non_alphanumeric(t) {
        Some(i) => (trim_end(prefix(t, i)), trim_start(suffix(t, i))),
        None => {
            let empty = suffix(t, t.len());
            assert(empty@ =~= seq![]);
            (t, empty)
        },
    }
}

/// Whether `s` is a non-empty run of the ASCII digits 0-9.
pub open spec fn is_decimal(s: Seq<char>) -> bool {
    s.len() > 0 && forall|i: int| 0 <= i < s.len() ==> '0' <= #[trigger] s[i] <= '9'
}

/// The number that a run of ASCII digits stands for.
pub open spec fn digits_value(s: Seq<char>) -> nat
    decreases s.len(),
{
    if s.len() == 0 {
        0
    } else {
        digits_value(s.drop_last()) * 10 + (s.last() as nat - '0' as nat) as nat
    }
}

proof fn lemma_digits_grow(s: Seq<char>, k: int)
    requires
        0 <= k <= s.len(),
        forall|i: int| 0 <= i < s.len() ==> '0' <= #[trigger] s[i] <= '9',
    ensures
        digits_value(s.take(k)) <= digits_value(s),
    decreases s.len() - k,
{
    if k < s.len() {
        lemma_digits_grow(s, k + 1);
        assert(s.take(k + 1).drop_last() =~= s.take(k));
    } else {
        assert(s.take(k) =~= s);
    }
}

/// The value of the decimal number `s` if it is at most `max`.
pub open spec fn bounded_decimal(s: Seq<char>, max: nat) -> Option<nat> {
    if is_decimal(s) && digits_value(s) <= max {
        Some(digits_value(s))
    } else {
        None
    }
}

/// Reads a decimal number made of ASCII digits, as `str::parse` does for
/// unsigned numbers without a sign: None if `s` is empty, holds another
/// character, or stands for a number above `max`.
pub fn decimal_value(s: &[char], max: u64) -> (r: Option<u64>)
    ensures
        r matches Some(v) ==> bounded_decimal(s@, max as nat) == Some(v as nat),
        r is None ==> bounded_decimal(s@, max as nat) is None,
{
    if s.len() == 0 {
        return None;
    }
    let mut v: u64 = 0;
    let mut i: usize = 0;
    while i < s.len()
        invariant
            i <= s@.len(),
            v <= max,
            forall|j: int| 0 <= j < i ==> '0' <= #[trigger] s@[j] <= '9',
            v == digits_value(s@.take(i as int)),
        decreases s.len() - i,
    {
        let c = s[i];
        if c < '0' || c > '9' {
            return None;
        }
        let d = (c as u64) - ('0' as u64);
        assert(s@.take(i + 1).drop_last() =~= s@.take(i as int));
        if d > max || v > (max - d) / 10 {
            proof {
                if d <= max {
                    assert(v * 10 + d > max) by (nonlinear_arith)
                        requires v > (max - d) / 10, d <= max;
                }
                assert(digits_value(s@.take(i + 1)) == v * 10 + d);
                if is_decimal(s@) {
                    lemma_digits_grow(s@, i + 1);
                }
            }
            return None;
        }
        v = v * 10 + d;
        i += 1;
    }
    assert(s@.take(s@.len() as int) =~= s@);
    Some(v)
}


/// Whether `t` starts with the text `p`.
pub open spec fn starts_with_seq(t: Seq<char>, p: Seq<char>) -> bool {
    p.len() <= t.len() && t.take(p.len() as int) == p
}

/// `true`/`t` or `false`/`f` after leading whitespace; the longer word is
/// tried first.
pub open spec fn spec_bool_from_conf(s: Seq<char>) -> Result<(bool, Seq<char>), ConfigError> {
    let t = spec_trim_start(s);
    if starts_with_seq(t, seq!['t', 'r', 'u', 'e']) {
        Ok((true, t.skip(4)))
    } else if starts_with_seq(t, seq!['t']) {
        Ok((true, t.skip(1)))
    } else if starts_with_seq(t, seq!['f', 'a', 'l', 's', 'e']) {
        Ok((false, t.skip(5)))
    } else if starts_with_seq(t, seq!['f']) {
        Ok((false, t.skip(1)))
    } else {
        Err(ConfigError::InvalidBool(t))
    }
}

/// Position of the first character of `t` that is not numeric, or its length.
pub open spec fn numeric_prefix_len(t: Seq<char>) -> int {
    match first_non_numeric(t) {
        Some(i) => i,
        None => t.len() as int,
    }
}

/// An unsigned number up to `max` after leading whitespace: the run of
/// numeric characters must be a decimal number in range; whitespace after
/// it is skipped.
pub open spec fn spec_uint_from_conf(s: Seq<char>, max: nat) -> Result<(nat, Seq<char>), ConfigError> {
    let t = spec_trim_start(s);
    let k = numeric_prefix_len(t);
    match bounded_decimal(t.take(k), max) {
        Some(v) => Ok((v, spec_trim_start(t.skip(k)))),
        None => Err(ConfigError::InvalidInteger(t)),
    }
}

/// A signed number: an optional `-` and a number up to `max`.
pub open spec fn spec_sint_from_conf(s: Seq<char>, max: nat) -> Result<(int, Seq<char>), ConfigError> {
    let t = spec_trim_start(s);
    let neg = t.len() > 0 && t[0] == '-';
    let u = if neg { t.skip(1) } else { t };
    let k = numeric_prefix_len(u);
    match bounded_decimal(u.take(k), max) {
        Some(v) => Ok((if neg { -(v as int) } else { v as int }, spec_trim_start(u.skip(k)))),
        None => Err(ConfigError::InvalidInteger(u)),
    }
}

fn bool_from_conf(s: &[char]) -> (r: Result<(bool, &[char]), ConfigParseError>)
    ensures
        parsed_as(r, spec_bool_from_conf(s@)),
{
    let t = trim_start(s);
    if crate::config::text::starts_with(t, &['t', 'r', 'u', 'e']) {
        return Ok((true, suffix(t, 4)));
    }
    if starts_with_char(t, 't') {
        assert(t@.take(1) =~= seq!['t']);
        return Ok((true, suffix(t, 1)));
    }
    assert(!starts_with_seq(t@, seq!['t'])) by {
        if t@.len() >= 1 && t@.take(1) == seq!['t'] {
            assert(t@[0] == t@.take(1)[0]);
        }
    }
    if crate::config::text::starts_with(t, &['f', 'a', 'l', 's', 'e']) {
        return Ok((false, suffix(t, 5)));
    }
    if starts_with_char(t, 'f') {
        assert(t@.take(1) =~= seq!['f']);
        return Ok((false, suffix(t, 1)));
    }
    assert(!starts_with_seq(t@, seq!['f'])) by {
        if t@.len() >= 1 && t@.take(1) == seq!['f'] {
            assert(t@[0] == t@.take(1)[0]);
        }
    }
    Err(ConfigParseError::InvalidBool(to_string(t)))
}

fn uint_from_conf(s: &[char], max: u64) -> (r: Result<(u64, &[char]), ConfigParseError>)
    ensures
        match (r, spec_uint_from_conf(s@, max as nat)) {
            (Ok((v, rest)), Ok((w, rest2))) => v == w && rest@ == rest2,
            (Err(e), Err(e2)) => e@ == e2,
            _ => false,
        },
{
    let t = trim_start(s);
    let k = match find_non_numeric(t) {
        Some(i) => i,
        None => t.len(),
    };
    match decimal_value(prefix(t, k), max) {
        Some(v) => Ok((v, trim_start(suffix(t, k)))),
        None => Err(ConfigParseError::InvalidInteger(to_string(t))),
    }
}

fn sint_from_conf(s: &[char], max: u64) -> (r: Result<(i64, &[char]), ConfigParseError>)
    requires
        max <= i64::MAX,
    ensures
        match (r, spec_sint_from_conf(s@, max as nat)) {
            (Ok((v, rest)), Ok((w, rest2))) => v == w && rest@ == rest2,
            (Err(e), Err(e2)) => e@ == e2,
            _ => false,
        },
{
    let t = trim_start(s);
    let neg = starts_with_char(t, '-');
    let u = if neg { suffix(t, 1) } else { t };
    let k = match find_non_numeric(u) {
        Some(i) => i,
        None => u.len(),
    };
    match decimal_value(prefix(u, k), max) {
        Some(v) => {
            let value: i64 = if neg { -(v as i64) } else { v as i64 };
            Ok((value, trim_start(suffix(u, k))))
        },
        None => Err(ConfigParseError::InvalidInteger(to_string(u))),
    }
}

/// The text up to the first `,` or `)`, trimmed, and the rest starting
/// there; or all of `s`, trimmed.
pub open spec fn spec_string_from_conf(s: Seq<char>) -> (Seq<char>, Seq<char>) {
    match first_separator(s) {
        Some(i) => (spec_trim(s.take(i)), s.skip(i)),
        None => (spec_trim(s), seq![]),
    }
}

/// Reads a text up to the next `,` or `)`.
pub fn string_from_conf(s: &[char]) -> (r: (String, &[char]))
    ensures
        (r.0@, r.1@) == spec_string_from_conf(s@),
{
    match find_separator(s) {
        Some(i) => (to_string(trim(prefix(s, i))), suffix(s, i)),
        None => {
            let empty = suffix(s, s.len());
            assert(empty@ =~= seq![]);
            (to_string(trim(s)), empty)
        },
    }
}

impl FromConfig for bool {
    open spec fn spec_from_conf(s: Seq<char>, names: LoaderNames) -> Result<(bool, Seq<char>), ConfigError> {
        spec_bool_from_conf(s)
    }

    fn from_conf<'a>(s: &'a [char], loader: &FileLoader) -> (r: Result<(bool, &'a [char]), ConfigParseError>) {
        bool_from_conf(s)
    }
}

impl FromConfig for u8 {
    open spec fn spec_from_conf(s: Seq<char>, names: LoaderNames) -> Result<(u8, Seq<char>), ConfigError> {
        match spec_uint_from_conf(s, u8::MAX as nat) {
            Ok((v, rest)) => Ok((v as u8, rest)),
            Err(e) => Err(e),
        }
    }

    fn from_conf<'a>(s: &'a [char], loader: &FileLoader) -> (r: Result<(u8, &'a [char]), ConfigParseError>) {
        match uint_from_conf(s, u8::MAX as u64) {
            Ok((v, rest)) => Ok((v as u8, rest)),
            Err(e) => Err(e),
        }
    }
}

impl FromConfig for u16 {
    open spec fn spec_from_conf(s: Seq<char>, names: LoaderNames) -> Result<(u16, Seq<char>), ConfigError> {
        match spec_uint_from_conf(s, u16::MAX as nat) {
            Ok((v, rest)) => Ok((v as u16, rest)),
            Err(e) => Err(e),
        }
    }

    fn from_conf<'a>(s: &'a [char], loader: &FileLoader) -> (r: Result<(u16, &'a [char]), ConfigParseError>) {
        match uint_from_conf(s, u16::MAX as u64) {
            Ok((v, rest)) => Ok((v as u16, rest)),
            Err(e) => Err(e),
        }
    }
}

impl FromConfig for u32 {
    open spec fn spec_from_conf(s: Seq<char>, names: LoaderNames) -> Result<(u32, Seq<char>), ConfigError> {
        match spec_uint_from_conf(s, u32::MAX as nat) {
            Ok((v, rest)) => Ok((v as u32, rest)),
            Err(e) => Err(e),
        }
    }

    fn from_conf<'a>(s: &'a [char], loader: &FileLoader) -> (r: Result<(u32, &'a [char]), ConfigParseError>) {
        match uint_from_conf(s, u32::MAX as u64) {
            Ok((v, rest)) => Ok((v as u32, rest)),
            Err(e) => Err(e),
        }
    }
}

impl FromConfig for i8 {
    open spec fn spec_from_conf(s: Seq<char>, names: LoaderNames) -> Result<(i8, Seq<char>), ConfigError> {
        match spec_sint_from_conf(s, i8::MAX as nat) {
            Ok((v, rest)) => Ok((v as i8, rest)),
            Err(e) => Err(e),
        }
    }

    fn from_conf<'a>(s: &'a [char], loader: &FileLoader) -> (r: Result<(i8, &'a [char]), ConfigParseError>) {
        match sint_from_conf(s, i8::MAX as u64) {
            Ok((v, rest)) => Ok((v as i8, rest)),
            Err(e) => Err(e),
        }
    }
}

impl FromConfig for i16 {
    open spec fn spec_from_conf(s: Seq<char>, names: LoaderNames) -> Result<(i16, Seq<char>), ConfigError> {
        match spec_sint_from_conf(s, i16::MAX as nat) {
            Ok((v, rest)) => Ok((v as i16, rest)),
            Err(e) => Err(e),
        }
    }

    fn from_conf<'a>(s: &'a [char], loader: &FileLoader) -> (r: Result<(i16, &'a [char]), ConfigParseError>) {
        match sint_from_conf(s, i16::MAX as u64) {
            Ok((v, rest)) => Ok((v as i16, rest)),
            Err(e) => Err(e),
        }
    }
}

impl FromConfig for i32 {
    open spec fn spec_from_conf(s: Seq<char>, names: LoaderNames) -> Result<(i32, Seq<char>), ConfigError> {
        match spec_sint_from_conf(s, i32::MAX as nat) {
            Ok((v, rest)) => Ok((v as i32, rest)),
            Err(e) => Err(e),
        }
    }

    fn from_conf<'a>(s: &'a [char], loader: &FileLoader) -> (r: Result<(i32, &'a [char]), ConfigParseError>) {
        match sint_from_conf(s, i32::MAX as u64) {
            Ok((v, rest)) => Ok((v as i32, rest)),
            Err(e) => Err(e),
        }
    }
}


/// A fraction: a whole number, optionally followed by `/` and a
/// denominator; a zero denominator is `DivisionByZero`.
pub open spec fn spec_fraction_from_conf(s: Seq<char>, names: LoaderNames) -> Result<(Fraction, Seq<char>), ConfigError> {
    match i32::spec_from_conf(s, names) {
        Err(e) => Err(e),
        Ok((num, rest)) => {
            let den_part = if rest.len() > 0 && rest[0] == '/' {
                match i32::spec_from_conf(rest.skip(1), names) {
                    Err(e) => Err(e),
                    Ok((den, rest2)) => Ok((den, rest2)),
                }
            } else {
                Ok((1i32, rest))
            };
            match den_part {
                Err(e) => Err(e),
                Ok((den, rest2)) => if den == 0 {
                    Err(ConfigError::DivisionByZero(num))
                } else {
                    Ok((Fraction::spec_new(num, den), rest2))
                },
            }
        },
    }
}

impl FromConfig for Fraction {
    open spec fn spec_from_conf(s: Seq<char>, names: LoaderNames) -> Result<(Fraction, Seq<char>), ConfigError> {
        spec_fraction_from_conf(s, names)
    }

    fn from_conf<'a>(s: &'a [char], loader: &FileLoader) -> (r: Result<(Fraction, &'a [char]), ConfigParseError>) {
        let (num, rest) = match i32::from_conf(s, loader) {
            Err(e) => return Err(e),
            Ok(v) => v,
        };
        let (den, rest2) = if starts_with_char(rest, '/') {
            match i32::from_conf(suffix(rest, 1), loader) {
                Err(e) => return Err(e),
                Ok(v) => v,
            }
        } else {
            (1i32, rest)
        };
        if den == 0 {
            return Err(ConfigParseError::DivisionByZero(num));
        }
        Ok((Fraction::new(num, den), rest2))
    }
}

/// Whether the first character of `t` is one byte long in UTF-8, so that
/// the text can be cut after it.
pub open spec fn first_is_single_byte(t: Seq<char>) -> bool {
    t.len() > 0 && (t[0] as u32) < 0x80
}

/// After a value: whitespace, and the closing bracket if the value opened one.
pub open spec fn spec_close_tuple(s: Seq<char>, bracketed: bool) -> Seq<char> {
    let t = spec_trim_start(s);
    if bracketed && t.len() > 0 && t[0] == ')' {
        spec_trim_start(t.skip(1))
    } else {
        t
    }
}

/// Whitespace and an optional opening bracket: the text after them, and
/// whether there was a bracket.
pub open spec fn spec_open_tuple(s: Seq<char>) -> (Seq<char>, bool) {
    let t = spec_trim_start(s);
    if t.len() > 0 && t[0] == '(' {
        (t.skip(1), true)
    } else {
        (t, false)
    }
}

/// One value, optionally in brackets.
pub open spec fn spec_parse_tuple1<A: FromConfig>(source: Seq<char>, names: LoaderNames) -> Result<(A, Seq<char>), ConfigError> {
    let (s, bracketed) = spec_open_tuple(source);
    match A::spec_from_conf(s, names) {
        Err(e) => Err(e),
        Ok((a, rest)) => Ok((a, spec_close_tuple(rest, bracketed))),
    }
}

/// Two values with one separating character between them, optionally in
/// brackets.
pub open spec fn spec_parse_tuple2<A: FromConfig, B: FromConfig>(source: Seq<char>, names: LoaderNames) -> Result<(A, B, Seq<char>), ConfigError> {
    let (s, bracketed) = spec_open_tuple(source);
    match A::spec_from_conf(s, names) {
        Err(e) => Err(e),
        Ok((a, rest)) => {
            let t = spec_trim_start(rest);
            if !first_is_single_byte(t) {
                Err(ConfigError::NotEnoughValues(source))
            } else {
                match B::spec_from_conf(t.skip(1), names) {
                    Err(e) => Err(e),
                    Ok((b, rest2)) => Ok((a, b, spec_close_tuple(rest2, bracketed))),
                }
            }
        },
    }
}

/// Three values with one separating character after each of the first
/// two, optionally in brackets.
pub open spec fn spec_parse_tuple3<A: FromConfig, B: FromConfig, C: FromConfig>(source: Seq<char>, names: LoaderNames) -> Result<(A, B, C, Seq<char>), ConfigError> {
    match spec_parse_tuple2::<A, B>(source, names) {
        Err(e) => Err(e),
        Ok(_) => {
            let (s, bracketed) = spec_open_tuple(source);
            let (a, rest) = A::spec_from_conf(s, names)->Ok_0;
            let t = spec_trim_start(rest);
            let (b, rest2) = B::spec_from_conf(t.skip(1), names)->Ok_0;
            let u = spec_trim_start(rest2);
            if !first_is_single_byte(u) {
                Err(ConfigError::NotEnoughValues(source))
            } else {
                match C::spec_from_conf(u.skip(1), names) {
                    Err(e) => Err(e),
                    Ok((c, rest3)) => Ok((a, b, c, spec_close_tuple(rest3, bracketed))),
                }
            }
        },
    }
}

pub fn open_tuple(s: &[char]) -> (r: (&[char], bool))
    ensures
        (r.0@, r.1) == spec_open_tuple(s@),
{
    let t = trim_start(s);
    if starts_with_char(t, '(') {
        (suffix(t, 1), true)
    } else {
        (t, false)
    }
}

pub fn close_tuple(s: &[char], bracketed: bool) -> (r: &[char])
    ensures
        r@ == spec_close_tuple(s@, bracketed),
{
    let t = trim_start(s);
    if bracketed && starts_with_char(t, ')') {
        trim_start(suffix(t, 1))
    } else {
        t
    }
}

pub fn parse_tuple1<'a, A: FromConfig>(source: &'a [char], loader: &FileLoader) -> (r: Result<(A, &'a [char]), ConfigParseError>)
    ensures
        parsed_as(r, spec_parse_tuple1::<A>(source@, loader@)),
{
    let (s, bracketed) = open_tuple(source);
    match A::from_conf(s, loader) {
        Err(e) => Err(e),
        Ok((a, rest)) => Ok((a, close_tuple(rest, bracketed))),
    }
}

pub fn parse_tuple2<'a, A: FromConfig, B: FromConfig>(source: &'a [char], loader: &FileLoader) -> (r: Result<(A, B, &'a [char]), ConfigParseError>)
    ensures
        match (r, spec_parse_tuple2::<A, B>(source@, loader@)) {
            (Ok((a, b, rest)), Ok((a2, b2, rest2))) => a == a2 && b == b2 && rest@ == rest2,
            (Err(e), Err(e2)) => e@ == e2,
            _ => false,
        },
{
    let (s, bracketed) = open_tuple(source);
    match A::from_conf(s, loader) {
        Err(e) => Err(e),
        Ok((a, rest)) => {
            let t = trim_start(rest);
            if t.len() == 0 || (t[0] as u32) >= 0x80 {
                return Err(ConfigParseError::NotEnoughValues(to_string(source)));
            }
            match B::from_conf(suffix(t, 1), loader) {
                Err(e) => Err(e),
                Ok((b, rest2)) => Ok((a, b, close_tuple(rest2, bracketed))),
            }
        },
    }
}

pub fn parse_tuple3<'a, A: FromConfig, B: FromConfig, C: FromConfig>(source: &'a [char], loader: &FileLoader) -> (r: Result<(A, B, C, &'a [char]), ConfigParseError>)
    ensures
        match (r, spec_parse_tuple3::<A, B, C>(source@, loader@)) {
            (Ok((a, b, c, rest)), Ok((a2, b2, c2, rest2))) => a == a2 && b == b2 && c == c2 && rest@ == rest2,
            (Err(e), Err(e2)) => e@ == e2,
            _ => false,
        },
{
    let (s, bracketed) = open_tuple(source);
    match A::from_conf(s, loader) {
        Err(e) => Err(e),
        Ok((a, rest)) => {
            let t = trim_start(rest);
            if t.len() == 0 || (t[0] as u32) >= 0x80 {
                return Err(ConfigParseError::NotEnoughValues(to_string(source)));
            }
            match B::from_conf(suffix(t, 1), loader) {
                Err(e) => Err(e),
                Ok((b, rest2)) => {
                    let u = trim_start(rest2);
                    if u.len() == 0 || (u[0] as u32) >= 0x80 {
                        return Err(ConfigParseError::NotEnoughValues(to_string(source)));
                    }
                    match C::from_conf(suffix(u, 1), loader) {
                        Err(e) => Err(e),
                        Ok((c, rest3)) => Ok((a, b, c, close_tuple(rest3, bracketed))),
                    }
                },
            }
        },
    }
}

/// A value optionally followed by a second one: the pair where both can be
/// read, else the first value alone.
pub open spec fn spec_pair_from_conf<A: FromConfig, B: FromConfig>(s: Seq<char>, names: LoaderNames) -> Result<((A, Option<B>), Seq<char>), ConfigError> {
    match spec_parse_tuple2::<A, B>(s, names) {
        Ok((a, b, rest)) => Ok(((a, Some(b)), rest)),
        Err(_) => match spec_parse_tuple1::<A>(s, names) {
            Ok((a, rest)) => Ok(((a, None), rest)),
            Err(e) => Err(e),
        },
    }
}

impl<A: FromConfig, B: FromConfig> FromConfig for (A, Option<B>) {
    open spec fn spec_from_conf(s: Seq<char>, names: LoaderNames) -> Result<((A, Option<B>), Seq<char>), ConfigError> {
        spec_pair_from_conf::<A, B>(s, names)
    }

    fn from_conf<'a>(s: &'a [char], loader: &FileLoader) -> (r: Result<((A, Option<B>), &'a [char]), ConfigParseError>) {
        match parse_tuple2::<A, B>(s, loader) {
            Ok((a, b, rest)) => Ok(((a, Some(b)), rest)),
            Err(_) => match parse_tuple1::<A>(s, loader) {
                Ok((a, rest)) => Ok(((a, None), rest)),
                Err(e) => Err(e),
            },
        }
    }
}

/// Whatever follows a name that isn't empty is shorter than the text.
pub proof fn lemma_string_base_shortens(s: Seq<char>)
    ensures
        spec_string_base(s).0.len() > 0 ==> spec_string_base(s).1.len() < s.len(),
        spec_string_base(s).1.len() <= s.len(),
{
    lemma_leading_bound(s);
    let t = spec_trim_start(s);
    lemma_first_non_alphanumeric_bound(t);
    match first_non_alphanumeric(t) {
        Some(i) => {
            lemma_leading_bound(t.skip(i));
            lemma_trailing_bound(t.take(i));
            if i == 0 {
                assert(t.take(0) =~= seq![]);
            }
        },
        None => {},
    }
}

/// Whitespace and an optional opening bracket take nothing away but
/// themselves.
pub proof fn lemma_open_tuple_shortens(s: Seq<char>)
    ensures
        spec_open_tuple(s).0.len() <= s.len(),
{
    lemma_leading_bound(s);
}

/// One step of a list: a value, then whitespace and an optional comma.
pub open spec fn spec_list_step<T: FromConfig>(s: Seq<char>, names: LoaderNames) -> Result<(T, Seq<char>), ConfigError> {
    match T::spec_from_conf(s, names) {
        Err(e) => Err(e),
        Ok((t, rest)) => {
            let r = spec_trim_start(rest);
            if r.len() > 0 && r[0] == ',' {
                Ok((t, spec_trim_start(r.skip(1))))
            } else {
                Ok((t, r))
            }
        },
    }
}

/// The values of a list that starts with `s`, appended to `acc`, and the
/// text after the list.
pub open spec fn spec_list_items<T: FromConfig>(s: Seq<char>, names: LoaderNames, stop: bool, acc: Seq<T>) -> Result<(Seq<T>, Seq<char>), ConfigError>
    decreases s.len(),
{
    if s.len() == 0 {
        Ok((acc, s))
    } else if stop && s[0] == ')' {
        Ok((acc, spec_trim_start(s.skip(1))))
    } else {
        match spec_list_step::<T>(s, names) {
            Err(e) => Err(e),
            Ok((t, r)) => if r.len() < s.len() {
                spec_list_items::<T>(r, names, stop, acc.push(t))
            } else {
                Err(ConfigError::EmptyList)
            },
        }
    }
}

/// A list of values separated by commas, optionally in brackets; with
/// `needs_content`, an empty list is an error.
pub open spec fn spec_parse_inner_vec<T: FromConfig>(source: Seq<char>, needs_content: bool, names: LoaderNames) -> Result<(Seq<T>, Seq<char>), ConfigError> {
    let (s, bracketed) = spec_open_tuple(source);
    match spec_list_items::<T>(s, names, bracketed, seq![]) {
        Err(e) => Err(e),
        Ok((items, rest)) => if needs_content && items.len() == 0 {
            Err(ConfigError::EmptyList)
        } else {
            Ok((items, rest))
        },
    }
}

/// Reads a list of values separated by commas, optionally in brackets.
/// A value that consumes no text (where reading would never end) is
/// answered with `EmptyList`.
pub fn parse_inner_vec<'a, T: FromConfig>(source: &'a [char], needs_content: bool, loader: &FileLoader) -> (r: Result<(Vec<T>, &'a [char]), ConfigParseError>)
    ensures
        match (r, spec_parse_inner_vec::<T>(source@, needs_content, loader@)) {
            (Ok((v, rest)), Ok((items, rest2))) => v@ == items && rest@ == rest2,
            (Err(e), Err(e2)) => e@ == e2,
            _ => false,
        },
{
    let (mut s, bracketed) = open_tuple(source);
    let ghost s0 = s@;
    let mut result: Vec<T> = Vec::new();
    loop
        invariant
            spec_list_items::<T>(s0, loader@, bracketed, seq![]) == spec_list_items::<T>(s@, loader@, bracketed, result@),
            (s0, bracketed) == spec_open_tuple(source@),
        decreases s@.len(),
    {
        if s.len() == 0 || (bracketed && s[0] == ')') {
            if s.len() > 0 {
                s = trim_start(suffix(s, 1));
            }
            if needs_content && result.len() == 0 {
                return Err(ConfigParseError::EmptyList);
            }
            return Ok((result, s));
        }
        let ghost before = s@;
        match T::from_conf(s, loader) {
            Err(e) => {
                return Err(e);
            },
            Ok((t, rest)) => {
                let mut r = trim_start(rest);
                if starts_with_char(r, ',') {
                    r = trim_start(suffix(r, 1));
                }
                if r.len() >= s.len() {
                    return Err(ConfigParseError::EmptyList);
                }
                result.push(t);
                s = r;
            },
        }
    }
}

/// The value of a hexadecimal digit, or -1 for another character.
pub open spec fn hex_value(c: char) -> int {
    if '0' <= c <= '9' {
        c as int - '0' as int
    } else if 'a' <= c <= 'f' {
        c as int - 'a' as int + 10
    } else if 'A' <= c <= 'F' {
        c as int - 'A' as int + 10
    } else {
        -1
    }
}

/// Length of the run of hexadecimal digits at the start of `t`.
pub open spec fn hex_run(t: Seq<char>) -> int
    decreases t.len(),
{
    if t.len() == 0 || hex_value(t[0]) < 0 {
        0
    } else {
        1 + hex_run(t.drop_first())
    }
}

/// The byte written by the two digits of `t` at `j`.
pub open spec fn hex_byte(t: Seq<char>, j: int) -> u8 {
    (hex_value(t[j]) * 16 + hex_value(t[j + 1])) as u8
}

/// The byte written by the single digit of `t` at `j`, repeated.
pub open spec fn hex_nibble(t: Seq<char>, j: int) -> u8 {
    (17 * hex_value(t[j])) as u8
}

/// A color: an optional `#` and 6 or 8 hexadecimal digits (two per
/// channel), or 3 or 4 (one per channel, repeated); without an alpha
/// channel the color is opaque. The run of digits must have one of those
/// lengths.
pub open spec fn spec_color_from_conf(s: Seq<char>) -> Result<([u8; 4], Seq<char>), ConfigError> {
    let t = if s.len() > 0 && s[0] == '#' { s.skip(1) } else { s };
    let len = hex_run(t);
    if len == 6 || len == 8 {
        let alpha = if len == 6 { 255u8 } else { hex_byte(t, 6) };
        Ok(([hex_byte(t, 0), hex_byte(t, 2), hex_byte(t, 4), alpha], t.skip(len)))
    } else if len == 3 || len == 4 {
        let alpha = if len == 3 { 255u8 } else { hex_nibble(t, 3) };
        Ok(([hex_nibble(t, 0), hex_nibble(t, 1), hex_nibble(t, 2), alpha], t.skip(len)))
    } else {
        Err(ConfigError::InvalidColor(s))
    }
}

fn hex_digit(c: char) -> (r: Option<u8>)
    ensures
        match r {
            Some(v) => hex_value(c) == v as int && v < 16,
            None => hex_value(c) < 0,
        },
{
    if '0' <= c && c <= '9' {
        Some(((c as u32) - ('0' as u32)) as u8)
    } else if 'a' <= c && c <= 'f' {
        Some(((c as u32) - ('a' as u32) + 10) as u8)
    } else if 'A' <= c && c <= 'F' {
        Some(((c as u32) - ('A' as u32) + 10) as u8)
    } else {
        None
    }
}

impl FromConfig for [u8; 4] {
    open spec fn spec_from_conf(s: Seq<char>, names: LoaderNames) -> Result<([u8; 4], Seq<char>), ConfigError> {
        spec_color_from_conf(s)
    }

    fn from_conf<'a>(s: &'a [char], loader: &FileLoader) -> (r: Result<([u8; 4], &'a [char]), ConfigParseError>) {
        let t = if starts_with_char(s, '#') { suffix(s, 1) } else { s };
        let mut digits: Vec<u8> = Vec::new();
        let mut len: usize = 0;
        let mut stopped = false;
        assert(t@.skip(0) =~= t@);
        while len < t.len() && !stopped
            invariant
                len <= t@.len(),
                stopped ==> len < t@.len() && hex_value(t@[len as int]) < 0,
                digits@.len() == len,
                forall|j: int| 0 <= j < len ==> hex_value(t@[j]) == #[trigger] digits@[j] as int && digits@[j] < 16,
                hex_run(t@) == len + hex_run(t@.skip(len as int)),
            decreases t.len() - len + (if stopped { 0int } else { 1int }),
        {
            assert(t@.skip(len as int).drop_first() =~= t@.skip(len + 1));
            match hex_digit(t[len]) {
                None => {
                    stopped = true;
                },
                Some(v) => {
                    digits.push(v);
                    len += 1;
                },
            }
        }
        assert(len == hex_run(t@)) by {
            if len < t@.len() {
                assert(t@.skip(len as int)[0] == t@[len as int]);
            }
        }
        let rest = suffix(t, len);
        if len == 6 || len == 8 {
            let alpha = if len == 6 { 255u8 } else { digits[6] * 16 + digits[7] };
            Ok(([digits[0] * 16 + digits[1], digits[2] * 16 + digits[3], digits[4] * 16 + digits[5], alpha], rest))
        } else if len == 3 || len == 4 {
            let alpha = if len == 3 { 255u8 } else { 17 * digits[3] };
            Ok(([17 * digits[0], 17 * digits[1], 17 * digits[2], alpha], rest))
        } else {
            Err(ConfigParseError::InvalidColor(to_string(s)))
        }
    }
}

} // verus!
