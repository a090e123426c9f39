use vstd::prelude::*;

use crate::config::file_loader::{fp_result, spec_rhai_step, FileLoader, LoaderNames};
use crate::config::parse::{close_tuple, open_tuple, spec_close_tuple, spec_open_tuple, spec_string_base, spec_string_from_conf, string_base, string_from_conf, FromConfig};
use crate::config::listing::{is_word, str_chars};
use crate::config::table::{cell, custom_view, TableRow};
use crate::config::text::{spec_trim, suffix, text_eq, to_string, trim};
use crate::config::{ConfigError, ConfigParseError};
use crate::fraction::{round_div, Fraction};

verus! {

/// A number that a `NumberMod` can change: it can be added, subtracted
/// (both wrapping around at the type's bounds) and scaled by a fraction
/// (rounded to the nearest integer, halves away from zero, and clamped to
/// the type where the type is narrower than `i32`).
pub trait ModValue: Sized + Copy + FromConfig {
    spec fn spec_plus(self, other: Self) -> Self;

    spec fn spec_minus(self, other: Self) -> Self;

    /// Whether the product with `f` can be computed in `i32`.
    spec fn scalable(self, f: Fraction) -> bool;

    spec fn spec_scaled(self, f: Fraction) -> Self;

    /// Scaling by a fraction with numerator 0 gives the same for every value.
    proof fn lemma_scaled_by_zero(self, other: Self, f: Fraction)
        requires
            f.spec_numer() == 0,
        ensures
            self.spec_scaled(f) == other.spec_scaled(f),
    ;

    fn plus(self, other: Self) -> (r: Self)
        ensures
            r == self.spec_plus(other),
    ;

    fn minus(self, other: Self) -> (r: Self)
        ensures
            r == self.spec_minus(other),
    ;

    fn scaled(self, f: Fraction) -> (r: Self)
        requires
            self.scalable(f),
        ensures
            r == self.spec_scaled(f),
    ;
}

/// `v` held between `lo` and `hi`.
pub open spec fn clamp_int(v: int, lo: int, hi: int) -> int {
    if v < lo {
        lo
    } else if v > hi {
        hi
    } else {
        v
    }
}

impl ModValue for u8 {
    open spec fn spec_plus(self, other: u8) -> u8 {
        vstd::wrapping::u8_specs::wrapping_add(self, other)
    }

    open spec fn spec_minus(self, other: u8) -> u8 {
        vstd::wrapping::u8_specs::wrapping_sub(self, other)
    }

    open spec fn scalable(self, f: Fraction) -> bool {
        -i32::MAX <= self * f.spec_numer() <= i32::MAX
    }

    open spec fn spec_scaled(self, f: Fraction) -> u8 {
        clamp_int(round_div(self * f.spec_numer(), f.spec_denom() as int), 0, 255) as u8
    }

    proof fn lemma_scaled_by_zero(self, other: u8, f: Fraction) {
        assert(self * f.spec_numer() == 0);
        assert(other * f.spec_numer() == 0);
    }

    fn plus(self, other: u8) -> (r: u8) {
        self.wrapping_add(other)
    }

    fn minus(self, other: u8) -> (r: u8) {
        self.wrapping_sub(other)
    }

    fn scaled(self, f: Fraction) -> (r: u8) {
        let v = f.scale_round(self as i32);
        if v < 0 {
            0
        } else if v > 255 {
            255
        } else {
            v as u8
        }
    }
}

impl ModValue for i8 {
    open spec fn spec_plus(self, other: i8) -> i8 {
        vstd::wrapping::i8_specs::wrapping_add(self, other)
    }

    open spec fn spec_minus(self, other: i8) -> i8 {
        vstd::wrapping::i8_specs::wrapping_sub(self, other)
    }

    open spec fn scalable(self, f: Fraction) -> bool {
        -i32::MAX <= self * f.spec_numer() <= i32::MAX
    }

    open spec fn spec_scaled(self, f: Fraction) -> i8 {
        clamp_int(round_div(self * f.spec_numer(), f.spec_denom() as int), -128, 127) as i8
    }

    proof fn lemma_scaled_by_zero(self, other: i8, f: Fraction) {
        assert(self * f.spec_numer() == 0);
        assert(other * f.spec_numer() == 0);
    }

    fn plus(self, other: i8) -> (r: i8) {
        self.wrapping_add(other)
    }

    fn minus(self, other: i8) -> (r: i8) {
        self.wrapping_sub(other)
    }

    fn scaled(self, f: Fraction) -> (r: i8) {
        let v = f.scale_round(self as i32);
        if v < -128 {
            -128
        } else if v > 127 {
            127
        } else {
            v as i8
        }
    }
}

impl ModValue for u32 {
    open spec fn spec_plus(self, other: u32) -> u32 {
        vstd::wrapping::u32_specs::wrapping_add(self, other)
    }

    open spec fn spec_minus(self, other: u32) -> u32 {
        vstd::wrapping::u32_specs::wrapping_sub(self, other)
    }

    /// The value is read as an `i32` first, as `as` does.
    open spec fn scalable(self, f: Fraction) -> bool {
        -i32::MAX <= (self as i32) * f.spec_numer() <= i32::MAX
    }

    open spec fn spec_scaled(self, f: Fraction) -> u32 {
        clamp_int(round_div((self as i32) * f.spec_numer(), f.spec_denom() as int), 0, i32::MAX as int) as u32
    }

    proof fn lemma_scaled_by_zero(self, other: u32, f: Fraction) {
        assert(self * f.spec_numer() == 0);
        assert(other * f.spec_numer() == 0);
    }

    fn plus(self, other: u32) -> (r: u32) {
        self.wrapping_add(other)
    }

    fn minus(self, other: u32) -> (r: u32) {
        self.wrapping_sub(other)
    }

    fn scaled(self, f: Fraction) -> (r: u32) {
        #[verifier::truncate]
        let x = self as i32;
        let v = f.scale_round(x);
        if v < 0 {
            0
        } else {
            v as u32
        }
    }
}

impl ModValue for i32 {
    open spec fn spec_plus(self, other: i32) -> i32 {
        vstd::wrapping::i32_specs::wrapping_add(self, other)
    }

    open spec fn spec_minus(self, other: i32) -> i32 {
        vstd::wrapping::i32_specs::wrapping_sub(self, other)
    }

    open spec fn scalable(self, f: Fraction) -> bool {
        -i32::MAX <= self * f.spec_numer() <= i32::MAX
    }

    open spec fn spec_scaled(self, f: Fraction) -> i32 {
        round_div(self * f.spec_numer(), f.spec_denom() as int) as i32
    }

    proof fn lemma_scaled_by_zero(self, other: i32, f: Fraction) {
        assert(self * f.spec_numer() == 0);
        assert(other * f.spec_numer() == 0);
    }

    fn plus(self, other: i32) -> (r: i32) {
        self.wrapping_add(other)
    }

    fn minus(self, other: i32) -> (r: i32) {
        self.wrapping_sub(other)
    }

    fn scaled(self, f: Fraction) -> (r: i32) {
        f.scale_round(self)
    }
}

/// A change of a number: kept, replaced, added to, subtracted from,
/// multiplied (and then added to or subtracted from), or handed to a
/// script function, with the old value (`Rhai`) or without it
/// (`RhaiReplace`).
#[derive(Debug, Clone, Copy)]
pub enum NumberMod<T> {
    Keep,
    Replace(T),
    Add(T),
    Sub(T),
    Mul(Fraction),
    MulAdd(Fraction, T),
    MulSub(Fraction, T),
    Rhai(usize),
    RhaiReplace(usize),
}

impl<T: ModValue> NumberMod<T> {
    /// The new value; `script` is what the script function gave, if it
    /// ran and succeeded (the old value stays where it did not).
    pub open spec fn spec_update(self, value: T, script: Option<T>) -> T {
        match self {
            NumberMod::Keep => value,
            NumberMod::Replace(v) => v,
            NumberMod::Add(a) => value.spec_plus(a),
            NumberMod::Sub(a) => value.spec_minus(a),
            NumberMod::Mul(f) => value.spec_scaled(f),
            NumberMod::MulAdd(f, b) => value.spec_scaled(f).spec_plus(b),
            NumberMod::MulSub(f, b) => value.spec_scaled(f).spec_minus(b),
            NumberMod::Rhai(_) | NumberMod::RhaiReplace(_) => match script {
                Some(t) => t,
                None => value,
            },
        }
    }

    /// Whether the change can be computed for `value` (products fit in
    /// `i32`).
    pub open spec fn computable(self, value: T) -> bool {
        match self {
            NumberMod::Mul(f) | NumberMod::MulAdd(f, _) | NumberMod::MulSub(f, _) => value.scalable(f),
            _ => true,
        }
    }

    /// Whether the new value does not depend on the old one.
    pub open spec fn spec_ignores_previous_value(self) -> bool {
        match self {
            NumberMod::Replace(_) | NumberMod::RhaiReplace(_) => true,
            NumberMod::Mul(f) => f.spec_numer() == 0,
            _ => false,
        }
    }

    pub fn ignores_previous_value(&self) -> (r: bool)
        ensures
            r == self.spec_ignores_previous_value(),
    {
        match self {
            NumberMod::Replace(_) => true,
            NumberMod::RhaiReplace(_) => true,
            NumberMod::Mul(f) => f.numer() == 0,
            _ => false,
        }
    }
}

/// Whether `out` is what `run` gave for the script function of `m` on
/// `value`; `None` for a change without a script.
pub open spec fn script_ran<T: ModValue, F: Fn(usize, Option<T>) -> Option<T>>(run: F, m: NumberMod<T>, value: T, out: Option<T>) -> bool {
    match m {
        NumberMod::Rhai(i) => call_ensures(run, (i, Some(value)), out),
        NumberMod::RhaiReplace(i) => call_ensures(run, (i, None), out),
        _ => out is None,
    }
}

/// Whether applying `m` to `value` can give `result`.
pub open spec fn update_step<T: ModValue, F: Fn(usize, Option<T>) -> Option<T>>(run: F, m: NumberMod<T>, value: T, result: T) -> bool {
    exists|out: Option<T>| #[trigger] script_ran(run, m, value, out) && result == m.spec_update(value, out)
}

/// Whether `values` are the values that applying `mods` in order can pass
/// through: `values[j + 1]` is what `mods[j]` can make of `values[j]`.
pub open spec fn passes_through<T: ModValue, F: Fn(usize, Option<T>) -> Option<T>>(run: F, mods: Seq<NumberMod<T>>, values: Seq<T>) -> bool {
    &&& values.len() == mods.len() + 1
    &&& forall|j: int| 0 <= j < mods.len() ==> update_step(run, #[trigger] mods[j], values[j], values[j + 1])
}

/// Whether applying `mods` in order to `value` can give `result`.
pub open spec fn applied<T: ModValue, F: Fn(usize, Option<T>) -> Option<T>>(run: F, mods: Seq<NumberMod<T>>, value: T, result: T) -> bool {
    exists|values: Seq<T>| #[trigger] passes_through(run, mods, values) && values[0] == value && values.last() == result
}

/// Position of the last change that ignores the value before it, or 0.
pub open spec fn effective_start<T: ModValue>(mods: Seq<NumberMod<T>>) -> int
    decreases mods.len(),
{
    if mods.len() == 0 {
        0
    } else if mods.last().spec_ignores_previous_value() {
        mods.len() - 1
    } else {
        effective_start(mods.drop_last())
    }
}

impl<T: ModValue> NumberMod<T> {
    /// Applies the change to `value`; `run` runs a script function, with
    /// the old value or without it, and gives `None` where the script
    /// failed.
    pub fn update_value<F: Fn(usize, Option<T>) -> Option<T>>(&self, value: T, run: &F) -> (r: T)
        requires
            forall|i: usize, v: Option<T>| #[trigger] run.requires((i, v)),
            self.computable(value),
        ensures
            update_step(*run, *self, value, r),
    {
        match *self {
            NumberMod::Keep => {
                assert(script_ran(*run, *self, value, None));
                value
            },
            NumberMod::Replace(v) => {
                assert(script_ran(*run, *self, value, None));
                v
            },
            NumberMod::Add(a) => {
                assert(script_ran(*run, *self, value, None));
                value.plus(a)
            },
            NumberMod::Sub(a) => {
                assert(script_ran(*run, *self, value, None));
                value.minus(a)
            },
            NumberMod::Mul(f) => {
                assert(script_ran(*run, *self, value, None));
                value.scaled(f)
            },
            NumberMod::MulAdd(f, b) => {
                assert(script_ran(*run, *self, value, None));
                value.scaled(f).plus(b)
            },
            NumberMod::MulSub(f, b) => {
                assert(script_ran(*run, *self, value, None));
                value.scaled(f).minus(b)
            },
            NumberMod::Rhai(i) => {
                let out = run(i, Some(value));
                assert(script_ran(*run, *self, value, out));
                match out {
                    Some(t) => t,
                    None => value,
                }
            },
            NumberMod::RhaiReplace(i) => {
                let out = run(i, None);
                assert(script_ran(*run, *self, value, out));
                match out {
                    Some(t) => t,
                    None => value,
                }
            },
        }
    }
}

proof fn lemma_effective_start<T: ModValue>(mods: Seq<NumberMod<T>>, i: int)
    requires
        0 <= i <= mods.len(),
        forall|j: int| i <= j < mods.len() ==> !(#[trigger] mods[j]).spec_ignores_previous_value(),
    ensures
        effective_start(mods) == effective_start(mods.take(i)),
    decreases mods.len() - i,
{
    if i < mods.len() {
        let m = mods.drop_last();
        assert(m.take(i) =~= mods.take(i));
        assert forall|j: int| i <= j < m.len() implies !(#[trigger] m[j]).spec_ignores_previous_value() by {
            assert(m[j] == mods[j]);
        }
        lemma_effective_start(m, i);
    } else {
        assert(mods.take(i) =~= mods);
    }
}

proof fn lemma_effective_start_at<T: ModValue>(mods: Seq<NumberMod<T>>, i: int)
    requires
        0 <= i < mods.len(),
        mods[i].spec_ignores_previous_value(),
        forall|j: int| i < j < mods.len() ==> !(#[trigger] mods[j]).spec_ignores_previous_value(),
    ensures
        effective_start(mods) == i,
{
    lemma_effective_start(mods, i + 1);
    assert(mods.take(i + 1).last() == mods[i]);
}

/// Whether every change from `effective_start(mods)` on can be computed for
/// every value that the changes before it (from there) can give.
pub open spec fn computable_on_the_way<T: ModValue, F: Fn(usize, Option<T>) -> Option<T>>(run: F, mods: Seq<NumberMod<T>>, value: T) -> bool {
    forall|j: int, values: Seq<T>|
        effective_start(mods) <= j < mods.len() && #[trigger] passes_through(run, mods.subrange(effective_start(mods), j), values)
            && values[0] == value ==> (#[trigger] mods[j]).computable(values.last())
}

/// Applies `mods` to `value` in order, but only from the last change that
/// ignores the value before it: what came earlier can't matter. `run`
/// runs a script function and gives `None` where it failed.
pub fn update_value_repeatedly<T: ModValue, F: Fn(usize, Option<T>) -> Option<T>>(value: T, mods: &Vec<NumberMod<T>>, run: &F) -> (r: T)
    requires
        forall|i: usize, v: Option<T>| #[trigger] run.requires((i, v)),
        computable_on_the_way(*run, mods@, value),
    ensures
        applied(*run, mods@.skip(effective_start(mods@)), value, r),
{
    let ghost ms = mods@;
    let mut start = mods.len();
    let mut found = false;
    while start > 0
        invariant_except_break
            start <= ms.len(),
            ms == mods@,
            !found,
            forall|j: int| start <= j < ms.len() ==> !(#[trigger] ms[j]).spec_ignores_previous_value(),
        ensures
            start <= ms.len(),
            ms == mods@,
            found ==> start < ms.len() && ms[start as int].spec_ignores_previous_value()
                && forall|j: int| start < j < ms.len() ==> !(#[trigger] ms[j]).spec_ignores_previous_value(),
            !found ==> start == 0 && forall|j: int| 0 <= j < ms.len() ==> !(#[trigger] ms[j]).spec_ignores_previous_value(),
        decreases start,
    {
        start -= 1;
        if mods[start].ignores_previous_value() {
            found = true;
            break;
        }
    }
    proof {
        if found {
            lemma_effective_start_at(ms, start as int);
        } else {
            lemma_effective_start(ms, 0);
        }
    }
    let ghost s = start as int;
    let mut result = value;
    let mut k = start;
    let ghost mut values: Seq<T> = seq![value];
    while k < mods.len()
        invariant
            0 <= s <= k <= ms.len(),
            ms == mods@,
            s == effective_start(ms),
            forall|i: usize, v: Option<T>| #[trigger] run.requires((i, v)),
            computable_on_the_way(*run, ms, value),
            passes_through(*run, ms.subrange(s, k as int), values),
            values[0] == value,
            values.last() == result,
        decreases mods.len() - k,
    {
        let m = mods[k];
        assert(ms[k as int].computable(values.last()));
        assert(m.computable(result));
        let ghost prev = result;
        result = m.update_value(result, run);
        proof {
            let sub = ms.subrange(s, k + 1);
            let nv = values.push(result);
            assert forall|j: int| 0 <= j < sub.len() implies update_step(*run, #[trigger] sub[j], nv[j], nv[j + 1]) by {
                if j < sub.len() - 1 {
                    assert(sub[j] == ms.subrange(s, k as int)[j]);
                } else {
                    assert(sub[j] == m);
                }
            }
            values = nv;
        }
        k += 1;
    }
    assert(ms.subrange(s, ms.len() as int) =~= ms.skip(s));
    assert(passes_through(*run, ms.skip(s), values));
    result
}

/// Whether the script function of `m`, if `m` replaces the value by a
/// script's result, always succeeds.
pub open spec fn script_succeeds<T: ModValue, F: Fn(usize, Option<T>) -> Option<T>>(run: F, m: NumberMod<T>) -> bool {
    match m {
        NumberMod::RhaiReplace(i) => forall|out: Option<T>| call_ensures(run, (i, None), out) ==> out is Some,
        _ => true,
    }
}

/// A change that ignores the value before it gives the same for every
/// value before it (a script that replaces the value must succeed: where it
/// fails, the value before it is kept).
pub proof fn lemma_ignoring_change_forgets<T: ModValue, F: Fn(usize, Option<T>) -> Option<T>>(run: F, m: NumberMod<T>, x: T, y: T, r: T)
    requires
        m.spec_ignores_previous_value(),
        script_succeeds(run, m),
        update_step(run, m, x, r),
    ensures
        update_step(run, m, y, r),
{
    let out = choose|out: Option<T>| #[trigger] script_ran(run, m, x, out) && r == m.spec_update(x, out);
    match m {
        NumberMod::Mul(f) => {
            x.lemma_scaled_by_zero(y, f);
            assert(script_ran(run, m, y, out));
        },
        _ => {
            assert(script_ran(run, m, y, out));
        },
    }
}

/// `update_value_repeatedly` gives what applying every change in order
/// gives: the changes before the last one that ignores its input can't
/// matter, where that change is no failing script.
pub proof fn lemma_repeated_update_applies_all<T: ModValue, F: Fn(usize, Option<T>) -> Option<T>>(run: F, mods: Seq<NumberMod<T>>, value: T, mid: T, r: T)
    requires
        applied(run, mods.take(effective_start(mods)), value, mid),
        applied(run, mods.skip(effective_start(mods)), value, r),
        script_succeeds(run, mods[effective_start(mods)]),
    ensures
        applied(run, mods, value, r),
{
    let s = effective_start(mods);
    lemma_effective_start_bounds(mods);
    if s == 0 {
        assert(mods.skip(0) =~= mods);
    } else {
        let v1 = choose|values: Seq<T>| #[trigger] passes_through(run, mods.take(s), values) && values[0] == value && values.last() == mid;
        let v2 = choose|values: Seq<T>| #[trigger] passes_through(run, mods.skip(s), values) && values[0] == value && values.last() == r;
        let vs = v1 + v2.skip(1);
        assert(mods.skip(s)[0] == mods[s]);
        assert(update_step(run, mods[s], v2[0], v2[1]));
        lemma_ignoring_change_forgets(run, mods[s], v2[0], mid, v2[1]);
        assert forall|j: int| 0 <= j < mods.len() implies update_step(run, #[trigger] mods[j], vs[j], vs[j + 1]) by {
            if j < s {
                assert(mods.take(s)[j] == mods[j]);
            } else if j == s {
                assert(vs[j] == mid);
            } else {
                assert(mods.skip(s)[j - s] == mods[j]);
            }
        }
        assert(passes_through(run, mods, vs));
    }
}

proof fn lemma_effective_start_bounds<T: ModValue>(mods: Seq<NumberMod<T>>)
    ensures
        0 <= effective_start(mods) <= mods.len(),
        mods.len() > 0 ==> effective_start(mods) < mods.len(),
        effective_start(mods) > 0 ==> mods[effective_start(mods)].spec_ignores_previous_value(),
    decreases mods.len(),
{
    if mods.len() > 0 && !mods.last().spec_ignores_previous_value() {
        lemma_effective_start_bounds(mods.drop_last());
        let s = effective_start(mods.drop_last());
        if s > 0 {
            assert(mods.drop_last()[s] == mods[s]);
        }
    }
}

/// A change of a number as the configuration writes it: empty keeps the
/// number; `=`, `+` and `-` followed by a number replace, add and
/// subtract; `*` followed by a fraction multiplies, optionally followed by
/// `+` or `-` and a number; `Rhai(file > function)` or `Script(...)` names
/// a script function with one parameter (it gets the old value) or none
/// (it replaces the value). Anything else is `InvalidNumberModifier`, with
/// the text after the first word.
pub open spec fn spec_number_mod_from_conf<T: FromConfig>(s: Seq<char>, names: LoaderNames) -> (Result<(NumberMod<T>, Seq<char>), ConfigError>, LoaderNames) {
    if s.len() == 0 {
        (Ok((NumberMod::Keep, s)), names)
    } else if s[0] == '=' || s[0] == '+' || s[0] == '-' {
        (match T::spec_from_conf(s.skip(1), names) {
            Err(e) => Err(e),
            Ok((n, rest)) => Ok((if s[0] == '=' {
                NumberMod::Replace(n)
            } else if s[0] == '+' {
                NumberMod::Add(n)
            } else {
                NumberMod::Sub(n)
            }, rest)),
        }, names)
    } else if s[0] == '*' {
        (match Fraction::spec_from_conf(s.skip(1), names) {
            Err(e) => Err(e),
            Ok((f, rest)) => if rest.len() > 0 && (rest[0] == '-' || rest[0] == '+') {
                match T::spec_from_conf(rest.skip(1), names) {
                    Err(e) => Err(e),
                    Ok((n, rest2)) => Ok((if rest[0] == '-' { NumberMod::MulSub(f, n) } else { NumberMod::MulAdd(f, n) }, rest2)),
                }
            } else {
                Ok((NumberMod::Mul(f), rest))
            },
        }, names)
    } else {
        let (base, rest) = spec_string_base(s);
        if base == "Rhai"@ || base == "Script"@ {
            let (t, bracketed) = spec_open_tuple(rest);
            let (name, after) = spec_string_from_conf(t);
            let rest2 = spec_close_tuple(after, bracketed);
            let (f, n) = spec_rhai_step(names, name, 0, 1);
            (match f {
                Err(e) => Err(e),
                Ok(p) => Ok((if p.parameter_count == 0 { NumberMod::RhaiReplace(p.index) } else { NumberMod::Rhai(p.index) }, rest2)),
            }, n)
        } else {
            (Err(ConfigError::InvalidNumberModifier(rest)), names)
        }
    }
}

/// Reads a change of a number; see `spec_number_mod_from_conf`.
pub fn number_mod_from_conf<'a, T: FromConfig>(s: &'a [char], loader: &mut FileLoader) -> (r: Result<(NumberMod<T>, &'a [char]), ConfigParseError>)
    ensures
        (match r { Ok((m, rest)) => Ok((m, rest@)), Err(e) => Err(e@) }, final(loader)@) == spec_number_mod_from_conf::<T>(s@, old(loader)@),
{
    if s.len() == 0 {
        return Ok((NumberMod::Keep, s));
    }
    let c = s[0];
    if c == '=' || c == '+' || c == '-' {
        match T::from_conf(suffix(s, 1), loader) {
            Err(e) => Err(e),
            Ok((n, rest)) => Ok((if c == '=' {
                NumberMod::Replace(n)
            } else if c == '+' {
                NumberMod::Add(n)
            } else {
                NumberMod::Sub(n)
            }, rest)),
        }
    } else if c == '*' {
        match Fraction::from_conf(suffix(s, 1), loader) {
            Err(e) => Err(e),
            Ok((f, rest)) => if rest.len() > 0 && (rest[0] == '-' || rest[0] == '+') {
                match T::from_conf(suffix(rest, 1), loader) {
                    Err(e) => Err(e),
                    Ok((n, rest2)) => Ok((if rest[0] == '-' { NumberMod::MulSub(f, n) } else { NumberMod::MulAdd(f, n) }, rest2)),
                }
            } else {
                Ok((NumberMod::Mul(f), rest))
            },
        }
    } else {
        let (base, rest) = string_base(s);
        if is_word(base, "Rhai") || is_word(base, "Script") {
            let (t, bracketed) = open_tuple(rest);
            let (name, after) = string_from_conf(t);
            let rest2 = close_tuple(after, bracketed);
            let name_chars = str_chars(name.as_str());
            match loader.rhai_function(name_chars.as_slice(), 0, 1) {
                Err(e) => Err(e),
                Ok(p) => Ok((if p.parameter_count == 0 { NumberMod::RhaiReplace(p.index) } else { NumberMod::Rhai(p.index) }, rest2)),
            }
        } else {
            Err(ConfigParseError::InvalidNumberModifier(to_string(rest)))
        }
    }
}

/// The change in column `key`: kept without the column or for an empty
/// cell, else what the cell reads as.
pub open spec fn spec_mod_cell<T: FromConfig>(row: Seq<Option<Seq<char>>>, key: int, names: LoaderNames) -> (Result<NumberMod<T>, ConfigError>, LoaderNames) {
    match cell(row, key) {
        None => (Ok(NumberMod::Keep), names),
        Some(v) => if v.len() == 0 {
            (Ok(NumberMod::Keep), names)
        } else {
            let (r, n) = spec_number_mod_from_conf::<T>(v, names);
            (match r {
                Ok((m, _)) => Ok(m),
                Err(e) => Err(e),
            }, n)
        },
    }
}

/// Reads the change in column `key`; see `spec_mod_cell`.
pub fn mod_cell<T: FromConfig>(row: &TableRow, key: usize, loader: &mut FileLoader) -> (r: Result<NumberMod<T>, ConfigParseError>)
    ensures
        (match r { Ok(m) => Ok(m), Err(e) => Err(e@) }, final(loader)@) == spec_mod_cell::<T>(row@, key as int, old(loader)@),
{
    match row.get(key) {
        None => Ok(NumberMod::Keep),
        Some(v) => if v.len() == 0 {
            Ok(NumberMod::Keep)
        } else {
            match number_mod_from_conf::<T>(v, loader) {
                Ok((m, _)) => Ok(m),
                Err(e) => Err(e),
            }
        },
    }
}

/// The changes in the table's own columns among the first `k`, read in
/// order: a column with an empty (trimmed) cell is left out; the first
/// cell that can't be read is the error.
pub open spec fn spec_custom_mods(custom: Seq<(Seq<char>, Seq<char>)>, names: LoaderNames, k: nat) -> (Result<Seq<(Seq<char>, NumberMod<Fraction>)>, ConfigError>, LoaderNames)
    decreases k,
{
    if k == 0 {
        (Ok(seq![]), names)
    } else {
        let (prev, n) = spec_custom_mods(custom, names, (k - 1) as nat);
        match prev {
            Err(e) => (Err(e), n),
            Ok(mods) => {
                let text = spec_trim(custom[k - 1].1);
                if text.len() == 0 {
                    (Ok(mods), n)
                } else {
                    let (r, n2) = spec_number_mod_from_conf::<Fraction>(text, n);
                    (match r {
                        Ok((m, _)) => Ok(mods.push((custom[k - 1].0, m))),
                        Err(e) => Err(e),
                    }, n2)
                }
            },
        }
    }
}

proof fn lemma_custom_mods_error(custom: Seq<(Seq<char>, Seq<char>)>, names: LoaderNames, k: nat, m: nat)
    requires
        k <= m,
        spec_custom_mods(custom, names, k).0 is Err,
    ensures
        spec_custom_mods(custom, names, m) == spec_custom_mods(custom, names, k),
    decreases m,
{
    if k < m {
        lemma_custom_mods_error(custom, names, k, (m - 1) as nat);
    }
}

pub open spec fn named_mods_view(v: Seq<(String, NumberMod<Fraction>)>) -> Seq<(Seq<char>, NumberMod<Fraction>)> {
    v.map_values(|p: (String, NumberMod<Fraction>)| (p.0@, p.1))
}

/// Reads the changes in the table's own columns; see `spec_custom_mods`.
pub fn custom_mods(row: &TableRow, loader: &mut FileLoader) -> (r: Result<Vec<(String, NumberMod<Fraction>)>, ConfigParseError>)
    ensures
        (match r { Ok(v) => Ok(named_mods_view(v@)), Err(e) => Err(e@) }, final(loader)@)
            == spec_custom_mods(custom_view(row.custom@), old(loader)@, row.custom@.len()),
{
    let ghost cv = custom_view(row.custom@);
    let mut result: Vec<(String, NumberMod<Fraction>)> = Vec::new();
    let mut k: usize = 0;
    assert(named_mods_view(result@) =~= seq![]);
    while k < row.custom.len()
        invariant
            k <= row.custom@.len(),
            cv == custom_view(row.custom@),
            (Ok::<Seq<(Seq<char>, NumberMod<Fraction>)>, ConfigError>(named_mods_view(result@)), loader@) == spec_custom_mods(cv, old(loader)@, k as nat),
        decreases row.custom.len() - k,
    {
        let ghost before = named_mods_view(result@);
        assert(cv[k as int] == (row.custom@[k as int].0@, row.custom@[k as int].1@));
        let text = trim(row.custom[k].1.as_slice());
        if text.len() > 0 {
            match number_mod_from_conf::<Fraction>(text, loader) {
                Ok((m, _)) => {
                    let name = to_string(row.custom[k].0.as_slice());
                    result.push((name, m));
                    assert(named_mods_view(result@) =~= before.push((cv[k as int].0, m)));
                },
                Err(e) => {
                    proof {
                        lemma_custom_mods_error(cv, old(loader)@, (k + 1) as nat, row.custom@.len());
                    }
                    return Err(e);
                },
            }
        }
        k += 1;
    }
    Ok(result)
}

/// The change kept under the table's own column `name`, where one is
/// kept; else the number stays as it is.
pub open spec fn spec_named_mod(mods: Seq<(Seq<char>, NumberMod<Fraction>)>, name: Seq<char>) -> NumberMod<Fraction>
    decreases mods.len(),
{
    if mods.len() == 0 {
        NumberMod::Keep
    } else if mods[0].0 == name {
        mods[0].1
    } else {
        spec_named_mod(mods.drop_first(), name)
    }
}

/// Looks up the change kept under the table's own column `name`.
pub fn named_mod(mods: &Vec<(String, NumberMod<Fraction>)>, name: &str) -> (r: NumberMod<Fraction>)
    ensures
        r == spec_named_mod(named_mods_view(mods@), name@),
{
    let ghost v = named_mods_view(mods@);
    let key = str_chars(name);
    let mut i: usize = 0;
    assert(v.skip(0) =~= v);
    while i < mods.len()
        invariant
            i <= mods@.len(),
            v == named_mods_view(mods@),
            key@ == name@,
            spec_named_mod(v, name@) == spec_named_mod(v.skip(i as int), name@),
        decreases mods.len() - i,
    {
        assert(v.skip(i as int).drop_first() =~= v.skip(i + 1));
        let t = str_chars(mods[i].0.as_str());
        if text_eq(t.as_slice(), key.as_slice()) {
            return mods[i].1;
        }
        i += 1;
    }
    NumberMod::Keep
}

} // verus!
