use vstd::prelude::*;

verus! {

/// Whether `c` has the Unicode `White_Space` property (`char::is_whitespace`).
pub uninterp spec fn spec_is_whitespace(c: char) -> bool;

/// Whether `c` is alphabetic or numeric in Unicode (`char::is_alphanumeric`).
pub uninterp spec fn spec_is_alphanumeric(c: char) -> bool;

/// Whether `c` has a Unicode number category (`char::is_numeric`).
pub uninterp spec fn spec_is_numeric(c: char) -> bool;

/// Unicode lower case of a whole text (`str::to_lowercase`).
pub uninterp spec fn spec_to_lowercase(s: Seq<char>) -> Seq<char>;

/// Calls `char::is_whitespace`; the result is the named property of `c`.
#[verifier::external_body]
pub fn is_whitespace(c: char) -> (b: bool)
    ensures
        b == spec_is_whitespace(c),
{
    c.is_whitespace()
}

/// Calls `char::is_alphanumeric`; the result is the named property of `c`.
#[verifier::external_body]
pub fn is_alphanumeric(c: char) -> (b: bool)
    ensures
        b == spec_is_alphanumeric(c),
{
    c.is_alphanumeric()
}

/// Calls `char::is_numeric`; the result is the named property of `c`.
#[verifier::external_body]
pub fn is_numeric(c: char) -> (b: bool)
    ensures
        b == spec_is_numeric(c),
{
    c.is_numeric()
}

/// Calls `str::to_lowercase` on the text made of `s`; the result is the
/// named lower case of `s`.
#[verifier::external_body]
pub fn to_lowercase(s: &[char]) -> (r: Vec<char>)
    ensures
        r@ == spec_to_lowercase(s@),
{
    s.iter().collect::<String>().to_lowercase().chars().collect()
}

/// Number of whitespace characters at the start of `s`.
pub open spec fn leading_whitespace(s: Seq<char>) -> nat
    decreases s.len(),
{
    if s.len() > 0 && spec_is_whitespace(s[0]) {
        1 + leading_whitespace(s.drop_first())
    } else {
        0
    }
}

/// Number of whitespace characters at the end of `s`.
pub open spec fn trailing_whitespace(s: Seq<char>) -> nat
    decreases s.len(),
{
    if s.len() > 0 && spec_is_whitespace(s.last()) {
        1 + trailing_whitespace(s.drop_last())
    } else {
        0
    }
}

pub open spec fn spec_trim_start(s: Seq<char>) -> Seq<char> {
    s.skip(leading_whitespace(s) as int)
}

pub open spec fn spec_trim_end(s: Seq<char>) -> Seq<char> {
    s.take(s.len() - trailing_whitespace(s))
}

pub open spec fn spec_trim(s: Seq<char>) -> Seq<char> {
    spec_trim_end(spec_trim_start(s))
}

pub proof fn lemma_leading_bound(s: Seq<char>)
    ensures
        leading_whitespace(s) <= s.len(),
    decreases s.len(),
{
    if s.len() > 0 && spec_is_whitespace(s[0]) {
        lemma_leading_bound(s.drop_first());
    }
}

pub proof fn lemma_trailing_bound(s: Seq<char>)
    ensures
        trailing_whitespace(s) <= s.len(),
    decreases s.len(),
{
    if s.len() > 0 && spec_is_whitespace(s.last()) {
        lemma_trailing_bound(s.drop_last());
    }
}

/// The part of `s` from `start` on.
pub fn suffix(s: &[char], start: usize) -> (r: &[char])
    requires
        start <= s@.len(),
    ensures
        r@ == s@.skip(start as int),
{
    let r = &s[start..s.len()];
    assert(r@ =~= s@.skip(start as int));
    r
}

/// The first `end` characters of `s`.
pub fn prefix(s: &[char], end: usize) -> (r: &[char])
    requires
        end <= s@.len(),
    ensures
        r@ == s@.take(end as int),
{
    let r = &s[0..end];
    assert(r@ =~= s@.take(end as int));
    r
}

/// `s` without leading whitespace (`str::trim_start`).
pub fn trim_start(s: &[char]) -> (r: &[char])
    ensures
        r@ == spec_trim_start(s@),
{
    let mut i: usize = 0;
    proof {
        lemma_leading_bound(s@);
        assert(s@.skip(0) =~= s@);
    }
    while i < s.len() && is_whitespace(s[i])
        invariant
            i <= s@.len(),
            leading_whitespace(s@) == i + leading_whitespace(s@.skip(i as int)),
        decreases s.len() - i,
    {
        assert(s@.skip(i as int).drop_first() =~= s@.skip(i + 1));
        i += 1;
    }
    suffix(s, i)
}

/// `s` without trailing whitespace (`str::trim_end`).
pub fn trim_end(s: &[char]) -> (r: &[char])
    ensures
        r@ == spec_trim_end(s@),
{
    let mut n: usize = s.len();
    proof {
        lemma_trailing_bound(s@);
        assert(s@.take(s@.len() as int) =~= s@);
    }
    while n > 0 && is_whitespace(s[n - 1])
        invariant
            n <= s@.len(),
            trailing_whitespace(s@) == (s@.len() - n) + trailing_whitespace(s@.take(n as int)),
        decreases n,
    {
        assert(s@.take(n as int).drop_last() =~= s@.take(n - 1));
        n -= 1;
    }
    prefix(s, n)
}

/// `s` without leading and trailing whitespace (`str::trim`).
pub fn trim(s: &[char]) -> (r: &[char])
    ensures
        r@ == spec_trim(s@),
{
    trim_end(trim_start(s))
}

/// Whether `s` starts with the character `c`.
pub fn starts_with_char(s: &[char], c: char) -> (b: bool)
    ensures
        b == (s@.len() > 0 && s@[0] == c),
{
    s.len() > 0 && s[0] == c
}

/// Whether `s` starts with the text `t`.
pub fn starts_with(s: &[char], t: &[char]) -> (b: bool)
    ensures
        b == (t@.len() <= s@.len() && s@.take(t@.len() as int) == t@),
{
    if t.len() > s.len() {
        return false;
    }
    let mut i: usize = 0;
    while i < t.len()
        invariant
            i <= t@.len() <= s@.len(),
            forall|j: int| 0 <= j < i ==> s@[j] == t@[j],
        decreases t.len() - i,
    {
        if s[i] != t[i] {
            assert(s@.take(t@.len() as int)[i as int] != t@[i as int]);
            return false;
        }
        i += 1;
    }
    assert(s@.take(t@.len() as int) =~= t@);
    true
}

/// Whether two texts are equal.
pub fn text_eq(s: &[char], t: &[char]) -> (b: bool)
    ensures
        b == (s@ == t@),
{
    if s.len() != t.len() {
        return false;
    }
    let r = starts_with(s, t);
    proof {
        if r {
            assert(s@ =~= s@.take(t@.len() as int));
        }
        if s@ == t@ {
            assert(s@.take(t@.len() as int) =~= t@);
        }
    }
    r
}

/// Index of the first character of `s` that is not alphanumeric.
pub open spec fn first_non_alphanumeric(s: Seq<char>) -> Option<int>
    decreases s.len(),
{
    if s.len() == 0 {
        None
    } else if !spec_is_alphanumeric(s[0]) {
        Some(0int)
    } else {
        match first_non_alphanumeric(s.drop_first()) {
            Some(i) => Some(i + 1),
            None => None,
        }
    }
}

/// The first character that is not alphanumeric lies inside the text.
pub proof fn lemma_first_non_alphanumeric_bound(s: Seq<char>)
    ensures
        first_non_alphanumeric(s) matches Some(i) ==> 0 <= i < s.len(),
    decreases s.len(),
{
    if s.len() > 0 && spec_is_alphanumeric(s[0]) {
        lemma_first_non_alphanumeric_bound(s.drop_first());
    }
}

/// Index of the first character of `s` that is not numeric.
pub open spec fn first_non_numeric(s: Seq<char>) -> Option<int>
    decreases s.len(),
{
    if s.len() == 0 {
        None
    } else if !spec_is_numeric(s[0]) {
        Some(0int)
    } else {
        match first_non_numeric(s.drop_first()) {
            Some(i) => Some(i + 1),
            None => None,
        }
    }
}

/// Index of the first `,` or `)` in `s`.
pub open spec fn first_separator(s: Seq<char>) -> Option<int>
    decreases s.len(),
{
    if s.len() == 0 {
        None
    } else if s[0] == ',' || s[0] == ')' {
        Some(0int)
    } else {
        match first_separator(s.drop_first()) {
            Some(i) => Some(i + 1),
            None => None,
        }
    }
}

pub fn find_non_alphanumeric(s: &[char]) -> (r: Option<usize>)
    ensures
        r matches Some(i) ==> first_non_alphanumeric(s@) == Some(i as int) && i < s@.len(),
        r is None ==> first_non_alphanumeric(s@) is None,
{
    let mut i: usize = 0;
    assert(s@.skip(0) =~= s@);
    while i < s.len()
        invariant
            i <= s@.len(),
            first_non_alphanumeric(s@) == match first_non_alphanumeric(s@.skip(i as int)) {
                Some(j) => Some(j + i),
                None => None,
            },
        decreases s.len() - i,
    {
        assert(s@.skip(i as int).drop_first() =~= s@.skip(i + 1));
        if !is_alphanumeric(s[i]) {
            return Some(i);
        }
        i += 1;
    }
    None
}

pub fn find_non_numeric(s: &[char]) -> (r: Option<usize>)
    ensures
        r matches Some(i) ==> first_non_numeric(s@) == Some(i as int) && i < s@.len(),
        r is None ==> first_non_numeric(s@) is None,
{
    let mut i: usize = 0;
    assert(s@.skip(0) =~= s@);
    while i < s.len()
        invariant
            i <= s@.len(),
            first_non_numeric(s@) == match first_non_numeric(s@.skip(i as int)) {
                Some(j) => Some(j + i),
                None => None,
            },
        decreases s.len() - i,
    {
        assert(s@.skip(i as int).drop_first() =~= s@.skip(i + 1));
        if !is_numeric(s[i]) {
            return Some(i);
        }
        i += 1;
    }
    None
}

pub fn find_separator(s: &[char]) -> (r: Option<usize>)
    ensures
        r matches Some(i) ==> first_separator(s@) == Some(i as int) && i < s@.len(),
        r is None ==> first_separator(s@) is None,
{
    let mut i: usize = 0;
    assert(s@.skip(0) =~= s@);
    while i < s.len()
        invariant
            i <= s@.len(),
            first_separator(s@) == match first_separator(s@.skip(i as int)) {
                Some(j) => Some(j + i),
                None => None,
            },
        decreases s.len() - i,
    {
        assert(s@.skip(i as int).drop_first() =~= s@.skip(i + 1));
        if s[i] == ',' || s[i] == ')' {
            return Some(i);
        }
        i += 1;
    }
    None
}

/// Copies a text into a vector.
pub fn to_vec(s: &[char]) -> (r: Vec<char>)
    ensures
        r@ == s@,
{
    let mut r: Vec<char> = Vec::new();
    let mut i: usize = 0;
    while i < s.len()
        invariant
            i <= s@.len(),
            r@ == s@.take(i as int),
        decreases s.len() - i,
    {
        r.push(s[i]);
        assert(s@.take(i + 1) =~= s@.take(i as int).push(s@[i as int]));
        i += 1;
    }
    assert(s@.take(s@.len() as int) =~= s@);
    r
}


/// Collects the characters into a `String`.
#[verifier::external_body]
pub fn to_string(s: &[char]) -> (r: String)
    ensures
        r@ == s@,
{
    s.iter().collect()
}

} // verus!
