use vstd::prelude::*;

use crate::config::file_loader::names_view;
use crate::config::parse::{parsed_as, spec_string_base, string_base, FromConfig};
use crate::config::text::{text_eq, to_string};
use crate::config::{ConfigError, ConfigParseError};

verus! {

/// Collects the characters of a text (`str::chars`).
#[verifier::external_body]
pub fn str_chars(s: &str) -> (r: Vec<char>)
    ensures
        r@ == s@,
{
    s.chars().collect()
}

/// Whether `s` is the text `word`.
pub fn is_word(s: &[char], word: &str) -> (b: bool)
    ensures
        b == (s@ == word@),
{
    let w = str_chars(word);
    text_eq(s, w.as_slice())
}

/// Position of the first of `names`, from `i` on, that equals `s`.
pub open spec fn first_named_from(names: Seq<Seq<char>>, s: Seq<char>, i: int) -> Option<int>
    decreases names.len() - i,
{
    if i < 0 || i >= names.len() {
        None
    } else if names[i] == s {
        Some(i)
    } else {
        first_named_from(names, s, i + 1)
    }
}

/// Position of the first of `names` that equals `s`.
pub open spec fn first_named(names: Seq<Seq<char>>, s: Seq<char>) -> Option<int> {
    first_named_from(names, s, 0)
}

pub proof fn lemma_first_named_from(names: Seq<Seq<char>>, s: Seq<char>, i: int)
    requires
        0 <= i,
    ensures
        first_named_from(names, s, i) matches Some(k) ==> i <= k < names.len() && names[k] == s
            && forall|j: int| i <= j < k ==> names[j] != s,
        first_named_from(names, s, i) is None ==> forall|j: int| i <= j < names.len() ==> names[j] != s,
    decreases names.len() - i,
{
    if i < names.len() && names[i] != s {
        lemma_first_named_from(names, s, i + 1);
    }
}

/// Position of the first name in `names` that equals `s`.
pub fn position_of(names: &Vec<Vec<char>>, s: &[char]) -> (r: Option<usize>)
    ensures
        r matches Some(i) ==> first_named(names_view(names@), s@) == Some(i as int),
        r is None ==> first_named(names_view(names@), s@) is None,
{
    let ghost ns = names_view(names@);
    let mut i: usize = 0;
    while i < names.len()
        invariant
            i <= names@.len(),
            ns == names_view(names@),
            first_named(ns, s@) == first_named_from(ns, s@, i as int),
        decreases names.len() - i,
    {
        if text_eq(names[i].as_slice(), s) {
            return Some(i);
        }
        i += 1;
    }
    None
}

/// An enum whose variants are listed in order and read from the
/// configuration by name.
pub trait Listable: Sized + Copy {
    spec fn spec_list() -> Seq<Self>;

    spec fn spec_name(self) -> Seq<char>;

    spec fn spec_kind_name() -> Seq<char>;

    fn list() -> (r: Vec<Self>)
        ensures
            r@ == Self::spec_list(),
    ;

    fn name(&self) -> (r: &'static str)
        ensures
            r@ == self.spec_name(),
    ;

    fn kind_name() -> (r: &'static str)
        ensures
            r@ == Self::spec_kind_name(),
    ;
}

/// The names of the variants, in order.
pub open spec fn variant_names<E: Listable>() -> Seq<Seq<char>> {
    E::spec_list().map_values(|e: E| e.spec_name())
}

/// `prefix`, `::`, `base`, and, where `rest` is given, ` - ` and `rest`.
pub open spec fn qualified(prefix: Seq<char>, base: Seq<char>, rest: Option<Seq<char>>) -> Seq<char> {
    let head = prefix + seq![':', ':'] + base;
    match rest {
        Some(r) => head + seq![' ', '-', ' '] + r,
        None => head,
    }
}

/// Builds the text `qualified(prefix, base, rest)`.
pub fn qualified_text(prefix: &str, base: &[char], rest: Option<&[char]>) -> (r: String)
    ensures
        r@ == qualified(prefix@, base@, match rest { Some(t) => Some(t@), None => None }),
{
    let mut v = str_chars(prefix);
    v.push(':');
    v.push(':');
    let mut i: usize = 0;
    let ghost start = v@;
    while i < base.len()
        invariant
            i <= base@.len(),
            v@ == start + base@.take(i as int),
        decreases base.len() - i,
    {
        v.push(base[i]);
        assert(base@.take(i + 1) =~= base@.take(i as int).push(base@[i as int]));
        i += 1;
    }
    assert(base@.take(base@.len() as int) =~= base@);
    match rest {
        Some(t) => {
            v.push(' ');
            v.push('-');
            v.push(' ');
            let ghost start2 = v@;
            let mut j: usize = 0;
            while j < t.len()
                invariant
                    j <= t@.len(),
                    v@ == start2 + t@.take(j as int),
                decreases t.len() - j,
            {
                v.push(t[j]);
                assert(t@.take(j + 1) =~= t@.take(j as int).push(t@[j as int]));
                j += 1;
            }
            assert(t@.take(t@.len() as int) =~= t@);
            assert(v@ =~= qualified(prefix@, base@, Some(t@)));
        },
        None => {
            assert(v@ =~= qualified(prefix@, base@, None));
        },
    }
    to_string(v.as_slice())
}

/// Builds the text `before + middle + after`.
pub fn framed_text(before: &str, middle: &[char], after: &str) -> (r: String)
    ensures
        r@ == before@ + middle@ + after@,
{
    let mut v = str_chars(before);
    let ghost start = v@;
    let mut i: usize = 0;
    while i < middle.len()
        invariant
            i <= middle@.len(),
            v@ == start + middle@.take(i as int),
        decreases middle.len() - i,
    {
        v.push(middle[i]);
        assert(middle@.take(i + 1) =~= middle@.take(i as int).push(middle@[i as int]));
        i += 1;
    }
    assert(middle@.take(middle@.len() as int) =~= middle@);
    let tail = str_chars(after);
    let ghost mid = v@;
    let mut j: usize = 0;
    while j < tail.len()
        invariant
            j <= tail@.len(),
            v@ == mid + tail@.take(j as int),
        decreases tail.len() - j,
    {
        v.push(tail[j]);
        assert(tail@.take(j + 1) =~= tail@.take(j as int).push(tail@[j as int]));
        j += 1;
    }
    assert(tail@.take(tail@.len() as int) =~= tail@);
    assert(v@ =~= before@ + middle@ + after@);
    to_string(v.as_slice())
}

/// The variant named by the word at the start of `s`, and the text after
/// the word; an unknown name is answered with `UnknownEnumMember`, naming
/// the type, the word and the rest.
pub open spec fn spec_listed_from_conf<E: Listable>(s: Seq<char>) -> Result<(E, Seq<char>), ConfigError> {
    let (base, rest) = spec_string_base(s);
    match first_named(variant_names::<E>(), base) {
        Some(i) => Ok((E::spec_list()[i], rest)),
        None => Err(ConfigError::UnknownEnumMember(qualified(E::spec_kind_name(), base, Some(rest)))),
    }
}

pub fn listed_from_conf<'a, E: Listable>(s: &'a [char]) -> (r: Result<(E, &'a [char]), ConfigParseError>)
    ensures
        parsed_as(r, spec_listed_from_conf::<E>(s@)),
{
    let (base, rest) = string_base(s);
    let list = E::list();
    let ghost names = variant_names::<E>();
    let mut i: usize = 0;
    while i < list.len()
        invariant
            i <= list@.len(),
            list@ == E::spec_list(),
            names == variant_names::<E>(),
            (base@, rest@) == spec_string_base(s@),
            first_named(names, base@) == first_named_from(names, base@, i as int),
        decreases list.len() - i,
    {
        let name = str_chars(list[i].name());
        assert(names[i as int] == list@[i as int].spec_name() && names.len() == list@.len());
        if text_eq(name.as_slice(), base) {
            return Ok((list[i], rest));
        }
        i += 1;
    }
    Err(ConfigParseError::UnknownEnumMember(qualified_text(E::kind_name(), base, Some(rest))))
}

} // verus!
