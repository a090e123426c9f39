use vstd::prelude::*;

use crate::config::file_loader::{spec_rhai_step, FileLoader, LoaderNames};
use crate::config::listing::{is_word, position_of, qualified, qualified_text};
use crate::config::names::spec_lookup;
use crate::config::parse::{spec_string_base, string_base, FromConfig};
use crate::config::text::{spec_trim, suffix, trim};
use crate::config::{ConfigError, ConfigParseError};
use crate::direction::Direction;
use crate::point::OrientedPoint;
use crate::tags::TagKey;

verus! {

/// Index of a splash type in the configuration.
#[derive(Debug, Clone, Copy, PartialEq, Eq, Structural, Hash)]
pub struct SplashType(pub usize);

impl FromConfig for SplashType {
    /// A splash type by its name; an unknown name is `UnknownEnumMember`.
    open spec fn spec_from_conf(s: Seq<char>, names: LoaderNames) -> Result<(SplashType, Seq<char>), ConfigError> {
        let (i, base, rest) = spec_lookup(names.splash_types, s);
        match i {
            Some(i) => Ok((SplashType(i as usize), rest)),
            None => Err(ConfigError::UnknownEnumMember(qualified("SplashType"@, base, None))),
        }
    }

    fn from_conf<'a>(s: &'a [char], loader: &FileLoader) -> (r: Result<(SplashType, &'a [char]), ConfigParseError>) {
        let (base, rest) = string_base(s);
        match position_of(loader.splash_types_names(), base) {
            Some(i) => Ok((SplashType(i), rest)),
            None => Err(ConfigParseError::UnknownEnumMember(qualified_text("SplashType", base, None))),
        }
    }
}

/// Where the splash of an attack lands.
#[derive(Debug, Clone, Copy, PartialEq, Eq, Structural)]
pub enum SplashDamagePointSource {
    /// the fields of the attack pattern itself
    AttackPattern,
    /// a line, which units in the way can block
    Straight,
    /// widening layers along the diagonals
    TriangleDiagonal,
    /// widening layers straight ahead
    TriangleStraight,
    /// a script function that lists the layers
    Rhai(usize),
}

/// Where the splash of an attack turns to.
#[derive(Debug, Clone, Copy, PartialEq, Eq, Structural)]
pub enum SplashDamageDirectionSource {
    /// the direction the attack was aimed in
    AttackInput,
    /// every direction
    AllDirections,
    /// the direction the attacker holds under this tag
    UnitAttribute(TagKey),
}

/// How the splash of an attack is laid out.
#[derive(Debug, Clone, Copy, PartialEq, Eq, Structural)]
pub struct SplashPattern {
    pub points: SplashDamagePointSource,
    pub directions: SplashDamageDirectionSource,
}

/// The splash points as the configuration writes them: one of the named
/// layouts, or else, trimmed, the reference of a script function without
/// parameters. Nothing of the text is left over.
pub open spec fn spec_point_source_from_conf(s: Seq<char>, names: LoaderNames) -> (Result<(SplashDamagePointSource, Seq<char>), ConfigError>, LoaderNames) {
    let t = spec_trim(s);
    if t == "AttackPattern"@ {
        (Ok((SplashDamagePointSource::AttackPattern, seq![])), names)
    } else if t == "Straight"@ {
        (Ok((SplashDamagePointSource::Straight, seq![])), names)
    } else if t == "TriangleDiagonal"@ {
        (Ok((SplashDamagePointSource::TriangleDiagonal, seq![])), names)
    } else if t == "TriangleStraight"@ {
        (Ok((SplashDamagePointSource::TriangleStraight, seq![])), names)
    } else {
        let (f, n) = spec_rhai_step(names, t, 0, 0);
        (match f {
            Ok(p) => Ok((SplashDamagePointSource::Rhai(p.index), seq![])),
            Err(e) => Err(e),
        }, n)
    }
}

impl SplashDamagePointSource {
    /// Reads where a splash lands; a script reference gets registered with
    /// the loader.
    pub fn from_conf<'a>(s: &'a [char], loader: &mut FileLoader) -> (r: Result<(SplashDamagePointSource, &'a [char]), ConfigParseError>)
        ensures
            (match r { Ok((v, rest)) => Ok((v, rest@)), Err(e) => Err(e@) }, final(loader)@) == spec_point_source_from_conf(s@, old(loader)@),
    {
        let t = trim(s);
        let empty = suffix(s, s.len());
        assert(empty@ =~= seq![]);
        if is_word(t, "AttackPattern") {
            Ok((SplashDamagePointSource::AttackPattern, empty))
        } else if is_word(t, "Straight") {
            Ok((SplashDamagePointSource::Straight, empty))
        } else if is_word(t, "TriangleDiagonal") {
            Ok((SplashDamagePointSource::TriangleDiagonal, empty))
        } else if is_word(t, "TriangleStraight") {
            Ok((SplashDamagePointSource::TriangleStraight, empty))
        } else {
            match loader.rhai_function(t, 0, 0) {
                Ok(p) => Ok((SplashDamagePointSource::Rhai(p.index), empty)),
                Err(e) => Err(e),
            }
        }
    }
}

impl FromConfig for SplashDamageDirectionSource {
    /// `AttackInput`, `AllDirections` or `UnitAttribute` followed by a tag;
    /// any other word is `UnknownEnumMember`. Nothing of the text is left
    /// over.
    open spec fn spec_from_conf(s: Seq<char>, names: LoaderNames) -> Result<(SplashDamageDirectionSource, Seq<char>), ConfigError> {
        let (base, rest) = spec_string_base(s);
        if base == "AttackInput"@ {
            Ok((SplashDamageDirectionSource::AttackInput, seq![]))
        } else if base == "AllDirections"@ {
            Ok((SplashDamageDirectionSource::AllDirections, seq![]))
        } else if base == "UnitAttribute"@ {
            match TagKey::spec_from_conf(rest, names) {
                Ok((k, _)) => Ok((SplashDamageDirectionSource::UnitAttribute(k), seq![])),
                Err(e) => Err(e),
            }
        } else {
            Err(ConfigError::UnknownEnumMember(qualified("SplashDamageDirectionSource"@, base, None)))
        }
    }

    fn from_conf<'a>(s: &'a [char], loader: &FileLoader) -> (r: Result<(SplashDamageDirectionSource, &'a [char]), ConfigParseError>) {
        let (base, rest) = string_base(s);
        let empty = suffix(s, s.len());
        assert(empty@ =~= seq![]);
        if is_word(base, "AttackInput") {
            Ok((SplashDamageDirectionSource::AttackInput, empty))
        } else if is_word(base, "AllDirections") {
            Ok((SplashDamageDirectionSource::AllDirections, empty))
        } else if is_word(base, "UnitAttribute") {
            match TagKey::from_conf(rest, loader) {
                Ok((k, _)) => Ok((SplashDamageDirectionSource::UnitAttribute(k), empty)),
                Err(e) => Err(e),
            }
        } else {
            Err(ConfigParseError::UnknownEnumMember(qualified_text("SplashDamageDirectionSource", base, None)))
        }
    }
}

/// The direction that the first entry for tag `key` in `tags` holds.
pub open spec fn tag_direction<D>(tags: Seq<(usize, D)>, key: usize) -> Option<D>
    decreases tags.len(),
{
    if tags.len() == 0 {
        None
    } else if tags[0].0 == key {
        Some(tags[0].1)
    } else {
        tag_direction(tags.drop_first(), key)
    }
}

/// Looks up the direction a unit holds under tag `key`, given the unit's
/// tags that hold directions.
pub fn find_tag_direction<D: Direction>(tags: &[(usize, D)], key: usize) -> (r: Option<D>)
    ensures
        r == tag_direction(tags@, key),
{
    let mut i: usize = 0;
    assert(tags@.skip(0) =~= tags@);
    while i < tags.len()
        invariant
            i <= tags@.len(),
            tag_direction(tags@, key) == tag_direction(tags@.skip(i as int), key),
        decreases tags.len() - i,
    {
        assert(tags@.skip(i as int).drop_first() =~= tags@.skip(i + 1));
        if tags[i].0 == key {
            return Some(tags[i].1);
        }
        i += 1;
    }
    None
}

impl SplashDamageDirectionSource {
    /// The directions a splash spreads in: the attack's own, every
    /// direction, or the one the attacker holds under the tag (none if it
    /// holds no direction there). `direction_tags` are the attacker's tags
    /// that hold directions.
    pub fn get_dirs<D: Direction>(&self, direction_tags: &[(usize, D)], input: OrientedPoint<D>) -> (r: Vec<D>)
        ensures
            match *self {
                SplashDamageDirectionSource::AttackInput => r@ == seq![input.direction],
                SplashDamageDirectionSource::AllDirections => r.len() == D::spec_count()
                    && forall|i: int| 0 <= i < r.len() ==> (#[trigger] r[i]).index() == i,
                SplashDamageDirectionSource::UnitAttribute(k) => match tag_direction(direction_tags@, k.0) {
                    Some(d) => r@ == seq![d],
                    None => r@ == Seq::<D>::empty(),
                },
            },
    {
        match self {
            SplashDamageDirectionSource::AttackInput => {
                let mut v: Vec<D> = Vec::new();
                v.push(input.direction);
                v
            },
            SplashDamageDirectionSource::AllDirections => D::list(),
            SplashDamageDirectionSource::UnitAttribute(k) => {
                let mut v: Vec<D> = Vec::new();
                if let Some(d) = find_tag_direction(direction_tags, k.0) {
                    v.push(d);
                }
                v
            },
        }
    }
}

} // verus!
