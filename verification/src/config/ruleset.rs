use vstd::prelude::*;

use crate::config::file_loader::{fp_result, spec_rhai_step, FileLoader, LoaderNames};
use crate::config::listing::{is_word, framed_text, str_chars};
use crate::config::parse::{parse_inner_vec, spec_parse_inner_vec, FromConfig};
use crate::config::text::{text_eq, to_string};
use crate::config::{ConfigError, ConfigParseError};

verus! {

/// The rules of a configuration that its `ruleset.csv` names: the player
/// colors (the neutral one first), the unit type shown for units in fog,
/// the terrain a map starts with, and the script functions of the rules.
#[derive(Debug)]
pub struct Ruleset {
    pub owner_colors: Vec<[u8; 4]>,
    pub unknown_unit: String,
    pub default_terrain: String,
    pub is_unit_dead_rhai: usize,
    pub is_unit_movable_rhai: usize,
    pub calculate_damage_rhai: usize,
    pub deal_damage_rhai: usize,
    pub weapon_effects_rhai: Option<usize>,
}

/// A ruleset while it is read: the neutral color is kept apart, and a
/// script function that wasn't named yet is `usize::MAX`.
pub struct RulesetDraft {
    pub neutral_color: Option<[u8; 4]>,
    pub owner_colors: Seq<[u8; 4]>,
    pub unknown_unit: Seq<char>,
    pub default_terrain: Seq<char>,
    pub is_unit_dead_rhai: usize,
    pub is_unit_movable_rhai: usize,
    pub calculate_damage_rhai: usize,
    pub deal_damage_rhai: usize,
    pub weapon_effects_rhai: Option<usize>,
}

pub open spec fn empty_draft() -> RulesetDraft {
    RulesetDraft {
        neutral_color: None,
        owner_colors: seq![],
        unknown_unit: seq![],
        default_terrain: seq![],
        is_unit_dead_rhai: usize::MAX,
        is_unit_movable_rhai: usize::MAX,
        calculate_damage_rhai: usize::MAX,
        deal_damage_rhai: usize::MAX,
        weapon_effects_rhai: None,
    }
}

/// A script function named in the ruleset, with exactly `count` parameters.
pub open spec fn ruleset_function(names: LoaderNames, value: Seq<char>, count: nat) -> (Result<usize, ConfigError>, LoaderNames) {
    let (f, n) = spec_rhai_step(names, value, count, count);
    (match f {
        Ok(p) => Ok(p.index),
        Err(e) => Err(e),
    }, n)
}

/// What one key-value pair of the ruleset changes; unknown keys change
/// nothing.
pub open spec fn spec_ruleset_entry(d: RulesetDraft, key: Seq<char>, value: Seq<char>, names: LoaderNames) -> (Result<RulesetDraft, ConfigError>, LoaderNames) {
    if key == "NeutralColor"@ {
        (match <[u8; 4]>::spec_from_conf(value, names) {
            Ok((c, _)) => Ok(RulesetDraft { neutral_color: Some(c), ..d }),
            Err(e) => Err(e),
        }, names)
    } else if key == "PlayerColors"@ {
        (match spec_parse_inner_vec::<[u8; 4]>(value, false, names) {
            Ok((colors, _)) => Ok(RulesetDraft { owner_colors: colors, ..d }),
            Err(e) => Err(e),
        }, names)
    } else if key == "UnknownUnit"@ {
        (Ok(RulesetDraft { unknown_unit: value, ..d }), names)
    } else if key == "DefaultTerrain"@ {
        (Ok(RulesetDraft { default_terrain: value, ..d }), names)
    } else if key == "UnitDeathTest"@ {
        let (f, n) = ruleset_function(names, value, 2);
        (match f { Ok(i) => Ok(RulesetDraft { is_unit_dead_rhai: i, ..d }), Err(e) => Err(e) }, n)
    } else if key == "UnitMovableTest"@ {
        let (f, n) = ruleset_function(names, value, 0);
        (match f { Ok(i) => Ok(RulesetDraft { is_unit_movable_rhai: i, ..d }), Err(e) => Err(e) }, n)
    } else if key == "CalculateAttackDamage"@ {
        let (f, n) = ruleset_function(names, value, 1);
        (match f { Ok(i) => Ok(RulesetDraft { calculate_damage_rhai: i, ..d }), Err(e) => Err(e) }, n)
    } else if key == "DealDamageToUnit"@ {
        let (f, n) = ruleset_function(names, value, 2);
        (match f { Ok(i) => Ok(RulesetDraft { deal_damage_rhai: i, ..d }), Err(e) => Err(e) }, n)
    } else if key == "WeaponEffects"@ {
        let (f, n) = ruleset_function(names, value, 0);
        (match f { Ok(i) => Ok(RulesetDraft { weapon_effects_rhai: Some(i), ..d }), Err(e) => Err(e) }, n)
    } else {
        (Ok(d), names)
    }
}

/// The draft after the first `k` pairs; the first error ends the reading.
pub open spec fn spec_ruleset_entries(pairs: Seq<(Seq<char>, Seq<char>)>, names: LoaderNames, k: nat) -> (Result<RulesetDraft, ConfigError>, LoaderNames)
    decreases k,
{
    if k == 0 {
        (Ok(empty_draft()), names)
    } else {
        let (prev, n) = spec_ruleset_entries(pairs, names, (k - 1) as nat);
        match prev {
            Err(e) => (Err(e), n),
            Ok(d) => spec_ruleset_entry(d, pairs[k - 1].0, pairs[k - 1].1, n),
        }
    }
}

/// The message for a script function that the ruleset must name.
pub open spec fn missing_entry(key: Seq<char>) -> Seq<char> {
    "missing entry in ruleset.csv: '"@ + key + "'"@
}

/// The checks after all pairs: at least two player colors, a neutral
/// color (which becomes the first color), and the three script functions
/// every game needs.
pub open spec fn spec_finish_ruleset(d: RulesetDraft) -> Result<RulesetDraft, ConfigError> {
    if d.owner_colors.len() < 2 {
        Err(ConfigError::NotEnoughPlayerColors)
    } else {
        match d.neutral_color {
            None => Err(ConfigError::MissingNeutralColor),
            Some(c) => if d.is_unit_dead_rhai == usize::MAX {
                Err(ConfigError::Other(missing_entry("UnitDeathTest"@)))
            } else if d.is_unit_movable_rhai == usize::MAX {
                Err(ConfigError::Other(missing_entry("UnitMovableTest"@)))
            } else if d.deal_damage_rhai == usize::MAX {
                Err(ConfigError::Other(missing_entry("DealDamageToUnit"@)))
            } else {
                Ok(RulesetDraft { owner_colors: seq![c] + d.owner_colors, ..d })
            },
        }
    }
}

/// The ruleset that the key-value pairs of `ruleset.csv` describe; where
/// the reading of the file ended in `read_error`, that error comes after
/// those of the pairs read and before the checks of the whole.
pub open spec fn spec_parse_ruleset(pairs: Seq<(Seq<char>, Seq<char>)>, read_error: Option<ConfigError>, names: LoaderNames) -> (Result<RulesetDraft, ConfigError>, LoaderNames) {
    let (r, n) = spec_ruleset_entries(pairs, names, pairs.len());
    (match r {
        Err(e) => Err(e),
        Ok(d) => match read_error {
            Some(e) => Err(e),
            None => spec_finish_ruleset(d),
        },
    }, n)
}

impl Ruleset {
    pub open spec fn matches(&self, d: RulesetDraft) -> bool {
        &&& self.owner_colors@ == d.owner_colors
        &&& self.unknown_unit@ == d.unknown_unit
        &&& self.default_terrain@ == d.default_terrain
        &&& self.is_unit_dead_rhai == d.is_unit_dead_rhai
        &&& self.is_unit_movable_rhai == d.is_unit_movable_rhai
        &&& self.calculate_damage_rhai == d.calculate_damage_rhai
        &&& self.deal_damage_rhai == d.deal_damage_rhai
        &&& self.weapon_effects_rhai == d.weapon_effects_rhai
    }
}

fn rule_function(loader: &mut FileLoader, value: &[char], count: usize) -> (r: Result<usize, ConfigParseError>)
    ensures
        (match r { Ok(i) => Ok(i), Err(e) => Err(e@) }, final(loader)@) == ruleset_function(old(loader)@, value@, count as nat),
{
    match loader.rhai_function(value, count, count) {
        Ok(p) => Ok(p.index),
        Err(e) => Err(e),
    }
}

/// Reads the rules from the key-value pairs of `ruleset.csv` and the
/// error that ended the reading of the file, if one did; see
/// `spec_parse_ruleset`.
pub fn parse_ruleset(pairs: &Vec<(String, String)>, read_error: Option<ConfigParseError>, loader: &mut FileLoader) -> (r: Result<Ruleset, ConfigParseError>)
    ensures
        ({
            let (spec, names) = spec_parse_ruleset(
                pairs@.map_values(|p: (String, String)| (p.0@, p.1@)),
                match read_error { Some(e) => Some(e@), None => None },
                old(loader)@,
            );
            &&& final(loader)@ == names
            &&& match spec {
                Ok(d) => r matches Ok(rs) && rs.matches(d),
                Err(e) => r matches Err(e2) && e2@ == e,
            }
        }),
{
    let ghost ps = pairs@.map_values(|p: (String, String)| (p.0@, p.1@));
    let ghost names0 = loader@;
    let mut neutral_color: Option<[u8; 4]> = None;
    let mut owner_colors: Vec<[u8; 4]> = Vec::new();
    let mut unknown_unit: Vec<char> = Vec::new();
    let mut default_terrain: Vec<char> = Vec::new();
    let mut dead: usize = usize::MAX;
    let mut movable: usize = usize::MAX;
    let mut calculate: usize = usize::MAX;
    let mut deal: usize = usize::MAX;
    let mut weapon: Option<usize> = None;
    let mut k: usize = 0;
    while k < pairs.len()
        invariant
            k <= pairs@.len(),
            ps == pairs@.map_values(|p: (String, String)| (p.0@, p.1@)),
            names0 == old(loader)@,
            spec_ruleset_entries(ps, names0, k as nat) == (Ok::<RulesetDraft, ConfigError>(RulesetDraft {
                neutral_color,
                owner_colors: owner_colors@,
                unknown_unit: unknown_unit@,
                default_terrain: default_terrain@,
                is_unit_dead_rhai: dead,
                is_unit_movable_rhai: movable,
                calculate_damage_rhai: calculate,
                deal_damage_rhai: deal,
                weapon_effects_rhai: weapon,
            }), loader@),
        decreases pairs.len() - k,
    {
        let key_chars = str_chars(pairs[k].0.as_str());
        let value_chars = str_chars(pairs[k].1.as_str());
        let key = key_chars.as_slice();
        let value = value_chars.as_slice();
        assert(ps[k as int] == (key@, value@));
        if is_word(key, "NeutralColor") {
            match <[u8; 4]>::from_conf(value, loader) {
                Ok((c, _)) => neutral_color = Some(c),
                Err(e) => {
                    assert(spec_ruleset_entries(ps, names0, (k + 1) as nat) == (Err::<RulesetDraft, ConfigError>(e@), loader@));
                    proof { lemma_entries_error(ps, names0, (k + 1) as nat, ps.len()); }
                    return Err(e);
                },
            }
        } else if is_word(key, "PlayerColors") {
            match parse_inner_vec::<[u8; 4]>(value, false, loader) {
                Ok((colors, _)) => owner_colors = colors,
                Err(e) => {
                    assert(spec_ruleset_entries(ps, names0, (k + 1) as nat) == (Err::<RulesetDraft, ConfigError>(e@), loader@));
                    proof { lemma_entries_error(ps, names0, (k + 1) as nat, ps.len()); }
                    return Err(e);
                },
            }
        } else if is_word(key, "UnknownUnit") {
            unknown_unit = value_chars.clone();
        } else if is_word(key, "DefaultTerrain") {
            default_terrain = value_chars.clone();
        } else if is_word(key, "UnitDeathTest") {
            match rule_function(loader, value, 2) {
                Ok(i) => dead = i,
                Err(e) => {
                    assert(spec_ruleset_entries(ps, names0, (k + 1) as nat) == (Err::<RulesetDraft, ConfigError>(e@), loader@));
                    proof { lemma_entries_error(ps, names0, (k + 1) as nat, ps.len()); }
                    return Err(e);
                },
            }
        } else if is_word(key, "UnitMovableTest") {
            match rule_function(loader, value, 0) {
                Ok(i) => movable = i,
                Err(e) => {
                    assert(spec_ruleset_entries(ps, names0, (k + 1) as nat) == (Err::<RulesetDraft, ConfigError>(e@), loader@));
                    proof { lemma_entries_error(ps, names0, (k + 1) as nat, ps.len()); }
                    return Err(e);
                },
            }
        } else if is_word(key, "CalculateAttackDamage") {
            match rule_function(loader, value, 1) {
                Ok(i) => calculate = i,
                Err(e) => {
                    assert(spec_ruleset_entries(ps, names0, (k + 1) as nat) == (Err::<RulesetDraft, ConfigError>(e@), loader@));
                    proof { lemma_entries_error(ps, names0, (k + 1) as nat, ps.len()); }
                    return Err(e);
                },
            }
        } else if is_word(key, "DealDamageToUnit") {
            match rule_function(loader, value, 2) {
                Ok(i) => deal = i,
                Err(e) => {
                    assert(spec_ruleset_entries(ps, names0, (k + 1) as nat) == (Err::<RulesetDraft, ConfigError>(e@), loader@));
                    proof { lemma_entries_error(ps, names0, (k + 1) as nat, ps.len()); }
                    return Err(e);
                },
            }
        } else if is_word(key, "WeaponEffects") {
            match rule_function(loader, value, 0) {
                Ok(i) => weapon = Some(i),
                Err(e) => {
                    assert(spec_ruleset_entries(ps, names0, (k + 1) as nat) == (Err::<RulesetDraft, ConfigError>(e@), loader@));
                    proof { lemma_entries_error(ps, names0, (k + 1) as nat, ps.len()); }
                    return Err(e);
                },
            }
        }
        k += 1;
    }
    if let Some(e) = read_error {
        return Err(e);
    }
    if owner_colors.len() < 2 {
        return Err(ConfigParseError::NotEnoughPlayerColors);
    }
    let neutral = match neutral_color {
        None => return Err(ConfigParseError::MissingNeutralColor),
        Some(c) => c,
    };
    if dead == usize::MAX {
        return Err(ConfigParseError::Other(framed_text("missing entry in ruleset.csv: '", &str_chars("UnitDeathTest"), "'")));
    }
    if movable == usize::MAX {
        return Err(ConfigParseError::Other(framed_text("missing entry in ruleset.csv: '", &str_chars("UnitMovableTest"), "'")));
    }
    if deal == usize::MAX {
        return Err(ConfigParseError::Other(framed_text("missing entry in ruleset.csv: '", &str_chars("DealDamageToUnit"), "'")));
    }
    let mut colors: Vec<[u8; 4]> = vec![neutral];
    let mut j: usize = 0;
    while j < owner_colors.len()
        invariant
            j <= owner_colors@.len(),
            colors@ == seq![neutral] + owner_colors@.take(j as int),
        decreases owner_colors.len() - j,
    {
        colors.push(owner_colors[j]);
        assert(owner_colors@.take(j + 1) =~= owner_colors@.take(j as int).push(owner_colors@[j as int]));
        j += 1;
    }
    assert(owner_colors@.take(owner_colors@.len() as int) =~= owner_colors@);
    Ok(Ruleset {
        owner_colors: colors,
        unknown_unit: to_string(unknown_unit.as_slice()),
        default_terrain: to_string(default_terrain.as_slice()),
        is_unit_dead_rhai: dead,
        is_unit_movable_rhai: movable,
        calculate_damage_rhai: calculate,
        deal_damage_rhai: deal,
        weapon_effects_rhai: weapon,
    })
}

proof fn lemma_entries_error(pairs: Seq<(Seq<char>, Seq<char>)>, names: LoaderNames, k: nat, m: nat)
    requires
        k <= m,
        spec_ruleset_entries(pairs, names, k).0 is Err,
    ensures
        spec_ruleset_entries(pairs, names, m) == spec_ruleset_entries(pairs, names, k),
    decreases m,
{
    if k < m {
        lemma_entries_error(pairs, names, k, (m - 1) as nat);
    }
}

/// Position of the first name that an earlier one repeats.
pub open spec fn first_repeat(names: Seq<Seq<char>>) -> Option<int>
    decreases names.len(),
{
    if names.len() == 0 {
        None
    } else {
        match first_repeat(names.drop_last()) {
            Some(i) => Some(i),
            None => if names.drop_last().contains(names.last()) {
                Some(names.len() - 1)
            } else {
                None
            },
        }
    }
}

/// Checks that no name of `names` comes twice, as the configuration does
/// for unit, terrain, token and effect types; the first repeated name is
/// `DuplicateEntry` with the text `kind::name`.
pub fn check_unique_names(names: &Vec<String>, kind: &str) -> (r: Result<(), ConfigParseError>)
    ensures
        match first_repeat(names@.map_values(|s: String| s@)) {
            None => r is Ok,
            Some(i) => r matches Err(e) && e@ == ConfigError::DuplicateEntry(kind@ + "::"@ + names@[i]@),
        },
{
    let ghost ns = names@.map_values(|s: String| s@);
    let mut seen: Vec<Vec<char>> = Vec::new();
    let mut i: usize = 0;
    while i < names.len()
        invariant
            i <= names@.len(),
            ns == names@.map_values(|s: String| s@),
            seen@.map_values(|s: Vec<char>| s@) == ns.take(i as int),
            first_repeat(ns.take(i as int)) is None,
        decreases names.len() - i,
    {
        let name = str_chars(names[i].as_str());
        assert(name@ == ns[i as int]);
        assert(ns.take(i + 1).drop_last() =~= ns.take(i as int));
        let mut j: usize = 0;
        while j < seen.len()
            invariant
                j <= seen@.len(),
                forall|l: int| 0 <= l < j ==> seen@[l]@ != name@,
                i < names@.len(),
                ns == names@.map_values(|s: String| s@),
                seen@.map_values(|s: Vec<char>| s@) == ns.take(i as int),
                first_repeat(ns.take(i as int)) is None,
                name@ == ns[i as int],
            decreases seen.len() - j,
        {
            if text_eq(seen[j].as_slice(), name.as_slice()) {
                proof {
                    assert(seen@.map_values(|s: Vec<char>| s@)[j as int] == name@);
                    assert(ns.take(i as int).contains(name@));
                    assert(ns.take(i + 1).drop_last() =~= ns.take(i as int));
                    assert(ns.take(i + 1).last() == name@);
                    assert(first_repeat(ns.take(i + 1)) == Some(i as int));
                    lemma_first_repeat_prefix(ns, i + 1);
                }
                return Err(ConfigParseError::DuplicateEntry(framed_text(kind, &str_chars("::"), names[i].as_str())));
            }
            j += 1;
        }
        proof {
            if ns.take(i as int).contains(name@) {
                let l = choose|l: int| 0 <= l < ns.take(i as int).len() && ns.take(i as int)[l] == name@;
                assert(seen@.map_values(|s: Vec<char>| s@)[l] == seen@[l]@);
            }
        }
        seen.push(name);
        assert(seen@.map_values(|s: Vec<char>| s@) =~= ns.take(i + 1));
        i += 1;
    }
    assert(ns.take(names@.len() as int) =~= ns);
    Ok(())
}

pub proof fn lemma_first_repeat_bounds(names: Seq<Seq<char>>)
    ensures
        first_repeat(names) matches Some(i) ==> 0 <= i < names.len(),
    decreases names.len(),
{
    if names.len() > 0 {
        lemma_first_repeat_bounds(names.drop_last());
    }
}

proof fn lemma_first_repeat_prefix(names: Seq<Seq<char>>, k: int)
    requires
        0 <= k <= names.len(),
        first_repeat(names.take(k)) is Some,
    ensures
        first_repeat(names) == first_repeat(names.take(k)),
    decreases names.len() - k,
{
    if k < names.len() {
        assert(names.take(k + 1).drop_last() =~= names.take(k));
        lemma_first_repeat_prefix(names, k + 1);
    } else {
        assert(names.take(k) =~= names);
    }
}

} // verus!
