use vstd::prelude::*;

use crate::config::config::{
    first_overcharged, lemma_type_tables_unique, spec_add_powers, TerrainNames, TokenNames, UnitNames, spec_parse_config, spec_run, spec_step, step_count, view_names, ConfigTexts, ConfigView,
};
use crate::config::file_loader::LoaderNames;
use crate::config::hero_power_config::HeroPowerConfigView;
use crate::config::hero_type_config::HeroTypeConfigView;
use crate::config::listing::{first_named, lemma_first_named_from};
use crate::config::ruleset::first_repeat;
use crate::config::setup::{builtin_effects, effect_names};
use crate::config::table_file::{spec_ruled_table, spec_table_with_headers};
use crate::config::terrain_type_config::TerrainTypeConfig;
use crate::config::token_type_config::TokenTypeConfig;
use crate::config::unit_type_config::UnitTypeConfig;

verus! {

/// No name comes twice.
pub open spec fn names_unique(names: Seq<Seq<char>>) -> bool {
    forall|i: int, j: int| 0 <= i < j < names.len() ==> names[i] != names[j]
}

/// The rules name the neutral color and at least two player colors, and the
/// script functions that decide whether a unit is dead, whether it can move
/// and what damage does.
pub open spec fn rules_checked(c: ConfigView) -> bool {
    &&& c.owner_colors.len() >= 3
    &&& c.is_unit_dead_rhai != usize::MAX
    &&& c.is_unit_movable_rhai != usize::MAX
    &&& c.deal_damage_rhai != usize::MAX
}

/// Unit types have unique names, and the unit type for fog is one of them.
pub open spec fn units_checked(c: ConfigView) -> bool {
    &&& names_unique(view_names::<UnitTypeConfig>(c.units))
    &&& c.unknown_unit.0 < c.units.len()
}

/// Terrain types have unique names, and the default terrain is one of them.
pub open spec fn terrain_checked(c: ConfigView) -> bool {
    &&& names_unique(view_names::<TerrainTypeConfig>(c.terrains))
    &&& c.default_terrain.0 < c.terrains.len()
}

/// Token types have unique names.
pub open spec fn tokens_checked(c: ConfigView) -> bool {
    names_unique(view_names::<TokenTypeConfig>(c.tokens))
}

/// Effect types have unique names and begin with the built-in effects.
pub open spec fn effects_checked(c: ConfigView) -> bool {
    &&& names_unique(effect_names(c.effect_types))
    &&& c.effect_types.len() >= builtin_effects().len()
    &&& c.effect_types.take(builtin_effects().len() as int) == builtin_effects()
}

/// No hero type's maximum charge is above 127.
pub open spec fn heroes_checked(c: ConfigView) -> bool {
    forall|i: int| 0 <= i < c.heroes.len() ==> #[trigger] c.heroes[i].max_charge <= 127
}

/// What every configuration that `parse_config` accepts has.
pub open spec fn accepted(c: ConfigView) -> bool {
    &&& rules_checked(c)
    &&& units_checked(c)
    &&& terrain_checked(c)
    &&& tokens_checked(c)
    &&& effects_checked(c)
    &&& heroes_checked(c)
}

/// What holds after the first `k` steps of reading.
pub open spec fn checked_after(k: nat, c: ConfigView) -> bool {
    &&& k > 2 ==> rules_checked(c)
    &&& k > 4 ==> units_checked(c)
    &&& k > 5 ==> terrain_checked(c)
    &&& k > 6 ==> tokens_checked(c)
    &&& k > 7 ==> effects_checked(c)
    &&& k > 9 ==> heroes_checked(c)
}

/// A list of names without a repeat has unique names.
pub proof fn lemma_no_repeat_unique(names: Seq<Seq<char>>)
    requires
        first_repeat(names) is None,
    ensures
        names_unique(names),
    decreases names.len(),
{
    if names.len() > 0 {
        let init = names.drop_last();
        lemma_no_repeat_unique(init);
        assert forall|i: int, j: int| 0 <= i < j < names.len() implies names[i] != names[j] by {
            if j == names.len() - 1 {
                assert(init[i] == names[i]);
                assert(init.contains(names[i]));
            } else {
                assert(init[i] == names[i] && init[j] == names[j]);
            }
        }
    }
}

/// Where names are unique, looking up a name of the list gives its own
/// position back.
pub proof fn lemma_unique_names_found(names: Seq<Seq<char>>)
    requires
        names_unique(names),
    ensures
        forall|i: int| 0 <= i < names.len() ==> first_named(names, #[trigger] names[i]) == Some(i),
{
    assert forall|i: int| 0 <= i < names.len() implies first_named(names, #[trigger] names[i]) == Some(i) by {
        lemma_first_named_from(names, names[i], 0);
    }
}

proof fn lemma_not_overcharged(hs: Seq<HeroTypeConfigView>)
    requires
        first_overcharged(hs) is None,
    ensures
        forall|i: int| 0 <= i < hs.len() ==> #[trigger] hs[i].max_charge <= 127,
    decreases hs.len(),
{
    if hs.len() > 0 {
        lemma_not_overcharged(hs.drop_last());
        assert forall|i: int| 0 <= i < hs.len() implies #[trigger] hs[i].max_charge <= 127 by {
            if i < hs.len() - 1 {
                assert(hs.drop_last()[i] == hs[i]);
            }
        }
    }
}

proof fn lemma_powers_keep_charges(hs: Seq<HeroTypeConfigView>, ps: Seq<HeroPowerConfigView>)
    requires
        spec_add_powers(hs, ps) is Ok,
    ensures
        spec_add_powers(hs, ps)->Ok_0.len() == hs.len(),
        forall|i: int| 0 <= i < hs.len() ==> #[trigger] spec_add_powers(hs, ps)->Ok_0[i].max_charge == hs[i].max_charge,
    decreases ps.len(),
{
    if ps.len() > 0 {
        lemma_powers_keep_charges(hs, ps.drop_last());
    }
}

#[verifier::spinoff_prover]
#[verifier::rlimit(100)]
proof fn lemma_step_checked(k: nat, s: (ConfigView, Seq<char>, Seq<char>), f: ConfigTexts, names: LoaderNames)
    requires
        k < step_count(),
        checked_after(k, s.0),
        spec_step(k, s, f, names).0 is Ok,
    ensures
        checked_after(k + 1, spec_step(k, s, f, names).0->Ok_0.0),
{
    let c = s.0;
    let c2 = spec_step(k, s, f, names).0->Ok_0.0;
    if k == 4 {
        let (r, n) = spec_ruled_table::<UnitTypeConfig, UnitNames>(f.spec_file(k)->Some_0, names);
        let ns = view_names::<UnitTypeConfig>(r->Ok_0);
        lemma_type_tables_unique(f.spec_file(k)->Some_0, names);
        lemma_no_repeat_unique(ns);
        lemma_first_named_from(ns, s.1, 0);
    } else if k == 5 {
        let (r, n) = spec_ruled_table::<TerrainTypeConfig, TerrainNames>(f.spec_file(k)->Some_0, names);
        let ns = view_names::<TerrainTypeConfig>(r->Ok_0);
        lemma_type_tables_unique(f.spec_file(k)->Some_0, names);
        lemma_no_repeat_unique(ns);
        lemma_first_named_from(ns, s.2, 0);
    } else if k == 6 {
        let (r, n) = spec_ruled_table::<TokenTypeConfig, TokenNames>(f.spec_file(k)->Some_0, names);
        lemma_type_tables_unique(f.spec_file(k)->Some_0, names);
        lemma_no_repeat_unique(view_names::<TokenTypeConfig>(r->Ok_0));
    } else if k == 7 {
        lemma_no_repeat_unique(effect_names(c2.effect_types));
        assert(c2.effect_types.take(builtin_effects().len() as int) =~= builtin_effects());
    } else if k == 9 {
        lemma_not_overcharged(c2.heroes);
    } else if k == 13 {
        let (r, n) = spec_table_with_headers::<crate::config::hero_power_config::HeroPowerConfig>(f.spec_file(k)->Some_0, names);
        lemma_powers_keep_charges(c.heroes, r->Ok_0);
    }
}

proof fn lemma_run_checked(f: ConfigTexts, names: LoaderNames, k: nat)
    requires
        k <= step_count(),
    ensures
        spec_run(f, names, k).0 matches Ok(s) ==> checked_after(k, s.0),
    decreases k,
{
    if k > 0 {
        lemma_run_checked(f, names, (k - 1) as nat);
        let (r, n) = spec_run(f, names, (k - 1) as nat);
        if let Ok(s) = r {
            if spec_step((k - 1) as nat, s, f, n).0 is Ok {
                lemma_step_checked((k - 1) as nat, s, f, n);
            }
        }
    }
}

/// A configuration that `parse_config` accepts has a neutral and at least two
/// player colors and the three script functions the rules need; unit,
/// terrain, token and effect types with unique names; the unit type for fog
/// and the default terrain among its types; the built-in effects first; and
/// no hero type whose maximum charge is above 127. Every other configuration
/// is refused with an error.
pub proof fn lemma_parse_config_accepted(f: ConfigTexts, names: LoaderNames)
    requires
        spec_parse_config(f, names).0 is Ok,
    ensures
        accepted(spec_parse_config(f, names).0->Ok_0),
{
    lemma_run_checked(f, names, step_count());
}

/// In an accepted configuration, looking a unit, terrain, token or effect
/// type up by its own name gives that type back.
pub proof fn lemma_accepted_names_found(c: ConfigView)
    requires
        accepted(c),
    ensures
        forall|t: int| 0 <= t < c.units.len()
            ==> first_named(view_names::<UnitTypeConfig>(c.units), #[trigger] view_names::<UnitTypeConfig>(c.units)[t]) == Some(t),
        forall|t: int| 0 <= t < c.terrains.len()
            ==> first_named(view_names::<TerrainTypeConfig>(c.terrains), #[trigger] view_names::<TerrainTypeConfig>(c.terrains)[t]) == Some(t),
        forall|t: int| 0 <= t < c.tokens.len()
            ==> first_named(view_names::<TokenTypeConfig>(c.tokens), #[trigger] view_names::<TokenTypeConfig>(c.tokens)[t]) == Some(t),
        forall|t: int| 0 <= t < c.effect_types.len()
            ==> first_named(effect_names(c.effect_types), #[trigger] effect_names(c.effect_types)[t]) == Some(t),
{
    lemma_unique_names_found(view_names::<UnitTypeConfig>(c.units));
    lemma_unique_names_found(view_names::<TerrainTypeConfig>(c.terrains));
    lemma_unique_names_found(view_names::<TokenTypeConfig>(c.tokens));
    lemma_unique_names_found(effect_names(c.effect_types));
}

} // verus!
