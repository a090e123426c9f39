use vstd::prelude::*;

use crate::config::effect_config::{EffectConfig, EffectConfigView, EffectDataType, EffectVisibility};
use crate::config::ruleset::{check_unique_names, first_repeat, lemma_first_repeat_bounds};
use crate::config::tag_config::{TagConfig, TagConfigView, TagType, TagTypeView};
use crate::config::{ConfigError, ConfigParseError};

verus! {

/// The tag lines seen through their views.
pub open spec fn tag_views(v: Seq<TagConfig>) -> Seq<TagConfigView> {
    v.map_values(|t: TagConfig| t@)
}

/// Whether a tag line is a flag.
pub open spec fn is_flag(t: TagConfigView) -> bool {
    t.tag_type is Flag
}

/// Splits the lines of the tag table into flags and tags, keeping their
/// order.
pub fn split_flags(lines: Vec<TagConfig>) -> (r: (Vec<TagConfig>, Vec<TagConfig>))
    ensures
        tag_views(r.0@) == tag_views(lines@).filter(|t: TagConfigView| is_flag(t)),
        tag_views(r.1@) == tag_views(lines@).filter(|t: TagConfigView| !is_flag(t)),
{
    let ghost all = tag_views(lines@);
    let mut flags: Vec<TagConfig> = Vec::new();
    let mut tags: Vec<TagConfig> = Vec::new();
    let mut rest = lines;
    assert(all.skip(0) =~= all);
    let ghost mut k: int = 0;
    while rest.len() > 0
        invariant
            0 <= k <= all.len(),
            tag_views(rest@) == all.skip(k),
            tag_views(flags@) == all.take(k).filter(|t: TagConfigView| is_flag(t)),
            tag_views(tags@) == all.take(k).filter(|t: TagConfigView| !is_flag(t)),
        decreases rest.len(),
    {
        let ghost before = rest@;
        assert(tag_views(before).len() == before.len());
        assert(before.len() == all.len() - k);
        assert(tag_views(before)[0] == all.skip(k)[0]);
        let line = rest.remove(0);
        proof {
            reveal_with_fuel(Seq::filter, 1);
            assert(tag_views(before)[0] == all[k]);
            assert(line@ == all[k]);
            assert(all.take(k + 1).drop_last() =~= all.take(k));
            assert(all.take(k + 1).last() == all[k]);
            assert(rest@ == before.remove(0));
            assert forall|i: int| 0 <= i < rest@.len() implies #[trigger] tag_views(rest@)[i] == all.skip(k + 1)[i] by {
                assert(rest@[i] == before[i + 1]);
                assert(tag_views(before)[i + 1] == all.skip(k)[i + 1]);
            }
            assert(tag_views(rest@) =~= all.skip(k + 1));
        }
        let flag = match line.tag_type {
            TagType::Flag => true,
            _ => false,
        };
        if flag {
            flags.push(line);
        } else {
            tags.push(line);
        }
        proof {
            k = k + 1;
        }
    }
    assert(all.take(all.len() as int) =~= all);
    (flags, tags)
}

/// The effects every configuration has, before those of its table.
pub open spec fn builtin_effects() -> Seq<EffectConfigView> {
    seq![
        EffectConfigView { name: "GLITCH"@, is_global: true, data_type: None, visibility: EffectVisibility::CurrentTeam },
        EffectConfigView { name: "FOG_SURPRISE"@, is_global: false, data_type: None, visibility: EffectVisibility::CurrentTeam },
        EffectConfigView { name: "UNIT_PATH"@, is_global: false, data_type: Some(EffectDataType::Unit), visibility: EffectVisibility::Data },
    ]
}

/// The effect lines seen through their views.
pub open spec fn effect_views(v: Seq<EffectConfig>) -> Seq<EffectConfigView> {
    v.map_values(|e: EffectConfig| e@)
}

/// The names of effects.
pub open spec fn effect_names(v: Seq<EffectConfigView>) -> Seq<Seq<char>> {
    v.map_values(|e: EffectConfigView| e.name)
}

/// The effect types of a configuration: the built-in effects followed by
/// the lines of its effect table; a name that comes twice is
/// `DuplicateEntry` with the text `EffectType::name`.
pub fn effect_types(lines: Vec<EffectConfig>) -> (r: Result<Vec<EffectConfig>, ConfigParseError>)
    ensures
        ({
            let all = builtin_effects() + effect_views(lines@);
            match first_repeat(effect_names(all)) {
                None => r matches Ok(v) && effect_views(v@) == all,
                Some(i) => r matches Err(e) && e@ == ConfigError::DuplicateEntry("EffectType"@ + "::"@ + all[i].name),
            }
        }),
{
    let mut result: Vec<EffectConfig> = Vec::new();
    result.push(EffectConfig { name: "GLITCH".to_string(), is_global: true, data_type: None, visibility: EffectVisibility::CurrentTeam });
    result.push(EffectConfig { name: "FOG_SURPRISE".to_string(), is_global: false, data_type: None, visibility: EffectVisibility::CurrentTeam });
    result.push(EffectConfig { name: "UNIT_PATH".to_string(), is_global: false, data_type: Some(EffectDataType::Unit), visibility: EffectVisibility::Data });
    assert(effect_views(result@) =~= builtin_effects());
    let ghost lv = effect_views(lines@);
    let mut rest = lines;
    let ghost mut k: int = 0;
    assert(lv.skip(0) =~= lv);
    assert(lv.take(0) =~= seq![]);
    while rest.len() > 0
        invariant
            0 <= k <= lv.len(),
            effect_views(rest@) == lv.skip(k),
            effect_views(result@) == builtin_effects() + lv.take(k),
        decreases rest.len(),
    {
        let ghost before = rest@;
        assert(effect_views(before).len() == before.len());
        assert(effect_views(before)[0] == lv.skip(k)[0]);
        let line = rest.remove(0);
        proof {
            assert(rest@ == before.remove(0));
            assert forall|i: int| 0 <= i < rest@.len() implies #[trigger] effect_views(rest@)[i] == lv.skip(k + 1)[i] by {
                assert(rest@[i] == before[i + 1]);
                assert(effect_views(before)[i + 1] == lv.skip(k)[i + 1]);
            }
            assert(effect_views(rest@) =~= lv.skip(k + 1));
        }
        let ghost prev = result@;
        result.push(line);
        proof {
            assert(lv.take(k + 1) =~= lv.take(k).push(lv[k]));
            assert(effect_views(result@) =~= effect_views(prev).push(line@));
            k = k + 1;
        }
    }
    assert(lv.take(lv.len() as int) =~= lv);
    let mut names: Vec<String> = Vec::new();
    let mut j: usize = 0;
    while j < result.len()
        invariant
            j <= result@.len(),
            names@.map_values(|s: String| s@) == effect_names(effect_views(result@)).take(j as int),
        decreases result.len() - j,
    {
        let ghost prev = names@;
        let name = result[j].name.clone();
        assert(name@ == result@[j as int].name@);
        names.push(name);
        assert(effect_names(effect_views(result@))[j as int] == result@[j as int].name@);
        assert(names@.map_values(|s: String| s@) =~= prev.map_values(|s: String| s@).push(name@));
        assert(names@.map_values(|s: String| s@) =~= effect_names(effect_views(result@)).take(j + 1));
        j += 1;
    }
    assert(effect_names(effect_views(result@)).take(result@.len() as int) =~= effect_names(effect_views(result@)));
    assert forall|i: int| 0 <= i < names@.len() implies #[trigger] names@[i]@ == effect_views(result@)[i].name by {
        assert(names@.map_values(|s: String| s@)[i] == names@[i]@);
    }
    assert(effect_views(result@) == builtin_effects() + effect_views(lines@));
    assert(names@.map_values(|s: String| s@) == effect_names(builtin_effects() + effect_views(lines@)));
    let ghost all = builtin_effects() + effect_views(lines@);
    match check_unique_names(&names, "EffectType") {
        Err(e) => {
            proof {
                lemma_first_repeat_bounds(effect_names(all));
                let i = first_repeat(effect_names(all))->0;
                assert(names@[i]@ == effect_views(result@)[i].name);
            }
            Err(e)
        },
        Ok(_) => Ok(result),
    }
}

} // verus!
