use wars_core::commander::{Commander, CommanderPowerRule};
use wars_core::config::movement_type_config::MovementPattern;
use wars_core::config::CommanderType;
use wars_core::direction::{Direction4, Distortion};
use wars_core::fog::{intermediate_turns, FogGradient, FogIntensity, FogMode, FogSetting, VisionMode};
use wars_core::movement::{ExtraMovementOptions, PathStep, PbEntry, TBallast};

#[test]
fn fog_gradient_cycle() {
    let mode = FogMode::GradientWithNone(2, 3, false);
    let expected = [
        FogSetting::NoFog,
        FogSetting::NoFog,
        FogSetting::Sharp(2),
        FogSetting::Sharp(1),
        FogSetting::Sharp(0),
        FogSetting::Sharp(0),
        FogSetting::Sharp(0),
        FogSetting::Sharp(1),
        FogSetting::Sharp(2),
        FogSetting::NoFog,
    ];
    for (turn, setting) in expected.iter().enumerate() {
        assert_eq!(mode.fog_setting(turn, 3), *setting, "turn {turn}");
    }
    assert_eq!(mode.turns_until_repeat(3), 9);
    assert!(!mode.is_foggy(0, 3));
    assert!(mode.is_foggy(4, 3));
}

#[test]
fn fog_can_start_dark() {
    let mode = FogMode::GradientWithNone(2, 3, true);
    assert_eq!(mode.fog_setting(0, 3), FogSetting::Sharp(0));
    assert_eq!(mode.fog_setting(3, 3), FogSetting::Sharp(1));
    assert_eq!(mode.fog_setting(5, 3), FogSetting::NoFog);
}

#[test]
fn fog_repeats_after_its_period() {
    for mode in [FogMode::GradientDark(1, 2, false), FogMode::GradientLarge(3, 1, true), FogMode::GradientLight(2, 2, false), FogMode::Constant(FogSetting::Fade1(1))] {
        for players in 1..6 {
            let period = mode.turns_until_repeat(players);
            for turn in 0..40 {
                assert_eq!(mode.fog_setting(turn + period, players), mode.fog_setting(turn, players));
            }
        }
    }
}

#[test]
fn fog_intermediate_turns() {
    let large = FogGradient::Large.steps();
    assert_eq!(intermediate_turns(&large, 10), 8);
    assert_eq!(intermediate_turns(&large, 1), 4);
    let dark = FogGradient::Dark.steps();
    assert_eq!(intermediate_turns(&dark, 4), 3);
}

#[test]
fn fog_intensities() {
    assert_eq!(FogSetting::NoFog.intensity(), FogIntensity::TrueSight);
    assert_eq!(FogSetting::Light(1).intensity(), FogIntensity::Light);
    assert_eq!(FogSetting::Sharp(0).intensity(), FogIntensity::Dark);
    assert_eq!(FogMode::Constant(FogSetting::ExtraDark(2)).fog_setting(7, 2), FogSetting::ExtraDark(2));
    assert!(VisionMode::Normal.see_while_moving());
    assert!(!VisionMode::Movement.see_while_moving());
}

fn powers() -> Vec<CommanderPowerRule> {
    vec![
        CommanderPowerRule { required_charge: 0, next_power: 1, usable_from_power: vec![1] },
        CommanderPowerRule { required_charge: 50, next_power: 0, usable_from_power: vec![0] },
    ]
}

#[test]
fn commander_charge_never_negative() {
    let mut c = Commander::new(CommanderType(2), powers());
    assert_eq!(c.get_charge(), 0);
    assert_eq!(c.typ(), CommanderType(2));
    c.add_charge(100);
    assert_eq!(c.get_charge(), 100);
    c.add_charge(-150);
    assert_eq!(c.get_charge(), 0);
}

#[test]
fn commander_power_activation() {
    let mut c = Commander::new(CommanderType(0), powers());
    c.add_charge(40);
    assert!(!c.can_activate_power(1, false));
    c.add_charge(20);
    assert!(c.can_activate_power(1, false));
    assert!(c.can_activate_power(1, true));
    assert!(!c.can_activate_power(0, false));
    assert!(!c.can_activate_power(2, false));
    assert_eq!(c.power_cost(1), 50);
    assert_eq!(c.power_cost(5), 0);
    assert_eq!(c.power_count(), 2);
    assert_eq!(c.get_next_power(), 1);
    c.set_active_power(1);
    assert_eq!(c.get_active_power(), 1);
    assert_eq!(c.get_next_power(), 0);
    assert!(c.can_activate_power(0, true));
    c.set_active_power(7);
    assert_eq!(c.get_next_power(), 0);
}

#[test]
fn standard_movement_never_turns_back() {
    let pattern = MovementPattern::Standard;
    let mut ballast: Vec<TBallast<Direction4>> = Vec::new();
    let permanent: Vec<PbEntry<Direction4>> = Vec::new();
    pattern.add_temporary_ballast(false, &permanent, &mut ballast);
    assert_eq!(ballast, vec![TBallast::ForbiddenDirection(None)]);
    let first = pattern.find_steps(0, &ballast, ExtraMovementOptions::NoExtra);
    assert_eq!(first.len(), 4);
    pattern.update_temporary_ballast(&PathStep::Dir(Direction4::D0), Distortion::new(false, Direction4::D0), &mut ballast);
    assert_eq!(ballast, vec![TBallast::ForbiddenDirection(Some(Direction4::D180))]);
    let next = pattern.find_steps(1, &ballast, ExtraMovementOptions::NoExtra);
    assert_eq!(next, vec![PathStep::Dir(Direction4::D0), PathStep::Dir(Direction4::D90), PathStep::Dir(Direction4::D270)]);
    for step in &next {
        assert_ne!(*step, PathStep::Dir(Direction4::D180));
    }
}

#[test]
fn straight_movement_keeps_direction() {
    let pattern = MovementPattern::Straight;
    let mut ballast: Vec<TBallast<Direction4>> = Vec::new();
    pattern.add_temporary_ballast(false, &Vec::new(), &mut ballast);
    let first = pattern.find_steps(0, &ballast, ExtraMovementOptions::Jump);
    assert_eq!(first.len(), 8);
    pattern.update_temporary_ballast(&PathStep::Dir(Direction4::D90), Distortion::new(false, Direction4::D0), &mut ballast);
    let next = pattern.find_steps(1, &ballast, ExtraMovementOptions::NoExtra);
    assert_eq!(next, vec![PathStep::Dir(Direction4::D90)]);
    assert!(!pattern.can_pass_friendly());
    assert!(MovementPattern::StandardLoopLess.can_pass_friendly());
}
