use wars_core::details::{Detail, PipeState, SludgeToken, SkullData, AttributeKeyInfo, DetailType, MAX_STACK_SIZE};
use wars_core::direction::{Direction4, Distortion, Direction};
use wars_core::fog::FogIntensity;
use wars_core::player::{ClientPerspective, Owner};
use wars_core::point::Point;
use wars_core::terrain::TerrainType;
use wars_core::units::{Attribute, AttributeKey, UnitType};

#[test]
fn pipe_state() {
    let pipe = PipeState::new(Direction4::D180, Direction4::D90).unwrap();
    assert_eq!(pipe.distortion(Direction4::D0), Some(Distortion::new(false, Direction4::D90)));
    assert_eq!(pipe.distortion(Direction4::D0).unwrap().update_direction(Direction4::D0), Direction4::D90);
    assert_eq!(pipe.distortion(Direction4::D270).unwrap().update_direction(Direction4::D270), Direction4::D180);
}

#[test]
fn newest_coins_win() {
    let details: Vec<Detail<Direction4>> = vec![Detail::Coins1, Detail::Coins2];
    let r = Detail::correct_stack(details, &vec![], None);
    assert_eq!(r, vec![Detail::Coins2]);
}

#[test]
fn bubble_needs_buildable_terrain() {
    let details: Vec<Detail<Direction4>> = vec![Detail::Bubble(Owner(0), TerrainType(0)), Detail::Bubble(Owner(1), TerrainType(1))];
    let r = Detail::correct_stack(details, &vec![true, false], None);
    assert_eq!(r, vec![Detail::Bubble(Owner(0), TerrainType(0))]);
}

#[test]
fn pipes_push_out_other_details() {
    let pipe = PipeState::new(Direction4::D0, Direction4::D180).unwrap();
    let details: Vec<Detail<Direction4>> = vec![Detail::Coins1, Detail::Pipe(pipe)];
    let r = Detail::correct_stack(details, &vec![], None);
    assert_eq!(r, vec![Detail::Pipe(pipe)]);
    let crossing = PipeState::new(Direction4::D0, Direction4::D90).unwrap();
    let r = Detail::correct_stack(vec![Detail::Pipe(pipe), Detail::Pipe(crossing)], &vec![], None);
    assert_eq!(r, vec![Detail::Pipe(crossing)]);
    assert!(PipeState::new(Direction4::D90, Direction4::D90).is_none());
}

#[test]
fn longest_sludge_stays() {
    let players = vec![0i8, 1];
    let short = SludgeToken::new(10, 0, 1);
    let long = SludgeToken::new(10, 1, 3);
    assert_eq!(short.remaining_turns(Some(&players)), Some(2));
    assert_eq!(long.remaining_turns(Some(&players)), Some(7));
    let details: Vec<Detail<Direction4>> = vec![Detail::SludgeToken(short), Detail::SludgeToken(long)];
    let r = Detail::correct_stack(details, &vec![], Some(&players));
    assert_eq!(r, vec![Detail::SludgeToken(long)]);
}

#[test]
fn sludge_counter_and_turns() {
    let token = SludgeToken::new(3, 5, 7);
    assert_eq!(token.get_counter(), 3);
    assert_eq!(token.get_owner_id(), 5);
    assert_eq!(token.remaining_turns(Some(&vec![3, 5])), Some(7));
    assert_eq!(token.remaining_turns(Some(&vec![3, 4])), None);
    assert_eq!(token.remaining_turns(None), None);
}

#[test]
fn skull_keeps_marked_attributes() {
    let unit_attributes = vec![Attribute { key: AttributeKey(1), value: 5 }];
    let keys = vec![
        AttributeKeyInfo { key: AttributeKey(1), is_skull_data: true, default: Attribute { key: AttributeKey(1), value: 0 } },
        AttributeKeyInfo { key: AttributeKey(2), is_skull_data: true, default: Attribute { key: AttributeKey(2), value: 9 } },
        AttributeKeyInfo { key: AttributeKey(3), is_skull_data: false, default: Attribute { key: AttributeKey(3), value: 1 } },
    ];
    let skull = SkullData::new(UnitType(4), &unit_attributes, &keys, 2);
    assert_eq!(skull.get_owner_id(), 2);
    assert_eq!(skull.get_unit_type(), UnitType(4));
    assert_eq!(skull.get_attributes(), &vec![Attribute { key: AttributeKey(1), value: 5 }, Attribute { key: AttributeKey(2), value: 9 }]);
}

#[test]
fn detail_types() {
    let skull = SkullData::new(UnitType(0), &vec![], &vec![], 0);
    let d: Detail<Direction4> = Detail::Skull(skull.clone());
    assert_eq!(d.typ(), DetailType::Skull);
    assert_eq!(d.fog_replacement(wars_core::fog::FogIntensity::Dark), Some(Detail::Skull(skull)));
    assert_eq!(Detail::<Direction4>::Coins3.typ(), DetailType::Coins3);
    assert!(MAX_STACK_SIZE > 0);
}

#[test]
fn pipe_openings() {
    let pipe = PipeState::new(Direction4::D0, Direction4::D90).unwrap();
    assert!(pipe.is_open(Direction4::D0));
    assert!(pipe.is_open(Direction4::D90));
    assert!(!pipe.is_open(Direction4::D180));
    assert_eq!(pipe.distortion(Direction4::D0), None);
    assert!(pipe.distortion(Direction4::D180).is_some());
}

#[test]
fn bubbles_show_their_field_to_the_owners_team() {
    let bubble: Detail<Direction4> = Detail::Bubble(Owner(0), TerrainType(2));
    let here = Point::new(3, 4);
    assert_eq!(
        bubble.get_vision(here, Some(ClientPerspective::Team(1)), ClientPerspective::Team(1)),
        vec![(here, FogIntensity::TrueSight)]
    );
    assert!(bubble.get_vision(here, Some(ClientPerspective::Team(1)), ClientPerspective::Team(2)).is_empty());
    assert!(bubble.get_vision(here, None, ClientPerspective::Team(1)).is_empty());
    let coins: Detail<Direction4> = Detail::Coins1;
    assert!(coins.get_vision(here, Some(ClientPerspective::Team(1)), ClientPerspective::Team(1)).is_empty());
}
