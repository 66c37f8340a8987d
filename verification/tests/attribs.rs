use os_base::attrib::AssetEventKind;
use os_base::attrib::CombatModifiers;
use os_base::attrib::ConfigAction;
use os_base::attrib::MovementGround;
use os_base::attrib::MovementSky;
use os_base::attrib::MovementWater;
use os_base::attrib::TileAttribConfig;
use os_base::attrib::TileAttribName;
use os_base::attrib::TileAttribResource;
use os_base::attrib::TileName;
use os_base::attrib::config_action;
use os_base::json::Json;

fn config_of(text: &str) -> TileAttribConfig {
    let json = Json::parse(text.as_bytes()).expect("well-formed JSON");
    TileAttribConfig(json.0)
}

#[test]
fn movement_ground_names_round_trip() {
    let all = [
        MovementGround::Developed,
        MovementGround::Regular,
        MovementGround::Rough,
        MovementGround::Difficult,
        MovementGround::Treacherous,
    ];
    for v in all {
        assert_eq!(MovementGround::from_name(v.as_name()), Some(v));
    }
    assert_eq!(MovementGround::from_name("developed"), Some(MovementGround::Developed));
    assert_eq!(MovementGround::from_name("Developed"), None);
    assert_eq!(MovementGround::from_name(""), None);
    assert_eq!(MovementGround::from_name("turbulent"), None);
}

#[test]
fn movement_sky_names_round_trip() {
    let all = [MovementSky::Regular, MovementSky::Turbulent];
    for v in all {
        assert_eq!(MovementSky::from_name(v.as_name()), Some(v));
    }
    assert_eq!(MovementSky::from_name("turbulent"), Some(MovementSky::Turbulent));
    assert_eq!(MovementSky::from_name("shallow"), None);
}

#[test]
fn movement_water_names_round_trip() {
    let all = [
        MovementWater::Shallow,
        MovementWater::Regular,
        MovementWater::Rough,
        MovementWater::Treacherous,
    ];
    for v in all {
        assert_eq!(MovementWater::from_name(v.as_name()), Some(v));
    }
    assert_eq!(MovementWater::from_name("shallow"), Some(MovementWater::Shallow));
    assert_eq!(MovementWater::from_name("developed"), None);
}

#[test]
fn attrib_names_match_config_keys() {
    assert_eq!(MovementGround::tile_attrib_name(), "movement_ground");
    assert_eq!(MovementSky::tile_attrib_name(), "movement_sky");
    assert_eq!(MovementWater::tile_attrib_name(), "movement_water");
    assert_eq!(CombatModifiers::tile_attrib_name(), "combat_modifiers");
    assert_eq!(TileName::tile_attrib_name(), "name");
    assert_eq!(TileAttribResource::tile_attrib_name(), "sprite");
}

#[test]
fn combat_modifiers_from_parts() {
    assert_eq!(
        CombatModifiers::from_parts(Some(3), Some(true), Some(false)),
        Some(CombatModifiers { base_defence: 3, has_coverage: true, has_elevation: false }),
    );
    assert_eq!(
        CombatModifiers::from_parts(Some(255), Some(false), Some(false)),
        Some(CombatModifiers { base_defence: 255, has_coverage: false, has_elevation: false }),
    );
    assert_eq!(CombatModifiers::from_parts(Some(256), Some(true), Some(true)), None);
    assert_eq!(CombatModifiers::from_parts(None, Some(true), Some(true)), None);
    assert_eq!(CombatModifiers::from_parts(Some(1), None, Some(true)), None);
    assert_eq!(CombatModifiers::from_parts(Some(1), Some(true), None), None);
}

#[test]
fn full_config_extracts_every_attribute() {
    let config = config_of(
        "{\"name\": \"Forest\", \"sprite\": \"forest.png\", \
          \"movement_ground\": \"rough\", \"movement_sky\": \"regular\", \
          \"movement_water\": \"shallow\", \
          \"combat_modifiers\": {\"base_defence\": 2, \"has_coverage\": true, \
          \"has_elevation\": false}}",
    );
    assert_eq!(config.movement_ground(), Some(MovementGround::Rough));
    assert_eq!(config.movement_sky(), Some(MovementSky::Regular));
    assert_eq!(config.movement_water(), Some(MovementWater::Shallow));
    assert_eq!(
        config.combat_modifiers(),
        Some(CombatModifiers { base_defence: 2, has_coverage: true, has_elevation: false }),
    );
    assert_eq!(config.tile_name().expect("name present").as_str(), "Forest");
    assert_eq!(config.sprite().expect("sprite present").as_str(), "forest.png");
}

#[test]
fn missing_or_misshapen_fields_yield_nothing() {
    let config = config_of("{\"movement_ground\": \"nonsense\", \"movement_sky\": 3}");
    assert_eq!(config.movement_ground(), None);
    assert_eq!(config.movement_sky(), None);
    assert_eq!(config.movement_water(), None);
    assert_eq!(config.combat_modifiers(), None);
    assert_eq!(config.tile_name(), None);
    assert_eq!(config.sprite(), None);
}

#[test]
fn combat_modifiers_reject_out_of_range_defence() {
    let config = config_of(
        "{\"combat_modifiers\": {\"base_defence\": 300, \"has_coverage\": true, \
          \"has_elevation\": true}}",
    );
    assert_eq!(config.combat_modifiers(), None);
    let config = config_of(
        "{\"combat_modifiers\": {\"has_coverage\": true, \"has_elevation\": true}}",
    );
    assert_eq!(config.combat_modifiers(), None);
}

#[test]
fn config_action_decision_table() {
    assert_eq!(config_action(AssetEventKind::Created, true, false), ConfigAction::Attach);
    assert_eq!(config_action(AssetEventKind::Created, true, true), ConfigAction::Attach);
    assert_eq!(config_action(AssetEventKind::Created, false, false), ConfigAction::Ignore);
    assert_eq!(config_action(AssetEventKind::Modified, true, true), ConfigAction::Replace);
    assert_eq!(config_action(AssetEventKind::Modified, true, false), ConfigAction::Ignore);
    assert_eq!(config_action(AssetEventKind::Modified, false, true), ConfigAction::Ignore);
    assert_eq!(config_action(AssetEventKind::Removed, true, true), ConfigAction::Ignore);
}

#[test]
fn get_attrib_finds_top_level_fields() {
    let config = config_of("{\"name\": \"Forest\", \"movement_ground\": \"rough\"}");
    assert!(config.get_attrib("name").is_some());
    assert!(config.get_attrib("movement_ground").is_some());
    assert!(config.get_attrib("sprite").is_none());
    assert_eq!(config.get_attrib("name").and_then(|v| v.as_str()), Some("Forest"));
}

#[test]
fn tile_name_wraps_string() {
    let name = TileName::new(String::from("Plains"));
    assert_eq!(name.as_str(), "Plains");
    let sprite = TileAttribResource::new(String::from("plains.png"));
    assert_eq!(sprite.as_str(), "plains.png");
}

#[test]
fn default_attributes() {
    assert_eq!(MovementGround::default(), MovementGround::Regular);
    assert_eq!(MovementSky::default(), MovementSky::Regular);
    assert_eq!(MovementWater::default(), MovementWater::Regular);
    assert_eq!(
        CombatModifiers::default(),
        CombatModifiers { base_defence: 0, has_coverage: false, has_elevation: false },
    );
    assert_eq!(TileName::default().as_str(), "");
    assert_eq!(TileAttribResource::default().as_str(), "");
}
