use os_base::json::Json;
use os_base::map::TileMap;
use os_base::util::asset_dir_from;
use os_base::util::asset_relative_path;
use os_base::util::is_tile_config_name;
use os_base::util::long_ext;
use os_base::util::str_eq;
use os_base::Array2D;

use bevy::ecs::entity::Entity;

#[test]
fn long_ext_takes_everything_after_first_dot() {
    assert_eq!(long_ext("grass.tile.json"), Some("tile.json"));
    assert_eq!(long_ext("archive.tar.gz"), Some("tar.gz"));
    assert_eq!(long_ext("plain.json"), Some("json"));
    assert_eq!(long_ext("noext"), None);
    assert_eq!(long_ext(""), None);
    assert_eq!(long_ext(".hidden"), Some("hidden"));
    assert_eq!(long_ext("trailing."), Some(""));
}

#[test]
fn tile_config_names() {
    assert!(is_tile_config_name("grass.tile.json"));
    assert!(is_tile_config_name(".tile.json"));
    assert!(!is_tile_config_name("grass.json"));
    assert!(!is_tile_config_name("grass.tile.json.bak"));
    assert!(!is_tile_config_name("grass"));
}

#[test]
fn relative_paths_strip_the_root() {
    assert_eq!(
        asset_relative_path("./assets/tiles/grass.tile.json", "./assets/"),
        Some("tiles/grass.tile.json"),
    );
    assert_eq!(asset_relative_path("./assets/", "./assets/"), Some(""));
    assert_eq!(asset_relative_path("./other/grass.tile.json", "./assets/"), None);
    assert_eq!(asset_relative_path("./a", "./assets/"), None);
}

#[test]
fn asset_dir_prefers_engine_root() {
    assert_eq!(
        asset_dir_from(Some(String::from("/game")), Some(String::from("/proj"))),
        "/game/assets/",
    );
    assert_eq!(asset_dir_from(None, Some(String::from("/proj"))), "/proj/assets/");
    assert_eq!(asset_dir_from(None, None), "./assets/");
}

#[test]
fn str_eq_compares_contents() {
    assert!(str_eq("tile.json", "tile.json"));
    assert!(!str_eq("tile.json", "tile.jsom"));
    assert!(!str_eq("short", "longer"));
    assert!(str_eq("", ""));
}

#[test]
fn json_parse_accepts_and_rejects() {
    assert!(Json::parse(b"{\"a\": 1}").is_ok());
    assert!(Json::parse(b"[1, 2, 3]").is_ok());
    assert!(Json::parse(b"{broken").is_err());
    assert!(Json::parse(b"").is_err());
}

#[test]
fn tile_map_holds_the_grid() {
    let e = Entity::from_raw(7);
    let grid: Array2D<Entity> = Array2D::new(2, 2, e);
    let map = TileMap::new(grid);
    assert_eq!(*map.grid().get((1, 1)), e);
    assert_eq!(map.grid().size(), (2, 2));
}
