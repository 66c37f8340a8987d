//! Typed tile attributes and the rules that read them out of a tile's JSON
//! configuration: movement classes named by lowercase strings, combat
//! modifiers from an object of plain fields, and free-form names.

use vstd::prelude::*;
use crate::util::str_eq;
use crate::json::value_get_field;
use crate::json::value_as_str;
use crate::json::value_as_u64;
use crate::json::value_as_bool;
use crate::json::json_field_of;
use crate::json::json_str_of;
use crate::json::json_u64_of;
use crate::json::json_bool_of;

verus! {

/// A type that lives under a named top-level field of a tile's JSON
/// configuration.
pub trait TileAttribName {
    /// The field name as a sequence of characters.
    spec fn spec_attrib_name() -> Seq<char>;

    /// The top-level JSON field this attribute is read from.
    fn tile_attrib_name() -> (r: &'static str)
        ensures
            r@ == Self::spec_attrib_name(),
    ;
}

/// How costly ground movement is on a tile.
#[derive(Debug, Clone, Copy, PartialEq, Eq, Structural)]
pub enum MovementGround {
    Developed,
    Regular,
    Rough,
    Difficult,
    Treacherous,
}

/// How costly sky movement is over a tile.
#[derive(Debug, Clone, Copy, PartialEq, Eq, Structural)]
pub enum MovementSky {
    Regular,
    Turbulent,
}

/// How costly water movement is on a tile.
#[derive(Debug, Clone, Copy, PartialEq, Eq, Structural)]
pub enum MovementWater {
    Shallow,
    Regular,
    Rough,
    Treacherous,
}

/// The lowercase name of each ground movement class.
pub open spec fn spec_movement_ground_name(v: MovementGround) -> Seq<char> {
    match v {
        MovementGround::Developed => "developed"@,
        MovementGround::Regular => "regular"@,
        MovementGround::Rough => "rough"@,
        MovementGround::Difficult => "difficult"@,
        MovementGround::Treacherous => "treacherous"@,
    }
}

/// The ground movement class named by a string, if any.
pub open spec fn spec_movement_ground_from_name(s: Seq<char>) -> Option<MovementGround> {
    if s == "developed"@ {
        Some(MovementGround::Developed)
    } else if s == "regular"@ {
        Some(MovementGround::Regular)
    } else if s == "rough"@ {
        Some(MovementGround::Rough)
    } else if s == "difficult"@ {
        Some(MovementGround::Difficult)
    } else if s == "treacherous"@ {
        Some(MovementGround::Treacherous)
    } else {
        None
    }
}

impl MovementGround {
    /// Reads a ground movement class from its lowercase name.
    pub fn from_name(name: &str) -> (r: Option<MovementGround>)
        ensures
            r == spec_movement_ground_from_name(name@),
    {
        if str_eq(name, "developed") {
            Some(MovementGround::Developed)
        } else if str_eq(name, "regular") {
            Some(MovementGround::Regular)
        } else if str_eq(name, "rough") {
            Some(MovementGround::Rough)
        } else if str_eq(name, "difficult") {
            Some(MovementGround::Difficult)
        } else if str_eq(name, "treacherous") {
            Some(MovementGround::Treacherous)
        } else {
            None
        }
    }

    /// The lowercase name of this class.
    pub fn as_name(&self) -> (r: &'static str)
        ensures
            r@ == spec_movement_ground_name(*self),
    {
        match self {
            MovementGround::Developed => "developed",
            MovementGround::Regular => "regular",
            MovementGround::Rough => "rough",
            MovementGround::Difficult => "difficult",
            MovementGround::Treacherous => "treacherous",
        }
    }
}

impl Default for MovementGround {
    /// The default ground movement class.
    fn default() -> (r: Self)
        ensures
            r == MovementGround::Regular,
    {
        MovementGround::Regular
    }
}

impl TileAttribName for MovementGround {
    open spec fn spec_attrib_name() -> Seq<char> {
        "movement_ground"@
    }

    fn tile_attrib_name() -> &'static str {
        "movement_ground"
    }
}

/// Reading a ground movement class back from its own name yields the same
/// class: the two directions form a round trip.
pub proof fn lemma_movement_ground_round_trip(v: MovementGround)
    ensures
        spec_movement_ground_from_name(spec_movement_ground_name(v)) == Some(v),
{
    reveal_strlit("developed");
    reveal_strlit("regular");
    reveal_strlit("rough");
    reveal_strlit("difficult");
    reveal_strlit("treacherous");
    assert("developed"@.len() == 9);
    assert("regular"@.len() == 7);
    assert("rough"@.len() == 5);
    assert("difficult"@.len() == 9);
    assert("treacherous"@.len() == 11);
    assert("developed"@[1] == 'e');
    assert("difficult"@[1] == 'i');
}

/// The lowercase name of each sky movement class.
pub open spec fn spec_movement_sky_name(v: MovementSky) -> Seq<char> {
    match v {
        MovementSky::Regular => "regular"@,
        MovementSky::Turbulent => "turbulent"@,
    }
}

/// The sky movement class named by a string, if any.
pub open spec fn spec_movement_sky_from_name(s: Seq<char>) -> Option<MovementSky> {
    if s == "regular"@ {
        Some(MovementSky::Regular)
    } else if s == "turbulent"@ {
        Some(MovementSky::Turbulent)
    } else {
        None
    }
}

impl MovementSky {
    /// Reads a sky movement class from its lowercase name.
    pub fn from_name(name: &str) -> (r: Option<MovementSky>)
        ensures
            r == spec_movement_sky_from_name(name@),
    {
        if str_eq(name, "regular") {
            Some(MovementSky::Regular)
        } else if str_eq(name, "turbulent") {
            Some(MovementSky::Turbulent)
        } else {
            None
        }
    }

    /// The lowercase name of this class.
    pub fn as_name(&self) -> (r: &'static str)
        ensures
            r@ == spec_movement_sky_name(*self),
    {
        match self {
            MovementSky::Regular => "regular",
            MovementSky::Turbulent => "turbulent",
        }
    }
}

impl Default for MovementSky {
    /// The default sky movement class.
    fn default() -> (r: Self)
        ensures
            r == MovementSky::Regular,
    {
        MovementSky::Regular
    }
}

impl TileAttribName for MovementSky {
    open spec fn spec_attrib_name() -> Seq<char> {
        "movement_sky"@
    }

    fn tile_attrib_name() -> &'static str {
        "movement_sky"
    }
}

/// Reading a sky movement class back from its own name yields the same
/// class.
pub proof fn lemma_movement_sky_round_trip(v: MovementSky)
    ensures
        spec_movement_sky_from_name(spec_movement_sky_name(v)) == Some(v),
{
    reveal_strlit("regular");
    reveal_strlit("turbulent");
    assert("regular"@.len() == 7);
    assert("turbulent"@.len() == 9);
}

/// The lowercase name of each water movement class.
pub open spec fn spec_movement_water_name(v: MovementWater) -> Seq<char> {
    match v {
        MovementWater::Shallow => "shallow"@,
        MovementWater::Regular => "regular"@,
        MovementWater::Rough => "rough"@,
        MovementWater::Treacherous => "treacherous"@,
    }
}

/// The water movement class named by a string, if any.
pub open spec fn spec_movement_water_from_name(s: Seq<char>) -> Option<MovementWater> {
    if s == "shallow"@ {
        Some(MovementWater::Shallow)
    } else if s == "regular"@ {
        Some(MovementWater::Regular)
    } else if s == "rough"@ {
        Some(MovementWater::Rough)
    } else if s == "treacherous"@ {
        Some(MovementWater::Treacherous)
    } else {
        None
    }
}

impl MovementWater {
    /// Reads a water movement class from its lowercase name.
    pub fn from_name(name: &str) -> (r: Option<MovementWater>)
        ensures
            r == spec_movement_water_from_name(name@),
    {
        if str_eq(name, "shallow") {
            Some(MovementWater::Shallow)
        } else if str_eq(name, "regular") {
            Some(MovementWater::Regular)
        } else if str_eq(name, "rough") {
            Some(MovementWater::Rough)
        } else if str_eq(name, "treacherous") {
            Some(MovementWater::Treacherous)
        } else {
            None
        }
    }

    /// The lowercase name of this class.
    pub fn as_name(&self) -> (r: &'static str)
        ensures
            r@ == spec_movement_water_name(*self),
    {
        match self {
            MovementWater::Shallow => "shallow",
            MovementWater::Regular => "regular",
            MovementWater::Rough => "rough",
            MovementWater::Treacherous => "treacherous",
        }
    }
}

impl Default for MovementWater {
    /// The default water movement class.
    fn default() -> (r: Self)
        ensures
            r == MovementWater::Regular,
    {
        MovementWater::Regular
    }
}

impl TileAttribName for MovementWater {
    open spec fn spec_attrib_name() -> Seq<char> {
        "movement_water"@
    }

    fn tile_attrib_name() -> &'static str {
        "movement_water"
    }
}

/// Reading a water movement class back from its own name yields the same
/// class.
pub proof fn lemma_movement_water_round_trip(v: MovementWater)
    ensures
        spec_movement_water_from_name(spec_movement_water_name(v)) == Some(v),
{
    reveal_strlit("shallow");
    reveal_strlit("regular");
    reveal_strlit("rough");
    reveal_strlit("treacherous");
    assert("shallow"@.len() == 7);
    assert("regular"@.len() == 7);
    assert("rough"@.len() == 5);
    assert("treacherous"@.len() == 11);
    assert("shallow"@[0] == 's');
    assert("regular"@[0] == 'r');
}

/// Combat bonuses a tile grants to a unit standing on it.
#[derive(Debug, Clone, Copy, PartialEq, Eq, Structural)]
pub struct CombatModifiers {
    pub base_defence: u8,
    pub has_coverage: bool,
    pub has_elevation: bool,
}

/// The combat modifiers built from the three fields of the
/// `combat_modifiers` object: all must be present and the defence value
/// must fit a byte, else nothing.
pub open spec fn spec_combat_from_parts(
    base_defence: Option<u64>,
    has_coverage: Option<bool>,
    has_elevation: Option<bool>,
) -> Option<CombatModifiers> {
    match (base_defence, has_coverage, has_elevation) {
        (Some(d), Some(c), Some(e)) => if d <= u8::MAX as u64 {
            Some(CombatModifiers { base_defence: d as u8, has_coverage: c, has_elevation: e })
        } else {
            None
        },
        _ => None,
    }
}

impl CombatModifiers {
    /// Builds combat modifiers from the three top-level fields of the
    /// `combat_modifiers` object. Every field must be present, and the
    /// defence value must fit a byte; anything else is rejected.
    pub fn from_parts(
        base_defence: Option<u64>,
        has_coverage: Option<bool>,
        has_elevation: Option<bool>,
    ) -> (r: Option<CombatModifiers>)
        ensures
            r == spec_combat_from_parts(base_defence, has_coverage, has_elevation),
    {
        match (base_defence, has_coverage, has_elevation) {
            (Some(d), Some(c), Some(e)) => {
                if d <= u8::MAX as u64 {
                    Some(
                        CombatModifiers {
                            base_defence: d as u8,
                            has_coverage: c,
                            has_elevation: e,
                        },
                    )
                } else {
                    None
                }
            },
            _ => None,
        }
    }
}

impl Default for CombatModifiers {
    /// No defence bonus, no coverage, no elevation.
    fn default() -> (r: Self)
        ensures
            r == (CombatModifiers { base_defence: 0, has_coverage: false, has_elevation: false }),
    {
        CombatModifiers { base_defence: 0, has_coverage: false, has_elevation: false }
    }
}

impl TileAttribName for CombatModifiers {
    open spec fn spec_attrib_name() -> Seq<char> {
        "combat_modifiers"@
    }

    fn tile_attrib_name() -> &'static str {
        "combat_modifiers"
    }
}

/// The display name of a tile.
#[derive(Debug, Clone, PartialEq, Eq)]
pub struct TileName(String);

impl View for TileName {
    type V = Seq<char>;

    closed spec fn view(&self) -> Seq<char> {
        self.0@
    }
}

impl TileName {
    /// Wraps a string as a tile name.
    pub fn new(name: String) -> (r: TileName)
        ensures
            r@ == name@,
    {
        TileName(name)
    }

    /// The name as a string slice.
    pub fn as_str(&self) -> (r: &str)
        ensures
            r@ == self@,
    {
        self.0.as_str()
    }
}

impl Default for TileName {
    /// The empty name.
    fn default() -> (r: Self)
        ensures
            r@ == Seq::<char>::empty(),
    {
        TileName(String::new())
    }
}

impl TileAttribName for TileName {
    open spec fn spec_attrib_name() -> Seq<char> {
        "name"@
    }

    fn tile_attrib_name() -> &'static str {
        "name"
    }
}

/// The sprite resource a tile is drawn with.
#[derive(Debug, Clone, PartialEq, Eq)]
pub struct TileAttribResource(String);

impl View for TileAttribResource {
    type V = Seq<char>;

    closed spec fn view(&self) -> Seq<char> {
        self.0@
    }
}

impl TileAttribResource {
    /// Wraps a string as a sprite resource name.
    pub fn new(name: String) -> (r: TileAttribResource)
        ensures
            r@ == name@,
    {
        TileAttribResource(name)
    }

    /// The resource name as a string slice.
    pub fn as_str(&self) -> (r: &str)
        ensures
            r@ == self@,
    {
        self.0.as_str()
    }
}

impl Default for TileAttribResource {
    /// The empty resource name.
    fn default() -> (r: Self)
        ensures
            r@ == Seq::<char>::empty(),
    {
        TileAttribResource(String::new())
    }
}

impl TileAttribName for TileAttribResource {
    open spec fn spec_attrib_name() -> Seq<char> {
        "sprite"@
    }

    fn tile_attrib_name() -> &'static str {
        "sprite"
    }
}

/// The JSON configuration attached to a tile's entity, replaced wholesale
/// whenever the backing file changes. The typed attributes are read from
/// its named top-level fields; a field that is missing or of the wrong
/// shape yields nothing.
pub struct TileAttribConfig(pub serde_json::Value);

/// The string content of a named top-level field of a configuration:
/// nothing when the field is missing or does not hold a string.
pub open spec fn spec_str_attrib(doc: serde_json::Value, key: Seq<char>) -> Option<Seq<char>> {
    match json_field_of(doc, key) {
        Some(v) => json_str_of(v),
        None => None,
    }
}

/// The ground movement class a configuration names under
/// `movement_ground`.
pub open spec fn spec_movement_ground_attrib(doc: serde_json::Value) -> Option<MovementGround> {
    match spec_str_attrib(doc, MovementGround::spec_attrib_name()) {
        Some(s) => spec_movement_ground_from_name(s),
        None => None,
    }
}

/// The sky movement class a configuration names under `movement_sky`.
pub open spec fn spec_movement_sky_attrib(doc: serde_json::Value) -> Option<MovementSky> {
    match spec_str_attrib(doc, MovementSky::spec_attrib_name()) {
        Some(s) => spec_movement_sky_from_name(s),
        None => None,
    }
}

/// The water movement class a configuration names under `movement_water`.
pub open spec fn spec_movement_water_attrib(doc: serde_json::Value) -> Option<MovementWater> {
    match spec_str_attrib(doc, MovementWater::spec_attrib_name()) {
        Some(s) => spec_movement_water_from_name(s),
        None => None,
    }
}

/// The combat modifiers a configuration holds under `combat_modifiers`:
/// the three fields of that object, put through `spec_combat_from_parts`.
pub open spec fn spec_combat_modifiers_attrib(doc: serde_json::Value) -> Option<CombatModifiers> {
    match json_field_of(doc, CombatModifiers::spec_attrib_name()) {
        Some(v) => spec_combat_from_parts(
            match json_field_of(v, "base_defence"@) {
                Some(d) => json_u64_of(d),
                None => None,
            },
            match json_field_of(v, "has_coverage"@) {
                Some(c) => json_bool_of(c),
                None => None,
            },
            match json_field_of(v, "has_elevation"@) {
                Some(e) => json_bool_of(e),
                None => None,
            },
        ),
        None => None,
    }
}

impl TileAttribConfig {
    /// The raw JSON value under a named top-level field, if any.
    pub fn get_attrib<'a>(&'a self, name: &str) -> (r: Option<&'a serde_json::Value>)
        ensures
            match r {
                Some(f) => json_field_of(self.0, name@) == Some(*f),
                None => json_field_of(self.0, name@) is None,
            },
    {
        value_get_field(&self.0, name)
    }

    /// The ground movement class under `movement_ground`, when that field
    /// holds the name of one.
    pub fn movement_ground(&self) -> (r: Option<MovementGround>)
        ensures
            r == spec_movement_ground_attrib(self.0),
    {
        match self.get_attrib(MovementGround::tile_attrib_name()) {
            Some(v) => match value_as_str(v) {
                Some(s) => MovementGround::from_name(s),
                None => None,
            },
            None => None,
        }
    }

    /// The sky movement class under `movement_sky`, when that field holds
    /// the name of one.
    pub fn movement_sky(&self) -> (r: Option<MovementSky>)
        ensures
            r == spec_movement_sky_attrib(self.0),
    {
        match self.get_attrib(MovementSky::tile_attrib_name()) {
            Some(v) => match value_as_str(v) {
                Some(s) => MovementSky::from_name(s),
                None => None,
            },
            None => None,
        }
    }

    /// The water movement class under `movement_water`, when that field
    /// holds the name of one.
    pub fn movement_water(&self) -> (r: Option<MovementWater>)
        ensures
            r == spec_movement_water_attrib(self.0),
    {
        match self.get_attrib(MovementWater::tile_attrib_name()) {
            Some(v) => match value_as_str(v) {
                Some(s) => MovementWater::from_name(s),
                None => None,
            },
            None => None,
        }
    }

    /// The combat modifiers under `combat_modifiers`, when that field is
    /// an object whose three fields are all present and well-shaped.
    pub fn combat_modifiers(&self) -> (r: Option<CombatModifiers>)
        ensures
            r == spec_combat_modifiers_attrib(self.0),
    {
        match self.get_attrib(CombatModifiers::tile_attrib_name()) {
            Some(v) => {
                let base_defence = match value_get_field(v, "base_defence") {
                    Some(d) => value_as_u64(d),
                    None => None,
                };
                let has_coverage = match value_get_field(v, "has_coverage") {
                    Some(c) => value_as_bool(c),
                    None => None,
                };
                let has_elevation = match value_get_field(v, "has_elevation") {
                    Some(e) => value_as_bool(e),
                    None => None,
                };
                CombatModifiers::from_parts(base_defence, has_coverage, has_elevation)
            },
            None => None,
        }
    }

    /// The display name under `name`, when that field holds a string.
    pub fn tile_name(&self) -> (r: Option<TileName>)
        ensures
            match r {
                Some(n) => spec_str_attrib(self.0, TileName::spec_attrib_name()) == Some(n@),
                None => spec_str_attrib(self.0, TileName::spec_attrib_name()) is None,
            },
    {
        match self.get_attrib(TileName::tile_attrib_name()) {
            Some(v) => match value_as_str(v) {
                Some(s) => Some(TileName::new(s.to_owned())),
                None => None,
            },
            None => None,
        }
    }

    /// The sprite resource under `sprite`, when that field holds a string.
    pub fn sprite(&self) -> (r: Option<TileAttribResource>)
        ensures
            match r {
                Some(n) => spec_str_attrib(self.0, TileAttribResource::spec_attrib_name())
                    == Some(n@),
                None => spec_str_attrib(self.0, TileAttribResource::spec_attrib_name()) is None,
            },
    {
        match self.get_attrib(TileAttribResource::tile_attrib_name()) {
            Some(v) => match value_as_str(v) {
                Some(s) => Some(TileAttribResource::new(s.to_owned())),
                None => None,
            },
            None => None,
        }
    }
}

/// What happened to a JSON asset, as the engine reports it.
#[derive(Debug, Clone, Copy, PartialEq, Eq, Structural)]
pub enum AssetEventKind {
    Created,
    Modified,
    Removed,
}

/// What the attribute loader does to a tile entity's configuration in
/// answer to an asset event.
#[derive(Debug, Clone, Copy, PartialEq, Eq, Structural)]
pub enum ConfigAction {
    /// Attach a fresh configuration to the entity.
    Attach,
    /// Replace the configuration the entity already carries.
    Replace,
    /// Leave the entity alone.
    Ignore,
}

/// The loader's answer to an asset event: a newly created asset whose
/// handle is tracked gets its configuration attached; a modified asset
/// whose handle is tracked, on an entity that already carries one, gets it
/// replaced; everything else is ignored.
pub open spec fn spec_config_action(
    kind: AssetEventKind,
    tracked_handle: bool,
    has_config: bool,
) -> ConfigAction {
    match kind {
        AssetEventKind::Created => if tracked_handle {
            ConfigAction::Attach
        } else {
            ConfigAction::Ignore
        },
        AssetEventKind::Modified => if tracked_handle && has_config {
            ConfigAction::Replace
        } else {
            ConfigAction::Ignore
        },
        AssetEventKind::Removed => ConfigAction::Ignore,
    }
}

/// Decides what to do to a tile entity's configuration for one asset
/// event. `tracked_handle` says whether the asset's handle was discovered
/// at startup; `has_config` whether the entity already carries a
/// configuration.
pub fn config_action(kind: AssetEventKind, tracked_handle: bool, has_config: bool) -> (r:
    ConfigAction)
    ensures
        r == spec_config_action(kind, tracked_handle, has_config),
{
    match kind {
        AssetEventKind::Created => if tracked_handle {
            ConfigAction::Attach
        } else {
            ConfigAction::Ignore
        },
        AssetEventKind::Modified => if tracked_handle && has_config {
            ConfigAction::Replace
        } else {
            ConfigAction::Ignore
        },
        AssetEventKind::Removed => ConfigAction::Ignore,
    }
}

} // verus!
