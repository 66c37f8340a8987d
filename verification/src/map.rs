//! The tile map: a dense 2D grid of the engine entities that carry each
//! tile's attributes.

use vstd::prelude::*;
use crate::array2d::Array2D;

verus! {

#[verifier::external_type_specification]
#[verifier::external_body]
pub struct ExEntity(bevy::ecs::entity::Entity);

/// The map's grid: the entity of the tile at `(x, y)` sits at that cell.
pub struct TileMap(Array2D<bevy::ecs::entity::Entity>);

impl TileMap {
    /// The grid of tile entities.
    pub closed spec fn grid_spec(&self) -> Array2D<bevy::ecs::entity::Entity> {
        self.0
    }

    /// Wraps a grid of tile entities as the tile map.
    pub fn new(grid: Array2D<bevy::ecs::entity::Entity>) -> (r: TileMap)
        ensures
            r.grid_spec() == grid,
    {
        TileMap(grid)
    }

    /// The grid of tile entities.
    pub fn grid(&self) -> (r: &Array2D<bevy::ecs::entity::Entity>)
        ensures
            *r == self.grid_spec(),
    {
        &self.0
    }
}

} // verus!
