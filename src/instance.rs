use vstd::prelude::*;

verus! {

/// Instances along each side of the square grid.
pub const NUM_INSTANCE_PER_ROW: u32 = 8;

/// Offset that centres the grid on the origin: half a row on both X and Z.
pub const INSTANCE_DISPLACEMENT: i32 = 4;

/// A grid point on the XZ plane, in whole units.
#[derive(Clone, Copy, Debug, PartialEq, Eq, Structural)]
pub struct Position {
    pub x: i32,
    pub y: i32,
    pub z: i32,
}

/// Orientation of an instance: none, or a rotation by 45 degrees about the
/// unit vector along `axis`.
#[derive(Clone, Copy, Debug, PartialEq, Eq, Structural)]
pub enum Rotation {
    Identity,
    Tilted { axis: Position },
}

/// One placed copy of the mesh.
#[derive(Clone, Copy, Debug, PartialEq, Eq, Structural)]
pub struct Instance {
    pub position: Position,
    pub rotation: Rotation,
}

impl Position {
    pub open spec fn is_zero(self) -> bool {
        self.x == 0 && self.y == 0 && self.z == 0
    }
}

/// Column of grid cell `i` (row-major, `NUM_INSTANCE_PER_ROW` per row).
pub open spec fn column_of(i: int) -> int {
    i % (NUM_INSTANCE_PER_ROW as int)
}

/// Row of grid cell `i`.
pub open spec fn row_of(i: int) -> int {
    i / (NUM_INSTANCE_PER_ROW as int)
}

/// Where grid cell `i` stands once the grid is centred.
pub open spec fn grid_position(i: int) -> Position {
    Position {
        x: (column_of(i) - INSTANCE_DISPLACEMENT) as i32,
        y: 0,
        z: (row_of(i) - INSTANCE_DISPLACEMENT) as i32,
    }
}

/// The rotation given to an instance at `p`: a rotation about a zero axis has
/// no meaning, so the origin keeps the identity.
pub open spec fn rotation_at(p: Position) -> Rotation {
    if p.is_zero() {
        Rotation::Identity
    } else {
        Rotation::Tilted { axis: p }
    }
}

/// The instance placed at grid cell `i`.
pub open spec fn grid_instance(i: int) -> Instance {
    Instance { position: grid_position(i), rotation: rotation_at(grid_position(i)) }
}

/// Exactly one grid cell, cell 36 (column 4 of row 4), lies at the origin,
/// and the instance there keeps the identity rotation.
pub proof fn lemma_origin_cell(i: int)
    requires
        0 <= i < NUM_INSTANCE_PER_ROW * NUM_INSTANCE_PER_ROW,
    ensures
        grid_position(i).is_zero() <==> i == 36,
        grid_instance(36).rotation == Rotation::Identity,
{
    assert(grid_position(36).is_zero());
}

impl Instance {
    pub fn new(position: Position, rotation: Rotation) -> (r: Self)
        ensures
            r.position == position,
            r.rotation == rotation,
    {
        Instance { position, rotation }
    }
}

/// The rotation for an instance at `p`, as `rotation_at` states it.
pub fn rotation_for(p: Position) -> (r: Rotation)
    ensures
        r == rotation_at(p),
{
    if p.x == 0 && p.y == 0 && p.z == 0 {
        Rotation::Identity
    } else {
        Rotation::Tilted { axis: p }
    }
}

/// The full grid, one instance per cell in row-major order.
pub fn instance_grid() -> (r: Vec<Instance>)
    ensures
        r@.len() == NUM_INSTANCE_PER_ROW * NUM_INSTANCE_PER_ROW,
        forall|i: int| 0 <= i < r@.len() ==> #[trigger] r@[i] == grid_instance(i),
        forall|i: int|
            0 <= i < r@.len() && (#[trigger] r@[i]).position.is_zero() ==> r@[i].rotation
                == Rotation::Identity,
{
    let total: u32 = NUM_INSTANCE_PER_ROW * NUM_INSTANCE_PER_ROW;
    let mut instances: Vec<Instance> = Vec::new();
    let mut i: u32 = 0;
    while i < total
        invariant
            i <= total,
            total == NUM_INSTANCE_PER_ROW * NUM_INSTANCE_PER_ROW,
            instances@.len() == i,
            forall|k: int| 0 <= k < i ==> #[trigger] instances@[k] == grid_instance(k),
        decreases total - i,
    {
        let x: i32 = (i % NUM_INSTANCE_PER_ROW) as i32;
        let z: i32 = (i / NUM_INSTANCE_PER_ROW) as i32;
        let position = Position {
            x: x - INSTANCE_DISPLACEMENT,
            y: 0,
            z: z - INSTANCE_DISPLACEMENT,
        };
        let rotation = rotation_for(position);
        instances.push(Instance::new(position, rotation));
        i = i + 1;
    }
    instances
}

} // verus!
