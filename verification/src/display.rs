//! The presentation adapter: from cells and tile sizes to display
//! coordinates. Two passes, one for scale and one for translation, derive
//! each entity's transform from the registry; neither writes to the game.
//!
//! Display coordinates are real numbers. They are computed exactly, as
//! quotients of integers, and the contracts state their value over the reals.

use vstd::prelude::*;
use crate::grid::{Position, ARENA_HEIGHT, ARENA_WIDTH};
use crate::registry::{Entity, EntityId, Registry, Size};

verus! {

/// Side of one tile on a surface of `surface_pixels` pixels along an axis of
/// `grid_extent` cells.
pub open spec fn tile_size(surface_pixels: real, grid_extent: int) -> real {
    surface_pixels / (grid_extent as real)
}

/// The display coordinate of the centre of cell number `cell`, on an axis
/// whose origin is the centre of the surface.
pub open spec fn to_display(cell: int, surface_pixels: real, grid_extent: int) -> real {
    let tile = tile_size(surface_pixels, grid_extent);
    (cell as real) / (grid_extent as real) * surface_pixels - surface_pixels / 2real + tile / 2real
}

/// The display extent of a tile that covers `hundredths` hundredths of a
/// cell.
pub open spec fn to_scale(hundredths: int, surface_pixels: real, grid_extent: int) -> real {
    (hundredths as real) / 100real / (grid_extent as real) * surface_pixels
}

/// The quotient `num / den` of two integers, `den` positive.
#[derive(Clone, Copy, Debug, PartialEq, Eq, Structural)]
pub struct Ratio {
    pub num: i128,
    pub den: i128,
}

impl Ratio {
    /// The real number that the quotient stands for.
    pub open spec fn value(self) -> real {
        (self.num as real) / (self.den as real)
    }
}

/// Three display coordinates.
#[derive(Clone, Copy, Debug, PartialEq, Eq, Structural)]
pub struct Vector3 {
    pub x: Ratio,
    pub y: Ratio,
    pub z: Ratio,
}

/// Where an entity's tile is drawn and how large.
#[derive(Clone, Copy, Debug, PartialEq, Eq, Structural)]
pub struct Transform {
    pub translation: Vector3,
    pub scale: Vector3,
}

impl Transform {
    /// The transform that moves nothing and scales nothing.
    pub open spec fn spec_identity() -> Transform {
        Transform {
            translation: Vector3 {
                x: Ratio { num: 0, den: 1 },
                y: Ratio { num: 0, den: 1 },
                z: Ratio { num: 0, den: 1 },
            },
            scale: Vector3 {
                x: Ratio { num: 1, den: 1 },
                y: Ratio { num: 1, den: 1 },
                z: Ratio { num: 1, den: 1 },
            },
        }
    }

    /// The transform of a tile before any pass has run.
    #[verifier::when_used_as_spec(spec_identity)]
    pub fn identity() -> (transform: Transform)
        ensures
            transform == Transform::spec_identity(),
    {
        let zero = Ratio { num: 0, den: 1 };
        let one = Ratio { num: 1, den: 1 };
        Transform {
            translation: Vector3 { x: zero, y: zero, z: zero },
            scale: Vector3 { x: one, y: one, z: one },
        }
    }
}

/// The display surface's extent in pixels.
#[derive(Clone, Copy, Debug, PartialEq, Eq, Structural)]
pub struct Surface {
    pub width: u32,
    pub height: u32,
}

/// The quotient that [`convert`] returns.
pub open spec fn spec_convert(cell: i32, surface_pixels: u32, grid_extent: u32) -> Ratio {
    Ratio {
        num: (surface_pixels * (2 * cell + 1 - grid_extent)) as i128,
        den: (2 * grid_extent) as i128,
    }
}

/// The quotient that [`scale`] returns.
pub open spec fn spec_scale(hundredths: u32, surface_pixels: u32, grid_extent: u32) -> Ratio {
    Ratio { num: (hundredths * surface_pixels) as i128, den: (100 * grid_extent) as i128 }
}

/// The translation of a tile on `position`: both axes by [`convert`], depth
/// zero.
pub open spec fn translation_of(position: Position, surface: Surface) -> Vector3 {
    Vector3 {
        x: spec_convert(position.x, surface.width, ARENA_WIDTH),
        y: spec_convert(position.y, surface.height, ARENA_HEIGHT),
        z: Ratio { num: 0, den: 1 },
    }
}

/// The scale of a tile of size `size`: both axes by [`scale`], depth one.
pub open spec fn scale_of(size: Size, surface: Surface) -> Vector3 {
    Vector3 {
        x: spec_scale(size.width, surface.width, ARENA_WIDTH),
        y: spec_scale(size.height, surface.height, ARENA_HEIGHT),
        z: Ratio { num: 1, den: 1 },
    }
}

/// The transforms after the scale pass: each entity's transform has the
/// scale that the entity's size gives, and its translation as before. A
/// transform without an entity stays as it is.
pub open spec fn scaled(
    transforms: Seq<Transform>,
    entities: Seq<Entity>,
    surface: Surface,
) -> Seq<Transform> {
    Seq::new(
        transforms.len(),
        |e: int|
            if e < entities.len() {
                Transform { scale: scale_of(entities[e].size, surface), ..transforms[e] }
            } else {
                transforms[e]
            },
    )
}

/// The transforms after the position pass: each entity's transform has the
/// translation that the entity's cell gives, and its scale as before. A
/// transform without an entity stays as it is.
pub open spec fn translated(
    transforms: Seq<Transform>,
    entities: Seq<Entity>,
    surface: Surface,
) -> Seq<Transform> {
    Seq::new(
        transforms.len(),
        |e: int|
            if e < entities.len() {
                Transform {
                    translation: translation_of(entities[e].position, surface),
                    ..transforms[e]
                }
            } else {
                transforms[e]
            },
    )
}

/// The value of the quotient that [`convert`] returns is the display
/// coordinate of the cell.
pub proof fn lemma_convert_value(cell: i32, surface_pixels: u32, grid_extent: u32)
    requires
        grid_extent > 0,
    ensures
        spec_convert(cell, surface_pixels, grid_extent).den > 0,
        spec_convert(cell, surface_pixels, grid_extent).value() == to_display(
            cell as int,
            surface_pixels as real,
            grid_extent as int,
        ),
{
    let offset: int = 2 * cell + 1 - grid_extent;
    assert(-0x2_0000_0000 * 0x1_0000_0000 <= surface_pixels * offset <= 0x2_0000_0000
        * 0x1_0000_0000) by (nonlinear_arith)
        requires
            0 <= surface_pixels < 0x1_0000_0000,
            -0x2_0000_0000 <= offset <= 0x2_0000_0000,
    ;
    let s = surface_pixels as real;
    let c = (cell as int) as real;
    let e = (grid_extent as int) as real;
    let o = offset as real;
    assert(o == 2real * c + 1real - e);
    assert((surface_pixels * offset) as real == s * o) by (nonlinear_arith)
        requires
            s == (surface_pixels as int) as real,
            o == offset as real,
    ;
    assert((s * (2real * c + 1real - e)) / (2real * e) == c / e * s - s / 2real + (s / e) / 2real)
        by (nonlinear_arith)
        requires
            e > 0real,
    ;
}

/// The value of the quotient that [`scale`] returns is the display extent of
/// the tile.
pub proof fn lemma_scale_value(hundredths: u32, surface_pixels: u32, grid_extent: u32)
    requires
        grid_extent > 0,
    ensures
        spec_scale(hundredths, surface_pixels, grid_extent).den > 0,
        spec_scale(hundredths, surface_pixels, grid_extent).value() == to_scale(
            hundredths as int,
            surface_pixels as real,
            grid_extent as int,
        ),
{
    assert(0 <= hundredths * surface_pixels <= 0xffff_ffff * 0xffff_ffff) by (nonlinear_arith)
        requires
            0 <= hundredths <= 0xffff_ffff,
            0 <= surface_pixels <= 0xffff_ffff,
    ;
    let h = (hundredths as int) as real;
    let s = (surface_pixels as int) as real;
    let e = (grid_extent as int) as real;
    assert((hundredths * surface_pixels) as real == h * s) by (nonlinear_arith)
        requires
            h == (hundredths as int) as real,
            s == (surface_pixels as int) as real,
    ;
    assert((100 * grid_extent) as real == 100real * e);
    assert((h * s) / (100real * e) == h / 100real / e * s) by (nonlinear_arith)
        requires
            e > 0real,
    ;
}

/// Converts a cell number into the display coordinate of the cell's centre.
pub fn convert(cell: i32, surface_pixels: u32, grid_extent: u32) -> (coordinate: Ratio)
    requires
        grid_extent > 0,
    ensures
        coordinate == spec_convert(cell, surface_pixels, grid_extent),
        coordinate.den > 0,
        coordinate.value() == to_display(cell as int, surface_pixels as real, grid_extent as int),
{
    let offset: i128 = 2 * (cell as i128) + 1 - (grid_extent as i128);
    assert(-0x2_0000_0000 * 0x1_0000_0000 <= surface_pixels * offset <= 0x2_0000_0000
        * 0x1_0000_0000) by (nonlinear_arith)
        requires
            0 <= surface_pixels < 0x1_0000_0000,
            -0x2_0000_0000 <= offset <= 0x2_0000_0000,
    ;
    proof {
        lemma_convert_value(cell, surface_pixels, grid_extent);
    }
    Ratio { num: (surface_pixels as i128) * offset, den: 2 * (grid_extent as i128) }
}

/// Converts a tile size into its display extent.
pub fn scale(hundredths: u32, surface_pixels: u32, grid_extent: u32) -> (factor: Ratio)
    requires
        grid_extent > 0,
    ensures
        factor == spec_scale(hundredths, surface_pixels, grid_extent),
        factor.den > 0,
        factor.value() == to_scale(hundredths as int, surface_pixels as real, grid_extent as int),
{
    assert(0 <= hundredths * surface_pixels <= 0xffff_ffff * 0xffff_ffff) by (nonlinear_arith)
        requires
            0 <= hundredths <= 0xffff_ffff,
            0 <= surface_pixels <= 0xffff_ffff,
    ;
    proof {
        lemma_scale_value(hundredths, surface_pixels, grid_extent);
    }
    Ratio {
        num: (hundredths as i128) * (surface_pixels as i128),
        den: 100 * (grid_extent as i128),
    }
}

/// The scale pass: gives every entity's transform the scale that the
/// entity's size asks for on `surface`.
pub fn size_scaling(surface: Surface, registry: &Registry, transforms: &mut Vec<Transform>)
    ensures
        final(transforms)@ == scaled(old(transforms)@, registry@, surface),
{
    let ghost before = transforms@;
    let count: usize = if registry.len() < transforms.len() {
        registry.len()
    } else {
        transforms.len()
    };
    let mut e: usize = 0;
    while e < count
        invariant
            e <= count,
            count <= registry@.len(),
            count <= before.len(),
            count == registry@.len() || count == before.len(),
            transforms@.len() == before.len(),
            forall|k: int|
                0 <= k < e ==> #[trigger] transforms@[k] == scaled(before, registry@, surface)[k],
            forall|k: int| e <= k < before.len() ==> #[trigger] transforms@[k] == before[k],
        decreases count - e,
    {
        let size = registry.entity(EntityId(e)).size;
        let previous = transforms[e];
        transforms.set(
            e,
            Transform {
                translation: previous.translation,
                scale: Vector3 {
                    x: scale(size.width, surface.width, ARENA_WIDTH),
                    y: scale(size.height, surface.height, ARENA_HEIGHT),
                    z: Ratio { num: 1, den: 1 },
                },
            },
        );
        e += 1;
    }
    assert(transforms@ =~= scaled(before, registry@, surface));
}

/// The position pass: gives every entity's transform the translation of the
/// entity's cell on `surface`.
pub fn position_translation(
    surface: Surface,
    registry: &Registry,
    transforms: &mut Vec<Transform>,
)
    ensures
        final(transforms)@ == translated(old(transforms)@, registry@, surface),
{
    let ghost before = transforms@;
    let count: usize = if registry.len() < transforms.len() {
        registry.len()
    } else {
        transforms.len()
    };
    let mut e: usize = 0;
    while e < count
        invariant
            e <= count,
            count <= registry@.len(),
            count <= before.len(),
            count == registry@.len() || count == before.len(),
            transforms@.len() == before.len(),
            forall|k: int|
                0 <= k < e
                    ==> #[trigger] transforms@[k] == translated(before, registry@, surface)[k],
            forall|k: int| e <= k < before.len() ==> #[trigger] transforms@[k] == before[k],
        decreases count - e,
    {
        let position = registry.position(EntityId(e));
        let previous = transforms[e];
        transforms.set(
            e,
            Transform {
                translation: Vector3 {
                    x: convert(position.x, surface.width, ARENA_WIDTH),
                    y: convert(position.y, surface.height, ARENA_HEIGHT),
                    z: Ratio { num: 0, den: 1 },
                },
                scale: previous.scale,
            },
        );
        e += 1;
    }
    assert(transforms@ =~= translated(before, registry@, surface));
}

/// One cell further along an axis is one tile further on the display, and
/// so strictly further wherever the surface has an extent.
pub proof fn lemma_to_display_step(cell: int, surface_pixels: real, grid_extent: int)
    requires
        grid_extent > 0,
    ensures
        to_display(cell + 1, surface_pixels, grid_extent) - to_display(
            cell,
            surface_pixels,
            grid_extent,
        ) == tile_size(surface_pixels, grid_extent),
        surface_pixels > 0real ==> to_display(cell + 1, surface_pixels, grid_extent) > to_display(
            cell,
            surface_pixels,
            grid_extent,
        ),
{
    let c = cell as real;
    let e = grid_extent as real;
    assert(((cell + 1) as real) == c + 1real);
    assert((c + 1real) / e * surface_pixels - c / e * surface_pixels == surface_pixels / e)
        by (nonlinear_arith)
        requires
            e > 0real,
    ;
    assert(surface_pixels > 0real ==> surface_pixels / e > 0real) by (nonlinear_arith)
        requires
            e > 0real,
    ;
}

/// Running a pass a second time changes nothing, and the two passes give the
/// same transforms in either order.
pub proof fn lemma_passes_idempotent(
    transforms: Seq<Transform>,
    entities: Seq<Entity>,
    surface: Surface,
)
    ensures
        scaled(scaled(transforms, entities, surface), entities, surface)
            == scaled(transforms, entities, surface),
        translated(translated(transforms, entities, surface), entities, surface)
            == translated(transforms, entities, surface),
        scaled(translated(transforms, entities, surface), entities, surface)
            == translated(scaled(transforms, entities, surface), entities, surface),
{
    let once = scaled(transforms, entities, surface);
    let placed = translated(transforms, entities, surface);
    assert(scaled(once, entities, surface) =~= once);
    assert(translated(placed, entities, surface) =~= placed);
    assert(scaled(placed, entities, surface) =~= translated(once, entities, surface));
}

} // verus!
