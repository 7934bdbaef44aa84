use vstd::prelude::*;
use crate::motion::UNIT;

verus! {

/// A corner of the drawn shape: its position `(x, y)` and texture
/// coordinates `(u, v)`, all in `UNIT` steps.
#[derive(Clone, Copy, Debug, PartialEq, Eq, Structural)]
pub struct Vertex {
    pub x: i64,
    pub y: i64,
    pub u: i64,
    pub v: i64,
}

/// Half the side of the quad, 0.5.
pub const HALF: i64 = 5000;

pub open spec fn quad_corners() -> Seq<Vertex> {
    let lo = (-HALF) as i64;
    seq![
        Vertex { x: lo, y: lo, u: 0, v: 0 },
        Vertex { x: lo, y: HALF, u: UNIT, v: 0 },
        Vertex { x: HALF, y: lo, u: 0, v: UNIT },
        Vertex { x: HALF, y: HALF, u: UNIT, v: UNIT },
    ]
}

/// The textured quad: a square of side one centred on the origin, its four
/// corners each carrying a corner of the texture.
pub fn quad_vertices() -> (r: Vec<Vertex>)
    ensures
        r@ == quad_corners(),
{
    let lo: i64 = -HALF;
    let r = vec![
        Vertex { x: lo, y: lo, u: 0, v: 0 },
        Vertex { x: lo, y: HALF, u: UNIT, v: 0 },
        Vertex { x: HALF, y: lo, u: 0, v: UNIT },
        Vertex { x: HALF, y: HALF, u: UNIT, v: UNIT },
    ];
    assert(r@ =~= quad_corners());
    r
}

/// The quad as a list of two triangles, each index naming a corner of
/// `quad_vertices`.
pub fn quad_indices() -> (r: Vec<u16>)
    ensures
        r@ == seq![0u16, 1, 2, 1, 3, 2],
        r@.len() % 3 == 0,
        forall|i: int| 0 <= i < r@.len() ==> (r@[i] as int) < quad_corners().len(),
{
    let r: Vec<u16> = vec![0, 1, 2, 1, 3, 2];
    assert(r@ =~= seq![0u16, 1, 2, 1, 3, 2]);
    r
}

} // verus!
