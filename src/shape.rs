//! Ready-made shapes.
use crate::error::VlResult;
use crate::geometry::{rectangle_batch, PathGeometry, Vec4};
use crate::memory::{first_fit, MemoryType};
use crate::path::{compiled, Path};
use crate::pipeline::ONE_F32_BITS;
use vstd::prelude::*;

verus! {

/// Opaque blue, as float bit patterns.
pub open spec fn blue() -> Vec4 {
    Vec4 { x: 0, y: 0, z: ONE_F32_BITS, w: ONE_F32_BITS }
}

/// A quadrilateral given by its corners `x`, `y`, `z`, `w`, drawn in blue.
#[derive(Debug, Clone, Copy, PartialEq, Eq, Structural)]
pub struct Rectangle {
    pub x: Vec4,
    pub y: Vec4,
    pub z: Vec4,
    pub w: Vec4,
}

impl Rectangle {
    pub fn new(x: Vec4, y: Vec4, z: Vec4, w: Vec4) -> (r: Rectangle)
        ensures
            r == (Rectangle { x, y, z, w }),
    {
        Rectangle { x, y, z, w }
    }

    /// Number of vertices.
    pub fn size(&self) -> (r: usize)
        ensures
            r == 4,
    {
        4
    }

    /// Compiles the rectangle into one batch whose corners, in order, are
    /// `x`, `z`, `w`, `y`, all blue.
    pub fn to_path(&self, type_bits: u32, types: &Vec<MemoryType>) -> (r: VlResult<Path>)
        ensures
            (r is Err) == (first_fit(type_bits, types@) is None),
            r is Ok ==> r->Ok_0.wf() && r->Ok_0@ == seq![
                compiled(
                    rectangle_batch(
                        seq![self.x, self.z, self.w, self.y],
                        seq![blue(), blue(), blue(), blue()],
                    ),
                    first_fit(type_bits, types@)->Some_0,
                ),
            ],
    {
        let blue = Vec4 { x: 0, y: 0, z: ONE_F32_BITS, w: ONE_F32_BITS };
        let mut geometry = PathGeometry::new();
        geometry.rectangle([self.x, self.z, self.w, self.y], [blue, blue, blue, blue]);
        proof {
            assert([self.x, self.z, self.w, self.y]@ =~= seq![self.x, self.z, self.w, self.y]);
            assert([blue, blue, blue, blue]@ =~= seq![blue, blue, blue, blue]);
        }
        let r = geometry.into_path(type_bits, types);
        proof {
            if r is Ok {
                assert(r->Ok_0@ =~= seq![
                    compiled(geometry@[0], first_fit(type_bits, types@)->Some_0),
                ]);
            }
        }
        r
    }
}

} // verus!
