use vstd::prelude::*;

verus! {

/// One grid position: an index into the row-major flattening of a
/// `width x width` grid (`index = row * width + col`).
#[derive(Clone, Copy, PartialEq, Eq, Structural, Debug)]
pub struct SnakeCell(pub usize);

} // verus!
