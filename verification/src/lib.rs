//! Coordinate geometry and grid traversal over discrete unsigned 2D/3D
//! lattices: lattice points, rectangular grids of arbitrary cell type,
//! axis-aligned bounding rectangles over point sets, and bounded neighbour
//! enumeration (orthogonal and diagonal adjacency) that never under- or
//! overflows on the coordinate arithmetic.

pub mod border;
pub mod direction;
pub mod map;
pub mod parse;
pub mod points;
