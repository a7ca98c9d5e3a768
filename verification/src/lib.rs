//! The discrete core of a Monte Carlo path tracer: the grammar of mesh
//! descriptions, the choice of the nearest surface along a ray, the walk of a
//! light path through its bounces, and the layout of the finished picture.

pub mod film;
pub mod geom;
pub mod material;
pub mod nearest;
pub mod obj;
pub mod path;
pub mod scalar;
pub mod scene;
pub mod statement;
pub mod text;
pub mod vector;
