//! Ingestion and normalisation of a point cloud that is spread over many
//! local coordinate frames.
//!
//! A pose document gives each node a 4x4 matrix; a columnar point document
//! gives the points, each in the frame of its node. The library validates
//! the poses, chooses the anchor on which all translations are re-centred,
//! decodes and filters the points, and joins both into a render buffer.
//!
//! Every floating-point quantity is carried as its IEEE 754 bit pattern in an
//! unsigned integer, so that the decisions taken on such values (ordering,
//! finiteness, the exact-zero filter) are plain integer logic. Arithmetic on
//! the numbers themselves is left to the caller.

pub mod bits;
pub mod pose;
pub mod anchor;
pub mod columnar;
pub mod cloud;
pub mod merge;
pub mod pipeline;
