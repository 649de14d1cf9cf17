//! A composable, randomized image-augmentation pipeline.
//!
//! Transform strategies (geometric flips, color perturbation, blur) are
//! configured once, validated eagerly, and composed into ordered pipelines.
//! Applying a pipeline draws one concrete sequence of primitive transforms
//! (a plan) and folds it over an image. Transforms with integer parameters
//! are carried out here through the `image` crate; the two transforms whose
//! image-service parameters are fractional are handed to the embedding
//! application one at a time, since this library's verified code works on
//! integer values only.
//!
//! The execution engine distributes independent jobs over a fixed set of
//! workers, duplicating the pipeline once per worker — never per job — and
//! reusing each worker's scratch buffer across all of its jobs.

pub mod augmenters;
pub mod engine;
pub mod image_data;
pub mod laws;
pub mod ops;
pub mod pipeline;
pub mod runner;
pub mod service;
pub mod traits;
