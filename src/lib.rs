//! Combines two images into one whose RGBA8 pixels alternate between the
//! two sources, after forcing both to the same dimensions.

pub mod bitmap;
pub mod codec;
pub mod compose;
pub mod error;
pub mod output;
pub mod pipeline;
pub mod reconcile;
