//! Verified core of a live-video face presence and identity verification
//! pipeline: geometric candidate validation, region normalization to a fixed
//! 128x128 single-channel face, similarity scoring, and the identity decision
//! policy. Frame acquisition, the face detector itself, and on-screen
//! rendering are external collaborators handled outside this crate.

pub mod geometry;
pub mod image;
pub mod resize;
pub mod pipeline;
pub mod score;
pub mod util;
