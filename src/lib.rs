//! Cutting time ranges out of a video with an external transcoding tool and
//! reassembling them into one file or one file per range, with every
//! temporary file removed on every path.
pub mod error;
pub mod pipeline;
pub mod segment;
pub mod target;
pub mod timecode;
pub mod tool;
