//! Planning and supervision of a clip-trimming pipeline.
//!
//! A clip is cut out of a video that lies in a local file, behind a plain
//! HTTP(S) address or on a streaming platform, and is optionally fitted to an
//! aspect ratio. The library decides what has to be done and in which order:
//! it parses the time range, classifies the source, names the files, builds
//! the argument lists of the segment tool and of the transcoding engine, and
//! judges what these tools report. The caller performs the actions that touch
//! the network, the file system or another process, and reports back.

pub mod engine;
pub mod error;
pub mod fetch;
pub mod naming;
pub mod pipeline;
pub mod planner;
pub mod readiness;
pub mod runner;
pub mod segment;
pub mod source;
pub mod text;
pub mod time;
