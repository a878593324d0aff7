//! A live-reloading fragment-shader playground: the fragment shader is
//! assembled from fixed text and watched files, rebuilt when a file changes,
//! and played back on a virtual clock that can be paused and scrubbed.
use vstd::prelude::*;

pub mod config;
pub mod diagnostic;
pub mod dirty;
pub mod playback;
pub mod shader;
pub mod text;

pub use config::{FFmpegConf, FragConf, Preset, Tune};

verus! {

} // verus!
