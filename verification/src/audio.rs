//! Audio toolkit: container formats, integer PCM, the frame-decoding loop and
//! the resampling schedule.

pub mod decode;
pub mod format;
pub mod pcm;
pub mod resample;
pub mod transcoder;
