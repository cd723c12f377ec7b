//! Writers that embed WebVTT subtitle messages in AV1, H.264 and H.265
//! bitstreams, inside codec-native metadata containers (AV1 Metadata OBUs
//! and H.26x SEI NAL units).

pub mod av1;
pub mod bytes;
pub mod h264;
pub mod h265;
pub mod h26x;
pub mod webvtt;
