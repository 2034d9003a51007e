//! Building ffmpeg command lines that normalize media for HLS channels.
pub mod accel;
pub mod audio_codec;
pub mod audio_decoder;
pub mod audio_filter;
pub mod capabilities;
pub mod config;
pub mod error;
pub mod ffmpeg_info;
pub mod filter_chain;
pub mod frame_rate;
pub mod frame_size;
pub mod global_option;
pub mod hw_accel;
pub mod input;
pub mod laws;
pub mod output_format;
pub mod output_option;
pub mod output_settings;
pub mod pipeline;
pub mod probe;
pub mod text;
pub mod timespan;
pub mod video_codec;
pub mod video_decoder;
pub mod video_filter;
