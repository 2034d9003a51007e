//! Hardware acceleration methods and the filters that run on their devices.
pub mod cuda;
pub mod opencl;
pub mod qsv;
pub mod vaapi;
pub mod vulkan;
pub mod video_toolbox;
