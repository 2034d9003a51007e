//! A channel's normalization settings, as its configuration states them.
use vstd::prelude::*;

use crate::accel::cuda::Cuda;
use crate::accel::qsv::Qsv;
use crate::accel::vaapi;
use crate::accel::vulkan::Vulkan;
use crate::accel::video_toolbox::VideoToolbox;
use crate::capabilities::{NvidiaCapabilities, QsvCapabilities, VaapiCapabilities, VideoToolboxCapabilities};
use crate::hw_accel;
use crate::output_settings::AudioLoudnessSettings;
use crate::pipeline;

verus! {

/// Why a channel configuration cannot be used.
#[derive(Clone, Debug, PartialEq)]
pub enum ChannelError {
    ChannelConfigFailure(String),
    ChannelConfigExpandPlayoutFolder,
    ChannelConfigExpandOutputFolder,
}

/// A point in time with its UTC offset, as the `time` crate keeps it.
#[verifier::external_type_specification]
#[verifier::external_body]
pub struct ExOffsetDateTime(time::OffsetDateTime);

/// Where the channel's playout lives, and when its virtual clock starts.
#[derive(Clone, Debug)]
pub struct PlayoutConfig {
    pub folder: String,
    pub virtual_start: Option<time::OffsetDateTime>,
}

/// Where ffmpeg and ffprobe are, and which filters to avoid or prefer.
#[derive(Clone, Debug)]
pub struct FfmpegConfig {
    pub ffmpeg_path: Option<String>,
    pub ffprobe_path: Option<String>,
    pub disabled_filters: Vec<String>,
    pub preferred_filters: Vec<String>,
}

/// The audio format a channel normalizes to.
#[derive(Clone, Copy, Debug, PartialEq, Eq, Structural)]
pub enum AudioFormat {
    Aac,
    Ac3,
}

/// The video format a channel normalizes to.
#[derive(Clone, Copy, Debug, PartialEq, Eq, Structural)]
pub enum VideoFormat {
    H264,
    Hevc,
}

/// The VAAPI driver a channel loads.
#[derive(Clone, Copy, Debug, PartialEq, Eq, Structural)]
pub enum VaapiDriver {
    Ihd,
    I965,
    RadeonSI,
}

/// The hardware acceleration method a channel asks for.
#[derive(Clone, Copy, Debug, PartialEq, Eq, Structural)]
pub enum HardwareAccel {
    Cuda,
    Qsv,
    Vaapi,
    VideoToolbox,
    Vulkan,
}

/// A channel's video normalization settings.
#[derive(Clone, Debug)]
pub struct VideoNormalizationConfig {
    pub format: Option<VideoFormat>,
    pub bit_depth: Option<u8>,
    pub width: Option<u32>,
    pub height: Option<u32>,
    pub bitrate_kbps: Option<u32>,
    pub buffer_kbps: Option<u32>,
    pub accel: Option<HardwareAccel>,
    pub vaapi_device: Option<String>,
    pub vaapi_driver: Option<VaapiDriver>,
    pub tonemap_algorithm: Option<String>,
    pub deinterlace: bool,
}

/// A channel's audio normalization settings; the loudness targets are
/// given as the decimal texts ffmpeg reads.
#[derive(Clone, Debug)]
pub struct AudioNormalizationConfig {
    pub format: Option<AudioFormat>,
    pub bitrate_kbps: Option<u32>,
    pub buffer_kbps: Option<u32>,
    pub channels: Option<u32>,
    pub sample_rate_hz: Option<u32>,
    pub normalize_loudness: bool,
    pub loudness: Option<AudioLoudnessSettings>,
}

/// What a channel normalizes its audio and video to.
#[derive(Clone, Debug)]
pub struct NormalizationConfig {
    pub audio: AudioNormalizationConfig,
    pub video: VideoNormalizationConfig,
}

/// What finalizing a channel configuration settles: the playout and
/// output folders as used, and the channel's number. Only finalizing sets
/// them.
#[derive(Clone, Debug)]
pub struct SettledFolders {
    expanded_playout_folder: String,
    expanded_output_folder: String,
    number: String,
}

/// The texts of settled folders and number.
pub struct SettledFoldersView {
    pub expanded_playout_folder: Seq<char>,
    pub expanded_output_folder: Seq<char>,
    pub number: Seq<char>,
}

impl View for SettledFolders {
    type V = SettledFoldersView;

    closed spec fn view(&self) -> SettledFoldersView {
        SettledFoldersView {
            expanded_playout_folder: self.expanded_playout_folder@,
            expanded_output_folder: self.expanded_output_folder@,
            number: self.number@,
        }
    }
}

/// A channel's configuration, with the folders and number that
/// finalizing it settles.
#[derive(Clone, Debug)]
pub struct ChannelConfig {
    pub playout: PlayoutConfig,
    pub ffmpeg: FfmpegConfig,
    pub normalization: NormalizationConfig,
    pub settled: SettledFolders,
}

/// A channel configuration as its contracts see it: the settings as read,
/// and what finalizing settles (the playout and output folders as used,
/// and the channel's number).
pub struct ChannelConfigView {
    pub playout: PlayoutConfig,
    pub ffmpeg: FfmpegConfig,
    pub normalization: NormalizationConfig,
    pub expanded_playout_folder: Seq<char>,
    pub expanded_output_folder: Seq<char>,
    pub number: Seq<char>,
}

impl View for ChannelConfig {
    type V = ChannelConfigView;

    open spec fn view(&self) -> ChannelConfigView {
        ChannelConfigView {
            playout: self.playout,
            ffmpeg: self.ffmpeg,
            normalization: self.normalization,
            expanded_playout_folder: self.settled@.expanded_playout_folder,
            expanded_output_folder: self.settled@.expanded_output_folder,
            number: self.settled@.number,
        }
    }
}

/// The pipeline's audio format for a configured one.
pub open spec fn pipeline_audio_format(f: AudioFormat) -> pipeline::AudioFormat {
    match f {
        AudioFormat::Aac => pipeline::AudioFormat::Aac,
        AudioFormat::Ac3 => pipeline::AudioFormat::Ac3,
    }
}

/// The pipeline's video format for a configured one.
pub open spec fn pipeline_video_format(f: VideoFormat) -> pipeline::VideoFormat {
    match f {
        VideoFormat::H264 => pipeline::VideoFormat::H264,
        VideoFormat::Hevc => pipeline::VideoFormat::Hevc,
    }
}

/// The pipeline's VAAPI driver for a configured one.
pub open spec fn pipeline_vaapi_driver(d: VaapiDriver) -> vaapi::VaapiDriver {
    match d {
        VaapiDriver::Ihd => vaapi::VaapiDriver::Ihd,
        VaapiDriver::I965 => vaapi::VaapiDriver::I965,
        VaapiDriver::RadeonSI => vaapi::VaapiDriver::RadeonSI,
    }
}

impl From<AudioFormat> for pipeline::AudioFormat {
    fn from(value: AudioFormat) -> (res: Self) {
        match value {
            AudioFormat::Aac => pipeline::AudioFormat::Aac,
            AudioFormat::Ac3 => pipeline::AudioFormat::Ac3,
        }
    }
}

impl vstd::std_specs::convert::FromSpecImpl<AudioFormat> for pipeline::AudioFormat {
    open spec fn obeys_from_spec() -> bool {
        true
    }

    open spec fn from_spec(value: AudioFormat) -> Self {
        pipeline_audio_format(value)
    }
}

impl From<VideoFormat> for pipeline::VideoFormat {
    fn from(value: VideoFormat) -> (res: Self) {
        match value {
            VideoFormat::H264 => pipeline::VideoFormat::H264,
            VideoFormat::Hevc => pipeline::VideoFormat::Hevc,
        }
    }
}

impl vstd::std_specs::convert::FromSpecImpl<VideoFormat> for pipeline::VideoFormat {
    open spec fn obeys_from_spec() -> bool {
        true
    }

    open spec fn from_spec(value: VideoFormat) -> Self {
        pipeline_video_format(value)
    }
}

impl From<VaapiDriver> for vaapi::VaapiDriver {
    fn from(value: VaapiDriver) -> (res: Self) {
        match value {
            VaapiDriver::Ihd => vaapi::VaapiDriver::Ihd,
            VaapiDriver::I965 => vaapi::VaapiDriver::I965,
            VaapiDriver::RadeonSI => vaapi::VaapiDriver::RadeonSI,
        }
    }
}

impl vstd::std_specs::convert::FromSpecImpl<VaapiDriver> for vaapi::VaapiDriver {
    open spec fn obeys_from_spec() -> bool {
        true
    }

    open spec fn from_spec(value: VaapiDriver) -> Self {
        pipeline_vaapi_driver(value)
    }
}

/// Whether a configured bit depth is acceptable: absent, 8 or 10.
pub open spec fn bit_depth_valid(bit_depth: Option<u8>) -> bool {
    match bit_depth {
        Some(n) => n == 8 || n == 10,
        None => true,
    }
}

/// A configured bit depth, or the error that a depth other than 8 or 10
/// gives.
pub fn check_bit_depth(bit_depth: Option<u8>) -> (res: Result<Option<u8>, String>)
    ensures
        bit_depth_valid(bit_depth) ==> res == Ok::<Option<u8>, String>(bit_depth),
        !bit_depth_valid(bit_depth) ==> (res matches Err(msg) && msg@ == "bit_depth must be 8 or 10"@),
{
    match bit_depth {
        Some(n) => {
            if n != 8 && n != 10 {
                return Err(String::from_str("bit_depth must be 8 or 10"));
            }
            Ok(bit_depth)
        },
        None => Ok(bit_depth),
    }
}

/// A configured path, where an empty one counts as absent.
pub fn non_empty_path(path: Option<String>) -> (res: Option<String>)
    ensures
        res == match path {
            Some(p) => if p@.len() == 0 {
                None
            } else {
                Some(p)
            },
            None => None,
        },
{
    match path {
        Some(p) => {
            if p.as_str().unicode_len() == 0 {
                None
            } else {
                Some(p)
            }
        },
        None => None,
    }
}

/// Video normalization needs a bit depth: a configuration that asks for a
/// video format without one is refused.
pub fn check_video_normalization(video: &VideoNormalizationConfig) -> (res: Result<(), ChannelError>)
    ensures
        (video.format is Some && video.bit_depth is None) ==> (res matches Err(ChannelError::ChannelConfigFailure(msg))
            && msg@ == "bit_depth is required when normalizing video"@),
        !(video.format is Some && video.bit_depth is None) ==> res == Ok::<(), ChannelError>(()),
{
    if video.format.is_some() && video.bit_depth.is_none() {
        return Err(ChannelError::ChannelConfigFailure(String::from_str("bit_depth is required when normalizing video")));
    }
    Ok(())
}

/// What probing the host's device found: the capabilities of the probed
/// device, or that the probe failed.
#[derive(Clone, Debug)]
pub enum ProbedCapabilities {
    Nvidia(NvidiaCapabilities),
    Qsv(QsvCapabilities),
    Vaapi(VaapiCapabilities),
    VideoToolbox(VideoToolboxCapabilities),
    Failed,
}

/// The VAAPI device and driver to probe: both must be configured.
pub open spec fn vaapi_target_of(video: VideoNormalizationConfig) -> Option<(String, VaapiDriver)> {
    match (video.vaapi_device, video.vaapi_driver) {
        (Some(d), Some(r)) => Some((d, r)),
        _ => None,
    }
}

/// The accelerator a configured method gives, from what probing found:
/// CUDA, QSV and VideoToolbox from their device's capabilities; VAAPI from
/// the configured device and driver when the device exists and its probe
/// succeeded; Vulkan needs no probe.
pub open spec fn pipeline_accel_for(
    kind: HardwareAccel,
    video: VideoNormalizationConfig,
    device_exists: bool,
    probed: ProbedCapabilities,
    res: Option<hw_accel::HardwareAccel>,
) -> bool {
    match kind {
        HardwareAccel::Cuda => match probed {
            ProbedCapabilities::Nvidia(c) => res matches Some(hw_accel::HardwareAccel::Cuda(x)) && x.capabilities == c
                && !x.is_vulkan_hdr,
            _ => res is None,
        },
        HardwareAccel::Qsv => match probed {
            ProbedCapabilities::Qsv(c) => res matches Some(hw_accel::HardwareAccel::Qsv(x)) && x.capabilities == c,
            _ => res is None,
        },
        HardwareAccel::Vaapi => match (vaapi_target_of(video), probed) {
            (Some((device, driver)), ProbedCapabilities::Vaapi(c)) => if device_exists {
                res matches Some(hw_accel::HardwareAccel::Vaapi(x)) && x.device == device && x.driver
                    == pipeline_vaapi_driver(driver) && x.capabilities == c
            } else {
                res is None
            },
            _ => res is None,
        },
        HardwareAccel::VideoToolbox => match probed {
            ProbedCapabilities::VideoToolbox(c) => res matches Some(hw_accel::HardwareAccel::VideoToolbox(x))
                && x.capabilities == c,
            _ => res is None,
        },
        HardwareAccel::Vulkan => res matches Some(hw_accel::HardwareAccel::Vulkan(_)),
    }
}

impl HardwareAccel {
    /// The VAAPI device and driver to probe, when both are configured.
    pub fn vaapi_target(video: &VideoNormalizationConfig) -> (res: Option<(String, VaapiDriver)>)
        ensures
            res == vaapi_target_of(*video),
    {
        match (&video.vaapi_device, &video.vaapi_driver) {
            (Some(d), Some(r)) => Some((d.clone(), *r)),
            _ => None,
        }
    }

    /// The pipeline's accelerator for this method, from what probing found
    /// (`device_exists` tells whether the channel's VAAPI device exists).
    pub fn to_pipeline(
        &self,
        channel_config: &ChannelConfig,
        device_exists: bool,
        probed: ProbedCapabilities,
    ) -> (res: Option<hw_accel::HardwareAccel>)
        ensures
            pipeline_accel_for(*self, channel_config.normalization.video, device_exists, probed, res),
    {
        let video = &channel_config.normalization.video;
        match self {
            HardwareAccel::Cuda => match probed {
                ProbedCapabilities::Nvidia(capabilities) => Some(hw_accel::HardwareAccel::Cuda(Cuda::new(capabilities))),
                _ => None,
            },
            HardwareAccel::Qsv => match probed {
                ProbedCapabilities::Qsv(capabilities) => Some(hw_accel::HardwareAccel::Qsv(Qsv { capabilities })),
                _ => None,
            },
            HardwareAccel::Vaapi => match (Self::vaapi_target(video), probed) {
                (Some((device, driver)), ProbedCapabilities::Vaapi(capabilities)) => {
                    if device_exists {
                        Some(
                            hw_accel::HardwareAccel::Vaapi(
                                vaapi::Vaapi { device, driver: vaapi::VaapiDriver::from(driver), capabilities },
                            ),
                        )
                    } else {
                        None
                    }
                },
                _ => None,
            },
            HardwareAccel::VideoToolbox => match probed {
                ProbedCapabilities::VideoToolbox(capabilities) => Some(
                    hw_accel::HardwareAccel::VideoToolbox(VideoToolbox::new(capabilities)),
                ),
                _ => None,
            },
            HardwareAccel::Vulkan => Some(hw_accel::HardwareAccel::Vulkan(Vulkan)),
        }
    }
}

/// Whether a path names a home directory with a leading `~`.
pub open spec fn begins_with_tilde(path: Seq<char>) -> bool {
    path.len() > 0 && path[0] == '~'
}

/// `simple_expand_tilde::expand_tilde`: a path whose first component is
/// `~` gets the user's home directory in its place; any other path is
/// returned unchanged. The home directory comes from the environment, so
/// nothing is stated of the result for a path that begins with `~`, and a
/// result that is not valid UTF-8 is given as `None`.
#[verifier::external_body]
fn expand_tilde_text(path: &str) -> (res: Option<String>)
    ensures
        !begins_with_tilde(path@) ==> res.is_some() && res.unwrap()@ == path@,
{
    let expanded = simple_expand_tilde::expand_tilde(path)?;
    expanded.into_os_string().into_string().ok()
}

/// The result of expanding a folder: the expanded path, or `err` when it
/// cannot be expanded.
pub fn expansion_or(expanded: Option<String>, err: ChannelError) -> (res: Result<String, ChannelError>)
    ensures
        res == match expanded {
            Some(p) => Ok::<String, ChannelError>(p),
            None => Err(err),
        },
{
    match expanded {
        Some(p) => Ok(p),
        None => Err(err),
    }
}

/// The playout folder with a leading `~` expanded.
pub fn expand_playout_folder(folder: &str) -> (res: Result<String, ChannelError>)
    ensures
        !begins_with_tilde(folder@) ==> (res matches Ok(p) && p@ == folder@),
        res is Err ==> res == Err::<String, ChannelError>(ChannelError::ChannelConfigExpandPlayoutFolder),
{
    expansion_or(expand_tilde_text(folder), ChannelError::ChannelConfigExpandPlayoutFolder)
}

/// The output folder with a leading `~` expanded.
pub fn expand_output_folder(folder: &str) -> (res: Result<String, ChannelError>)
    ensures
        !begins_with_tilde(folder@) ==> (res matches Ok(p) && p@ == folder@),
        res is Err ==> res == Err::<String, ChannelError>(ChannelError::ChannelConfigExpandOutputFolder),
{
    expansion_or(expand_tilde_text(folder), ChannelError::ChannelConfigExpandOutputFolder)
}

/// Whether a configuration asks for a video format without a bit depth.
pub open spec fn missing_bit_depth(video: VideoNormalizationConfig) -> bool {
    video.format is Some && video.bit_depth is None
}

impl ChannelConfig {
    /// A configuration as read, not yet finalized: its folders and number
    /// are empty.
    pub fn new(playout: PlayoutConfig, ffmpeg: FfmpegConfig, normalization: NormalizationConfig) -> (res: ChannelConfig)
        ensures
            res@.playout == playout,
            res@.ffmpeg == ffmpeg,
            res@.normalization == normalization,
            res@.expanded_playout_folder == Seq::<char>::empty(),
            res@.expanded_output_folder == Seq::<char>::empty(),
            res@.number == Seq::<char>::empty(),
    {
        ChannelConfig {
            playout,
            ffmpeg,
            normalization,
            settled: SettledFolders {
                expanded_playout_folder: String::new(),
                expanded_output_folder: String::new(),
                number: String::new(),
            },
        }
    }

    /// The first step of finalizing: a configuration that normalizes video
    /// without a bit depth is refused; otherwise the playout folder, with a
    /// leading `~` expanded. A relative folder is still to be resolved
    /// against the folder the configuration came from.
    pub fn playout_folder_to_resolve(&self) -> (res: Result<String, ChannelError>)
        ensures
            missing_bit_depth(self@.normalization.video) ==> (res matches Err(ChannelError::ChannelConfigFailure(msg))
                && msg@ == "bit_depth is required when normalizing video"@),
            !missing_bit_depth(self@.normalization.video) && !begins_with_tilde(self@.playout.folder@) ==> (res matches Ok(
                p,
            ) && p@ == self@.playout.folder@),
            !missing_bit_depth(self@.normalization.video) && res is Err ==> res == Err::<String, ChannelError>(
                ChannelError::ChannelConfigExpandPlayoutFolder,
            ),
    {
        match check_video_normalization(&self.normalization.video) {
            Ok(()) => {},
            Err(e) => {
                return Err(e);
            },
        }
        expand_playout_folder(self.playout.folder.as_str())
    }

    /// The last step of finalizing: a configuration that normalizes video
    /// without a bit depth is refused and left as it was; otherwise the
    /// resolved playout folder, the expanded output folder (as
    /// `expand_output_folder` gives it) and the channel's number are
    /// recorded.
    pub fn finalize(&mut self, playout_folder: String, expanded_output_folder: String, number: &str) -> (res: Result<
        (),
        ChannelError,
    >)
        ensures
            final(self)@.playout == old(self)@.playout,
            final(self)@.ffmpeg == old(self)@.ffmpeg,
            final(self)@.normalization == old(self)@.normalization,
            missing_bit_depth(old(self)@.normalization.video) ==> (res matches Err(
                ChannelError::ChannelConfigFailure(msg),
            ) && msg@ == "bit_depth is required when normalizing video"@) && final(self)@ == old(self)@,
            !missing_bit_depth(old(self)@.normalization.video) ==> res is Ok,
            res is Ok ==> final(self)@.expanded_playout_folder == playout_folder@
                && final(self)@.expanded_output_folder == expanded_output_folder@ && final(self)@.number == number@,
    {
        match check_video_normalization(&self.normalization.video) {
            Ok(()) => {},
            Err(e) => {
                return Err(e);
            },
        }
        self.settled.expanded_playout_folder = playout_folder;
        self.settled.expanded_output_folder = expanded_output_folder;
        self.settled.number = number.to_string();
        Ok(())
    }

    /// The playout folder the channel reads from.
    pub fn expanded_playout_folder(&self) -> (res: &str)
        ensures
            res@ == self@.expanded_playout_folder,
    {
        self.settled.expanded_playout_folder.as_str()
    }

    /// The folder the channel writes to.
    pub fn expanded_output_folder(&self) -> (res: &str)
        ensures
            res@ == self@.expanded_output_folder,
    {
        self.settled.expanded_output_folder.as_str()
    }

    /// The channel's number.
    pub fn number(&self) -> (res: &str)
        ensures
            res@ == self@.number,
    {
        self.settled.number.as_str()
    }
}

} // verus!
