use ffpipeline::ffmpeg_info::{
    hw_accels_from_listing, keep_available, video_filters_from_listing, FfmpegInfo, KnownHardwareAccel, KnownVideoFilter,
};

const HWACCELS: &str = "Hardware acceleration methods:\nvdpau\ncuda\r\nvaapi\n  qsv  \n\nopencl\nvulkan\nfoo:bar\n";

const FILTERS: &str = "Filters:\n  T.. = Timeline support\n ... yadif             V->V       Deinterlace the input image.\n ... scale_cuda        V->V       GPU accelerated video resizer\n ... scale             V->V       Scale the input video size.\n TSC bwdif             V->V       Deinterlace the input image.\n ... tonemap_opencl    V->V       Perform HDR to SDR conversion.\n";

fn strings(v: &[&str]) -> Vec<String> {
    v.iter().map(|s| String::from(*s)).collect()
}

#[test]
fn accel_names() {
    assert_eq!(KnownHardwareAccel::Cuda.as_str(), "cuda");
    assert_eq!(KnownHardwareAccel::VideoToolbox.as_str(), "videotoolbox");
    assert_eq!(KnownHardwareAccel::from_name("vulkan"), Some(KnownHardwareAccel::Vulkan));
    assert_eq!(KnownHardwareAccel::from_name("vdpau"), None);
    assert_eq!(KnownHardwareAccel::from_name("CUDA"), None);
}

#[test]
fn accel_names_round_trip() {
    for a in [
        KnownHardwareAccel::Cuda,
        KnownHardwareAccel::Qsv,
        KnownHardwareAccel::Vaapi,
        KnownHardwareAccel::VideoToolbox,
        KnownHardwareAccel::Vulkan,
        KnownHardwareAccel::Opencl,
    ] {
        assert_eq!(KnownHardwareAccel::from_name(a.as_str()), Some(a));
    }
}

#[test]
fn filter_names_round_trip() {
    for f in [
        KnownVideoFilter::Bwdif,
        KnownVideoFilter::LibPlacebo,
        KnownVideoFilter::PadCuda,
        KnownVideoFilter::PadVaapi,
        KnownVideoFilter::ScaleCuda,
        KnownVideoFilter::ScaleVaapi,
        KnownVideoFilter::ScaleVulkan,
        KnownVideoFilter::TonemapOpencl,
        KnownVideoFilter::VppQsv,
        KnownVideoFilter::W3fdif,
        KnownVideoFilter::Yadif,
    ] {
        assert_eq!(KnownVideoFilter::from_name(f.as_str()), Some(f));
    }
    assert_eq!(KnownVideoFilter::VppQsv.as_str(), "vpp_qsv");
    assert_eq!(KnownVideoFilter::from_name("scale"), None);
}

#[test]
fn accels_from_listing() {
    assert_eq!(hw_accels_from_listing(HWACCELS), vec!["cuda", "vaapi", "qsv", "opencl", "vulkan"]);
    assert!(hw_accels_from_listing("").is_empty());
}

#[test]
fn filters_from_listing() {
    assert_eq!(
        video_filters_from_listing(FILTERS, &Vec::new()),
        vec!["yadif", "scale_cuda", "bwdif", "tonemap_opencl"]
    );
    assert_eq!(
        video_filters_from_listing(FILTERS, &strings(&["scale_cuda", "yadif"])),
        vec!["bwdif", "tonemap_opencl"]
    );
}

#[test]
fn preferred_filters_kept_only_when_available() {
    assert_eq!(
        keep_available(&strings(&["bwdif", "w3fdif", "yadif"]), &strings(&["yadif", "bwdif"])),
        vec!["bwdif", "yadif"]
    );
}

#[test]
fn info_from_listings() {
    let info = FfmpegInfo::from_listings(HWACCELS, FILTERS, &strings(&["yadif"]), &strings(&["yadif", "bwdif"]));
    assert_eq!(info.hwaccels, vec!["cuda", "vaapi", "qsv", "opencl", "vulkan"]);
    assert_eq!(info.video_filters, vec!["scale_cuda", "bwdif", "tonemap_opencl"]);
    assert_eq!(info.preferred_filters, vec!["bwdif"]);
    assert!(info.has_hw_accel(&KnownHardwareAccel::Cuda));
    assert!(!info.has_hw_accel(&KnownHardwareAccel::VideoToolbox));
    assert!(info.has_video_filter(&KnownVideoFilter::ScaleCuda));
    assert!(!info.has_video_filter(&KnownVideoFilter::Yadif));
}

#[test]
fn empty_info_supports_nothing() {
    let info = FfmpegInfo::empty();
    assert!(!info.has_hw_accel(&KnownHardwareAccel::Vulkan));
    assert!(!info.has_video_filter(&KnownVideoFilter::Bwdif));
}

#[test]
fn default_info_supports_nothing() {
    let info = FfmpegInfo::default();
    assert!(info.hwaccels.is_empty());
    assert!(info.video_filters.is_empty());
    assert!(info.preferred_filters.is_empty());
}
