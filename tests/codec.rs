use rovhost::codec::VideoCodec::{AV1, H264, H265, VP8, VP9};
use rovhost::codec::VideoCodecProvider::{AVCodec, Native, D3D11, NVCodec, VAAPI};
use rovhost::codec::{ColorspaceConversion, ImageFormat, VideoCodec, VideoCodecProvider, VideoDecoder, VideoEncoder};

#[test]
fn stage_names_per_provider() {
    assert_eq!(NVCodec.format_codec(H264, false), "nvh264dec");
    assert_eq!(AVCodec.format_codec(H265, false), "avdec_h265");
    assert_eq!(AVCodec.format_codec(VP9, true), "avenc_vp9");
    assert_eq!(VAAPI.format_codec(VP8, true), "vaapivp8enc");
    assert_eq!(D3D11.format_codec(AV1, false), "d3d11av1dec");
    assert_eq!(Native.format_codec(H264, true), "x264enc");
    assert_eq!(Native.format_codec(H265, false), "x265dec");
    assert_eq!(Native.format_codec(VP8, false), "vp8dec");
}

#[test]
fn stage_names_never_collide() {
    let mut seen = std::collections::HashSet::new();
    for p in [Native, AVCodec, NVCodec, VAAPI, D3D11] {
        for c in [H264, H265, VP8, VP9, AV1] {
            for e in [false, true] {
                assert!(seen.insert(p.format_codec(c, e)));
            }
        }
    }
    assert_eq!(seen.len(), 50);
}

#[test]
fn depayloader_and_labels() {
    assert_eq!(VideoCodec::H264.depay_name(), "rtph264depay");
    assert_eq!(VideoCodec::AV1.depay_name(), "rtpav1depay");
    assert_eq!(VideoCodec::H265.to_string(), "H.265");
    assert_eq!(VideoCodecProvider::NVCodec.to_string(), "NVIDIA (硬件)");
}

#[test]
fn defaults() {
    assert_eq!(VideoEncoder::default(), VideoEncoder(VideoCodec::H264, VideoCodecProvider::Native));
    assert_eq!(VideoDecoder::default(), VideoDecoder(VideoCodec::H264, VideoCodecProvider::AVCodec));
    assert_eq!(ColorspaceConversion::default(), ColorspaceConversion::CPU);
}

#[test]
fn image_extensions() {
    assert_eq!(ImageFormat::from_extension("jpeg"), Some(ImageFormat::JPEG));
    assert_eq!(ImageFormat::from_extension("jpg"), Some(ImageFormat::JPEG));
    assert_eq!(ImageFormat::from_extension("bmp"), Some(ImageFormat::BMP));
    assert_eq!(ImageFormat::from_extension("gif"), None);
    assert_eq!(ImageFormat::TIFF.extension(), "tiff");
    assert_eq!(ImageFormat::PNG.extension(), "png");
}
