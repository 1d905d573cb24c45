use rovhost::codec::{ColorspaceConversion, VideoCodec, VideoCodecProvider, VideoDecoder, VideoEncoder};
use rovhost::config::{SlaveConfigModel, SlaveConfigMsg};

fn base() -> SlaveConfigModel {
    SlaveConfigModel {
        polling: Some(false),
        connected: Some(false),
        slave_url: "http://192.168.137.219:8888".to_string(),
        video_url: "rtp://127.0.0.1:5600?encoding-name=H264".to_string(),
        video_algorithm: None,
        keep_video_display_ratio: true,
        video_decoder: VideoDecoder::default(),
        colorspace_conversion: ColorspaceConversion::CPU,
        swap_xy: false,
        use_decodebin: false,
        video_encoder: VideoEncoder::default(),
        reencode_recording_video: false,
        appsink_queue_leaky_enabled: false,
        video_latency: 200,
    }
}

#[test]
fn decodebin_forces_reencoding() {
    let mut c = base();
    c.update(SlaveConfigMsg::SetUsePlaybin(true));
    assert!(c.use_decodebin && c.reencode_recording_video);
    c.update(SlaveConfigMsg::SetReencodeRecordingVideo(false));
    assert!(!c.use_decodebin && !c.reencode_recording_video);
}

#[test]
fn codec_edits_touch_one_half() {
    let mut c = base();
    c.update(SlaveConfigMsg::SetVideoDecoderCodecProvider(VideoCodecProvider::VAAPI));
    assert_eq!(c.video_decoder, VideoDecoder(VideoCodec::H264, VideoCodecProvider::VAAPI));
    c.update(SlaveConfigMsg::SetVideoEncoderCodec(VideoCodec::VP9));
    assert_eq!(c.video_encoder, VideoEncoder(VideoCodec::VP9, VideoCodecProvider::Native));
    c.update(SlaveConfigMsg::UpdatePreferences(false, 0));
    assert!(!c.keep_video_display_ratio);
    assert_eq!(c.video_latency, 0);
}
