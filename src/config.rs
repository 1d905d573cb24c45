//! The per-vehicle video configuration and the rules that keep it
//! consistent when the operator edits it.

use vstd::prelude::*;
use crate::codec::{
    ColorspaceConversion, VideoAlgorithm, VideoCodec, VideoCodecProvider, VideoDecoder, VideoEncoder,
};

verus! {

/// A configuration snapshot. Decoding by URI has no pre-decode tee, so a
/// recording must then be re-encoded: `use_decodebin` implies
/// `reencode_recording_video` once any edit touched either.
#[derive(Debug)]
pub struct SlaveConfigModel {
    pub polling: Option<bool>,
    pub connected: Option<bool>,
    pub slave_url: String,
    pub video_url: String,
    pub video_algorithm: Option<VideoAlgorithm>,
    pub keep_video_display_ratio: bool,
    pub video_decoder: VideoDecoder,
    pub colorspace_conversion: ColorspaceConversion,
    pub swap_xy: bool,
    pub use_decodebin: bool,
    pub video_encoder: VideoEncoder,
    pub reencode_recording_video: bool,
    pub appsink_queue_leaky_enabled: bool,
    pub video_latency: u32,
}

/// An edit of the configuration.
#[derive(Debug)]
pub enum SlaveConfigMsg {
    /// New display ratio and latency defaults from the preferences.
    UpdatePreferences(bool, u32),
    SetVideoUrl(String),
    SetSlaveUrl(String),
    SetKeepVideoDisplayRatio(bool),
    SetPolling(Option<bool>),
    SetConnected(Option<bool>),
    SetVideoAlgorithm(Option<VideoAlgorithm>),
    SetVideoDecoder(VideoDecoder),
    SetColorspaceConversion(ColorspaceConversion),
    SetVideoDecoderCodec(VideoCodec),
    SetVideoDecoderCodecProvider(VideoCodecProvider),
    SetSwapXY(bool),
    SetUsePlaybin(bool),
    SetVideoEncoderCodec(VideoCodec),
    SetVideoEncoderCodecProvider(VideoCodecProvider),
    SetReencodeRecordingVideo(bool),
    SetAppSinkQueueLeakyEnabled(bool),
    SetVideoLatency(u32),
}

/// The configuration after an edit.
pub open spec fn edited(c: SlaveConfigModel, m: SlaveConfigMsg) -> SlaveConfigModel {
    match m {
        SlaveConfigMsg::UpdatePreferences(keep, latency) => SlaveConfigModel {
            keep_video_display_ratio: keep,
            video_latency: latency,
            ..c
        },
        SlaveConfigMsg::SetVideoUrl(u) => SlaveConfigModel { video_url: u, ..c },
        SlaveConfigMsg::SetSlaveUrl(u) => SlaveConfigModel { slave_url: u, ..c },
        SlaveConfigMsg::SetKeepVideoDisplayRatio(v) => SlaveConfigModel { keep_video_display_ratio: v, ..c },
        SlaveConfigMsg::SetPolling(p) => SlaveConfigModel { polling: p, ..c },
        SlaveConfigMsg::SetConnected(v) => SlaveConfigModel { connected: v, ..c },
        SlaveConfigMsg::SetVideoAlgorithm(a) => SlaveConfigModel { video_algorithm: a, ..c },
        SlaveConfigMsg::SetVideoDecoder(d) => SlaveConfigModel { video_decoder: d, ..c },
        SlaveConfigMsg::SetColorspaceConversion(v) => SlaveConfigModel { colorspace_conversion: v, ..c },
        SlaveConfigMsg::SetVideoDecoderCodec(k) => SlaveConfigModel {
            video_decoder: VideoDecoder(k, c.video_decoder.1),
            ..c
        },
        SlaveConfigMsg::SetVideoDecoderCodecProvider(p) => SlaveConfigModel {
            video_decoder: VideoDecoder(c.video_decoder.0, p),
            ..c
        },
        SlaveConfigMsg::SetSwapXY(v) => SlaveConfigModel { swap_xy: v, ..c },
        SlaveConfigMsg::SetUsePlaybin(v) => SlaveConfigModel {
            use_decodebin: v,
            reencode_recording_video: v || c.reencode_recording_video,
            ..c
        },
        SlaveConfigMsg::SetVideoEncoderCodec(k) => SlaveConfigModel {
            video_encoder: VideoEncoder(k, c.video_encoder.1),
            ..c
        },
        SlaveConfigMsg::SetVideoEncoderCodecProvider(p) => SlaveConfigModel {
            video_encoder: VideoEncoder(c.video_encoder.0, p),
            ..c
        },
        SlaveConfigMsg::SetReencodeRecordingVideo(v) => SlaveConfigModel {
            reencode_recording_video: v,
            use_decodebin: v && c.use_decodebin,
            ..c
        },
        SlaveConfigMsg::SetAppSinkQueueLeakyEnabled(v) => SlaveConfigModel { appsink_queue_leaky_enabled: v, ..c },
        SlaveConfigMsg::SetVideoLatency(l) => SlaveConfigModel { video_latency: l, ..c },
    }
}

impl SlaveConfigModel {
    /// Decoding by URI goes with re-encoded recordings.
    pub open spec fn consistent(&self) -> bool {
        self.use_decodebin ==> self.reencode_recording_video
    }

    /// Applies one edit.
    pub fn update(&mut self, message: SlaveConfigMsg)
        ensures
            *final(self) == edited(*old(self), message),
    {
        match message {
            SlaveConfigMsg::UpdatePreferences(keep, latency) => {
                self.keep_video_display_ratio = keep;
                self.video_latency = latency;
            },
            SlaveConfigMsg::SetVideoUrl(u) => self.video_url = u,
            SlaveConfigMsg::SetSlaveUrl(u) => self.slave_url = u,
            SlaveConfigMsg::SetKeepVideoDisplayRatio(v) => self.keep_video_display_ratio = v,
            SlaveConfigMsg::SetPolling(p) => self.polling = p,
            SlaveConfigMsg::SetConnected(v) => self.connected = v,
            SlaveConfigMsg::SetVideoAlgorithm(a) => self.video_algorithm = a,
            SlaveConfigMsg::SetVideoDecoder(d) => self.video_decoder = d,
            SlaveConfigMsg::SetColorspaceConversion(v) => self.colorspace_conversion = v,
            SlaveConfigMsg::SetVideoDecoderCodec(k) => self.video_decoder.0 = k,
            SlaveConfigMsg::SetVideoDecoderCodecProvider(p) => self.video_decoder.1 = p,
            SlaveConfigMsg::SetSwapXY(v) => self.swap_xy = v,
            SlaveConfigMsg::SetUsePlaybin(v) => {
                if v {
                    self.reencode_recording_video = true;
                }
                self.use_decodebin = v;
            },
            SlaveConfigMsg::SetVideoEncoderCodec(k) => self.video_encoder.0 = k,
            SlaveConfigMsg::SetVideoEncoderCodecProvider(p) => self.video_encoder.1 = p,
            SlaveConfigMsg::SetReencodeRecordingVideo(v) => {
                if !v {
                    self.use_decodebin = false;
                }
                self.reencode_recording_video = v;
            },
            SlaveConfigMsg::SetAppSinkQueueLeakyEnabled(v) => self.appsink_queue_leaky_enabled = v,
            SlaveConfigMsg::SetVideoLatency(l) => self.video_latency = l,
        }
    }
}

/// Every edit keeps a consistent configuration consistent, and the two edits
/// that touch decoding by URI or re-encoding make it consistent.
pub proof fn lemma_edits_keep_consistency(c: SlaveConfigModel, m: SlaveConfigMsg)
    ensures
        c.consistent() ==> edited(c, m).consistent(),
        m matches SlaveConfigMsg::SetUsePlaybin(_) ==> edited(c, m).consistent(),
        m matches SlaveConfigMsg::SetReencodeRecordingVideo(_) ==> edited(c, m).consistent(),
{
}

} // verus!
