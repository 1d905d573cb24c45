//! Codecs, codec providers, colorspace backends and the native stage names
//! that they resolve to.

use vstd::prelude::*;
use vstd::string::StringExecFns;

verus! {

/// A video compression format.
#[derive(PartialEq, Eq, Structural, Clone, Copy, Debug)]
pub enum VideoCodec {
    H264,
    H265,
    VP8,
    VP9,
    AV1,
}

/// An implementation family of encoders and decoders.
#[derive(PartialEq, Eq, Structural, Clone, Copy, Debug)]
pub enum VideoCodecProvider {
    Native,
    AVCodec,
    NVCodec,
    VAAPI,
    D3D11,
}

/// The short lower-case name of a codec, as native stage names spell it.
pub open spec fn codec_name(c: VideoCodec) -> Seq<char> {
    match c {
        VideoCodec::H264 => "h264"@,
        VideoCodec::H265 => "h265"@,
        VideoCodec::VP8 => "vp8"@,
        VideoCodec::VP9 => "vp9"@,
        VideoCodec::AV1 => "av1"@,
    }
}

pub open spec fn direction_suffix(encode: bool) -> Seq<char> {
    if encode {
        "enc"@
    } else {
        "dec"@
    }
}

/// The native stage that encodes (`encode`) or decodes `codec` through `provider`.
pub open spec fn codec_stage_name(
    provider: VideoCodecProvider,
    codec: VideoCodec,
    encode: bool,
) -> Seq<char> {
    match provider {
        VideoCodecProvider::NVCodec => "nv"@ + codec_name(codec) + direction_suffix(encode),
        VideoCodecProvider::AVCodec => "av"@ + direction_suffix(encode) + "_"@ + codec_name(codec),
        VideoCodecProvider::VAAPI => "vaapi"@ + codec_name(codec) + direction_suffix(encode),
        VideoCodecProvider::D3D11 => "d3d11"@ + codec_name(codec) + direction_suffix(encode),
        VideoCodecProvider::Native => match codec {
            VideoCodec::H264 => "x264"@ + direction_suffix(encode),
            VideoCodec::H265 => "x265"@ + direction_suffix(encode),
            _ => codec_name(codec) + direction_suffix(encode),
        },
    }
}

/// The RTP depayloader stage of a codec.
pub open spec fn depay_stage_name(codec: VideoCodec) -> Seq<char> {
    "rtp"@ + codec_name(codec) + "depay"@
}

/// The bitstream parser that a codec needs in front of its decoder or muxer.
pub open spec fn parser_stage_name(codec: VideoCodec) -> Option<Seq<char>> {
    match codec {
        VideoCodec::H264 => Some("h264parse"@),
        VideoCodec::H265 => Some("h265parse"@),
        _ => None,
    }
}

impl VideoCodec {
    pub fn name(&self) -> (r: &'static str)
        ensures
            r@ == codec_name(*self),
    {
        match self {
            VideoCodec::H264 => "h264",
            VideoCodec::H265 => "h265",
            VideoCodec::VP8 => "vp8",
            VideoCodec::VP9 => "vp9",
            VideoCodec::AV1 => "av1",
        }
    }

    pub fn depay_name(&self) -> (r: String)
        ensures
            r@ == depay_stage_name(*self),
    {
        let mut s = String::from_str("rtp");
        s.append(self.name());
        s.append("depay");
        s
    }

    pub fn parser_name(&self) -> (r: Option<&'static str>)
        ensures
            r matches Some(n) <==> parser_stage_name(*self) is Some,
            r matches Some(n) ==> parser_stage_name(*self) == Some(n@),
    {
        match self {
            VideoCodec::H264 => Some("h264parse"),
            VideoCodec::H265 => Some("h265parse"),
            _ => None,
        }
    }
}

fn direction(encode: bool) -> (r: &'static str)
    ensures
        r@ == direction_suffix(encode),
{
    if encode {
        "enc"
    } else {
        "dec"
    }
}

impl VideoCodecProvider {
    /// The native stage that encodes or decodes `codec` with this provider.
    pub fn format_codec(&self, codec: VideoCodec, encode: bool) -> (r: String)
        ensures
            r@ == codec_stage_name(*self, codec, encode),
    {
        let d = direction(encode);
        match self {
            VideoCodecProvider::NVCodec => {
                let mut s = String::from_str("nv");
                s.append(codec.name());
                s.append(d);
                s
            },
            VideoCodecProvider::AVCodec => {
                let mut s = String::from_str("av");
                s.append(d);
                s.append("_");
                s.append(codec.name());
                s
            },
            VideoCodecProvider::VAAPI => {
                let mut s = String::from_str("vaapi");
                s.append(codec.name());
                s.append(d);
                s
            },
            VideoCodecProvider::D3D11 => {
                let mut s = String::from_str("d3d11");
                s.append(codec.name());
                s.append(d);
                s
            },
            VideoCodecProvider::Native => match codec {
                VideoCodec::H264 => {
                    let mut s = String::from_str("x264");
                    s.append(d);
                    s
                },
                VideoCodec::H265 => {
                    let mut s = String::from_str("x265");
                    s.append(d);
                    s
                },
                _ => {
                    let mut s = String::from_str(codec.name());
                    s.append(d);
                    s
                },
            },
        }
    }
}


impl VideoCodec {
    /// The label shown to the operator.
    pub fn to_string(&self) -> (r: String)
        ensures
            r@ == codec_label(*self),
    {
        match self {
            VideoCodec::H264 => String::from_str("H.264"),
            VideoCodec::H265 => String::from_str("H.265"),
            VideoCodec::VP8 => String::from_str("VP8"),
            VideoCodec::VP9 => String::from_str("VP9"),
            VideoCodec::AV1 => String::from_str("AV1"),
        }
    }
}

pub open spec fn codec_label(c: VideoCodec) -> Seq<char> {
    match c {
        VideoCodec::H264 => "H.264"@,
        VideoCodec::H265 => "H.265"@,
        VideoCodec::VP8 => "VP8"@,
        VideoCodec::VP9 => "VP9"@,
        VideoCodec::AV1 => "AV1"@,
    }
}

pub open spec fn provider_label(p: VideoCodecProvider) -> Seq<char> {
    match p {
        VideoCodecProvider::Native => "原生 (软件)"@,
        VideoCodecProvider::AVCodec => "FFMPEG (软件)"@,
        VideoCodecProvider::NVCodec => "NVIDIA (硬件)"@,
        VideoCodecProvider::VAAPI => "VAAPI (硬件)"@,
        VideoCodecProvider::D3D11 => "Direct3D 11 (硬件)"@,
    }
}

impl VideoCodecProvider {
    /// The label shown to the operator.
    pub fn to_string(&self) -> (r: String)
        ensures
            r@ == provider_label(*self),
    {
        match self {
            VideoCodecProvider::Native => String::from_str("原生 (软件)"),
            VideoCodecProvider::AVCodec => String::from_str("FFMPEG (软件)"),
            VideoCodecProvider::NVCodec => String::from_str("NVIDIA (硬件)"),
            VideoCodecProvider::VAAPI => String::from_str("VAAPI (硬件)"),
            VideoCodecProvider::D3D11 => String::from_str("Direct3D 11 (硬件)"),
        }
    }
}

/// The codec and provider that recordings are re-encoded with.
#[derive(PartialEq, Eq, Structural, Clone, Copy, Debug)]
pub struct VideoEncoder(pub VideoCodec, pub VideoCodecProvider);

/// The codec and provider that the incoming stream is decoded with.
#[derive(PartialEq, Eq, Structural, Clone, Copy, Debug)]
pub struct VideoDecoder(pub VideoCodec, pub VideoCodecProvider);

impl Default for VideoEncoder {
    fn default() -> (r: Self)
        ensures
            r == VideoEncoder(VideoCodec::H264, VideoCodecProvider::Native),
    {
        VideoEncoder(VideoCodec::H264, VideoCodecProvider::Native)
    }
}

impl Default for VideoDecoder {
    fn default() -> (r: Self)
        ensures
            r == VideoDecoder(VideoCodec::H264, VideoCodecProvider::AVCodec),
    {
        VideoDecoder(VideoCodec::H264, VideoCodecProvider::AVCodec)
    }
}

/// The backend that converts decoded frames between colorspaces.
#[derive(PartialEq, Eq, Structural, Clone, Copy, Debug)]
pub enum ColorspaceConversion {
    CPU,
    CUDA,
    D3D11,
}

impl Default for ColorspaceConversion {
    fn default() -> (r: Self)
        ensures
            r == ColorspaceConversion::CPU,
    {
        ColorspaceConversion::CPU
    }
}

/// A frame enhancement algorithm.
#[derive(PartialEq, Eq, Structural, Clone, Copy, Debug)]
pub enum VideoAlgorithm {
    CLAHE,
}

/// A still-image file format for screenshots.
#[derive(PartialEq, Eq, Structural, Clone, Copy, Debug)]
pub enum ImageFormat {
    JPEG,
    PNG,
    TIFF,
    BMP,
}

/// The format a file extension names.
pub open spec fn format_of_extension(e: Seq<char>) -> Option<ImageFormat> {
    if e == "jpg"@ || e == "jpeg"@ {
        Some(ImageFormat::JPEG)
    } else if e == "png"@ {
        Some(ImageFormat::PNG)
    } else if e == "tiff"@ {
        Some(ImageFormat::TIFF)
    } else if e == "bmp"@ {
        Some(ImageFormat::BMP)
    } else {
        None
    }
}

pub open spec fn extension_of(f: ImageFormat) -> Seq<char> {
    match f {
        ImageFormat::JPEG => "jpg"@,
        ImageFormat::PNG => "png"@,
        ImageFormat::TIFF => "tiff"@,
        ImageFormat::BMP => "bmp"@,
    }
}

impl ImageFormat {
    pub fn from_extension(extension: &str) -> (r: Option<ImageFormat>)
        ensures
            r == format_of_extension(extension@),
    {
        let e = String::from_str(extension);
        if e == String::from_str("jpg") || e == String::from_str("jpeg") {
            Some(ImageFormat::JPEG)
        } else if e == String::from_str("png") {
            Some(ImageFormat::PNG)
        } else if e == String::from_str("tiff") {
            Some(ImageFormat::TIFF)
        } else if e == String::from_str("bmp") {
            Some(ImageFormat::BMP)
        } else {
            None
        }
    }

    pub fn extension(&self) -> (r: &'static str)
        ensures
            r@ == extension_of(*self),
    {
        match self {
            ImageFormat::JPEG => "jpg",
            ImageFormat::PNG => "png",
            ImageFormat::TIFF => "tiff",
            ImageFormat::BMP => "bmp",
        }
    }
}

/// Every format's extension names that format again.
pub proof fn lemma_extension_round_trip(f: ImageFormat)
    ensures
        format_of_extension(extension_of(f)) == Some(f),
{
    reveal_strlit("jpg");
    reveal_strlit("jpeg");
    reveal_strlit("png");
    reveal_strlit("tiff");
    reveal_strlit("bmp");
    assert("png"@[0] != "jpg"@[0] && "png"@.len() != "jpeg"@.len());
    assert("tiff"@.len() != "jpg"@.len() && "tiff"@[0] != "jpeg"@[0] && "tiff"@.len() != "png"@.len());
    assert("bmp"@[0] != "jpg"@[0] && "bmp"@.len() != "jpeg"@.len() && "bmp"@[0] != "png"@[0]
        && "bmp"@.len() != "tiff"@.len());
}


/// The codec whose short name starts at position `k` of `s`.
pub open spec fn codec_at(s: Seq<char>, k: int) -> VideoCodec {
    if s[k] == 'h' {
        if s[k + 3] == '4' {
            VideoCodec::H264
        } else {
            VideoCodec::H265
        }
    } else if s[k] == 'v' {
        if s[k + 2] == '8' {
            VideoCodec::VP8
        } else {
            VideoCodec::VP9
        }
    } else {
        VideoCodec::AV1
    }
}

/// Reads provider, codec and direction back from a stage name.
pub open spec fn stage_identity(s: Seq<char>) -> (VideoCodecProvider, VideoCodec, bool) {
    if s[0] == 'n' {
        (VideoCodecProvider::NVCodec, codec_at(s, 2), s[s.len() - 3] == 'e')
    } else if s[0] == 'd' {
        (VideoCodecProvider::D3D11, codec_at(s, 5), s[s.len() - 3] == 'e')
    } else if s[0] == 'v' && s[1] == 'a' {
        (VideoCodecProvider::VAAPI, codec_at(s, 5), s[s.len() - 3] == 'e')
    } else if s[0] == 'a' && (s[2] == 'e' || s[2] == 'd') {
        (VideoCodecProvider::AVCodec, codec_at(s, 6), s[2] == 'e')
    } else if s[0] == 'x' {
        (VideoCodecProvider::Native, if s[3] == '4' {
            VideoCodec::H264
        } else {
            VideoCodec::H265
        }, s[s.len() - 3] == 'e')
    } else {
        (VideoCodecProvider::Native, codec_at(s, 0), s[s.len() - 3] == 'e')
    }
}

proof fn lemma_codec_name_chars(c: VideoCodec)
    ensures
        codec_name(c).len() == if c == VideoCodec::H264 || c == VideoCodec::H265 {
            4nat
        } else {
            3nat
        },
        codec_at(codec_name(c), 0) == c,
        codec_name(c)[0] == 'h' || codec_name(c)[0] == 'v' || codec_name(c)[0] == 'a',
        c == VideoCodec::AV1 ==> codec_name(c)[0] == 'a' && codec_name(c)[1] == 'v' && codec_name(c)[2] == '1',
        c == VideoCodec::VP8 || c == VideoCodec::VP9 ==> codec_name(c)[0] == 'v' && codec_name(c)[1] == 'p',
{
    reveal_strlit("h264");
    reveal_strlit("h265");
    reveal_strlit("vp8");
    reveal_strlit("vp9");
    reveal_strlit("av1");
}

proof fn lemma_direction_chars(encode: bool)
    ensures
        direction_suffix(encode).len() == 3,
        direction_suffix(encode)[0] == if encode {
            'e'
        } else {
            'd'
        },
{
    reveal_strlit("enc");
    reveal_strlit("dec");
}

proof fn lemma_codec_at_shift(pre: Seq<char>, c: VideoCodec, post: Seq<char>)
    ensures
        codec_at(pre + codec_name(c) + post, pre.len() as int) == c,
{
    lemma_codec_name_chars(c);
    let s = pre + codec_name(c) + post;
    let k = pre.len() as int;
    assert(s[k] == codec_name(c)[0]);
    assert(s[k + 2] == codec_name(c)[2]);
    if c == VideoCodec::H264 || c == VideoCodec::H265 {
        assert(s[k + 3] == codec_name(c)[3]);
        reveal_strlit("h264");
        reveal_strlit("h265");
    } else {
        reveal_strlit("vp8");
        reveal_strlit("vp9");
        reveal_strlit("av1");
    }
}

/// A stage name tells its provider, codec and direction: resolution from a
/// (codec, provider) pair never yields the stage of another pair.
pub proof fn lemma_stage_name_identifies(p: VideoCodecProvider, c: VideoCodec, encode: bool)
    ensures
        stage_identity(codec_stage_name(p, c, encode)) == (p, c, encode),
{
    let s = codec_stage_name(p, c, encode);
    let d = direction_suffix(encode);
    lemma_codec_name_chars(c);
    lemma_direction_chars(encode);
    reveal_strlit("enc");
    reveal_strlit("dec");
    match p {
        VideoCodecProvider::NVCodec => {
            reveal_strlit("nv");
            lemma_codec_at_shift("nv"@, c, d);
            assert(s[s.len() - 3] == d[0]);
        },
        VideoCodecProvider::D3D11 => {
            reveal_strlit("d3d11");
            lemma_codec_at_shift("d3d11"@, c, d);
            assert(s[s.len() - 3] == d[0]);
        },
        VideoCodecProvider::VAAPI => {
            reveal_strlit("vaapi");
            lemma_codec_at_shift("vaapi"@, c, d);
            assert(s[s.len() - 3] == d[0]);
        },
        VideoCodecProvider::AVCodec => {
            reveal_strlit("av");
            reveal_strlit("_");
            assert(s == ("av"@ + d + "_"@) + codec_name(c) + Seq::<char>::empty());
            lemma_codec_at_shift("av"@ + d + "_"@, c, Seq::<char>::empty());
            assert(s[2] == d[0]);
        },
        VideoCodecProvider::Native => {
            reveal_strlit("x264");
            reveal_strlit("x265");
            match c {
                VideoCodec::H264 | VideoCodec::H265 => {
                    assert(s[s.len() - 3] == d[0]);
                },
                _ => {
                    assert(s == Seq::<char>::empty() + codec_name(c) + d);
                    lemma_codec_at_shift(Seq::<char>::empty(), c, d);
                    assert(s[s.len() - 3] == d[0]);
                    assert(s[2] == codec_name(c)[2]);
                    reveal_strlit("vp8");
                    reveal_strlit("vp9");
                    reveal_strlit("av1");
                },
            }
        },
    }
}

/// Distinct (provider, codec, direction) triples name distinct stages.
pub proof fn lemma_stage_names_distinct(
    pa: VideoCodecProvider,
    ca: VideoCodec,
    ea: bool,
    pb: VideoCodecProvider,
    cb: VideoCodec,
    eb: bool,
)
    requires
        codec_stage_name(pa, ca, ea) == codec_stage_name(pb, cb, eb),
    ensures
        pa == pb && ca == cb && ea == eb,
{
    lemma_stage_name_identifies(pa, ca, ea);
    lemma_stage_name_identifies(pb, cb, eb);
}

} // verus!
