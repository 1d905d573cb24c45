//! Stage descriptions, the host's stage capabilities and the stage plans of
//! each part of a media graph.

use vstd::prelude::*;
use vstd::string::StringExecFns;
use crate::codec::{
    codec_stage_name, depay_stage_name, parser_stage_name, ColorspaceConversion, VideoCodec,
    VideoDecoder, VideoEncoder,
};
use crate::source::{opt_view, SourceUrl, Transport, VideoSource};

verus! {

/// A configuration property of a stage.
#[derive(Debug)]
pub enum Prop {
    Address(String),
    Port(u16),
    Caps(String),
    Latency(u32),
    Location(String),
    UserId(String),
    UserPassword(String),
    Uri(String),
    /// The queue drops its oldest buffer when full instead of blocking.
    Leaky,
}

pub enum PropView {
    Address(Seq<char>),
    Port(u16),
    Caps(Seq<char>),
    Latency(u32),
    Location(Seq<char>),
    UserId(Seq<char>),
    UserPassword(Seq<char>),
    Uri(Seq<char>),
    Leaky,
}

impl View for Prop {
    type V = PropView;

    open spec fn view(&self) -> PropView {
        match self {
            Prop::Address(s) => PropView::Address(s@),
            Prop::Port(p) => PropView::Port(*p),
            Prop::Caps(s) => PropView::Caps(s@),
            Prop::Latency(l) => PropView::Latency(*l),
            Prop::Location(s) => PropView::Location(s@),
            Prop::UserId(s) => PropView::UserId(s@),
            Prop::UserPassword(s) => PropView::UserPassword(s@),
            Prop::Uri(s) => PropView::Uri(s@),
            Prop::Leaky => PropView::Leaky,
        }
    }
}

/// A stage to be made from a native factory, with an optional well-known
/// name and its properties.
#[derive(Debug)]
pub struct StageSpec {
    pub factory: String,
    pub name: Option<String>,
    pub props: Vec<Prop>,
}

pub struct StageView {
    pub factory: Seq<char>,
    pub name: Option<Seq<char>>,
    pub props: Seq<PropView>,
}

impl View for StageSpec {
    type V = StageView;

    open spec fn view(&self) -> StageView {
        StageView {
            factory: self.factory@,
            name: opt_view(self.name),
            props: self.props@.map_values(|p: Prop| p@),
        }
    }
}

pub open spec fn stage_seq_view(s: Seq<StageSpec>) -> Seq<StageView> {
    s.map_values(|x: StageSpec| x@)
}

/// A stage of `factory` with no name and no properties.
pub open spec fn plain(factory: Seq<char>) -> StageView {
    StageView { factory, name: None, props: seq![] }
}

pub open spec fn named(factory: Seq<char>, name: Seq<char>) -> StageView {
    StageView { factory, name: Some(name), props: seq![] }
}

pub open spec fn with_props(s: StageView, props: Seq<PropView>) -> StageView {
    StageView { props, ..s }
}

impl StageSpec {
    pub fn plain(factory: &str) -> (r: StageSpec)
        ensures
            r@ == plain(factory@),
    {
        let r = StageSpec { factory: String::from_str(factory), name: None, props: Vec::new() };
        assert(r@.props =~= seq![]);
        r
    }

    pub fn named(factory: &str, name: &str) -> (r: StageSpec)
        ensures
            r@ == named(factory@, name@),
    {
        let r = StageSpec {
            factory: String::from_str(factory),
            name: Some(String::from_str(name)),
            props: Vec::new(),
        };
        assert(r@.props =~= seq![]);
        r
    }

    pub fn with_prop(self, p: Prop) -> (r: StageSpec)
        ensures
            r@ == with_props(self@, self@.props.push(p@)),
    {
        let mut r = self;
        r.props.push(p);
        assert(r@.props =~= self@.props.push(p@));
        r
    }
}

/// The stage factories that the host can make.
pub struct Capabilities {
    factories: Vec<String>,
}

impl View for Capabilities {
    type V = Seq<Seq<char>>;

    closed spec fn view(&self) -> Seq<Seq<char>> {
        self.factories@.map_values(|s: String| s@)
    }
}

impl Capabilities {
    pub fn new(factories: Vec<String>) -> (r: Capabilities)
        ensures
            r@ == factories@.map_values(|s: String| s@),
    {
        Capabilities { factories }
    }

    pub fn supports(&self, factory: &String) -> (r: bool)
        ensures
            r == self@.contains(factory@),
    {
        let mut i: usize = 0;
        while i < self.factories.len()
            invariant
                i <= self.factories@.len(),
                forall|j: int| 0 <= j < i ==> self@[j] != factory@,
            decreases self.factories@.len() - i,
        {
            if self.factories[i] == *factory {
                assert(self@[i as int] == factory@);
                return true;
            }
            i += 1;
        }
        false
    }
}

/// What the source URL lacks for its transport.
#[derive(PartialEq, Eq, Structural, Clone, Copy, Debug)]
pub enum UrlFault {
    MissingHost,
    MissingPort,
    MissingPassword,
}

/// Why a graph or a branch could not be built.
#[derive(Debug)]
pub enum BuildError {
    /// The host cannot make a stage of this factory.
    MissingElement(String),
    /// The source URL lacks a part that its transport needs.
    Url(UrlFault),
}

impl BuildError {
    /// The message shown to the operator.
    pub fn message(&self) -> (r: String)
        ensures
            self matches BuildError::MissingElement(f) ==> r@ == "Missing element: "@ + f@,
    {
        match self {
            BuildError::MissingElement(f) => {
                let mut s = String::from_str("Missing element: ");
                s.append(f.as_str());
                s
            },
            BuildError::Url(UrlFault::MissingHost) => String::from_str("url-host error"),
            BuildError::Url(UrlFault::MissingPort) => String::from_str("port error"),
            BuildError::Url(UrlFault::MissingPassword) => String::from_str("password error"),
        }
    }
}

/// The first stage, in order, whose factory the host cannot make.
pub open spec fn first_missing(host: Seq<Seq<char>>, stages: Seq<StageView>) -> Option<Seq<char>>
    decreases stages.len(),
{
    if stages.len() == 0 {
        None
    } else if !host.contains(stages[0].factory) {
        Some(stages[0].factory)
    } else {
        first_missing(host, stages.drop_first())
    }
}

/// Checks that the host can make every stage of `stages`.
pub fn check_stages(host: &Capabilities, stages: &Vec<StageSpec>) -> (r: Result<(), BuildError>)
    ensures
        r is Ok <==> first_missing(host@, stage_seq_view(stages@)) is None,
        r matches Err(e) ==> e matches BuildError::MissingElement(f)
            && first_missing(host@, stage_seq_view(stages@)) == Some(f@),
{
    let ghost all = stage_seq_view(stages@);
    assert(all.subrange(0, all.len() as int) =~= all);
    let mut i: usize = 0;
    while i < stages.len()
        invariant
            i <= stages@.len(),
            all == stage_seq_view(stages@),
            first_missing(host@, all) == first_missing(host@, all.subrange(i as int, all.len() as int)),
        decreases stages@.len() - i,
    {
        let ghost rest = all.subrange(i as int, all.len() as int);
        assert(rest.drop_first() =~= all.subrange(i + 1, all.len() as int));
        if !host.supports(&stages[i].factory) {
            return Err(BuildError::MissingElement(stages[i].factory.clone()));
        }
        i += 1;
    }
    assert(all.subrange(i as int, all.len() as int) =~= Seq::<StageView>::empty());
    Ok(())
}


/// The colorspace converter stages of a backend.
pub open spec fn conversion_plan(c: ColorspaceConversion) -> Seq<StageView> {
    match c {
        ColorspaceConversion::CPU => seq![plain("videoconvert"@)],
        ColorspaceConversion::CUDA => seq![plain("cudaupload"@), plain("cudaconvert"@), plain("cudadownload"@)],
        ColorspaceConversion::D3D11 => seq![plain("d3d11upload"@), plain("d3d11convert"@), plain("d3d11download"@)],
    }
}

/// The bitstream parser a codec needs, if any.
pub open spec fn parser_plan(c: VideoCodec) -> Seq<StageView> {
    match parser_stage_name(c) {
        Some(p) => seq![plain(p)],
        None => seq![],
    }
}

/// The decode part of the main graph.
pub open spec fn decode_plan(d: VideoDecoder) -> Seq<StageView> {
    parser_plan(d.0) + seq![named(codec_stage_name(d.1, d.0, false), "video_decoder"@)]
}

/// A file-writing stage.
pub open spec fn file_sink(filename: Seq<char>) -> StageView {
    with_props(plain("filesink"@), seq![PropView::Location(filename)])
}

/// The recording branch that stores the received stream without re-encoding.
pub open spec fn remux_record_plan(d: VideoDecoder, filename: Seq<char>) -> Seq<StageView> {
    seq![plain("queue"@)] + parser_plan(d.0) + seq![plain("matroskamux"@), file_sink(filename)]
}

/// The recording branch that re-encodes decoded frames.
pub open spec fn encode_record_plan(e: VideoEncoder, c: ColorspaceConversion, filename: Seq<char>) -> Seq<StageView> {
    seq![plain("queue"@)] + conversion_plan(c) + seq![plain(codec_stage_name(e.1, e.0, true))] + parser_plan(e.0)
        + seq![plain("matroskamux"@), file_sink(filename)]
}

/// The capability check of a plan: the stages themselves, or the first one the
/// host cannot make.
pub open spec fn checked(host: Seq<Seq<char>>, plan: Seq<StageView>, r: Result<Vec<StageSpec>, BuildError>) -> bool {
    &&& r is Ok <==> first_missing(host, plan) is None
    &&& r matches Ok(v) ==> stage_seq_view(v@) == plan
    &&& r matches Err(e) ==> e matches BuildError::MissingElement(f) && first_missing(host, plan) == Some(f@)
}

pub(crate) fn push_stage(v: &mut Vec<StageSpec>, s: StageSpec)
    ensures
        stage_seq_view(final(v)@) == stage_seq_view(old(v)@).push(s@),
{
    v.push(s);
    assert(stage_seq_view(final(v)@) =~= stage_seq_view(old(v)@).push(s@));
}

fn push_parser(v: &mut Vec<StageSpec>, c: VideoCodec)
    ensures
        stage_seq_view(final(v)@) == stage_seq_view(old(v)@) + parser_plan(c),
{
    match c.parser_name() {
        Some(p) => {
            push_stage(v, StageSpec::plain(p));
            assert(stage_seq_view(final(v)@) =~= stage_seq_view(old(v)@) + parser_plan(c));
        },
        None => {
            assert(stage_seq_view(final(v)@) =~= stage_seq_view(old(v)@) + parser_plan(c));
        },
    }
}

fn push_file_sink(v: &mut Vec<StageSpec>, filename: &str)
    ensures
        stage_seq_view(final(v)@) == stage_seq_view(old(v)@) + seq![plain("matroskamux"@), file_sink(filename@)],
{
    push_stage(v, StageSpec::plain("matroskamux"));
    push_stage(v, StageSpec::plain("filesink").with_prop(Prop::Location(String::from_str(filename))));
    assert(stage_seq_view(final(v)@) =~= stage_seq_view(old(v)@) + seq![plain("matroskamux"@), file_sink(filename@)]);
}

impl ColorspaceConversion {
    /// The converter stages of this backend, unchecked.
    pub fn plan(&self) -> (r: Vec<StageSpec>)
        ensures
            stage_seq_view(r@) == conversion_plan(*self),
    {
        let mut v: Vec<StageSpec> = Vec::new();
        match self {
            ColorspaceConversion::CPU => {
                push_stage(&mut v, StageSpec::plain("videoconvert"));
            },
            ColorspaceConversion::CUDA => {
                push_stage(&mut v, StageSpec::plain("cudaupload"));
                push_stage(&mut v, StageSpec::plain("cudaconvert"));
                push_stage(&mut v, StageSpec::plain("cudadownload"));
            },
            ColorspaceConversion::D3D11 => {
                push_stage(&mut v, StageSpec::plain("d3d11upload"));
                push_stage(&mut v, StageSpec::plain("d3d11convert"));
                push_stage(&mut v, StageSpec::plain("d3d11download"));
            },
        }
        assert(stage_seq_view(v@) =~= conversion_plan(*self));
        v
    }

    /// The converter stages of this backend, if the host can make them all.
    pub fn gst_elements(&self, host: &Capabilities) -> (r: Result<Vec<StageSpec>, BuildError>)
        ensures
            checked(host@, conversion_plan(*self), r),
    {
        let v = self.plan();
        match check_stages(host, &v) {
            Ok(()) => Ok(v),
            Err(e) => Err(e),
        }
    }
}

impl VideoDecoder {
    /// The parser and decoder stages, unchecked.
    pub fn main_plan(&self) -> (r: Vec<StageSpec>)
        ensures
            stage_seq_view(r@) == decode_plan(*self),
    {
        let mut v: Vec<StageSpec> = Vec::new();
        push_parser(&mut v, self.0);
        let name = self.1.format_codec(self.0, false);
        push_stage(&mut v, StageSpec::named(name.as_str(), "video_decoder"));
        assert(stage_seq_view(v@) =~= decode_plan(*self));
        v
    }

    /// The parser and the decoder stage of this codec and provider, or a
    /// capability error naming the first stage the host cannot make. The
    /// decoder is always the one of this very codec and provider.
    pub fn gst_main_elements(&self, host: &Capabilities) -> (r: Result<Vec<StageSpec>, BuildError>)
        ensures
            checked(host@, decode_plan(*self), r),
    {
        let v = self.main_plan();
        match check_stages(host, &v) {
            Ok(()) => Ok(v),
            Err(e) => Err(e),
        }
    }

    /// The branch that writes the received stream to `filename` as it is.
    pub fn gst_record_elements(&self, host: &Capabilities, filename: &str) -> (r: Result<Vec<StageSpec>, BuildError>)
        ensures
            checked(host@, remux_record_plan(*self, filename@), r),
    {
        let mut v: Vec<StageSpec> = Vec::new();
        push_stage(&mut v, StageSpec::plain("queue"));
        push_parser(&mut v, self.0);
        push_file_sink(&mut v, filename);
        assert(stage_seq_view(v@) =~= remux_record_plan(*self, filename@));
        match check_stages(host, &v) {
            Ok(()) => Ok(v),
            Err(e) => Err(e),
        }
    }
}

impl VideoEncoder {
    /// The branch that converts, re-encodes and writes decoded frames to
    /// `filename`.
    pub fn gst_record_elements(
        &self,
        host: &Capabilities,
        colorspace_conversion: ColorspaceConversion,
        filename: &str,
    ) -> (r: Result<Vec<StageSpec>, BuildError>)
        ensures
            checked(host@, encode_record_plan(*self, colorspace_conversion, filename@), r),
    {
        let mut v: Vec<StageSpec> = Vec::new();
        push_stage(&mut v, StageSpec::plain("queue"));
        let mut conv = colorspace_conversion.plan();
        let ghost before = stage_seq_view(v@);
        v.append(&mut conv);
        assert(stage_seq_view(v@) =~= before + conversion_plan(colorspace_conversion));
        let name = self.1.format_codec(self.0, true);
        push_stage(&mut v, StageSpec::plain(name.as_str()));
        push_parser(&mut v, self.0);
        push_file_sink(&mut v, filename);
        assert(stage_seq_view(v@) =~= encode_record_plan(*self, colorspace_conversion, filename@));
        match check_stages(host, &v) {
            Ok(()) => Ok(v),
            Err(e) => Err(e),
        }
    }
}


/// What the source URL lacks for its transport, if anything.
pub open spec fn source_fault(t: Transport, u: crate::source::UrlParts) -> Option<UrlFault> {
    match t {
        Transport::RTSP => if u.5 is None {
            Some(UrlFault::MissingPassword)
        } else {
            None
        },
        _ => if u.2 is None {
            Some(UrlFault::MissingHost)
        } else if u.3 is None {
            Some(UrlFault::MissingPort)
        } else {
            None
        },
    }
}

pub open spec fn rtp_caps() -> Seq<char> {
    "application/x-rtp, media=(string)video"@
}

/// A jitter buffer where the latency is positive.
pub open spec fn jitter_plan(latency: u32) -> Seq<StageView> {
    if latency > 0 {
        seq![with_props(plain("rtpjitterbuffer"@), seq![PropView::Latency(latency)])]
    } else {
        seq![]
    }
}

/// The depayloader of a codec.
pub open spec fn depay_plan(c: VideoCodec) -> StageView {
    named(depay_stage_name(c), "rtpdepay"@)
}

/// The capture and depacketizing stages of a source whose URL has no fault.
pub open spec fn source_plan(t: Transport, u: crate::source::UrlParts, latency: u32, c: VideoCodec) -> Seq<StageView> {
    match t {
        Transport::UDP => seq![
            with_props(
                named("udpsrc"@, "source"@),
                seq![PropView::Address(u.2->Some_0), PropView::Port(u.3->Some_0)],
            ),
        ] + jitter_plan(latency),
        Transport::RTP => seq![
            with_props(
                named("udpsrc"@, "source"@),
                seq![PropView::Address(u.2->Some_0), PropView::Port(u.3->Some_0), PropView::Caps(rtp_caps())],
            ),
        ] + jitter_plan(latency) + seq![depay_plan(c)],
        Transport::RTSP => seq![
            with_props(
                named("rtspsrc"@, "source"@),
                seq![
                    PropView::Location(u.0),
                    PropView::UserId(u.4),
                    PropView::UserPassword(u.5->Some_0),
                    PropView::Latency(latency),
                ],
            ),
            depay_plan(c),
        ],
    }
}

fn push_jitter(v: &mut Vec<StageSpec>, latency: u32)
    ensures
        stage_seq_view(final(v)@) == stage_seq_view(old(v)@) + jitter_plan(latency),
{
    if latency > 0 {
        push_stage(v, StageSpec::plain("rtpjitterbuffer").with_prop(Prop::Latency(latency)));
    }
    assert(stage_seq_view(final(v)@) =~= stage_seq_view(old(v)@) + jitter_plan(latency));
}

/// The network capture stage of a UDP or RTP source.
fn udp_stage(url: &SourceUrl, rtp: bool) -> (r: Result<StageSpec, BuildError>)
    ensures
        r matches Err(e) ==> e matches BuildError::Url(f) && source_fault(Transport::UDP, url@) == Some(f),
        r is Ok <==> source_fault(Transport::UDP, url@) is None,
        r matches Ok(s) ==> s@ == with_props(
            named("udpsrc"@, "source"@),
            if rtp {
                seq![PropView::Address(url@.2->Some_0), PropView::Port(url@.3->Some_0), PropView::Caps(rtp_caps())]
            } else {
                seq![PropView::Address(url@.2->Some_0), PropView::Port(url@.3->Some_0)]
            },
        ),
{
    let host = match &url.host {
        Some(h) => h.clone(),
        None => {
            return Err(BuildError::Url(UrlFault::MissingHost));
        },
    };
    let port = match url.port {
        Some(p) => p,
        None => {
            return Err(BuildError::Url(UrlFault::MissingPort));
        },
    };
    let src = StageSpec::named("udpsrc", "source").with_prop(Prop::Address(host)).with_prop(Prop::Port(port));
    if rtp {
        let r = src.with_prop(Prop::Caps(String::from_str("application/x-rtp, media=(string)video")));
        assert(r@.props =~= seq![PropView::Address(url@.2->Some_0), PropView::Port(url@.3->Some_0), PropView::Caps(rtp_caps())]);
        Ok(r)
    } else {
        assert(src@.props =~= seq![PropView::Address(url@.2->Some_0), PropView::Port(url@.3->Some_0)]);
        Ok(src)
    }
}

impl VideoSource {
    /// The capture and depacketizing stages of this source, or what its URL
    /// lacks for its transport.
    pub fn gst_src_elements(&self, latency: u32, video_decoder: &VideoDecoder) -> (r: Result<Vec<StageSpec>, BuildError>)
        ensures
            r matches Err(e) ==> e matches BuildError::Url(f) && source_fault(self.transport(), self.url()) == Some(f),
            r is Ok <==> source_fault(self.transport(), self.url()) is None,
            r matches Ok(v) ==> stage_seq_view(v@) == source_plan(self.transport(), self.url(), latency, video_decoder.0),
    {
        let mut v: Vec<StageSpec> = Vec::new();
        match self {
            VideoSource::UDP(url) => {
                let src = udp_stage(url, false)?;
                push_stage(&mut v, src);
                push_jitter(&mut v, latency);
                assert(stage_seq_view(v@) =~= source_plan(self.transport(), self.url(), latency, video_decoder.0));
            },
            VideoSource::RTP(url) => {
                let src = udp_stage(url, true)?;
                push_stage(&mut v, src);
                push_jitter(&mut v, latency);
                let depay = video_decoder.0.depay_name();
                push_stage(&mut v, StageSpec::named(depay.as_str(), "rtpdepay"));
                assert(stage_seq_view(v@) =~= source_plan(self.transport(), self.url(), latency, video_decoder.0));
            },
            VideoSource::RTSP(url) => {
                let password = match &url.password {
                    Some(p) => p.clone(),
                    None => {
                        return Err(BuildError::Url(UrlFault::MissingPassword));
                    },
                };
                let src = StageSpec::named("rtspsrc", "source").with_prop(Prop::Location(url.text.clone())).with_prop(
                    Prop::UserId(url.username.clone()),
                ).with_prop(Prop::UserPassword(password)).with_prop(Prop::Latency(latency));
                push_stage(&mut v, src);
                let depay = video_decoder.0.depay_name();
                push_stage(&mut v, StageSpec::named(depay.as_str(), "rtpdepay"));
                assert(src@.props =~= seq![
                    PropView::Location(url.text@),
                    PropView::UserId(url.username@),
                    PropView::UserPassword(self.url().5->Some_0),
                    PropView::Latency(latency),
                ]);
                assert(stage_seq_view(v@) =~= source_plan(self.transport(), self.url(), latency, video_decoder.0));
            },
        }
        assert(stage_seq_view(v@) =~= source_plan(self.transport(), self.url(), latency, video_decoder.0));
        Ok(v)
    }
}

} // verus!
