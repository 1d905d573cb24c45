use rovhost::branch::{connect_elements_to_pipeline, disconnect_elements_to_pipeline, release_elements, AttachError, BranchState};
use rovhost::codec::{ColorspaceConversion, VideoCodec, VideoCodecProvider, VideoDecoder, VideoEncoder};
use rovhost::future::{Dispatch, Next, Reactor};
use rovhost::graph::{create_decodebin_pipeline, create_pipeline, route_pad, Fanout, LinkKind, PadRule, StageState};
use rovhost::source::{SourceUrl, VideoSource};
use rovhost::stage::{BuildError, Capabilities, Prop, UrlFault};

fn host(names: &[&str]) -> Capabilities {
    Capabilities::new(names.iter().map(|s| s.to_string()).collect())
}

const BASE: &[&str] = &[
    "udpsrc", "rtspsrc", "rtpjitterbuffer", "rtph264depay", "appsink", "tee", "queue", "videoconvert",
    "h264parse", "h265parse", "avdec_h264", "x264dec", "x264enc", "matroskamux", "filesink",
    "uridecodebin3", "uridecodebin",
];

fn source(url: &str) -> VideoSource {
    let u = SourceUrl::parse(url).expect("url parses");
    VideoSource::from_url(&u).expect("supported scheme")
}

fn factories(g: &rovhost::graph::Graph) -> Vec<String> {
    (0..g.stage_count()).map(|i| g.stage(i).factory.clone()).collect()
}

#[test]
fn url_parts_and_scheme_selection() {
    let u = SourceUrl::parse("udp://127.0.0.1:5600").unwrap();
    assert_eq!(u.scheme, "udp");
    assert_eq!(u.host.as_deref(), Some("127.0.0.1"));
    assert_eq!(u.port, Some(5600));
    assert!(matches!(VideoSource::from_url(&u), Some(VideoSource::UDP(_))));
    let r = SourceUrl::parse("rtsp://user:pw@cam.local:554/stream").unwrap();
    assert_eq!(r.username, "user");
    assert_eq!(r.password.as_deref(), Some("pw"));
    assert!(matches!(VideoSource::from_url(&r), Some(VideoSource::RTSP(_))));
    let h = SourceUrl::parse("http://example.com").unwrap();
    assert!(VideoSource::from_url(&h).is_none());
    assert!(SourceUrl::parse("not a url").is_none());
}

#[test]
fn udp_software_h264_layout() {
    let g = create_pipeline(
        &host(BASE),
        source("udp://127.0.0.1:5600"),
        0,
        ColorspaceConversion::CPU,
        VideoDecoder(VideoCodec::H264, VideoCodecProvider::Native),
        false,
    )
    .unwrap();
    assert_eq!(
        factories(&g),
        vec!["udpsrc", "tee", "queue", "h264parse", "x264dec", "tee", "queue", "videoconvert", "appsink"]
    );
    assert_eq!(g.tee_index(Fanout::PreDecode), Some(1));
    assert_eq!(g.tee_index(Fanout::PostDecode), Some(5));
    assert_eq!(g.links().len(), 8);
    assert_eq!(g.links()[1].kind, LinkKind::Port(0));
    assert_eq!(g.links()[5].kind, LinkKind::Port(1));
    assert_eq!(g.links()[0].kind, LinkKind::Static);
    assert_eq!(g.port_count(1), 1);
    assert_eq!(g.state(), StageState::Null);
    assert_eq!(g.stage(4).name.as_deref(), Some("video_decoder"));
}

#[test]
fn rtp_with_latency_has_jitter_buffer_and_depayloader() {
    let g = create_pipeline(
        &host(BASE),
        source("rtp://127.0.0.1:5600"),
        200,
        ColorspaceConversion::CPU,
        VideoDecoder(VideoCodec::H264, VideoCodecProvider::AVCodec),
        true,
    )
    .unwrap();
    assert_eq!(
        factories(&g)[..5].to_vec(),
        vec!["udpsrc", "rtpjitterbuffer", "rtph264depay", "tee", "queue"]
    );
    assert!(matches!(g.stage(1).props[0], Prop::Latency(200)));
    let display_queue = g.stage(g.stage_count() - 3);
    assert!(matches!(display_queue.props[..], [Prop::Leaky]));
}

#[test]
fn rtsp_source_links_first_pad_on_arrival() {
    let g = create_pipeline(
        &host(BASE),
        source("rtsp://user:pw@cam.local:554/stream"),
        0,
        ColorspaceConversion::CPU,
        VideoDecoder(VideoCodec::H264, VideoCodecProvider::AVCodec),
        false,
    )
    .unwrap();
    assert_eq!(g.links()[0].kind, LinkKind::Deferred(PadRule::VideoOnly));
}

#[test]
fn missing_decoder_is_a_capability_error() {
    let r = create_pipeline(
        &host(BASE),
        source("udp://127.0.0.1:5600"),
        0,
        ColorspaceConversion::CPU,
        VideoDecoder(VideoCodec::H264, VideoCodecProvider::NVCodec),
        false,
    );
    match r {
        Err(BuildError::MissingElement(f)) => assert_eq!(f, "nvh264dec"),
        _ => panic!("expected a capability error"),
    }
}

#[test]
fn missing_cuda_converter_reported_before_decoder() {
    let r = create_pipeline(
        &host(BASE),
        source("udp://127.0.0.1:5600"),
        0,
        ColorspaceConversion::CUDA,
        VideoDecoder(VideoCodec::H264, VideoCodecProvider::NVCodec),
        false,
    );
    match r {
        Err(e) => assert_eq!(e.message(), "Missing element: cudaupload"),
        Ok(_) => panic!("expected a capability error"),
    }
}

#[test]
fn url_without_port_or_password_fails() {
    let r = create_pipeline(
        &host(BASE),
        source("udp://127.0.0.1"),
        0,
        ColorspaceConversion::CPU,
        VideoDecoder::default(),
        false,
    );
    assert!(matches!(r, Err(BuildError::Url(UrlFault::MissingPort))));
    let r = create_pipeline(
        &host(BASE),
        source("rtsp://cam.local/stream"),
        0,
        ColorspaceConversion::CPU,
        VideoDecoder::default(),
        false,
    );
    assert!(matches!(r, Err(BuildError::Url(UrlFault::MissingPassword))));
}

#[test]
fn decodebin_graph_has_only_post_decode_tee() {
    let g = create_decodebin_pipeline(&host(BASE), source("rtsp://user:pw@cam.local:554/s"), false).unwrap();
    assert_eq!(factories(&g), vec!["uridecodebin", "tee", "queue", "videoconvert", "appsink"]);
    assert_eq!(g.tee_index(Fanout::PreDecode), None);
    assert_eq!(g.links()[0].kind, LinkKind::Deferred(PadRule::VideoOrCompatible));
    let mut g = g;
    let chain = VideoDecoder::default().gst_record_elements(&host(BASE), "/tmp/a.mkv").unwrap();
    assert!(matches!(
        connect_elements_to_pipeline(&mut g, Fanout::PreDecode, chain),
        Err(AttachError::NoSuchTee)
    ));
}

#[test]
fn checked_plans_name_the_requested_stages() {
    let d = VideoDecoder(VideoCodec::H265, VideoCodecProvider::VAAPI);
    match d.gst_main_elements(&host(BASE)) {
        Err(BuildError::MissingElement(f)) => assert_eq!(f, "vaapih265dec"),
        _ => panic!("expected a capability error"),
    }
    let mut names: Vec<&str> = BASE.to_vec();
    names.push("vaapih265dec");
    let v = d.gst_main_elements(&host(&names)).unwrap();
    let got: Vec<String> = v.iter().map(|s| s.factory.clone()).collect();
    assert_eq!(got, vec!["h265parse", "vaapih265dec"]);
    let conv = ColorspaceConversion::D3D11.gst_elements(&host(&["d3d11upload", "d3d11convert", "d3d11download"])).unwrap();
    let got: Vec<String> = conv.iter().map(|s| s.factory.clone()).collect();
    assert_eq!(got, vec!["d3d11upload", "d3d11convert", "d3d11download"]);
    assert!(ColorspaceConversion::CUDA.gst_elements(&host(BASE)).is_err());
}

#[test]
fn pad_routing() {
    assert!(route_pad(PadRule::VideoOnly, Some("video"), false));
    assert!(!route_pad(PadRule::VideoOnly, None, true));
    assert!(!route_pad(PadRule::VideoOrCompatible, Some("audio"), true));
    assert!(route_pad(PadRule::VideoOrCompatible, None, true));
    assert!(!route_pad(PadRule::VideoOrCompatible, Some("subtitle"), false));
}

#[test]
fn record_chains() {
    let e = VideoEncoder(VideoCodec::H264, VideoCodecProvider::Native)
        .gst_record_elements(&host(BASE), ColorspaceConversion::CPU, "/tmp/r.mkv")
        .unwrap();
    let names: Vec<String> = e.iter().map(|s| s.factory.clone()).collect();
    assert_eq!(names, vec!["queue", "videoconvert", "x264enc", "h264parse", "matroskamux", "filesink"]);
    assert!(matches!(&e[5].props[..], [Prop::Location(l)] if l == "/tmp/r.mkv"));
    let d = VideoDecoder(VideoCodec::VP8, VideoCodecProvider::AVCodec).gst_record_elements(&host(BASE), "/tmp/v.mkv").unwrap();
    let names: Vec<String> = d.iter().map(|s| s.factory.clone()).collect();
    assert_eq!(names, vec!["queue", "matroskamux", "filesink"]);
}

#[test]
fn attach_then_detach_leaks_no_port() {
    let mut g = create_pipeline(
        &host(BASE),
        source("udp://127.0.0.1:5600"),
        0,
        ColorspaceConversion::CPU,
        VideoDecoder(VideoCodec::H264, VideoCodecProvider::AVCodec),
        false,
    )
    .unwrap();
    g.set_state(StageState::Playing);
    let tee = g.tee_index(Fanout::PreDecode).unwrap();
    let before_ports = g.port_count(tee);
    let before_links = g.links().clone();
    let chain = VideoDecoder::default().gst_record_elements(&host(BASE), "/tmp/a.mkv").unwrap();
    let n = g.stage_count();
    let mut h = connect_elements_to_pipeline(&mut g, Fanout::PreDecode, chain).unwrap();
    assert_eq!(g.port_count(tee), before_ports + 1);
    assert!(g.is_present(n));
    assert_eq!(h.state(), BranchState::Attached);

    let mut r: Reactor<(), Box<dyn Fn(()) -> Next<()>>> = Reactor::new();
    let drain = disconnect_elements_to_pipeline(&mut g, &mut h, &mut r);
    assert_eq!(drain.eos_into, n);
    assert_eq!(drain.watch, n + 3);
    assert_eq!(h.state(), BranchState::Detaching);
    assert_eq!(drain.done.for_each(&mut r, 1), None);
    let out = drain.promise.success(&mut r, ());
    assert_eq!(out.len(), 1);
    assert!(matches!(out[0], Dispatch::Value(1, ())));
    release_elements(&mut g, &mut h);
    assert_eq!(h.state(), BranchState::Detached);
    assert_eq!(g.port_count(tee), before_ports);
    assert_eq!(g.links(), &before_links);
    assert!(!g.is_present(n));
}

#[test]
fn empty_chain_is_refused() {
    let mut g = create_pipeline(
        &host(BASE),
        source("udp://127.0.0.1:5600"),
        0,
        ColorspaceConversion::CPU,
        VideoDecoder::default(),
        false,
    )
    .unwrap();
    assert!(matches!(
        connect_elements_to_pipeline(&mut g, Fanout::PostDecode, Vec::new()),
        Err(AttachError::EmptyChain)
    ));
    assert_eq!(g.port_count(g.tee_index(Fanout::PostDecode).unwrap()), 1);
}
