//! The stage graph of a video pipeline and its builder.
//!
//! A [`Graph`] describes what the native media runtime runs: its stages in
//! order, the links between them, and the output ports of its two fan-out
//! stages (tees), before decoding and after it.

use vstd::prelude::*;
use vstd::string::StringExecFns;
use crate::branch::{attached, clear_of, in_branch, not_from_port, not_port, released, unlinked, BranchView};
use crate::codec::{ColorspaceConversion, VideoDecoder};
use crate::source::{Transport, VideoSource};
use crate::stage::{
    check_stages, conversion_plan, decode_plan, first_missing, named, plain, push_stage, source_fault,
    source_plan, stage_seq_view, with_props, BuildError, Capabilities, Prop, PropView, StageSpec,
    StageView,
};

verus! {

/// The lifecycle state of a stage or of a whole graph.
#[derive(PartialEq, Eq, Structural, Clone, Copy, Debug)]
pub enum StageState {
    Null,
    Ready,
    Paused,
    Playing,
}

/// Which output ports of a stage that appear while running are linked.
#[derive(PartialEq, Eq, Structural, Clone, Copy, Debug)]
pub enum PadRule {
    /// Only ports that advertise video.
    VideoOnly,
    /// Video ports, and ports that advertise no audio and can be linked.
    VideoOrCompatible,
}

/// How a link carries data.
#[derive(PartialEq, Eq, Structural, Clone, Copy, Debug)]
pub enum LinkKind {
    /// Output to input, made at once.
    Static,
    /// From an output port of a tee, by the port's id.
    Port(u64),
    /// Made when the upstream stage announces a matching output port.
    Deferred(PadRule),
}

#[derive(PartialEq, Eq, Structural, Clone, Copy, Debug)]
pub struct Link {
    pub from: usize,
    pub to: usize,
    pub kind: LinkKind,
}

/// An output port of a tee.
#[derive(PartialEq, Eq, Structural, Clone, Copy, Debug)]
pub struct Port {
    pub tee: usize,
    pub id: u64,
}

/// The two well-known fan-out points.
#[derive(PartialEq, Eq, Structural, Clone, Copy, Debug)]
pub enum Fanout {
    PreDecode,
    PostDecode,
}

/// A stage graph. Stages keep their index for the graph's life; a removed
/// stage is marked absent.
#[derive(Debug)]
pub struct Graph {
    stages: Vec<StageSpec>,
    present: Vec<bool>,
    states: Vec<StageState>,
    links: Vec<Link>,
    ports: Vec<Port>,
    next_port: u64,
    state: StageState,
    pre_decode: Option<usize>,
    post_decode: usize,
}

pub struct GraphView {
    pub stages: Seq<StageView>,
    pub present: Seq<bool>,
    pub states: Seq<StageState>,
    pub links: Seq<Link>,
    pub ports: Seq<Port>,
    pub next_port: u64,
    pub state: StageState,
    pub pre_decode: Option<usize>,
    pub post_decode: usize,
}

impl View for Graph {
    type V = GraphView;

    closed spec fn view(&self) -> GraphView {
        GraphView {
            stages: stage_seq_view(self.stages@),
            present: self.present@,
            states: self.states@,
            links: self.links@,
            ports: self.ports@,
            next_port: self.next_port,
            state: self.state,
            pre_decode: self.pre_decode,
            post_decode: self.post_decode,
        }
    }
}

impl GraphView {
    pub open spec fn wf(&self) -> bool {
        let n = self.stages.len();
        &&& n <= usize::MAX
        &&& self.present.len() == n
        &&& self.states.len() == n
        &&& forall|i: int| 0 <= i < self.links.len() ==> (#[trigger] self.links[i]).from < n && self.links[i].to < n
            && (self.links[i].kind matches LinkKind::Port(id) ==> id < self.next_port)
        &&& forall|i: int| 0 <= i < self.ports.len() ==> (#[trigger] self.ports[i]).tee < n && self.ports[i].id < self.next_port
        &&& self.pre_decode matches Some(t) ==> t < n
        &&& self.post_decode < n
    }

    /// The tee of a fan-out point, if the graph has it.
    pub open spec fn tee(&self, f: Fanout) -> Option<usize> {
        match f {
            Fanout::PreDecode => self.pre_decode,
            Fanout::PostDecode => Some(self.post_decode),
        }
    }

    /// Number of output ports of the tee at `tee`.
    pub open spec fn port_count(&self, tee: usize) -> nat {
        self.ports.filter(|p: Port| p.tee == tee).len()
    }
}

/// A stage graph as first built: every stage present and `Null`, each stage
/// linked to the next, the given tees feeding the stage after them through a
/// port each (numbered from 0 in order), and the first link deferred by `rule`
/// if one is given.
pub open spec fn fresh_graph(
    stages: Seq<StageView>,
    pre: Option<usize>,
    post: usize,
    rule: Option<PadRule>,
) -> GraphView {
    let first_port: u64 = if pre is Some {
        1
    } else {
        0
    };
    GraphView {
        stages,
        present: Seq::new(stages.len(), |i: int| true),
        states: Seq::new(stages.len(), |i: int| StageState::Null),
        links: Seq::new((stages.len() - 1) as nat, |i: int| Link { from: i as usize, to: (i + 1) as usize, kind: fresh_link_kind(i, pre, post, rule) }),
        ports: if pre is Some {
            seq![Port { tee: pre->Some_0, id: 0 }, Port { tee: post, id: 1 }]
        } else {
            seq![Port { tee: post, id: 0 }]
        },
        next_port: (first_port + 1) as u64,
        state: StageState::Null,
        pre_decode: pre,
        post_decode: post,
    }
}

pub open spec fn fresh_link_kind(i: int, pre: Option<usize>, post: usize, rule: Option<PadRule>) -> LinkKind {
    if i == 0 && rule is Some {
        LinkKind::Deferred(rule->Some_0)
    } else if pre == Some(i as usize) {
        LinkKind::Port(0)
    } else if i == post {
        LinkKind::Port(if pre is Some {
            1
        } else {
            0
        })
    } else {
        LinkKind::Static
    }
}

/// The display sink that hands decoded frames to the application.
pub open spec fn display_sink() -> StageView {
    with_props(named("appsink"@, "display"@), seq![PropView::Caps("video/x-raw, format=RGB"@)])
}

/// The queue in front of the display, leaky when so configured.
pub open spec fn display_queue(leaky: bool) -> StageView {
    if leaky {
        with_props(plain("queue"@), seq![PropView::Leaky])
    } else {
        plain("queue"@)
    }
}

/// The stages of the main graph, in order.
pub open spec fn main_layout(src: Seq<StageView>, dec: Seq<StageView>, conv: Seq<StageView>, leaky: bool) -> Seq<StageView> {
    src + seq![named("tee"@, "tee_source"@), plain("queue"@)] + dec + seq![
        named("tee"@, "tee_decoded"@),
        display_queue(leaky),
    ] + conv + seq![display_sink()]
}

/// The order in which the main graph's stages are checked against the host.
pub open spec fn main_check_order(src: Seq<StageView>, dec: Seq<StageView>, conv: Seq<StageView>) -> Seq<StageView> {
    src + seq![display_sink(), named("tee"@, "tee_source"@), named("tee"@, "tee_decoded"@), plain("queue"@), plain("queue"@)]
        + conv + dec
}

/// The stages of the graph that decodes by URI, in order.
pub open spec fn uri_layout(uri: Seq<char>, leaky: bool) -> Seq<StageView> {
    seq![
        with_props(plain("uridecodebin"@), seq![PropView::Uri(uri)]),
        named("tee"@, "tee_decoded"@),
        display_queue(leaky),
        plain("videoconvert"@),
        display_sink(),
    ]
}

pub open spec fn uri_check_order(uri: Seq<char>) -> Seq<StageView> {
    seq![
        plain("uridecodebin3"@),
        with_props(plain("uridecodebin"@), seq![PropView::Uri(uri)]),
        display_sink(),
        named("tee"@, "tee_decoded"@),
        plain("queue"@),
        plain("videoconvert"@),
    ]
}

proof fn lemma_first_missing_append(host: Seq<Seq<char>>, a: Seq<StageView>, b: Seq<StageView>)
    ensures
        first_missing(host, a + b) == if first_missing(host, a) is Some {
            first_missing(host, a)
        } else {
            first_missing(host, b)
        },
    decreases a.len(),
{
    if a.len() > 0 {
        assert((a + b).drop_first() =~= a.drop_first() + b);
        lemma_first_missing_append(host, a.drop_first(), b);
    } else {
        assert(a + b =~= b);
    }
}

fn display_sink_stage() -> (r: StageSpec)
    ensures
        r@ == display_sink(),
{
    let r = StageSpec::named("appsink", "display").with_prop(Prop::Caps(String::from_str("video/x-raw, format=RGB")));
    assert(r@.props =~= seq![PropView::Caps("video/x-raw, format=RGB"@)]);
    r
}

fn display_queue_stage(leaky: bool) -> (r: StageSpec)
    ensures
        r@ == display_queue(leaky),
{
    if leaky {
        let r = StageSpec::plain("queue").with_prop(Prop::Leaky);
        assert(r@.props =~= seq![PropView::Leaky]);
        r
    } else {
        StageSpec::plain("queue")
    }
}

fn check_result(r: Result<(), BuildError>) -> (e: Option<BuildError>)
    ensures
        r is Ok <==> e is None,
        r matches Err(x) ==> e == Some(x),
{
    match r {
        Ok(()) => None,
        Err(x) => Some(x),
    }
}

impl Graph {
    /// Builds the graph of the given stages, as [`fresh_graph`] describes it.
    fn assemble(stages: Vec<StageSpec>, pre: Option<usize>, post: usize, rule: Option<PadRule>) -> (g: Graph)
        requires
            stages@.len() >= 2,
            pre matches Some(p) ==> p < post,
            post < stages@.len() - 1,
        ensures
            g@ == fresh_graph(stage_seq_view(stages@), pre, post, rule),
            g@.wf(),
    {
        let n = stages.len();
        let mut present: Vec<bool> = Vec::new();
        let mut states: Vec<StageState> = Vec::new();
        let mut links: Vec<Link> = Vec::new();
        let mut i: usize = 0;
        while i < n
            invariant
                n == stages@.len(),
                i <= n,
                present@.len() == i,
                states@.len() == i,
                links@.len() == if i == 0 {
                    0
                } else {
                    i - 1
                },
                forall|j: int| 0 <= j < i ==> #[trigger] present@[j],
                forall|j: int| 0 <= j < i ==> #[trigger] states@[j] == StageState::Null,
                forall|j: int|
                    0 <= j < links@.len() ==> #[trigger] links@[j] == (Link {
                        from: j as usize,
                        to: (j + 1) as usize,
                        kind: fresh_link_kind(j, pre, post, rule),
                    }),
            decreases n - i,
        {
            present.push(true);
            states.push(StageState::Null);
            if i > 0 {
                let j = i - 1;
                let kind = if j == 0 && rule.is_some() {
                    match rule {
                        Some(r) => LinkKind::Deferred(r),
                        None => LinkKind::Static,
                    }
                } else if pre == Some(j) {
                    LinkKind::Port(0)
                } else if j == post {
                    LinkKind::Port(if pre.is_some() { 1 } else { 0 })
                } else {
                    LinkKind::Static
                };
                links.push(Link { from: j, to: i, kind });
            }
            i += 1;
        }
        let mut ports: Vec<Port> = Vec::new();
        let next_port: u64 = match pre {
            Some(p) => {
                ports.push(Port { tee: p, id: 0 });
                ports.push(Port { tee: post, id: 1 });
                2
            },
            None => {
                ports.push(Port { tee: post, id: 0 });
                1
            },
        };
        let g = Graph { stages, present, states, links, ports, next_port, state: StageState::Null, pre_decode: pre, post_decode: post };
        let ghost f = fresh_graph(stage_seq_view(g.stages@), pre, post, rule);
        assert(g@.present =~= f.present);
        assert(g@.states =~= f.states);
        assert(g@.links =~= f.links);
        assert(g@.ports =~= f.ports);
        g
    }
}

/// Builds the main graph: source, depacketizer, pre-decode tee, decode queue,
/// parser and decoder, post-decode tee, display queue, colorspace converter
/// and display sink. It fails on a source URL that lacks what its transport
/// needs, and else on the first stage, in the order they are made, that the
/// host cannot make; nothing is built then.
pub fn create_pipeline(
    host: &Capabilities,
    source: VideoSource,
    latency: u32,
    colorspace_conversion: ColorspaceConversion,
    decoder: VideoDecoder,
    appsink_queue_leaky_enabled: bool,
) -> (r: Result<Graph, BuildError>)
    ensures
        ({
            let t = source.transport();
            let fault = source_fault(t, source.url());
            let src = source_plan(t, source.url(), latency, decoder.0);
            let dec = decode_plan(decoder);
            let conv = conversion_plan(colorspace_conversion);
            let missing = first_missing(host@, main_check_order(src, dec, conv));
            &&& fault is Some ==> (r matches Err(BuildError::Url(f)) && fault == Some(f))
            &&& fault is None && missing is Some ==> (r matches Err(BuildError::MissingElement(f)) && missing == Some(f@))
            &&& r is Ok <==> fault is None && missing is None
            &&& r matches Ok(g) ==> g@ == fresh_graph(
                main_layout(src, dec, conv, appsink_queue_leaky_enabled),
                Some(src.len() as usize),
                (src.len() + 2 + dec.len()) as usize,
                if t == Transport::RTSP {
                    Some(PadRule::VideoOnly)
                } else {
                    None
                },
            ) && g@.wf()
        }),
{
    let src = source.gst_src_elements(latency, &decoder)?;
    let conv = colorspace_conversion.plan();
    let dec = decoder.main_plan();
    if let Some(e) = check_main(host, &src, &dec, &conv) {
        return Err(e);
    }
    let rtsp = match &source {
        VideoSource::RTSP(_) => true,
        _ => false,
    };
    let rule = if rtsp {
        Some(PadRule::VideoOnly)
    } else {
        None
    };
    let s = src.len();
    let t = s + 2 + dec.len();
    let stages = main_stages(src, dec, conv, appsink_queue_leaky_enabled);
    Ok(Graph::assemble(stages, Some(s), t, rule))
}

/// Checks the main graph's stages against the host, in the order they are made.
fn check_main(host: &Capabilities, src: &Vec<StageSpec>, dec: &Vec<StageSpec>, conv: &Vec<StageSpec>) -> (e: Option<BuildError>)
    ensures
        ({
            let missing = first_missing(
                host@,
                main_check_order(stage_seq_view(src@), stage_seq_view(dec@), stage_seq_view(conv@)),
            );
            &&& e is None <==> missing is None
            &&& e matches Some(x) ==> x matches BuildError::MissingElement(f) && missing == Some(f@)
        }),
{
    let mut fixed: Vec<StageSpec> = Vec::new();
    push_stage(&mut fixed, display_sink_stage());
    push_stage(&mut fixed, StageSpec::named("tee", "tee_source"));
    push_stage(&mut fixed, StageSpec::named("tee", "tee_decoded"));
    push_stage(&mut fixed, StageSpec::plain("queue"));
    push_stage(&mut fixed, StageSpec::plain("queue"));
    let ghost srcv = stage_seq_view(src@);
    let ghost fixedv = stage_seq_view(fixed@);
    let ghost convv = stage_seq_view(conv@);
    let ghost decv = stage_seq_view(dec@);
    proof {
        let order = main_check_order(srcv, decv, convv);
        assert(order =~= srcv + fixedv + convv + decv);
        lemma_first_missing_append(host@, srcv + fixedv + convv, decv);
        lemma_first_missing_append(host@, srcv + fixedv, convv);
        lemma_first_missing_append(host@, srcv, fixedv);
    }
    if let Some(e) = check_result(check_stages(host, src)) {
        return Some(e);
    }
    if let Some(e) = check_result(check_stages(host, &fixed)) {
        return Some(e);
    }
    if let Some(e) = check_result(check_stages(host, conv)) {
        return Some(e);
    }
    check_result(check_stages(host, dec))
}

/// Lays the main graph's stages out in order.
fn main_stages(src: Vec<StageSpec>, dec: Vec<StageSpec>, conv: Vec<StageSpec>, leaky: bool) -> (r: Vec<StageSpec>)
    requires
        src@.len() + dec@.len() + conv@.len() + 5 < usize::MAX,
    ensures
        stage_seq_view(r@) == main_layout(stage_seq_view(src@), stage_seq_view(dec@), stage_seq_view(conv@), leaky),
{
    let ghost srcv = stage_seq_view(src@);
    let ghost convv = stage_seq_view(conv@);
    let ghost decv = stage_seq_view(dec@);
    let mut stages = src;
    push_stage(&mut stages, StageSpec::named("tee", "tee_source"));
    push_stage(&mut stages, StageSpec::plain("queue"));
    let mut dec = dec;
    let ghost before_dec = stage_seq_view(stages@);
    stages.append(&mut dec);
    assert(stage_seq_view(stages@) =~= before_dec + decv);
    push_stage(&mut stages, StageSpec::named("tee", "tee_decoded"));
    push_stage(&mut stages, display_queue_stage(leaky));
    let mut conv = conv;
    let ghost before_conv = stage_seq_view(stages@);
    stages.append(&mut conv);
    assert(stage_seq_view(stages@) =~= before_conv + convv);
    push_stage(&mut stages, display_sink_stage());
    assert(stage_seq_view(stages@) =~= main_layout(srcv, decv, convv, leaky));
    stages
}

/// Builds the graph that lets the runtime pick demuxer and decoder from the
/// source URI: URI decoder, post-decode tee, display queue, converter and
/// display sink. The decoder's video output is linked once it appears.
pub fn create_decodebin_pipeline(
    host: &Capabilities,
    source: VideoSource,
    appsink_queue_leaky_enabled: bool,
) -> (r: Result<Graph, BuildError>)
    ensures
        ({
            let missing = first_missing(host@, uri_check_order(source.url().0));
            &&& r matches Err(e) ==> e matches BuildError::MissingElement(f) && missing == Some(f@)
            &&& r is Ok <==> missing is None
            &&& r matches Ok(g) ==> g@ == fresh_graph(
                uri_layout(source.url().0, appsink_queue_leaky_enabled),
                None,
                1,
                Some(PadRule::VideoOrCompatible),
            ) && g@.wf()
        }),
{
    let url = source.url_ref();
    let mut check: Vec<StageSpec> = Vec::new();
    push_stage(&mut check, StageSpec::plain("uridecodebin3"));
    push_stage(&mut check, StageSpec::plain("uridecodebin").with_prop(Prop::Uri(url.text.clone())));
    push_stage(&mut check, display_sink_stage());
    push_stage(&mut check, StageSpec::named("tee", "tee_decoded"));
    push_stage(&mut check, StageSpec::plain("queue"));
    push_stage(&mut check, StageSpec::plain("videoconvert"));
    proof {
        assert(seq![PropView::Uri(url.text@)] =~= seq![].push(PropView::Uri(url.text@)));
        assert(stage_seq_view(check@) =~= uri_check_order(source.url().0));
    }
    check_stages(host, &check)?;
    let mut stages: Vec<StageSpec> = Vec::new();
    push_stage(&mut stages, StageSpec::plain("uridecodebin").with_prop(Prop::Uri(url.text.clone())));
    push_stage(&mut stages, StageSpec::named("tee", "tee_decoded"));
    push_stage(&mut stages, display_queue_stage(appsink_queue_leaky_enabled));
    push_stage(&mut stages, StageSpec::plain("videoconvert"));
    push_stage(&mut stages, display_sink_stage());
    assert(stage_seq_view(stages@) =~= uri_layout(source.url().0, appsink_queue_leaky_enabled));
    Ok(Graph::assemble(stages, None, 1, Some(PadRule::VideoOrCompatible)))
}


impl Graph {
    /// The tee of a fan-out point, if the graph has it.
    pub fn tee_index(&self, f: Fanout) -> (r: Option<usize>)
        ensures
            r == self@.tee(f),
    {
        match f {
            Fanout::PreDecode => self.pre_decode,
            Fanout::PostDecode => Some(self.post_decode),
        }
    }

    pub fn state(&self) -> (r: StageState)
        ensures
            r == self@.state,
    {
        self.state
    }

    pub fn stage_count(&self) -> (r: usize)
        ensures
            r == self@.stages.len(),
    {
        self.stages.len()
    }

    pub fn stage(&self, i: usize) -> (r: &StageSpec)
        requires
            i < self@.stages.len(),
        ensures
            r@ == self@.stages[i as int],
    {
        &self.stages[i]
    }

    pub fn links(&self) -> (r: &Vec<Link>)
        ensures
            r@ == self@.links,
    {
        &self.links
    }

    pub fn ports(&self) -> (r: &Vec<Port>)
        ensures
            r@ == self@.ports,
    {
        &self.ports
    }

    pub fn is_present(&self, i: usize) -> (r: bool)
        requires
            self@.wf(),
            i < self@.stages.len(),
        ensures
            r == self@.present[i as int],
    {
        self.present[i]
    }

    /// Number of output ports of the tee at `tee`.
    pub fn port_count(&self, tee: usize) -> (r: usize)
        ensures
            r == self@.port_count(tee),
    {
        let mut c: usize = 0;
        let mut i: usize = 0;
        while i < self.ports.len()
            invariant
                i <= self.ports@.len(),
                c == self.ports@.take(i as int).filter(|p: Port| p.tee == tee).len(),
                c <= i,
            decreases self.ports@.len() - i,
        {
            proof {
                assert(self.ports@.take(i as int + 1) =~= self.ports@.take(i as int).push(self.ports@[i as int]));
                self.ports@.take(i as int).lemma_filter_push(self.ports@[i as int], |p: Port| p.tee == tee);
            }
            if self.ports[i].tee == tee {
                c += 1;
            }
            i += 1;
        }
        assert(self.ports@.take(i as int) =~= self.ports@);
        c
    }

    /// Records that every stage now runs in `state`, as the runtime reported.
    pub fn set_state(&mut self, state: StageState)
        requires
            old(self)@.wf(),
        ensures
            final(self)@ == (GraphView {
                state,
                states: Seq::new(old(self)@.states.len(), |i: int| state),
                ..old(self)@
            }),
            final(self)@.wf(),
    {
        let n = self.states.len();
        let mut states: Vec<StageState> = Vec::new();
        let mut i: usize = 0;
        while i < n
            invariant
                i <= n,
                states@.len() == i,
                forall|j: int| 0 <= j < i ==> #[trigger] states@[j] == state,
            decreases n - i,
        {
            states.push(state);
            i += 1;
        }
        self.states = states;
        self.state = state;
        assert(self@.states =~= Seq::new(old(self)@.states.len(), |i: int| state));
    }

    pub(crate) fn attach_chain(&mut self, t: usize, elements: Vec<StageSpec>) -> (r: (usize, usize, u64))
        requires
            old(self)@.wf(),
            t < old(self)@.stages.len(),
            elements@.len() > 0,
            old(self)@.stages.len() + elements@.len() < usize::MAX,
            old(self)@.next_port < u64::MAX,
        ensures
            final(self)@ == attached(old(self)@, t, stage_seq_view(elements@)),
            final(self)@.wf(),
            r == (old(self)@.stages.len() as usize, elements@.len() as usize, old(self)@.next_port),
    {
        let ghost g = self@;
        let ghost chain = stage_seq_view(elements@);
        let n = self.stages.len();
        let k = elements.len();
        let port = self.next_port;
        let mut elements = elements;
        self.stages.append(&mut elements);
        let mut i: usize = 0;
        while i < k
            invariant
                n == g.stages.len(),
                k == chain.len(),
                n + k < usize::MAX,
                i <= k,
                self.present@.len() == n + i,
                self.states@.len() == n + i,
                self.present@ == g.present + Seq::new(i as nat, |j: int| true),
                self.states@ == g.states + Seq::new(i as nat, |j: int| g.state),
                self.state == g.state,
                self.links@ == g.links + Seq::new(if i == 0 { 0nat } else { (i - 1) as nat }, |j: int| Link { from: (n + j) as usize, to: (n + j + 1) as usize, kind: LinkKind::Static }),
                stage_seq_view(self.stages@) == g.stages + chain,
                self.ports@ == g.ports,
                self.next_port == g.next_port,
                self.pre_decode == g.pre_decode,
                self.post_decode == g.post_decode,
            decreases k - i,
        {
            let ghost links_before = self.links@;
            self.present.push(true);
            self.states.push(self.state);
            if i > 0 {
                self.links.push(Link { from: n + i - 1, to: n + i, kind: LinkKind::Static });
            }
            assert(self.present@ =~= g.present + Seq::new((i + 1) as nat, |j: int| true));
            assert(self.states@ =~= g.states + Seq::new((i + 1) as nat, |j: int| g.state));
            assert(self.links@ =~= g.links + Seq::new(i as nat, |j: int| Link { from: (n + j) as usize, to: (n + j + 1) as usize, kind: LinkKind::Static }));
            i += 1;
        }
        self.links.push(Link { from: t, to: n, kind: LinkKind::Port(port) });
        self.ports.push(Port { tee: t, id: port });
        self.next_port = port + 1;
        proof {
            let a = attached(g, t, chain);
            assert(self@.stages =~= a.stages);
            assert(self@.links =~= a.links);
            assert(self@.present =~= a.present);
            assert(self@.states =~= a.states);
        }
        (n, k, port)
    }

    /// Removes the link from the tee port `port`.
    pub(crate) fn unlink_port(&mut self, port: u64)
        requires
            old(self)@.wf(),
        ensures
            final(self)@ == unlinked(old(self)@, port),
            final(self)@.wf(),
    {
        let ghost g = self@;
        let ghost keep = not_from_port(port);
        let mut kept: Vec<Link> = Vec::new();
        let mut i: usize = 0;
        while i < self.links.len()
            invariant
                i <= self.links@.len(),
                self@ == g,
                keep == not_from_port(port),
                kept@ == g.links.take(i as int).filter(keep),
            decreases self.links@.len() - i,
        {
            proof {
                assert(g.links.take(i as int + 1) =~= g.links.take(i as int).push(g.links[i as int]));
                g.links.take(i as int).lemma_filter_push(g.links[i as int], keep);
            }
            let l = self.links[i];
            if l.kind != LinkKind::Port(port) {
                kept.push(l);
            }
            i += 1;
        }
        assert(g.links.take(i as int) =~= g.links);
        self.links = kept;
        proof {
            assert forall|j: int| 0 <= j < self@.links.len() implies (#[trigger] self@.links[j]).from < self@.stages.len() && self@.links[j].to < self@.stages.len()
                && (self@.links[j].kind matches LinkKind::Port(id) ==> id < self@.next_port) by {
                assert(g.links.filter(keep).contains(self@.links[j]));
                g.links.lemma_filter_contains_rev(keep, self@.links[j]);
            }
        }
    }
}


impl Graph {
    /// Frees the tee port `port` and removes and stops the stages
    /// `first..first + count`, with their links.
    pub(crate) fn release_branch(&mut self, port: u64, first: usize, count: usize, Ghost(b): Ghost<BranchView>)
        requires
            old(self)@.wf(),
            b.port == port,
            b.first == first,
            b.count == count,
        ensures
            final(self)@ == released(old(self)@, b),
            final(self)@.wf(),
    {
        let ghost g = self@;
        let ghost keep_link = clear_of(first, count);
        let ghost keep_port = not_port(port);
        let mut links: Vec<Link> = Vec::new();
        let mut i: usize = 0;
        while i < self.links.len()
            invariant
                i <= self.links@.len(),
                self@ == g,
                keep_link == clear_of(first, count),
                links@ == g.links.take(i as int).filter(keep_link),
            decreases self.links@.len() - i,
        {
            proof {
                assert(g.links.take(i as int + 1) =~= g.links.take(i as int).push(g.links[i as int]));
                g.links.take(i as int).lemma_filter_push(g.links[i as int], keep_link);
            }
            let l = self.links[i];
            let inside_from = first <= l.from && (l.from - first) < count;
            let inside_to = first <= l.to && (l.to - first) < count;
            if !inside_from && !inside_to {
                links.push(l);
            }
            i += 1;
        }
        assert(g.links.take(i as int) =~= g.links);
        let mut ports: Vec<Port> = Vec::new();
        let mut i: usize = 0;
        while i < self.ports.len()
            invariant
                i <= self.ports@.len(),
                self@ == g,
                keep_port == not_port(port),
                ports@ == g.ports.take(i as int).filter(keep_port),
            decreases self.ports@.len() - i,
        {
            proof {
                assert(g.ports.take(i as int + 1) =~= g.ports.take(i as int).push(g.ports[i as int]));
                g.ports.take(i as int).lemma_filter_push(g.ports[i as int], keep_port);
            }
            let p = self.ports[i];
            if p.id != port {
                ports.push(p);
            }
            i += 1;
        }
        assert(g.ports.take(i as int) =~= g.ports);
        let n = self.present.len();
        let mut present: Vec<bool> = Vec::new();
        let mut states: Vec<StageState> = Vec::new();
        let mut i: usize = 0;
        while i < n
            invariant
                self@ == g,
                g.wf(),
                n == g.present.len(),
                b.port == port,
                b.first == first,
                b.count == count,
                i <= n,
                present@.len() == i,
                states@.len() == i,
                forall|j: int| 0 <= j < i ==> #[trigger] present@[j] == (g.present[j] && !in_branch(b, j)),
                forall|j: int| 0 <= j < i ==> #[trigger] states@[j] == if in_branch(b, j) {
                    StageState::Null
                } else {
                    g.states[j]
                },
            decreases n - i,
        {
            let inside = first <= i && (i - first) < count;

            if inside {
                present.push(false);
                states.push(StageState::Null);
            } else {
                present.push(self.present[i]);
                states.push(self.states[i]);
            }
            i += 1;
        }
        self.links = links;
        self.ports = ports;
        self.present = present;
        self.states = states;
        proof {
            let r = released(g, b);
            assert(self@.present =~= r.present);
            assert(self@.states =~= r.states);
            assert forall|j: int| 0 <= j < self@.links.len() implies (#[trigger] self@.links[j]).from < self@.stages.len() && self@.links[j].to < self@.stages.len()
                && (self@.links[j].kind matches LinkKind::Port(id) ==> id < self@.next_port) by {
                assert(g.links.filter(keep_link).contains(self@.links[j]));
                g.links.lemma_filter_contains_rev(keep_link, self@.links[j]);
            }
            assert forall|j: int| 0 <= j < self@.ports.len() implies (#[trigger] self@.ports[j]).tee < self@.stages.len() && self@.ports[j].id < self@.next_port by {
                assert(g.ports.filter(keep_port).contains(self@.ports[j]));
                g.ports.lemma_filter_contains_rev(keep_port, self@.ports[j]);
            }
        }
    }
}


/// Whether a port that appears on a deferred link's upstream stage is linked,
/// given the media kind it advertises and whether it can link structurally.
pub open spec fn pad_linked(rule: PadRule, media: Option<Seq<char>>, compatible: bool) -> bool {
    match rule {
        PadRule::VideoOnly => media == Some("video"@),
        PadRule::VideoOrCompatible => if media == Some("video"@) {
            true
        } else if media == Some("audio"@) {
            false
        } else {
            compatible
        },
    }
}

/// Decides on a port that appeared on the upstream stage of a deferred link.
pub fn route_pad(rule: PadRule, media: Option<&str>, compatible: bool) -> (r: bool)
    ensures
        r == pad_linked(rule, match media {
            Some(m) => Some(m@),
            None => None,
        }, compatible),
{
    let kind = match media {
        Some(m) => Some(String::from_str(m)),
        None => None,
    };
    let video = match &kind {
        Some(k) => *k == String::from_str("video"),
        None => false,
    };
    let audio = match &kind {
        Some(k) => *k == String::from_str("audio"),
        None => false,
    };
    match rule {
        PadRule::VideoOnly => video,
        PadRule::VideoOrCompatible => if video {
            true
        } else if audio {
            false
        } else {
            compatible
        },
    }
}

} // verus!
