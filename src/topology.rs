use vstd::prelude::*;

verus! {

/// The nodes of the bin. Each role names exactly one node; the graph owns
/// them and the controller refers to them by role only.
#[derive(Clone, Copy, Debug, PartialEq, Eq, Hash, Structural)]
pub enum NodeRole {
    AudioClockSync,
    AudioTee,
    AudioQueuePassthrough,
    VideoClockSync,
    VideoQueue,
    CcCombiner,
    TranscriptionQueue,
    TranscriberConvert,
    Transcriber,
    TranscriberQueue,
    TextWrap,
    TtToCea608,
    CcConverter,
    CcCapsFilter,
}

/// Ports of a node that links use.
#[derive(Clone, Copy, Debug, PartialEq, Eq, Structural)]
pub enum PortName {
    Src,
    Sink,
    /// A request output port of the splitter.
    RequestSrc,
    /// The secondary (caption) input of the combiner.
    Caption,
}

/// A directed link from an output port to an input port.
#[derive(Clone, Copy, Debug, PartialEq, Eq, Structural)]
pub struct LinkSpec {
    pub from: NodeRole,
    pub from_port: PortName,
    pub to: NodeRole,
    pub to_port: PortName,
}

/// The four ports that the bin exposes.
#[derive(Clone, Copy, Debug, PartialEq, Eq, Structural)]
pub enum ExternalPort {
    AudioSink,
    AudioSrc,
    VideoSink,
    VideoSrc,
}

pub open spec fn link(from: NodeRole, from_port: PortName, to: NodeRole, to_port: PortName) -> LinkSpec {
    LinkSpec { from, from_port, to, to_port }
}

/// Nodes of the bypass path, in the order they are added.
pub open spec fn spec_internal_nodes() -> Seq<NodeRole> {
    seq![
        NodeRole::AudioClockSync,
        NodeRole::AudioTee,
        NodeRole::AudioQueuePassthrough,
        NodeRole::VideoClockSync,
        NodeRole::VideoQueue,
        NodeRole::CcCombiner,
    ]
}

/// Links of the bypass path: audio goes through a splitter into a queue,
/// video through a queue into the combiner.
pub open spec fn spec_internal_links() -> Seq<LinkSpec> {
    seq![
        link(NodeRole::AudioClockSync, PortName::Src, NodeRole::AudioTee, PortName::Sink),
        link(NodeRole::AudioTee, PortName::RequestSrc, NodeRole::AudioQueuePassthrough, PortName::Sink),
        link(NodeRole::VideoClockSync, PortName::Src, NodeRole::VideoQueue, PortName::Sink),
        link(NodeRole::VideoQueue, PortName::Src, NodeRole::CcCombiner, PortName::Sink),
    ]
}

/// Nodes of the captioning path, from its input to its output.
pub open spec fn spec_transcription_chain() -> Seq<NodeRole> {
    seq![
        NodeRole::TranscriptionQueue,
        NodeRole::TranscriberConvert,
        NodeRole::Transcriber,
        NodeRole::TranscriberQueue,
        NodeRole::TextWrap,
        NodeRole::TtToCea608,
        NodeRole::CcConverter,
        NodeRole::CcCapsFilter,
    ]
}

/// Where each exposed port leads inside the bin.
pub open spec fn spec_port_target(port: ExternalPort) -> (NodeRole, PortName) {
    match port {
        ExternalPort::AudioSink => (NodeRole::AudioClockSync, PortName::Sink),
        ExternalPort::AudioSrc => (NodeRole::AudioQueuePassthrough, PortName::Src),
        ExternalPort::VideoSink => (NodeRole::VideoClockSync, PortName::Sink),
        ExternalPort::VideoSrc => (NodeRole::CcCombiner, PortName::Src),
    }
}

/// The links of a chain: each node's output feeds the next node's input.
pub open spec fn spec_chain_links(chain: Seq<NodeRole>) -> Seq<LinkSpec>
    recommends
        chain.len() >= 1,
{
    Seq::new(
        (chain.len() - 1) as nat,
        |i: int| link(chain[i], PortName::Src, chain[i + 1], PortName::Sink),
    )
}

pub fn internal_nodes() -> (r: Vec<NodeRole>)
    ensures
        r@ == spec_internal_nodes(),
{
    let r = vec![
        NodeRole::AudioClockSync,
        NodeRole::AudioTee,
        NodeRole::AudioQueuePassthrough,
        NodeRole::VideoClockSync,
        NodeRole::VideoQueue,
        NodeRole::CcCombiner,
    ];
    assert(r@ =~= spec_internal_nodes());
    r
}

pub fn internal_links() -> (r: Vec<LinkSpec>)
    ensures
        r@ == spec_internal_links(),
{
    let r = vec![
        LinkSpec {
            from: NodeRole::AudioClockSync,
            from_port: PortName::Src,
            to: NodeRole::AudioTee,
            to_port: PortName::Sink,
        },
        LinkSpec {
            from: NodeRole::AudioTee,
            from_port: PortName::RequestSrc,
            to: NodeRole::AudioQueuePassthrough,
            to_port: PortName::Sink,
        },
        LinkSpec {
            from: NodeRole::VideoClockSync,
            from_port: PortName::Src,
            to: NodeRole::VideoQueue,
            to_port: PortName::Sink,
        },
        LinkSpec {
            from: NodeRole::VideoQueue,
            from_port: PortName::Src,
            to: NodeRole::CcCombiner,
            to_port: PortName::Sink,
        },
    ];
    assert(r@ =~= spec_internal_links());
    r
}

pub fn transcription_chain() -> (r: Vec<NodeRole>)
    ensures
        r@ == spec_transcription_chain(),
{
    let r = vec![
        NodeRole::TranscriptionQueue,
        NodeRole::TranscriberConvert,
        NodeRole::Transcriber,
        NodeRole::TranscriberQueue,
        NodeRole::TextWrap,
        NodeRole::TtToCea608,
        NodeRole::CcConverter,
        NodeRole::CcCapsFilter,
    ];
    assert(r@ =~= spec_transcription_chain());
    r
}

/// Links consecutive nodes of `chain`, output to input.
pub fn chain_links(chain: &Vec<NodeRole>) -> (r: Vec<LinkSpec>)
    requires
        chain.len() >= 1,
    ensures
        r@ == spec_chain_links(chain@),
{
    let mut r: Vec<LinkSpec> = Vec::new();
    let mut i: usize = 1;
    while i < chain.len()
        invariant
            1 <= i <= chain.len(),
            r@ =~= spec_chain_links(chain@.subrange(0, i as int)),
        decreases chain.len() - i,
    {
        r.push(
            LinkSpec {
                from: chain[i - 1],
                from_port: PortName::Src,
                to: chain[i],
                to_port: PortName::Sink,
            },
        );
        i = i + 1;
    }
    assert(chain@.subrange(0, chain.len() as int) =~= chain@);
    r
}

/// Links inside the captioning path.
pub fn transcription_links() -> (r: Vec<LinkSpec>)
    ensures
        r@ == spec_chain_links(spec_transcription_chain()),
{
    let chain = transcription_chain();
    chain_links(&chain)
}

pub fn port_target(port: ExternalPort) -> (r: (NodeRole, PortName))
    ensures
        r == spec_port_target(port),
{
    match port {
        ExternalPort::AudioSink => (NodeRole::AudioClockSync, PortName::Sink),
        ExternalPort::AudioSrc => (NodeRole::AudioQueuePassthrough, PortName::Src),
        ExternalPort::VideoSink => (NodeRole::VideoClockSync, PortName::Sink),
        ExternalPort::VideoSrc => (NodeRole::CcCombiner, PortName::Src),
    }
}

/// The transcriber sits between the converter and its output queue, so
/// replacing it takes exactly the two links around it.
pub proof fn lemma_transcriber_neighbours()
    ensures
        spec_chain_links(spec_transcription_chain())[1] == link(
            NodeRole::TranscriberConvert,
            PortName::Src,
            NodeRole::Transcriber,
            PortName::Sink,
        ),
        spec_chain_links(spec_transcription_chain())[2] == link(
            NodeRole::Transcriber,
            PortName::Src,
            NodeRole::TranscriberQueue,
            PortName::Sink,
        ),
        forall|i: int|
            0 <= i < spec_chain_links(spec_transcription_chain()).len() && i != 1 && i != 2 ==> {
                let l = #[trigger] spec_chain_links(spec_transcription_chain())[i];
                l.from != NodeRole::Transcriber && l.to != NodeRole::Transcriber
            },
{
    let c = spec_transcription_chain();
    assert(c[0] != NodeRole::Transcriber);
    assert(c[3] != NodeRole::Transcriber);
}

} // verus!
