use transcriberbin::topology::{
    chain_links, internal_links, internal_nodes, port_target, transcription_chain,
    transcription_links, ExternalPort, LinkSpec, NodeRole, PortName,
};

#[test]
fn transcription_path_is_a_chain() {
    let chain = transcription_chain();
    assert_eq!(chain.len(), 8);
    assert_eq!(chain[0], NodeRole::TranscriptionQueue);
    assert_eq!(chain[7], NodeRole::CcCapsFilter);
    let links = transcription_links();
    assert_eq!(links.len(), 7);
    assert_eq!(
        links[1],
        LinkSpec {
            from: NodeRole::TranscriberConvert,
            from_port: PortName::Src,
            to: NodeRole::Transcriber,
            to_port: PortName::Sink,
        }
    );
    assert_eq!(links[2].from, NodeRole::Transcriber);
    assert_eq!(links[2].to, NodeRole::TranscriberQueue);
}

#[test]
fn chain_of_one_has_no_links() {
    assert_eq!(chain_links(&vec![NodeRole::TextWrap]), vec![]);
}

#[test]
fn bypass_path() {
    assert_eq!(internal_nodes().len(), 6);
    let links = internal_links();
    assert_eq!(links.len(), 4);
    assert_eq!(links[1].from_port, PortName::RequestSrc);
    assert_eq!(links[3].to, NodeRole::CcCombiner);
    assert_eq!(port_target(ExternalPort::VideoSrc), (NodeRole::CcCombiner, PortName::Src));
    assert_eq!(
        port_target(ExternalPort::AudioSrc),
        (NodeRole::AudioQueuePassthrough, PortName::Src)
    );
}
