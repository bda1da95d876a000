use parent_finality::event::EventType;
use parent_finality::logging::LoggingMaterializer;

#[test]
fn event_names_are_the_variant_names() {
    assert_eq!(EventType::NewParentView.name(), "NewParentView");
    assert_eq!(
        EventType::ParentFinalityCommitted.name(),
        "ParentFinalityCommitted"
    );
    assert_eq!(
        EventType::NewBottomUpCheckpoint.name(),
        "NewBottomUpCheckpoint"
    );
    assert_eq!(EventType::NewBlock.name(), "NewBlock");
    assert_eq!(EventType::ProposalAccepted.name(), "ProposalAccepted");
    assert_eq!(EventType::ProposalRejected.to_text(), "ProposalRejected");
    assert_eq!(EventType::NewBlock.to_text(), String::from("NewBlock"));
}

#[test]
fn logging_materializer_keeps_tag_and_inner() {
    let mut m = LoggingMaterializer::new(vec![1u8, 2, 3], "docker".to_string());
    assert_eq!(m.tag(), "docker");
    assert_eq!(m.inner(), &vec![1u8, 2, 3]);
    m.inner_mut().push(4);
    assert_eq!(m.inner(), &vec![1u8, 2, 3, 4]);
    assert_eq!(m.tag(), "docker");
}
