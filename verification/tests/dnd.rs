use fanwaave_desktop_core::dnd::{emit_outcome, DndLifecycleEvent, DndLifecyclePhase, DndOperation};
use fanwaave_desktop_core::native_dnd::{DndItemKind, DropPolicyTerms};

#[test]
fn gestures_map_to_lifecycle_events() {
    let start = DndLifecycleEvent::start();
    assert_eq!(start.phase, DndLifecyclePhase::DragStart);
    assert_eq!(start.operation, None);
    assert_eq!(start.target_id, None);

    let enter = DndLifecycleEvent::enter_external("timeline".to_string());
    assert_eq!(enter.phase, DndLifecyclePhase::DragEnter);
    assert_eq!(enter.target_id.as_deref(), Some("timeline"));

    let hover = DndLifecycleEvent::hover("timeline".to_string());
    assert_eq!(hover.phase, DndLifecyclePhase::DragOver);
    assert_eq!(hover.operation, None);
    assert_eq!(hover.target_id.as_deref(), Some("timeline"));

    let dropped = DndLifecycleEvent::drop_on(DndOperation::Copy, "timeline".to_string());
    assert_eq!(dropped.phase, DndLifecyclePhase::Drop);
    assert_eq!(dropped.operation, Some(DndOperation::Copy));
    assert_eq!(dropped.target_id.as_deref(), Some("timeline"));

    let ended = DndLifecycleEvent::end(Some(DndOperation::Move), None);
    assert_eq!(ended.phase, DndLifecyclePhase::DragEnd);
    assert_eq!(ended.operation, Some(DndOperation::Move));
    assert_eq!(ended.target_id, None);
}

#[test]
fn emitted_event_answers_its_state_only_when_admitted() {
    let admitted: Result<(), &str> = Ok(());
    assert_eq!(emit_outcome(7u32, admitted), Ok(7));
    let refused: Result<(), &str> = Err("impossible transition");
    assert_eq!(emit_outcome(7u32, refused), Err("impossible transition"));
}

#[test]
fn default_policy_allows_copy_and_move_of_four_kinds() {
    let p = DropPolicyTerms::fanwaave_default("timeline".to_string());
    assert_eq!(p.target_id, "timeline");
    assert_eq!(p.operations, vec![DndOperation::Copy, DndOperation::Move]);
    assert_eq!(
        p.item_kinds,
        vec![DndItemKind::Text, DndItemKind::Uri, DndItemKind::Json, DndItemKind::Bytes]
    );
}
