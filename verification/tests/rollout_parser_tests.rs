use orbitdock_connector::codex::rollout::{
    extract_images_from_content, extract_text_from_content, ContentItem, ImageDetail, ParseState,
    PersistedFileState, RolloutFileProcessor,
};
use orbitdock_connector::keyed::TextMap;

#[test]
fn binding_snapshot_reflects_current_parse_state() {
    let path = "/tmp/rollout.jsonl";
    let mut processor = RolloutFileProcessor::new(TextMap::new());
    processor.parse_states.insert(
        path.to_string(),
        ParseState {
            session_id: Some("session-1".to_string()),
            project_path: Some("/tmp/repo".to_string()),
            model_provider: Some("gpt-5".to_string()),
            next_message_seq: 7,
            saw_user_event: true,
            saw_agent_event: true,
        },
    );

    let snapshot = processor.binding_snapshot(path).expect("binding snapshot");

    assert_eq!(snapshot.offset, 0);
    assert_eq!(snapshot.session_id.as_deref(), Some("session-1"));
    assert_eq!(snapshot.project_path.as_deref(), Some("/tmp/repo"));
    assert_eq!(snapshot.model_provider.as_deref(), Some("gpt-5"));
    assert_eq!(snapshot.ignore_existing, None);
}

#[test]
fn mark_session_id_initializes_seeded_parse_state() {
    let path = "/tmp/rollout.jsonl";
    let mut seeds = TextMap::new();
    seeds.insert(
        path.to_string(),
        PersistedFileState {
            offset: 128,
            session_id: Some("session-2".to_string()),
            project_path: Some("/tmp/project".to_string()),
            model_provider: Some("codex".to_string()),
            ignore_existing: Some(false),
        },
    );
    let mut processor = RolloutFileProcessor::new(seeds);

    processor.mark_session_id(path, "session-3");

    let state = processor.parse_states.get(path).expect("parse state");
    assert_eq!(state.session_id.as_deref(), Some("session-3"));
    assert_eq!(state.project_path.as_deref(), Some("/tmp/project"));
    assert_eq!(state.model_provider.as_deref(), Some("codex"));
}

#[test]
fn extract_images_from_content_preserves_image_detail() {
    let images = extract_images_from_content(&[ContentItem::InputImage {
        image_url: "data:image/png;base64,aGVsbG8=".to_string(),
        detail: Some(ImageDetail::Original),
    }]);

    assert_eq!(images.len(), 1);
    assert_eq!(images[0].input_type, "url");
    assert_eq!(images[0].value, "data:image/png;base64,aGVsbG8=");
    assert_eq!(images[0].detail.as_deref(), Some("original"));
}

#[test]
fn rollout_text_joins_non_blank_texts() {
    let text = extract_text_from_content(&[
        ContentItem::InputText { text: "  first  ".to_string() },
        ContentItem::InputImage { image_url: "u".to_string(), detail: None },
        ContentItem::OutputText { text: "   ".to_string() },
        ContentItem::OutputText { text: "second".to_string() },
    ]);
    assert_eq!(text.as_deref(), Some("first\nsecond"));
    assert_eq!(extract_text_from_content(&[ContentItem::InputText { text: " ".to_string() }]), None);
}

#[test]
fn rollout_binding_reset_and_removal() {
    let path = "/tmp/a.jsonl";
    let mut processor = RolloutFileProcessor::new(TextMap::new());
    assert_eq!(processor.file_session_id(path), None);
    assert!(!processor.saw_agent_event(path));
    assert!(processor.binding_snapshot(path).is_none());

    processor.mark_session_id(path, "s-1");
    assert_eq!(processor.file_session_id(path).as_deref(), Some("s-1"));
    let fresh = processor.parse_states.get(path).expect("parse state");
    assert_eq!(fresh.next_message_seq, 0);
    assert!(!fresh.saw_user_event);

    processor.reset_session_binding(path);
    assert_eq!(processor.file_session_id(path), None);
    assert!(processor.parse_states.contains_key(path));

    processor.remove_path(path);
    assert!(!processor.parse_states.contains_key(path));
    processor.reset_session_binding(path);
    assert!(!processor.parse_states.contains_key(path));
}

#[test]
fn text_map_keeps_one_value_per_key() {
    let mut map = TextMap::new();
    map.insert("k".to_string(), 1u32);
    map.insert("j".to_string(), 2u32);
    map.insert("k".to_string(), 3u32);
    assert_eq!(map.get("k"), Some(&3));
    assert_eq!(map.get("j"), Some(&2));
    map.remove("k");
    assert_eq!(map.get("k"), None);
    assert_eq!(map.get("j"), Some(&2));
}
