use fotobot::media::{
    image_file_id, is_simplified_chinese_code, locale_from_language_code, peer_step, plan_reply, select_image,
    temp_file_name, ImageSelection, IncomingMedia, PeerAction, PeerEvent, ReceivedImage, Reply, MAX_INLINE_SIZE,
};

fn is_inline(s: &ImageSelection) -> bool {
    matches!(s, ImageSelection::Inline { .. })
}

#[test]
fn selection_by_size() {
    assert!(is_inline(&select_image("a".to_string(), ReceivedImage::Document, None)));
    assert!(is_inline(&select_image("a".to_string(), ReceivedImage::Document, Some(0))));
    assert!(is_inline(&select_image("a".to_string(), ReceivedImage::Document, Some(MAX_INLINE_SIZE))));
    match select_image("big".to_string(), ReceivedImage::Document, Some(MAX_INLINE_SIZE + 1)) {
        ImageSelection::TooLarge { file_id, size, .. } => {
            assert_eq!(file_id, "big");
            assert_eq!(size, 20 * 1024 * 1024 + 1);
        },
        _ => panic!("expected the large-file path"),
    }
    assert!(!is_inline(&select_image("a".to_string(), ReceivedImage::Document, Some(u64::MAX))));
}

fn document(mime: Option<&str>, size: Option<u64>) -> IncomingMedia {
    IncomingMedia::Document { mime: mime.map(String::from), file_id: "f1".to_string(), size }
}

#[test]
fn only_image_documents_are_taken() {
    assert!(image_file_id(document(Some("image/jpeg"), Some(10))).is_some());
    assert!(image_file_id(document(Some("application/pdf"), Some(10))).is_none());
    assert!(image_file_id(document(None, Some(10))).is_none());
    assert!(image_file_id(IncomingMedia::Photo).is_none());
    assert!(image_file_id(IncomingMedia::Other).is_none());
}

#[test]
fn replies() {
    assert!(matches!(plan_reply(IncomingMedia::Photo), Reply::ResendAsDocument));
    assert!(matches!(plan_reply(IncomingMedia::Other), Reply::RequestImage));
    assert!(matches!(plan_reply(document(Some("text/plain"), None)), Reply::RequestImage));
    match plan_reply(document(Some("image/png"), Some(MAX_INLINE_SIZE * 2))) {
        Reply::Process(ImageSelection::TooLarge { size, file_id, .. }) => {
            assert_eq!(size, MAX_INLINE_SIZE * 2);
            assert_eq!(file_id, "f1");
        },
        _ => panic!("expected the large-file path"),
    }
    match plan_reply(document(Some("image/jpeg"), Some(1024))) {
        Reply::Process(ImageSelection::Inline { file_id, .. }) => assert_eq!(file_id, "f1"),
        _ => panic!("expected the inline path"),
    }
}

#[test]
fn peer_search_steps() {
    assert_eq!(peer_step(PeerEvent::Started { has_username: true }, 5), PeerAction::ResolveUsername);
    assert_eq!(peer_step(PeerEvent::Started { has_username: false }, 5), PeerAction::NextDialog);
    assert_eq!(peer_step(PeerEvent::UsernameLookup { found: true }, 5), PeerAction::UseResolved);
    assert_eq!(peer_step(PeerEvent::UsernameLookup { found: false }, 5), PeerAction::NextDialog);
    assert_eq!(peer_step(PeerEvent::Dialog { id: Some(-1005) }, -1005), PeerAction::UseDialog);
    assert_eq!(peer_step(PeerEvent::Dialog { id: Some(7) }, -1005), PeerAction::NextDialog);
    assert_eq!(peer_step(PeerEvent::Dialog { id: None }, -1005), PeerAction::NextDialog);
    assert_eq!(peer_step(PeerEvent::DialogsExhausted, -1005), PeerAction::NotFound);
}

#[test]
fn locales() {
    assert_eq!(locale_from_language_code(None), "en");
    assert_eq!(locale_from_language_code(Some("  ")), "en");
    assert_eq!(locale_from_language_code(Some("zh")), "zh-CN");
    assert_eq!(locale_from_language_code(Some("ZH_hans")), "zh-CN");
    assert_eq!(locale_from_language_code(Some(" zh-TW ")), "zh-CN");
    assert_eq!(locale_from_language_code(Some("zha")), "en");
    assert_eq!(locale_from_language_code(Some("en-US")), "en");
    assert!(is_simplified_chinese_code("zh"));
    assert!(is_simplified_chinese_code("zh-cn"));
    assert!(!is_simplified_chinese_code("zhx"));
    assert!(!is_simplified_chinese_code("z"));
}

#[test]
fn temp_file_names() {
    assert_eq!(temp_file_name(-1001234, 42, 1700000000123, "bin"), "tmp--1001234-42-1700000000123.bin");
    assert_eq!(temp_file_name(7, -3, 0, "bin"), "tmp-7--3-0.bin");
}
