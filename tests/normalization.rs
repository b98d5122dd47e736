use xsnotif::normalize::{can_encode_icon, content_of, message_for, notif_to_message, NotificationRecord};

fn record(title: &str, body: &[&str], icon: Option<Vec<u8>>) -> NotificationRecord {
    NotificationRecord {
        id: 7,
        app_name: "Mail".to_string(),
        title: title.to_string(),
        body: body.iter().map(|s| s.to_string()).collect(),
        icon,
    }
}

#[test]
fn title_and_body_parts_become_title_and_content() {
    let m = notif_to_message(&record("A", &["B", "C"], None), 2000);
    assert_eq!(m.title, "A");
    assert_eq!(m.content, "B\nC\n");
    assert_eq!(m.source_app, "Mail");
    assert_eq!(m.message_type, 1);
    assert_eq!(m.index, 0);
    assert_eq!(m.timeout_ms, 2000);
    assert_eq!(m.height, 175);
    assert_eq!(m.opacity_percent, 100);
    assert_eq!(m.volume_percent, 70);
    assert_eq!(m.audio_path, "default");
}

#[test]
fn empty_body_gives_empty_content() {
    assert_eq!(content_of(&vec![]), "");
    let m = notif_to_message(&record("only", &[], None), 1);
    assert_eq!(m.content, "");
}

#[test]
fn icon_is_sent_as_base64() {
    let m = notif_to_message(&record("A", &[], Some(vec![1, 2, 3])), 2000);
    assert_eq!(m.icon, "AQID");
    assert!(m.use_base64_icon);
    let m = notif_to_message(&record("A", &[], Some(b"hi".to_vec())), 2000);
    assert_eq!(m.icon, "aGk=");
}

#[test]
fn failed_icon_fetch_falls_back_to_default_keyword() {
    for title in ["one", "two", "three"] {
        let m = notif_to_message(&record(title, &["x"], None), 2000);
        assert_eq!(m.icon, "default");
        assert!(!m.use_base64_icon);
    }
}

#[test]
fn normalizing_twice_gives_identical_messages() {
    let r = record("A", &["B", "C"], Some(vec![9, 8, 7, 6]));
    let a = notif_to_message(&r, 1500);
    let b = notif_to_message(&r, 1500);
    assert_eq!(format!("{:?}", a), format!("{:?}", b));
}

#[test]
fn text_elements_split_into_title_and_body() {
    let r = NotificationRecord::from_text_elements(
        3,
        "Chat".to_string(),
        vec!["A".to_string(), "B".to_string(), "C".to_string()],
        None,
    );
    assert_eq!(r.id, 3);
    assert_eq!(r.title, "A");
    assert_eq!(r.body, vec!["B".to_string(), "C".to_string()]);
    let m = notif_to_message(&r, 2000);
    assert_eq!(m.content, "B\nC\n");
}

#[test]
fn no_text_elements_give_empty_title() {
    let r = NotificationRecord::from_text_elements(3, "Chat".to_string(), vec![], None);
    assert_eq!(r.title, "");
    assert!(r.body.is_empty());
}

#[test]
fn failed_fetch_is_dropped() {
    assert!(message_for(None, 2000).is_none());
    let m = message_for(Some(record("A", &["B"], None)), 2000).unwrap();
    assert_eq!(m.title, "A");
    assert_eq!(m.content, "B\n");
}

#[test]
fn small_icons_can_be_encoded() {
    assert!(can_encode_icon(&record("A", &[], None)));
    assert!(can_encode_icon(&record("A", &[], Some(vec![0; 1024]))));
}
