use std::collections::HashMap;

use git_matrix::events::{decode_event, EventBody, SyncFilter, TimelineEvent};
use git_matrix::pack::{
    fetch_plan, fetch_start, fetch_step, parse_locator, push_start, push_step, FetchAction,
    FetchEvent, PushAction, PushEvent,
};
use git_matrix::strutil::decimal_string;

fn announcement(uri: &str) -> TimelineEvent {
    TimelineEvent {
        state_key: None,
        body: EventBody::PackAnnouncement { content_uri: uri.to_owned() },
    }
}

#[test]
fn locator_splits_server_and_media_id() {
    let loc = parse_locator("mxc://server.example/mediaid123").unwrap();
    assert_eq!(loc.server_name, "server.example");
    assert_eq!(loc.media_id, "mediaid123");
}

#[test]
fn bad_locator_is_none() {
    assert!(parse_locator("not a url at all").is_none());
}

#[test]
fn fetch_plan_is_newest_first_and_skips_junk() {
    let events = vec![
        announcement("mxc://s.example/old"),
        TimelineEvent { state_key: None, body: EventBody::Unrecognized },
        announcement("mxc://s.example/new"),
        announcement("::not::a::locator::"),
    ];
    let plan = fetch_plan(&events);
    assert_eq!(plan.len(), 2);
    assert_eq!(plan[0].media_id, "new");
    assert_eq!(plan[1].media_id, "old");
}

#[test]
fn push_machine_runs_in_order() {
    let (mut m, a) = push_start("main".to_owned(), "refs/heads/main".to_owned());
    match a {
        PushAction::BuildPack { src } => assert_eq!(src, "main"),
        _ => panic!("expected to build the pack first"),
    }
    let bytes = vec![1u8, 2, 3, 4];
    match push_step(&mut m, PushEvent::Packed { bytes: bytes.clone() }) {
        PushAction::UploadPack { bytes: b } => assert_eq!(b, bytes),
        _ => panic!("expected the upload next"),
    }
    match push_step(&mut m, PushEvent::Uploaded { content_uri: "mxc://s/m1".to_owned() }) {
        PushAction::AnnouncePack { content_uri } => assert_eq!(content_uri, "mxc://s/m1"),
        _ => panic!("expected the announcement next"),
    }
    match push_step(&mut m, PushEvent::Announced) {
        PushAction::ResolveRef { src } => assert_eq!(src, "main"),
        _ => panic!("expected the ref lookup next"),
    }
    match push_step(&mut m, PushEvent::RefResolved { object_id: "abc123".to_owned() }) {
        PushAction::PublishRef { dst, object_id } => {
            assert_eq!(dst, "refs/heads/main");
            assert_eq!(object_id, "abc123");
        }
        _ => panic!("expected the ref publication next"),
    }
    match push_step(&mut m, PushEvent::RefPublished) {
        PushAction::ReportOk { dst } => assert_eq!(dst, "refs/heads/main"),
        _ => panic!("expected the ok report last"),
    }
}

#[test]
fn push_failure_reports_error_for_dst() {
    let (mut m, _) = push_start("main".to_owned(), "refs/heads/main".to_owned());
    match push_step(&mut m, PushEvent::Failed { message: "no route".to_owned() }) {
        PushAction::ReportError { dst, message } => {
            assert_eq!(dst, "refs/heads/main");
            assert_eq!(message, "no route");
        }
        _ => panic!("expected an error report"),
    }
}

#[test]
fn fetch_machine_writes_what_it_downloaded() {
    let events = vec![announcement("mxc://s.example/a"), announcement("mxc://s.example/b")];
    let (mut m, a) = fetch_start(&events);
    match a {
        FetchAction::Download { server_name, media_id } => {
            assert_eq!(server_name, "s.example");
            assert_eq!(media_id, "b");
        }
        _ => panic!("expected the first download"),
    }
    let blob1 = vec![9u8, 9, 9];
    match fetch_step(&mut m, FetchEvent::Downloaded { bytes: blob1.clone() }) {
        FetchAction::WritePack { bytes } => assert_eq!(bytes, blob1),
        _ => panic!("expected the write of the downloaded blob"),
    }
    match fetch_step(&mut m, FetchEvent::Written) {
        FetchAction::Download { server_name, media_id } => {
            assert_eq!(server_name, "s.example");
            assert_eq!(media_id, "a");
        }
        _ => panic!("expected the second download"),
    }
    let blob2 = vec![7u8];
    match fetch_step(&mut m, FetchEvent::Downloaded { bytes: blob2.clone() }) {
        FetchAction::WritePack { bytes } => assert_eq!(bytes, blob2),
        _ => panic!("expected the write of the second blob"),
    }
    match fetch_step(&mut m, FetchEvent::Written) {
        FetchAction::Finish => {}
        _ => panic!("expected the fetch to finish"),
    }
}

#[test]
fn fetch_on_empty_timeline_finishes_at_once() {
    let events: Vec<TimelineEvent> = Vec::new();
    let (m, a) = fetch_start(&events);
    assert!(matches!(a, FetchAction::Finish));
    assert_eq!(m.plan.len(), 0);
}

#[test]
fn fetch_failure_aborts() {
    let events = vec![announcement("mxc://s.example/a")];
    let (mut m, _) = fetch_start(&events);
    match fetch_step(&mut m, FetchEvent::Failed { message: "download failed".to_owned() }) {
        FetchAction::Abort { message } => assert_eq!(message, "download failed"),
        _ => panic!("expected the fetch to abort"),
    }
}

#[test]
fn upload_then_download_round_trip() {
    // the substrate modelled as a keyed blob store
    let mut store: HashMap<String, Vec<u8>> = HashMap::new();
    let pack_bytes = vec![80u8, 65, 67, 75, 0, 1, 2];
    let locator = "mxc://s.example/fresh-id".to_owned();
    store.insert(locator.clone(), pack_bytes.clone());
    let fetched = store.get(&locator).unwrap();
    assert_eq!(fetched, &pack_bytes);
}

#[test]
fn decode_ref_event_body() {
    let v: serde_json::Value = serde_json::from_str("{\"sha\": \"abc123\"}").unwrap();
    let e = decode_event("org.gitmatrix.refs", Some("refs/heads/main".to_owned()), &v);
    assert_eq!(e.state_key.as_deref(), Some("refs/heads/main"));
    match e.body {
        EventBody::RefUpdate { sha } => assert_eq!(sha, "abc123"),
        _ => panic!("expected a ref update"),
    }
}

#[test]
fn decode_ref_event_without_sha_is_unrecognized() {
    let v: serde_json::Value = serde_json::from_str("{\"other\": 1}").unwrap();
    let e = decode_event("org.gitmatrix.refs", Some("refs/heads/main".to_owned()), &v);
    assert!(matches!(e.body, EventBody::Unrecognized));
}

#[test]
fn decode_pack_event_body() {
    let v: serde_json::Value =
        serde_json::from_str("{\"content_uri\": \"mxc://s.example/m1\"}").unwrap();
    let e = decode_event("org.gitmatrix.pack", None, &v);
    match e.body {
        EventBody::PackAnnouncement { content_uri } => {
            assert_eq!(content_uri, "mxc://s.example/m1")
        }
        _ => panic!("expected a pack announcement"),
    }
}

#[test]
fn decode_unknown_event_type_is_unrecognized() {
    let v: serde_json::Value = serde_json::from_str("{\"sha\": \"abc123\"}").unwrap();
    let e = decode_event("m.room.message", Some("k".to_owned()), &v);
    assert!(matches!(e.body, EventBody::Unrecognized));
}

#[test]
fn sync_filter_keeps_room_and_types() {
    let f = SyncFilter::new(
        "!room:example.org".to_owned(),
        vec!["org.gitmatrix.refs".to_owned()],
    );
    assert_eq!(f.room_id, "!room:example.org");
    assert_eq!(f.types, vec!["org.gitmatrix.refs"]);
}

#[test]
fn decimal_rendering_is_exact() {
    assert_eq!(decimal_string(0), "0");
    assert_eq!(decimal_string(7), "7");
    assert_eq!(decimal_string(8080), "8080");
    assert_eq!(decimal_string(65535), "65535");
}
