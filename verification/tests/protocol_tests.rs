use git_matrix::events::{EventBody, TimelineEvent};
use git_matrix::protocol::{
    capabilities_reply, fetch_reply, list_reply, parse_command, push_error_reply, push_ok_reply,
    react, Command, EngineState, Reaction,
};
use git_matrix::refstore::{resolve, RefRecord};

#[test]
fn parse_capabilities() {
    assert!(matches!(parse_command("capabilities"), Command::Capabilities));
}

#[test]
fn parse_list() {
    assert!(matches!(parse_command("list"), Command::List));
    assert!(matches!(parse_command("list for-push"), Command::List));
}

#[test]
fn parse_push() {
    match parse_command("push main:refs/heads/main") {
        Command::Push { src, dst } => {
            assert_eq!(src, "main");
            assert_eq!(dst, "refs/heads/main");
        }
        _ => panic!("expected a push command"),
    }
}

#[test]
fn parse_push_without_colon_is_unknown() {
    assert!(matches!(parse_command("push nocolon"), Command::Unknown));
}

#[test]
fn parse_fetch() {
    assert!(matches!(parse_command("fetch abc123 refs/heads/main"), Command::Fetch));
}

#[test]
fn parse_blank_line_quits() {
    assert!(matches!(parse_command(""), Command::Quit));
}

#[test]
fn parse_unknown() {
    assert!(matches!(parse_command("option verbosity 1"), Command::Unknown));
}

#[test]
fn capabilities_lines() {
    let lines = capabilities_reply();
    assert_eq!(lines, vec!["push", "fetch", ""]);
}

#[test]
fn list_reply_empty_room_is_single_blank_line() {
    let refs: Vec<RefRecord> = Vec::new();
    let lines = list_reply(&refs);
    assert_eq!(lines, vec![""]);
}

#[test]
fn list_reply_one_ref_and_head_line() {
    let refs = vec![RefRecord {
        name: "refs/heads/main".to_owned(),
        object_id: "abc123".to_owned(),
    }];
    let lines = list_reply(&refs);
    assert_eq!(lines, vec!["abc123 refs/heads/main", "@refs/heads/main HEAD", ""]);
}

#[test]
fn list_reply_prefers_master_when_no_main() {
    let refs = vec![
        RefRecord { name: "refs/heads/dev".to_owned(), object_id: "d1".to_owned() },
        RefRecord { name: "refs/heads/master".to_owned(), object_id: "m1".to_owned() },
    ];
    let lines = list_reply(&refs);
    assert_eq!(
        lines,
        vec!["d1 refs/heads/dev", "m1 refs/heads/master", "@refs/heads/master HEAD", ""]
    );
}

#[test]
fn push_reply_lines() {
    assert_eq!(push_ok_reply("refs/heads/main"), vec!["ok refs/heads/main", ""]);
    assert_eq!(
        push_error_reply("refs/heads/main", "upload failed"),
        vec!["error refs/heads/main upload failed", ""]
    );
    assert_eq!(fetch_reply(), vec![""]);
}

#[test]
fn react_dispatch() {
    assert!(matches!(react(parse_command("list")), Reaction::QueryRefs));
    assert!(matches!(react(parse_command("fetch a b")), Reaction::StartFetch));
    assert!(matches!(react(parse_command("")), Reaction::Terminate));
    assert!(matches!(react(parse_command("bogus")), Reaction::Ignore));
    match react(parse_command("push main:refs/heads/main")) {
        Reaction::StartPush { src, dst } => {
            assert_eq!(src, "main");
            assert_eq!(dst, "refs/heads/main");
        }
        _ => panic!("expected a push to start"),
    }
    match react(parse_command("capabilities")) {
        Reaction::Reply { lines } => assert_eq!(lines, vec!["push", "fetch", ""]),
        _ => panic!("expected an inline reply"),
    }
}

#[test]
fn fetch_work_runs_once_per_invocation() {
    let mut engine = EngineState::new();
    assert!(engine.take_fetch());
    assert!(!engine.take_fetch());
    assert!(!engine.take_fetch());
}

#[test]
fn push_then_list_shows_new_ref() {
    let mut events = vec![TimelineEvent {
        state_key: Some("refs/heads/main".to_owned()),
        body: EventBody::RefUpdate { sha: "oldsha".to_owned() },
    }];
    // a push publishes a new ref event for the same name
    events.push(TimelineEvent {
        state_key: Some("refs/heads/main".to_owned()),
        body: EventBody::RefUpdate { sha: "newsha".to_owned() },
    });
    let records = resolve(&events);
    let lines = list_reply(&records);
    assert_eq!(lines, vec!["newsha refs/heads/main", "@refs/heads/main HEAD", ""]);
}
