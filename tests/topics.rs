use resymo_agent::topic::{
    availability_topic, command_name, command_topic, device_base, has_single_slash, join_id,
    state_topic,
};

#[test]
fn builds_device_topics() {
    assert_eq!(device_base("resymo", "devA"), "resymo/devA");
    assert_eq!(availability_topic("resymo", "devA"), "resymo/devA/availability");
    assert_eq!(state_topic("resymo/devA", "memory"), "resymo/devA/memory/state");
    assert_eq!(command_topic("resymo/devA", "myCmd"), "resymo/devA/myCmd/command");
    assert_eq!(join_id("devA", "free"), "devA_free");
}

#[test]
fn parses_command_topic() {
    assert_eq!(command_name("resymo/devA/myCmd/command", "resymo/devA"), Some("myCmd".to_string()));
    assert_eq!(command_name("resymo/devA//command", "resymo/devA"), Some(String::new()));
}

#[test]
fn rejects_foreign_topics() {
    assert_eq!(command_name("resymo/devB/myCmd/command", "resymo/devA"), None);
    assert_eq!(command_name("resymo/devA/myCmd/state", "resymo/devA"), None);
    assert_eq!(command_name("resymo/devA/my/Cmd/command", "resymo/devA"), None);
    assert_eq!(command_name("resymo/devA/command", "resymo/devA"), None);
    assert_eq!(command_name("", "resymo/devA"), None);
    // a base with more levels never matches a four-level topic
    assert_eq!(command_name("a/b/devA/myCmd/command", "a/b/devA"), None);
}

#[test]
fn counts_slashes() {
    assert!(has_single_slash("resymo/devA"));
    assert!(!has_single_slash("resymo"));
    assert!(!has_single_slash("a/b/c"));
    assert!(has_single_slash("/"));
}
