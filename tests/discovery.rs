use resymo_agent::discovery::{
    auto_id_text, command_descriptor, decimal_text, task_descriptors, Availability,
    AvailabilityMode, Discovery,
};

fn named(id: Option<&str>) -> Discovery {
    Discovery {
        unique_id: id.map(|s| s.to_string()),
        ..Default::default()
    }
}

#[test]
fn three_descriptors_get_suffixed_ids() {
    let ds = task_descriptors("exec1", vec![named(None), named(None), named(None)]);
    let ids: Vec<_> = ds.iter().map(|d| d.unique_id.clone().unwrap()).collect();
    assert_eq!(ids, vec!["exec1", "exec1_1", "exec1_2"]);
    for d in &ds {
        assert_eq!(d.value_template.as_deref(), Some("{{ value_json.stdout }}"));
    }
}

#[test]
fn explicit_ids_do_not_count() {
    let mut keep = named(Some("mine"));
    keep.value_template = Some("{{ value_json.stderr }}".into());
    let ds = task_descriptors("t", vec![named(None), keep, named(None)]);
    assert_eq!(ds[0].unique_id.as_deref(), Some("t"));
    assert_eq!(ds[1].unique_id.as_deref(), Some("mine"));
    assert_eq!(ds[1].value_template.as_deref(), Some("{{ value_json.stderr }}"));
    assert_eq!(ds[2].unique_id.as_deref(), Some("t_1"));
}

#[test]
fn no_descriptors() {
    assert!(task_descriptors("t", vec![]).is_empty());
}

#[test]
fn decimal_numbers() {
    assert_eq!(decimal_text(0), "0");
    assert_eq!(decimal_text(7), "7");
    assert_eq!(decimal_text(10), "10");
    assert_eq!(decimal_text(12345), "12345");
    assert_eq!(decimal_text(usize::MAX), usize::MAX.to_string());
    assert_eq!(auto_id_text("name", 0), "name");
    assert_eq!(auto_id_text("name", 12), "name_12");
}

#[test]
fn mixed_availability_ends_with_device_topic() {
    let mut d = named(Some("x"));
    d.availability = vec![Availability::new("up".to_string())];
    let d = d.mixin_availability("resymo/devA/exec1", "resymo/devA/availability");
    let topics: Vec<_> = d.availability.iter().map(|a| a.topic.as_str()).collect();
    assert_eq!(topics, vec!["resymo/devA/exec1/up", "resymo/devA/availability"]);
    assert_eq!(d.availability_mode, AvailabilityMode::All);
}

#[test]
fn mixin_without_own_topics() {
    let d = named(None).mixin_availability("resymo/devA/exec1", "resymo/devA/availability");
    assert_eq!(d.availability.len(), 1);
    assert_eq!(d.availability[0].topic, "resymo/devA/availability");
    assert_eq!(d.availability_mode, AvailabilityMode::All);
}

#[test]
fn command_descriptor_defaults() {
    let d = command_descriptor("reboot", Some(named(None))).unwrap();
    assert_eq!(d.unique_id.as_deref(), Some("reboot"));
    assert_eq!(d.value_template.as_deref(), Some("{{ value_json.stdout }}"));
    let d = command_descriptor("reboot", Some(named(Some("r1")))).unwrap();
    assert_eq!(d.unique_id.as_deref(), Some("r1"));
    assert!(command_descriptor("reboot", None).is_none());
}
