use resymo_agent::builtin::{disk_entities, disk_id, load_avg_entities, memory_entities, swap_entities};
use resymo_agent::discovery::StateClass;

#[test]
fn memory_entities_read_each_field() {
    let e = memory_entities();
    let ids: Vec<_> = e.iter().map(|d| d.unique_id.clone().unwrap()).collect();
    assert_eq!(ids, vec!["free", "total", "used", "available"]);
    assert_eq!(e[3].name.as_deref(), Some("Available memory"));
    assert_eq!(e[0].value_template.as_deref(), Some("{{ value_json.free }}"));
    assert!(e.iter().all(|d| d.device_class.as_deref() == Some("data_size")
        && d.unit_of_measurement.as_deref() == Some("B")
        && d.state_class == Some(StateClass::Measurement)));
}

#[test]
fn swap_and_load_entities() {
    let s = swap_entities();
    assert_eq!(s.len(), 3);
    assert_eq!(s[2].name.as_deref(), Some("Used swap space"));
    assert_eq!(s[2].device_class, None);
    let l = load_avg_entities();
    assert_eq!(l[2].unique_id.as_deref(), Some("loadavg_15"));
    assert_eq!(l[2].value_template.as_deref(), Some("{{ value_json.fifteen }}"));
}

#[test]
fn disk_ids_are_sanitized() {
    assert_eq!(disk_id("/dev/sda1"), "_dev_sda1");
    assert_eq!(disk_id("C:é"), "C__");
    assert_eq!(disk_id(""), "");
}

#[test]
fn disk_entities_of_one_disk() {
    let e = disk_entities("/dev/sda1");
    assert_eq!(e.len(), 3);
    assert_eq!(e[0].unique_id.as_deref(), Some("disk__dev_sda1_free"));
    assert_eq!(e[0].name.as_deref(), Some("Disk free /dev/sda1"));
    assert_eq!(e[0].value_template.as_deref(), Some("{{ value_json.disks['/dev/sda1'].free }}"));
    assert_eq!(e[1].unique_id.as_deref(), Some("disk__dev_sda1_total"));
    assert_eq!(e[2].value_template.as_deref(), Some("{{ value_json.disks['/dev/sda1'].usage * 100 }}"));
    assert_eq!(e[2].unit_of_measurement.as_deref(), Some("%"));
    assert_eq!(e[2].device_class, None);
}
