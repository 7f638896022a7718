//! The entities of the built-in collectors: memory, swap, disks and load
//! average.

use vstd::prelude::*;
use crate::discovery::{AvailabilityMode, Discovery, DiscoveryView, StateClass};

verus! {

/// A measurement sensor with the given id, name, value template, device
/// class and unit.
pub open spec fn measurement(
    id: Seq<char>,
    name: Seq<char>,
    template: Seq<char>,
    class: Option<Seq<char>>,
    unit: Option<Seq<char>>,
) -> DiscoveryView {
    DiscoveryView {
        name: Some(name),
        unique_id: Some(id),
        device: None,
        device_class: class,
        state_class: Some(StateClass::Measurement),
        command_topic: None,
        command_template: None,
        state_topic: None,
        unit_of_measurement: unit,
        value_template: Some(template),
        enabled_by_default: None,
        availability_mode: AvailabilityMode::Latest,
        availability: Seq::empty(),
    }
}

fn text(s: Option<&str>) -> (r: Option<String>)
    ensures
        r.deep_view() == match s {
            Some(s) => Some(s@),
            None => None::<Seq<char>>,
        },
{
    match s {
        Some(s) => Some(String::from_str(s)),
        None => None,
    }
}

/// A measurement sensor.
pub fn measurement_entity(id: &str, name: &str, template: &str, class: Option<&str>, unit: Option<&str>) -> (r: Discovery)
    ensures
        r@ == measurement(
            id@,
            name@,
            template@,
            match class {
                Some(c) => Some(c@),
                None => None,
            },
            match unit {
                Some(u) => Some(u@),
                None => None,
            },
        ),
{
    let r = Discovery {
        name: Some(String::from_str(name)),
        unique_id: Some(String::from_str(id)),
        device: None,
        device_class: text(class),
        state_class: Some(StateClass::Measurement),
        command_topic: None,
        command_template: None,
        state_topic: None,
        unit_of_measurement: text(unit),
        value_template: Some(String::from_str(template)),
        enabled_by_default: None,
        availability_mode: AvailabilityMode::Latest,
        availability: Vec::new(),
    };
    assert(r@.availability =~= Seq::empty());
    r
}

pub open spec fn data_size() -> Option<Seq<char>> {
    Some("data_size"@)
}

pub open spec fn bytes() -> Option<Seq<char>> {
    Some("B"@)
}

/// Free, total, used and available memory, in bytes.
pub open spec fn memory_views() -> Seq<DiscoveryView> {
    seq![
        measurement("free"@, "Free memory"@, "{{ value_json.free }}"@, data_size(), bytes()),
        measurement("total"@, "Total memory"@, "{{ value_json.total }}"@, data_size(), bytes()),
        measurement("used"@, "Used memory"@, "{{ value_json.used }}"@, data_size(), bytes()),
        measurement("available"@, "Available memory"@, "{{ value_json.available }}"@, data_size(), bytes()),
    ]
}

/// Free, total and used swap space.
pub open spec fn swap_views() -> Seq<DiscoveryView> {
    seq![
        measurement("free"@, "Free swap space"@, "{{ value_json.free }}"@, None, None),
        measurement("total"@, "Total swap space"@, "{{ value_json.total }}"@, None, None),
        measurement("used"@, "Used swap space"@, "{{ value_json.used }}"@, None, None),
    ]
}

/// The load average over one, five and fifteen minutes.
pub open spec fn load_avg_views() -> Seq<DiscoveryView> {
    seq![
        measurement("loadavg_1"@, "Load Average 1m"@, "{{ value_json.one }}"@, None, None),
        measurement("loadavg_5"@, "Load Average 5m"@, "{{ value_json.five }}"@, None, None),
        measurement("loadavg_15"@, "Load Average 15m"@, "{{ value_json.fifteen }}"@, None, None),
    ]
}

pub open spec fn entity_views(v: Seq<Discovery>) -> Seq<DiscoveryView> {
    v.map_values(|d: Discovery| d@)
}

/// The entities of the memory collector.
pub fn memory_entities() -> (r: Vec<Discovery>)
    ensures
        entity_views(r@) == memory_views(),
{
    let mut r: Vec<Discovery> = Vec::new();
    r.push(measurement_entity("free", "Free memory", "{{ value_json.free }}", Some("data_size"), Some("B")));
    r.push(measurement_entity("total", "Total memory", "{{ value_json.total }}", Some("data_size"), Some("B")));
    r.push(measurement_entity("used", "Used memory", "{{ value_json.used }}", Some("data_size"), Some("B")));
    r.push(measurement_entity("available", "Available memory", "{{ value_json.available }}", Some("data_size"), Some("B")));
    assert(entity_views(r@) =~= memory_views());
    r
}

/// The entities of the swap collector.
pub fn swap_entities() -> (r: Vec<Discovery>)
    ensures
        entity_views(r@) == swap_views(),
{
    let mut r: Vec<Discovery> = Vec::new();
    r.push(measurement_entity("free", "Free swap space", "{{ value_json.free }}", None, None));
    r.push(measurement_entity("total", "Total swap space", "{{ value_json.total }}", None, None));
    r.push(measurement_entity("used", "Used swap space", "{{ value_json.used }}", None, None));
    assert(entity_views(r@) =~= swap_views());
    r
}

/// The entities of the load average collector.
pub fn load_avg_entities() -> (r: Vec<Discovery>)
    ensures
        entity_views(r@) == load_avg_views(),
{
    let mut r: Vec<Discovery> = Vec::new();
    r.push(measurement_entity("loadavg_1", "Load Average 1m", "{{ value_json.one }}", None, None));
    r.push(measurement_entity("loadavg_5", "Load Average 5m", "{{ value_json.five }}", None, None));
    r.push(measurement_entity("loadavg_15", "Load Average 15m", "{{ value_json.fifteen }}", None, None));
    assert(entity_views(r@) =~= load_avg_views());
    r
}

/// An ASCII letter or digit.
pub open spec fn ascii_alphanumeric(c: char) -> bool {
    ('0' <= c <= '9') || ('a' <= c <= 'z') || ('A' <= c <= 'Z')
}

/// `name` with every character but ASCII letters and digits replaced by `_`.
pub open spec fn id_part(name: Seq<char>) -> Seq<char> {
    name.map_values(|c: char| if ascii_alphanumeric(c) { c } else { '_' })
}

/// A disk's name made fit for an entity id.
pub fn disk_id(name: &str) -> (r: String)
    ensures
        r@ == id_part(name@),
{
    let n = name.unicode_len();
    let mut r = String::new();
    let mut i: usize = 0;
    while i < n
        invariant
            n == name@.len(),
            i <= n,
            r@ =~= id_part(name@.take(i as int)),
        decreases n - i,
    {
        let c = name.get_char(i);
        let ghost before = r@;
        let ghost mapped = if ascii_alphanumeric(c) { c } else { '_' };
        if ('0' <= c && c <= '9') || ('a' <= c && c <= 'z') || ('A' <= c && c <= 'Z') {
            let piece = name.substring_char(i, i + 1);
            assert(piece@ =~= seq![c]);
            r.append(piece);
        } else {
            proof {
                reveal_strlit("_");
            }
            r.append("_");
        }
        assert(r@ =~= before.push(mapped));
        assert(name@.take(i as int + 1) =~= name@.take(i as int).push(c));
        assert(id_part(name@.take(i as int + 1)) =~= id_part(name@.take(i as int)).push(mapped));
        i = i + 1;
    }
    assert(name@.take(n as int) =~= name@);
    r
}

/// The template that reads `field` of the disk `name` out of a snapshot.
pub open spec fn disk_template(name: Seq<char>, field: Seq<char>) -> Seq<char> {
    "{{ value_json.disks['"@ + name + "']."@ + field + " }}"@
}

/// The entities of one disk: free and total space in bytes, and usage in
/// percent.
pub open spec fn disk_views(name: Seq<char>) -> Seq<DiscoveryView> {
    let id = id_part(name);
    seq![
        measurement("disk_"@ + id + "_free"@, "Disk free "@ + name, disk_template(name, "free"@), data_size(), bytes()),
        measurement("disk_"@ + id + "_total"@, "Disk total "@ + name, disk_template(name, "total"@), data_size(), bytes()),
        measurement("disk_"@ + id + "_usage"@, "Disk usage "@ + name, disk_template(name, "usage * 100"@), None, Some("%"@)),
    ]
}

fn concat3(a: &str, b: &str, c: &str) -> (r: String)
    ensures
        r@ == a@ + b@ + c@,
{
    let mut r = String::from_str(a);
    r.append(b);
    r.append(c);
    r
}

/// The entities of the disk `name`.
pub fn disk_entities(name: &str) -> (r: Vec<Discovery>)
    ensures
        entity_views(r@) == disk_views(name@),
{
    let id = disk_id(name);
    let free_id = concat3("disk_", id.as_str(), "_free");
    let total_id = concat3("disk_", id.as_str(), "_total");
    let usage_id = concat3("disk_", id.as_str(), "_usage");
    let free_name = concat3("Disk free ", name, "");
    let total_name = concat3("Disk total ", name, "");
    let usage_name = concat3("Disk usage ", name, "");
    let head = concat3("{{ value_json.disks['", name, "'].");
    let free_template = concat3(head.as_str(), "free", " }}");
    let total_template = concat3(head.as_str(), "total", " }}");
    let usage_template = concat3(head.as_str(), "usage * 100", " }}");
    proof {
        reveal_strlit("");
    }
    assert(free_name@ =~= "Disk free "@ + name@);
    assert(total_name@ =~= "Disk total "@ + name@);
    assert(usage_name@ =~= "Disk usage "@ + name@);
    let mut r: Vec<Discovery> = Vec::new();
    r.push(measurement_entity(free_id.as_str(), free_name.as_str(), free_template.as_str(), Some("data_size"), Some("B")));
    r.push(measurement_entity(total_id.as_str(), total_name.as_str(), total_template.as_str(), Some("data_size"), Some("B")));
    r.push(measurement_entity(usage_id.as_str(), usage_name.as_str(), usage_template.as_str(), None, Some("%")));
    assert(entity_views(r@) =~= disk_views(name@));
    r
}

} // verus!
