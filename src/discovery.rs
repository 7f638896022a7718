//! Entity descriptors announced to the broker, as plain values, and the
//! rules that complete them: default ids and templates, availability.

use vstd::prelude::*;
use crate::topic::{join, join_levels};

verus! {

/// How the availability topics of an entity combine.
#[derive(Clone, Copy, Debug, PartialEq, Eq, Structural, Default)]
pub enum AvailabilityMode {
    /// Available when every listed topic reports available.
    All,
    /// Available when any listed topic reports available.
    Any,
    /// The last message on any listed topic decides.
    #[default]
    Latest,
}

/// Kind of state a sensor reports.
#[derive(Clone, Copy, Debug, PartialEq, Eq, Structural)]
pub enum StateClass {
    Measurement,
    Total,
    TotalIncreasing,
}

/// One availability topic of an entity.
#[derive(Clone, Debug, PartialEq, Eq)]
pub struct Availability {
    pub topic: String,
    pub payload_available: Option<String>,
    pub payload_not_available: Option<String>,
    pub value_template: Option<String>,
}

pub struct AvailabilityView {
    pub topic: Seq<char>,
    pub payload_available: Option<Seq<char>>,
    pub payload_not_available: Option<Seq<char>>,
    pub value_template: Option<Seq<char>>,
}

impl View for Availability {
    type V = AvailabilityView;

    open spec fn view(&self) -> AvailabilityView {
        AvailabilityView {
            topic: self.topic@,
            payload_available: self.payload_available.deep_view(),
            payload_not_available: self.payload_not_available.deep_view(),
            value_template: self.value_template.deep_view(),
        }
    }
}

/// An availability entry on `topic` with default payloads.
pub open spec fn plain_availability(topic: Seq<char>) -> AvailabilityView {
    AvailabilityView {
        topic,
        payload_available: None,
        payload_not_available: None,
        value_template: None,
    }
}

/// The physical host that every announced entity belongs to.
#[derive(Clone, Debug, PartialEq, Eq)]
pub struct Device {
    pub identifiers: Vec<String>,
    pub name: Option<String>,
    pub base_topic: Option<String>,
    pub sw_version: Option<String>,
    pub support_url: Option<String>,
}

pub struct DeviceView {
    pub identifiers: Seq<Seq<char>>,
    pub name: Option<Seq<char>>,
    pub base_topic: Option<Seq<char>>,
    pub sw_version: Option<Seq<char>>,
    pub support_url: Option<Seq<char>>,
}

impl View for Device {
    type V = DeviceView;

    open spec fn view(&self) -> DeviceView {
        DeviceView {
            identifiers: self.identifiers.deep_view(),
            name: self.name.deep_view(),
            base_topic: self.base_topic.deep_view(),
            sw_version: self.sw_version.deep_view(),
            support_url: self.support_url.deep_view(),
        }
    }
}

/// Descriptor of one entity: how the broker's consumer renders a sensor,
/// a button or a binary sensor.
#[derive(Clone, Debug, PartialEq, Eq, Default)]
pub struct Discovery {
    pub name: Option<String>,
    pub unique_id: Option<String>,
    pub device: Option<Device>,
    pub device_class: Option<String>,
    pub state_class: Option<StateClass>,
    pub command_topic: Option<String>,
    pub command_template: Option<String>,
    pub state_topic: Option<String>,
    pub unit_of_measurement: Option<String>,
    pub value_template: Option<String>,
    pub enabled_by_default: Option<bool>,
    pub availability_mode: AvailabilityMode,
    pub availability: Vec<Availability>,
}

pub struct DiscoveryView {
    pub name: Option<Seq<char>>,
    pub unique_id: Option<Seq<char>>,
    pub device: Option<DeviceView>,
    pub device_class: Option<Seq<char>>,
    pub state_class: Option<StateClass>,
    pub command_topic: Option<Seq<char>>,
    pub command_template: Option<Seq<char>>,
    pub state_topic: Option<Seq<char>>,
    pub unit_of_measurement: Option<Seq<char>>,
    pub value_template: Option<Seq<char>>,
    pub enabled_by_default: Option<bool>,
    pub availability_mode: AvailabilityMode,
    pub availability: Seq<AvailabilityView>,
}

pub open spec fn availability_views(s: Seq<Availability>) -> Seq<AvailabilityView> {
    s.map_values(|a: Availability| a@)
}

pub open spec fn device_view(d: Option<Device>) -> Option<DeviceView> {
    match d {
        Some(d) => Some(d@),
        None => None,
    }
}

impl View for Discovery {
    type V = DiscoveryView;

    open spec fn view(&self) -> DiscoveryView {
        DiscoveryView {
            name: self.name.deep_view(),
            unique_id: self.unique_id.deep_view(),
            device: device_view(self.device),
            device_class: self.device_class.deep_view(),
            state_class: self.state_class,
            command_topic: self.command_topic.deep_view(),
            command_template: self.command_template.deep_view(),
            state_topic: self.state_topic.deep_view(),
            unit_of_measurement: self.unit_of_measurement.deep_view(),
            value_template: self.value_template.deep_view(),
            enabled_by_default: self.enabled_by_default,
            availability_mode: self.availability_mode,
            availability: availability_views(self.availability@),
        }
    }
}

pub open spec fn discovery_views(s: Seq<Discovery>) -> Seq<DiscoveryView> {
    s.map_values(|d: Discovery| d@)
}

/// A copy of an optional text.
pub fn copy_text(o: &Option<String>) -> (r: Option<String>)
    ensures
        r.deep_view() == o.deep_view(),
{
    match o {
        Some(s) => Some(s.clone()),
        None => None,
    }
}

impl Availability {
    /// An entry on `topic` with default payloads.
    pub fn new(topic: String) -> (r: Availability)
        ensures
            r@ == plain_availability(topic@),
    {
        Availability {
            topic,
            payload_available: None,
            payload_not_available: None,
            value_template: None,
        }
    }

    /// A copy of this entry with another topic.
    pub fn with_topic(&self, topic: String) -> (r: Availability)
        ensures
            r@ == (AvailabilityView { topic: topic@, ..self@ }),
    {
        Availability {
            topic,
            payload_available: copy_text(&self.payload_available),
            payload_not_available: copy_text(&self.payload_not_available),
            value_template: copy_text(&self.value_template),
        }
    }

    /// A copy of this entry.
    pub fn duplicate(&self) -> (r: Availability)
        ensures
            r@ == self@,
    {
        self.with_topic(self.topic.clone())
    }
}

impl Device {
    /// A copy of this device.
    pub fn duplicate(&self) -> (r: Device)
        ensures
            r@ == self@,
    {
        let mut identifiers: Vec<String> = Vec::new();
        let mut i: usize = 0;
        while i < self.identifiers.len()
            invariant
                i <= self.identifiers@.len(),
                identifiers@.len() == i,
                forall|j: int| 0 <= j < i ==> identifiers@[j]@ == self.identifiers@[j]@,
            decreases self.identifiers@.len() - i,
        {
            identifiers.push(self.identifiers[i].clone());
            i = i + 1;
        }
        assert(identifiers.deep_view() =~= self.identifiers.deep_view());
        Device {
            identifiers,
            name: copy_text(&self.name),
            base_topic: copy_text(&self.base_topic),
            sw_version: copy_text(&self.sw_version),
            support_url: copy_text(&self.support_url),
        }
    }
}

/// A copy of an optional device.
pub fn copy_device(d: &Option<Device>) -> (r: Option<Device>)
    ensures
        device_view(r) == device_view(*d),
{
    match d {
        Some(d) => Some(d.duplicate()),
        None => None,
    }
}

/// `a` with its topic placed under `base`.
pub open spec fn placed_under(base: Seq<char>, a: AvailabilityView) -> AvailabilityView {
    AvailabilityView { topic: join(base, a.topic), ..a }
}

/// `v` with every availability topic placed under `base`, the device-wide
/// topic `global` appended, and all of them required.
pub open spec fn mixed_in(v: DiscoveryView, base: Seq<char>, global: Seq<char>) -> DiscoveryView {
    DiscoveryView {
        availability: v.availability.map_values(|a: AvailabilityView| placed_under(base, a)).push(
            plain_availability(global),
        ),
        availability_mode: AvailabilityMode::All,
        ..v
    }
}

impl Discovery {
    /// A copy of this descriptor.
    pub fn duplicate(&self) -> (r: Discovery)
        ensures
            r@ == self@,
    {
        let mut availability: Vec<Availability> = Vec::new();
        let mut i: usize = 0;
        while i < self.availability.len()
            invariant
                i <= self.availability@.len(),
                availability@.len() == i,
                forall|j: int| 0 <= j < i ==> availability@[j]@ == self.availability@[j]@,
            decreases self.availability@.len() - i,
        {
            availability.push(self.availability[i].duplicate());
            i = i + 1;
        }
        assert(availability_views(availability@) =~= availability_views(self.availability@));
        Discovery {
            name: copy_text(&self.name),
            unique_id: copy_text(&self.unique_id),
            device: copy_device(&self.device),
            device_class: copy_text(&self.device_class),
            state_class: self.state_class,
            command_topic: copy_text(&self.command_topic),
            command_template: copy_text(&self.command_template),
            state_topic: copy_text(&self.state_topic),
            unit_of_measurement: copy_text(&self.unit_of_measurement),
            value_template: copy_text(&self.value_template),
            enabled_by_default: self.enabled_by_default,
            availability_mode: self.availability_mode,
            availability,
        }
    }

    /// Places each of the entity's own availability topics under `base`,
    /// appends the device-wide availability topic `global`, and requires
    /// all of them: the entity is available only while each one says so.
    pub fn mixin_availability(self, base: &str, global: &str) -> (r: Discovery)
        ensures
            r@ == mixed_in(self@, base@, global@),
            r@.availability.len() == self@.availability.len() + 1,
            r@.availability.last().topic == global@,
            r@.availability_mode == AvailabilityMode::All,
    {
        let ghost expected = mixed_in(self@, base@, global@).availability;
        let ghost placed = self@.availability.map_values(|a: AvailabilityView| placed_under(base@, a));
        assert(expected == placed.push(plain_availability(global@)));
        let mut availability: Vec<Availability> = Vec::new();
        let mut i: usize = 0;
        while i < self.availability.len()
            invariant
                i <= self.availability@.len(),
                availability@.len() == i,
                expected.len() == self.availability@.len() + 1,
                expected == placed.push(plain_availability(global@)),
                placed == self@.availability.map_values(|a: AvailabilityView| placed_under(base@, a)),
                forall|j: int| 0 <= j < i ==> availability@[j]@ == expected[j],
            decreases self.availability@.len() - i,
        {
            let entry = &self.availability[i];
            let topic = join_levels(base, entry.topic.as_str());
            assert(expected[i as int] == placed_under(base@, entry@)) by {
                assert(self@.availability[i as int] == entry@);
                assert(placed[i as int] == placed_under(base@, self@.availability[i as int]));
                assert(expected[i as int] == placed[i as int]);
            }
            availability.push(entry.with_topic(topic));
            i = i + 1;
        }
        availability.push(Availability::new(String::from_str(global)));
        assert(availability_views(availability@) =~= expected);
        Discovery {
            availability,
            availability_mode: AvailabilityMode::All,
            ..self
        }
    }
}

/// The decimal digit for `d`.
pub open spec fn digit(d: nat) -> char {
    if d == 0 { '0' }
    else if d == 1 { '1' }
    else if d == 2 { '2' }
    else if d == 3 { '3' }
    else if d == 4 { '4' }
    else if d == 5 { '5' }
    else if d == 6 { '6' }
    else if d == 7 { '7' }
    else if d == 8 { '8' }
    else { '9' }
}

/// `n` written in decimal, without leading zeros.
pub open spec fn decimal(n: nat) -> Seq<char>
    decreases n,
{
    if n < 10 {
        seq![digit(n)]
    } else {
        decimal(n / 10).push(digit(n % 10))
    }
}

fn digit_text(d: usize) -> (r: &'static str)
    requires
        d < 10,
    ensures
        r@ == seq![digit(d as nat)],
{
    proof {
        reveal_strlit("0");
        reveal_strlit("1");
        reveal_strlit("2");
        reveal_strlit("3");
        reveal_strlit("4");
        reveal_strlit("5");
        reveal_strlit("6");
        reveal_strlit("7");
        reveal_strlit("8");
        reveal_strlit("9");
    }
    if d == 0 { "0" }
    else if d == 1 { "1" }
    else if d == 2 { "2" }
    else if d == 3 { "3" }
    else if d == 4 { "4" }
    else if d == 5 { "5" }
    else if d == 6 { "6" }
    else if d == 7 { "7" }
    else if d == 8 { "8" }
    else { assert(seq!['9'] =~= "9"@); "9" }
}

/// `n` in decimal.
pub fn decimal_text(n: usize) -> (r: String)
    ensures
        r@ == decimal(n as nat),
    decreases n,
{
    if n < 10 {
        String::from_str(digit_text(n))
    } else {
        let mut r = decimal_text(n / 10);
        r.append(digit_text(n % 10));
        r
    }
}

/// The id given to the `k`-th descriptor (counting from zero) of the task
/// `name` that declares none: `name`, then `name_1`, `name_2`, ...
pub open spec fn auto_id(name: Seq<char>, k: nat) -> Seq<char> {
    if k == 0 {
        name
    } else {
        name + seq!['_'] + decimal(k)
    }
}

/// How many of the first `i` descriptors declare no id.
pub open spec fn missing_ids(ds: Seq<DiscoveryView>, i: int) -> nat
    decreases i,
{
    if i <= 0 {
        0
    } else {
        missing_ids(ds, i - 1) + if ds[i - 1].unique_id is None { 1nat } else { 0nat }
    }
}

/// The value template of a process-backed entity that declares none.
pub open spec fn stdout_template() -> Seq<char> {
    "{{ value_json.stdout }}"@
}

/// `d` completed: its own id, or `id` where it declares none; its own
/// value template, or the one that reads the process output.
pub open spec fn completed(d: DiscoveryView, id: Seq<char>) -> DiscoveryView {
    DiscoveryView {
        unique_id: Some(
            match d.unique_id {
                Some(u) => u,
                None => id,
            },
        ),
        value_template: Some(
            match d.value_template {
                Some(t) => t,
                None => stdout_template(),
            },
        ),
        ..d
    }
}

/// The auto id for `k`.
pub fn auto_id_text(name: &str, k: usize) -> (r: String)
    ensures
        r@ == auto_id(name@, k as nat),
{
    let mut r = String::from_str(name);
    if k > 0 {
        proof {
            reveal_strlit("_");
        }
        r.append("_");
        let digits = decimal_text(k);
        r.append(digits.as_str());
    }
    r
}

impl Discovery {
    /// This descriptor completed with `id` where it declares no id, and with
    /// the template that reads the process output where it declares none.
    pub fn complete(self, id: String) -> (r: Discovery)
        ensures
            r@ == completed(self@, id@),
    {
        let unique_id = match self.unique_id {
            Some(u) => Some(u),
            None => Some(id),
        };
        let value_template = match self.value_template {
            Some(t) => Some(t),
            None => Some(String::from_str("{{ value_json.stdout }}")),
        };
        Discovery { unique_id, value_template, ..self }
    }
}

/// The descriptors of the process-backed collector task `name`, completed in
/// declaration order: the descriptors without an id receive `name`, `name_1`,
/// `name_2`, ... and those without a value template read the process output.
pub fn task_descriptors(name: &str, descriptors: Vec<Discovery>) -> (r: Vec<Discovery>)
    ensures
        r@.len() == descriptors@.len(),
        forall|i: int|
            0 <= i < r@.len() ==> #[trigger] r@[i]@ == completed(
                descriptors@[i]@,
                auto_id(name@, missing_ids(discovery_views(descriptors@), i)),
            ),
{
    let ghost ds = discovery_views(descriptors@);
    let mut r: Vec<Discovery> = Vec::new();
    let mut auto: usize = 0;
    let mut i: usize = 0;
    while i < descriptors.len()
        invariant
            i <= descriptors@.len(),
            r@.len() == i,
            ds == discovery_views(descriptors@),
            auto as nat == missing_ids(ds, i as int),
            auto <= i,
            forall|j: int|
                0 <= j < i ==> #[trigger] r@[j]@ == completed(
                    descriptors@[j]@,
                    auto_id(name@, missing_ids(ds, j)),
                ),
        decreases descriptors@.len() - i,
    {
        let d = descriptors[i].duplicate();
        let id = auto_id_text(name, auto);
        assert(ds[i as int] == descriptors@[i as int]@);
        if d.unique_id.is_none() {
            auto = auto + 1;
        }
        r.push(d.complete(id));
        i = i + 1;
    }
    r
}

/// The descriptor of the command `name`, completed: its own id or `name`,
/// its own value template or the one that reads the process output.
pub fn command_descriptor(name: &str, descriptor: Option<Discovery>) -> (r: Option<Discovery>)
    ensures
        match descriptor {
            Some(d) => r matches Some(c) && c@ == completed(d@, name@),
            None => r is None,
        },
{
    match descriptor {
        Some(d) => Some(d.complete(String::from_str(name))),
        None => None,
    }
}

} // verus!
