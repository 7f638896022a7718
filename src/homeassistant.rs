//! The announcement, state and command protocol towards the broker.
//!
//! The publisher decides and the connection acts: each event of the broker
//! session (connected, restarted, a message, a command that finished) is
//! turned into the list of actions to perform, in order.

use vstd::prelude::*;
use crate::collector::Collector;
use crate::command::Command;
use crate::discovery::{
    discovery_views, mixed_in, AvailabilityMode, Device, DeviceView, Discovery, DiscoveryView,
};
use crate::manager::{has_name, Manager};
use crate::topic::{
    availability_topic, availability_topic_of, command_name, command_topic, command_topic_of,
    device_base, is_command_topic, join, join_id, join_levels, lemma_command_topic_names_one,
    single_slash, slash_free, state_topic, state_topic_of, underscore,
};

verus! {

/// Seconds between two rounds of publishing every collector's state.
pub const STATE_INTERVAL_SECS: u64 = 10;

/// The state payload of a command that is running.
pub const PAYLOAD_RUNNING: &'static str = "ON";

/// The state payload of a command that is not running.
pub const PAYLOAD_STOPPED: &'static str = "OFF";

pub open spec fn running_payload() -> Seq<char> {
    "ON"@
}

pub open spec fn stopped_payload() -> Seq<char> {
    "OFF"@
}

/// The base topic used where none is configured.
pub fn default_base() -> (r: String)
    ensures
        r@ == "resymo"@,
{
    String::from_str("resymo")
}

/// How the uplink is configured: the device id (the host name where it is
/// not given) and the base topic.
#[derive(Clone, Debug, PartialEq, Eq)]
pub struct UplinkOptions {
    pub device_id: Option<String>,
    pub base: String,
}

/// The broker connection's own settings; carried along, never read here.
#[verifier::external_type_specification]
#[verifier::external_body]
pub struct ExConnectorOptions(homeassistant_agent::connector::ConnectorOptions);

/// How the Home Assistant uplink is configured: the uplink's options and
/// the broker connection's.
pub struct Options {
    pub options: UplinkOptions,
    pub connector: homeassistant_agent::connector::ConnectorOptions,
}

/// What the publisher works with: the device id, the device's own base topic
/// `base/device` and the device-wide availability topic.
#[derive(Clone, Debug, PartialEq, Eq)]
pub struct RunnerOptions {
    pub device_id: String,
    pub base: String,
    pub availability_topic: String,
}

pub struct RunnerOptionsView {
    pub device_id: Seq<char>,
    pub base: Seq<char>,
    pub availability_topic: Seq<char>,
}

impl View for RunnerOptions {
    type V = RunnerOptionsView;

    open spec fn view(&self) -> RunnerOptionsView {
        RunnerOptionsView {
            device_id: self.device_id@,
            base: self.base@,
            availability_topic: self.availability_topic@,
        }
    }
}

/// The kind of an announced entity.
#[derive(Clone, Copy, Debug, PartialEq, Eq, Structural)]
pub enum Component {
    Button,
    Switch,
    BinarySensor,
    Sensor,
}

/// One entity to announce, under its unique id.
#[derive(Clone, Debug, PartialEq, Eq)]
pub struct Announcement {
    pub unique_id: String,
    pub component: Component,
    pub entity: Discovery,
}

pub struct AnnouncementView {
    pub unique_id: Seq<char>,
    pub component: Component,
    pub entity: DiscoveryView,
}

impl View for Announcement {
    type V = AnnouncementView;

    open spec fn view(&self) -> AnnouncementView {
        AnnouncementView { unique_id: self.unique_id@, component: self.component, entity: self.entity@ }
    }
}

/// What the connection is to do.
#[derive(Clone, Debug, PartialEq, Eq)]
pub enum Action {
    /// Subscribe to a topic.
    Subscribe { topic: String },
    /// Announce an entity.
    Announce(Announcement),
    /// Publish a state.
    UpdateState { topic: String, payload: String },
    /// Start the command `name` with the payload that triggered it; report
    /// back with `completed` when it is done.
    Start { name: String, payload: String },
}

pub enum ActionView {
    Subscribe { topic: Seq<char> },
    Announce(AnnouncementView),
    UpdateState { topic: Seq<char>, payload: Seq<char> },
    Start { name: Seq<char>, payload: Seq<char> },
}

impl View for Action {
    type V = ActionView;

    open spec fn view(&self) -> ActionView {
        match self {
            Action::Subscribe { topic } => ActionView::Subscribe { topic: topic@ },
            Action::Announce(a) => ActionView::Announce(a@),
            Action::UpdateState { topic, payload } => ActionView::UpdateState { topic: topic@, payload: payload@ },
            Action::Start { name, payload } => ActionView::Start { name: name@, payload: payload@ },
        }
    }
}

pub open spec fn action_views(s: Seq<Action>) -> Seq<ActionView> {
    s.map_values(|a: Action| a@)
}

/// Collectors by name, each with its entities.
pub open spec fn collector_views(s: Seq<(String, Vec<Discovery>)>) -> Seq<(Seq<char>, Seq<DiscoveryView>)> {
    s.map_values(|e: (String, Vec<Discovery>)| (e.0@, discovery_views(e.1@)))
}

pub open spec fn optional_view(d: Option<Discovery>) -> Option<DiscoveryView> {
    match d {
        Some(d) => Some(d@),
        None => None,
    }
}

/// Commands by name, each with its button if it has one.
pub open spec fn command_views(s: Seq<(String, Option<Discovery>)>) -> Seq<(Seq<char>, Option<DiscoveryView>)> {
    s.map_values(|e: (String, Option<Discovery>)| (e.0@, optional_view(e.1)))
}

/// The device that every entity of `device_id` belongs to.
pub open spec fn device_of(device_id: Seq<char>, sw_version: Seq<char>) -> DeviceView {
    DeviceView {
        identifiers: seq![device_id],
        name: Some("ReSyMo: "@ + device_id),
        base_topic: None,
        sw_version: Some(sw_version),
        support_url: None,
    }
}

/// The announcement of one entity of the collector `name`: under the id
/// `device_collector_entity`, reading the collector's state topic, available
/// while both its own topics (under the collector's) and the device are.
/// An entity without an id is not announced.
pub open spec fn sensor_announcement(o: RunnerOptionsView, device: DeviceView, name: Seq<char>, e: DiscoveryView) -> Seq<ActionView> {
    match e.unique_id {
        None => Seq::empty(),
        Some(id) => {
            let uid = underscore(underscore(o.device_id, name), id);
            let entity = mixed_in(
                DiscoveryView {
                    state_topic: Some(state_topic_of(o.base, name)),
                    device: Some(device),
                    unique_id: Some(uid),
                    ..e
                },
                join(o.base, name),
                o.availability_topic,
            );
            seq![ActionView::Announce(AnnouncementView { unique_id: uid, component: Component::Sensor, entity })]
        },
    }
}

pub open spec fn sensor_announcements(o: RunnerOptionsView, device: DeviceView, name: Seq<char>, es: Seq<DiscoveryView>) -> Seq<ActionView>
    decreases es.len(),
{
    if es.len() == 0 {
        Seq::empty()
    } else {
        sensor_announcements(o, device, name, es.drop_last()) + sensor_announcement(o, device, name, es.last())
    }
}

pub open spec fn collector_announcements(o: RunnerOptionsView, device: DeviceView, cs: Seq<(Seq<char>, Seq<DiscoveryView>)>) -> Seq<ActionView>
    decreases cs.len(),
{
    if cs.len() == 0 {
        Seq::empty()
    } else {
        collector_announcements(o, device, cs.drop_last()) + sensor_announcements(o, device, cs.last().0, cs.last().1)
    }
}

/// The button of the command `name` under the id `device_id`, on the
/// command's command topic.
pub open spec fn button_of(o: RunnerOptionsView, device: DeviceView, name: Seq<char>, e: DiscoveryView, uid: Seq<char>) -> DiscoveryView {
    mixed_in(
        DiscoveryView {
            command_topic: Some(command_topic_of(o.base, name)),
            device: Some(device),
            unique_id: Some(uid),
            ..e
        },
        join(o.base, name),
        o.availability_topic,
    )
}

/// The binary sensor that shows whether the command `name` runs: the button
/// with the state topic instead of the command topic, no class and no
/// template, and the button's availability, mixed identically.
pub open spec fn running_sensor_of(o: RunnerOptionsView, device: DeviceView, name: Seq<char>, button: DiscoveryView, uid: Seq<char>) -> DiscoveryView {
    DiscoveryView {
        state_topic: Some(state_topic_of(o.base, name)),
        device: Some(device),
        unique_id: Some(uid),
        device_class: None,
        value_template: None,
        command_topic: None,
        ..button
    }
}

/// The announcements of the command `name`: its button, the binary sensor
/// that shows whether it runs, and the initial `stopped` state.
pub open spec fn command_announcement(o: RunnerOptionsView, device: DeviceView, name: Seq<char>, d: Option<DiscoveryView>) -> Seq<ActionView> {
    match d {
        None => Seq::empty(),
        Some(e) => match e.unique_id {
            None => Seq::empty(),
            Some(id) => {
                let uid = underscore(o.device_id, id);
                let button = button_of(o, device, name, e, uid);
                let ruid = uid + "_running"@;
                seq![
                    ActionView::Announce(AnnouncementView { unique_id: uid, component: Component::Button, entity: button }),
                    ActionView::Announce(AnnouncementView {
                        unique_id: ruid,
                        component: Component::BinarySensor,
                        entity: running_sensor_of(o, device, name, button, ruid),
                    }),
                    ActionView::UpdateState { topic: state_topic_of(o.base, name), payload: stopped_payload() },
                ]
            },
        },
    }
}

pub open spec fn command_announcements(o: RunnerOptionsView, device: DeviceView, ks: Seq<(Seq<char>, Option<DiscoveryView>)>) -> Seq<ActionView>
    decreases ks.len(),
{
    if ks.len() == 0 {
        Seq::empty()
    } else {
        command_announcements(o, device, ks.drop_last()) + command_announcement(o, device, ks.last().0, ks.last().1)
    }
}

/// Everything announced: the collectors' entities, then the commands'.
pub open spec fn announcements(
    o: RunnerOptionsView,
    device: DeviceView,
    cs: Seq<(Seq<char>, Seq<DiscoveryView>)>,
    ks: Seq<(Seq<char>, Option<DiscoveryView>)>,
) -> Seq<ActionView> {
    collector_announcements(o, device, cs) + command_announcements(o, device, ks)
}

/// The command topics of the commands that have a button.
pub open spec fn subscriptions(o: RunnerOptionsView, ks: Seq<(Seq<char>, Option<DiscoveryView>)>) -> Seq<ActionView>
    decreases ks.len(),
{
    if ks.len() == 0 {
        Seq::empty()
    } else {
        subscriptions(o, ks.drop_last()) + match ks.last().1 {
            Some(_) => seq![ActionView::Subscribe { topic: command_topic_of(o.base, ks.last().0) }],
            None => Seq::empty(),
        }
    }
}

/// What an inbound message asks for: where its topic is the command topic of
/// a known command, mark the command running and start it with the payload;
/// otherwise nothing.
pub open spec fn message_actions<K>(o: RunnerOptionsView, commands: Seq<(Seq<char>, K)>, topic: Seq<char>, payload: Seq<char>) -> Seq<ActionView> {
    if exists|n: Seq<char>| is_command_topic(topic, o.base, n) && has_name(commands, n) {
        let n = choose|n: Seq<char>| is_command_topic(topic, o.base, n) && has_name(commands, n);
        seq![
            ActionView::UpdateState { topic: state_topic_of(o.base, n), payload: running_payload() },
            ActionView::Start { name: n, payload },
        ]
    } else {
        Seq::empty()
    }
}

/// What the end of the command `name` asks for, whether it succeeded or not:
/// mark it stopped.
pub open spec fn completion_actions(o: RunnerOptionsView, name: Seq<char>, success: bool) -> Seq<ActionView> {
    seq![ActionView::UpdateState { topic: state_topic_of(o.base, name), payload: stopped_payload() }]
}

impl RunnerOptions {
    /// The options of the device `options.device_id`, or of `hostname` where
    /// none is configured.
    pub fn new(options: &UplinkOptions, hostname: &str) -> (r: RunnerOptions)
        ensures
            r@.device_id == match options.device_id {
                Some(d) => d@,
                None => hostname@,
            },
            r@.base == join(options.base@, r@.device_id),
            r@.availability_topic == availability_topic_of(options.base@, r@.device_id),
    {
        let device_id = match &options.device_id {
            Some(d) => d.clone(),
            None => String::from_str(hostname),
        };
        let base = device_base(options.base.as_str(), device_id.as_str());
        let availability_topic = availability_topic(options.base.as_str(), device_id.as_str());
        RunnerOptions { device_id, base, availability_topic }
    }

    /// The state topic of the collector or command `name`.
    pub fn state_topic(&self, name: &str) -> (r: String)
        ensures
            r@ == state_topic_of(self.base@, name@),
    {
        state_topic(self.base.as_str(), name)
    }

    /// The command topic of the command `name`.
    pub fn command_topic(&self, name: &str) -> (r: String)
        ensures
            r@ == command_topic_of(self.base@, name@),
    {
        command_topic(self.base.as_str(), name)
    }

    /// The device that every announced entity belongs to.
    pub fn device(&self, sw_version: &str) -> (r: Device)
        ensures
            r@ == device_of(self.device_id@, sw_version@),
    {
        let mut identifiers: Vec<String> = Vec::new();
        identifiers.push(self.device_id.clone());
        assert(identifiers.deep_view() =~= seq![self.device_id@]);
        let mut name = String::from_str("ReSyMo: ");
        name.append(self.device_id.as_str());
        Device {
            identifiers,
            name: Some(name),
            base_topic: None,
            sw_version: Some(String::from_str(sw_version)),
            support_url: None,
        }
    }

    fn sensor_actions(&self, device: &Device, name: &str, entities: &Vec<Discovery>, out: &mut Vec<Action>)
        ensures
            action_views(final(out)@) == action_views(old(out)@) + sensor_announcements(
                self@,
                device@,
                name@,
                discovery_views(entities@),
            ),
    {
        let ghost es = discovery_views(entities@);
        let ghost start = action_views(out@);
        let mut i: usize = 0;
        while i < entities.len()
            invariant
                i <= entities@.len(),
                es == discovery_views(entities@),
                action_views(out@) == start + sensor_announcements(self@, device@, name@, es.take(i as int)),
            decreases entities@.len() - i,
        {
            let e = &entities[i];
            let ghost before = action_views(out@);
            assert(es.take(i as int + 1).drop_last() =~= es.take(i as int));
            assert(es.take(i as int + 1).last() == e@);
            match &e.unique_id {
                None => {},
                Some(id) => {
                    let prefix = join_id(self.device_id.as_str(), name);
                    let uid = join_id(prefix.as_str(), id.as_str());
                    let entity = Discovery {
                        state_topic: Some(self.state_topic(name)),
                        device: Some(device.duplicate()),
                        unique_id: Some(uid.clone()),
                        ..e.duplicate()
                    };
                    let under = join_levels(self.base.as_str(), name);
                    let entity = entity.mixin_availability(under.as_str(), self.availability_topic.as_str());
                    out.push(Action::Announce(Announcement { unique_id: uid, component: Component::Sensor, entity }));
                },
            }
            assert(action_views(out@) =~= before + sensor_announcement(self@, device@, name@, e@));
            i = i + 1;
        }
        assert(es.take(i as int) =~= es);
    }

    fn command_actions(&self, device: &Device, name: &str, d: &Option<Discovery>, out: &mut Vec<Action>)
        ensures
            action_views(final(out)@) == action_views(old(out)@) + command_announcement(
                self@,
                device@,
                name@,
                optional_view(*d),
            ),
    {
        let ghost before = action_views(out@);
        match d {
            None => {},
            Some(e) => match &e.unique_id {
                None => {},
                Some(id) => {
                    let uid = join_id(self.device_id.as_str(), id.as_str());
                    let under = join_levels(self.base.as_str(), name);
                    let button = Discovery {
                        command_topic: Some(self.command_topic(name)),
                        device: Some(device.duplicate()),
                        unique_id: Some(uid.clone()),
                        ..e.duplicate()
                    };
                    let button = button.mixin_availability(under.as_str(), self.availability_topic.as_str());
                    let mut ruid = uid.clone();
                    ruid.append("_running");
                    let running = Discovery {
                        state_topic: Some(self.state_topic(name)),
                        device: Some(device.duplicate()),
                        unique_id: Some(ruid.clone()),
                        device_class: None,
                        value_template: None,
                        command_topic: None,
                        ..button.duplicate()
                    };
                    out.push(Action::Announce(Announcement { unique_id: uid, component: Component::Button, entity: button }));
                    out.push(Action::Announce(Announcement { unique_id: ruid, component: Component::BinarySensor, entity: running }));
                    out.push(Action::UpdateState { topic: self.state_topic(name), payload: String::from_str("OFF") });
                },
            },
        }
        assert(action_views(out@) =~= before + command_announcement(self@, device@, name@, optional_view(*d)));
    }

    /// Everything to announce, in order: each entity of each collector, then
    /// for each command with a button, the button, the binary sensor that
    /// shows whether it runs and its initial stopped state. Announcing twice
    /// gives the same actions.
    pub fn announce(&self, device: &Device, collectors: &Vec<(String, Vec<Discovery>)>, commands: &Vec<(String, Option<Discovery>)>) -> (r: Vec<Action>)
        ensures
            action_views(r@) == announcements(self@, device@, collector_views(collectors@), command_views(commands@)),
    {
        let mut out: Vec<Action> = Vec::new();
        assert(action_views(out@) =~= Seq::<ActionView>::empty());
        let ghost cs = collector_views(collectors@);
        let mut i: usize = 0;
        while i < collectors.len()
            invariant
                i <= collectors@.len(),
                cs == collector_views(collectors@),
                action_views(out@) == collector_announcements(self@, device@, cs.take(i as int)),
            decreases collectors@.len() - i,
        {
            let entry = &collectors[i];
            assert(cs.take(i as int + 1).drop_last() =~= cs.take(i as int));
            assert(cs.take(i as int + 1).last() == (entry.0@, discovery_views(entry.1@)));
            self.sensor_actions(device, entry.0.as_str(), &entry.1, &mut out);
            i = i + 1;
        }
        assert(cs.take(i as int) =~= cs);
        let ghost ks = command_views(commands@);
        let ghost collected = action_views(out@);
        let mut j: usize = 0;
        while j < commands.len()
            invariant
                j <= commands@.len(),
                ks == command_views(commands@),
                action_views(out@) == collected + command_announcements(self@, device@, ks.take(j as int)),
            decreases commands@.len() - j,
        {
            let entry = &commands[j];
            assert(ks.take(j as int + 1).drop_last() =~= ks.take(j as int));
            assert(ks.take(j as int + 1).last() == (entry.0@, optional_view(entry.1)));
            let ghost before = command_announcements(self@, device@, ks.take(j as int));
            self.command_actions(device, entry.0.as_str(), &entry.1, &mut out);
            assert(collected + before + command_announcement(self@, device@, entry.0@, optional_view(entry.1))
                =~= collected + (before + command_announcement(self@, device@, entry.0@, optional_view(entry.1))));
            j = j + 1;
        }
        assert(ks.take(j as int) =~= ks);
        out
    }

    /// The subscriptions to make: the command topic of each command that has
    /// a button.
    pub fn subscribe(&self, commands: &Vec<(String, Option<Discovery>)>) -> (r: Vec<Action>)
        ensures
            action_views(r@) == subscriptions(self@, command_views(commands@)),
    {
        let mut out: Vec<Action> = Vec::new();
        assert(action_views(out@) =~= Seq::<ActionView>::empty());
        let ghost ks = command_views(commands@);
        let mut j: usize = 0;
        while j < commands.len()
            invariant
                j <= commands@.len(),
                ks == command_views(commands@),
                action_views(out@) == subscriptions(self@, ks.take(j as int)),
            decreases commands@.len() - j,
        {
            let entry = &commands[j];
            assert(ks.take(j as int + 1).drop_last() =~= ks.take(j as int));
            assert(ks.take(j as int + 1).last() == (entry.0@, optional_view(entry.1)));
            let ghost before = action_views(out@);
            if entry.1.is_some() {
                out.push(Action::Subscribe { topic: self.command_topic(entry.0.as_str()) });
            }
            assert(action_views(out@) =~= subscriptions(self@, ks.take(j as int + 1)));
            j = j + 1;
        }
        assert(ks.take(j as int) =~= ks);
        out
    }

    /// What a change of the connection asks for: once connected, subscribe to
    /// the command topics and announce; when the connection is lost, nothing.
    pub fn connected(&self, state: bool, device: &Device, collectors: &Vec<(String, Vec<Discovery>)>, commands: &Vec<(String, Option<Discovery>)>) -> (r: Vec<Action>)
        ensures
            action_views(r@) == if state {
                subscriptions(self@, command_views(commands@)) + announcements(
                    self@,
                    device@,
                    collector_views(collectors@),
                    command_views(commands@),
                )
            } else {
                Seq::empty()
            },
    {
        let mut out: Vec<Action> = Vec::new();
        if state {
            out = self.subscribe(commands);
            let mut more = self.announce(device, collectors, commands);
            let ghost a = out@;
            let ghost b = more@;
            out.append(&mut more);
            assert(action_views(out@) =~= action_views(a) + action_views(b));
        } else {
            assert(action_views(out@) =~= Seq::<ActionView>::empty());
        }
        out
    }

    /// What a restart of the session asks for: announce again.
    pub fn restarted(&self, device: &Device, collectors: &Vec<(String, Vec<Discovery>)>, commands: &Vec<(String, Option<Discovery>)>) -> (r: Vec<Action>)
        ensures
            action_views(r@) == announcements(self@, device@, collector_views(collectors@), command_views(commands@)),
    {
        self.announce(device, collectors, commands)
    }

    /// What an inbound message asks for: where `topic` is the command topic
    /// of a registered command, publish the running state and start it with
    /// `payload`; otherwise nothing.
    pub fn message<C: Collector, K: Command>(&self, manager: &Manager<C, K>, topic: &str, payload: &str) -> (r: Vec<Action>)
        requires
            manager.wf(),
        ensures
            action_views(r@) == message_actions(self@, manager.commands(), topic@, payload@),
    {
        let mut out: Vec<Action> = Vec::new();
        match command_name(topic, self.base.as_str()) {
            None => {
                assert(action_views(out@) =~= Seq::<ActionView>::empty());
            },
            Some(name) => {
                proof {
                    assert forall|n: Seq<char>| is_command_topic(topic@, self.base@, n) implies n == name@ by {
                        lemma_command_topic_names_one(self.base@, n, name@);
                    }
                }
                match manager.command(name.as_str()) {
                    None => {
                        assert(action_views(out@) =~= Seq::<ActionView>::empty());
                    },
                    Some(_) => {
                        out.push(Action::UpdateState { topic: self.state_topic(name.as_str()), payload: String::from_str("ON") });
                        out.push(Action::Start { name, payload: String::from_str(payload) });
                        assert(is_command_topic(topic@, self.base@, name@) && has_name(manager.commands(), name@));
                        assert(action_views(out@) =~= message_actions(self@, manager.commands(), topic@, payload@));
                    },
                }
            },
        }
        out
    }

    /// What the end of the command `name` asks for, whether it succeeded or
    /// failed: publish its stopped state.
    pub fn completed(&self, name: &str, success: bool) -> (r: Vec<Action>)
        ensures
            action_views(r@) == completion_actions(self@, name@, success),
    {
        let mut out: Vec<Action> = Vec::new();
        out.push(Action::UpdateState { topic: self.state_topic(name), payload: String::from_str("OFF") });
        assert(action_views(out@) =~= completion_actions(self@, name@, success));
        out
    }

    /// The state updates of one round of collection: each snapshot goes to
    /// the state topic of its collector, in order.
    pub fn state_updates<V>(&self, snapshots: Vec<(String, V)>) -> (r: Vec<(String, V)>)
        ensures
            r@.len() == snapshots@.len(),
            forall|i: int| 0 <= i < r@.len() ==> #[trigger] r@[i].0@ == state_topic_of(self.base@, snapshots@[i].0@) && r@[i].1 == snapshots@[i].1,
    {
        let mut items = snapshots;
        let ghost all = items@;
        let mut out: Vec<(String, V)> = Vec::new();
        while items.len() > 0
            invariant
                out@.len() + items@.len() == all.len(),
                items@ == all.skip(out@.len() as int),
                forall|i: int| 0 <= i < out@.len() ==> #[trigger] out@[i].0@ == state_topic_of(self.base@, all[i].0@) && out@[i].1 == all[i].1,
            decreases items@.len(),
        {
            let ghost k: int = out@.len() as int;
            let ghost rest = items@;
            let (name, v) = items.remove(0);
            assert(rest[0] == all[k]);
            assert(items@ =~= all.skip(k + 1));
            out.push((self.state_topic(name.as_str()), v));
        }
        out
    }
}

/// The binary sensor that shows whether a command runs is available exactly
/// when the command's button is: both carry the command's own availability
/// topics placed under the command's topic, then the device-wide topic, all
/// required.
pub proof fn lemma_running_sensor_available_as_button(
    o: RunnerOptionsView,
    device: DeviceView,
    name: Seq<char>,
    e: DiscoveryView,
    uid: Seq<char>,
)
    ensures
        running_sensor_of(o, device, name, button_of(o, device, name, e, uid), uid + "_running"@).availability
            == button_of(o, device, name, e, uid).availability,
        button_of(o, device, name, e, uid).availability == mixed_in(e, join(o.base, name), o.availability_topic).availability,
        running_sensor_of(o, device, name, button_of(o, device, name, e, uid), uid + "_running"@).availability_mode
            == AvailabilityMode::All,
{
}

/// A trigger of a registered command on its command topic publishes the
/// running state on the command's state topic first and then starts the
/// command; its end, successful or not, publishes the stopped state on the
/// same topic.
pub proof fn lemma_trigger_runs_then_stops<K>(
    o: RunnerOptionsView,
    commands: Seq<(Seq<char>, K)>,
    name: Seq<char>,
    payload: Seq<char>,
    success: bool,
)
    requires
        single_slash(o.base),
        slash_free(name),
        has_name(commands, name),
    ensures
        message_actions(o, commands, command_topic_of(o.base, name), payload) == seq![
            ActionView::UpdateState { topic: state_topic_of(o.base, name), payload: running_payload() },
            ActionView::Start { name, payload },
        ],
        completion_actions(o, name, success) == seq![
            ActionView::UpdateState { topic: state_topic_of(o.base, name), payload: stopped_payload() },
        ],
{
    let topic = command_topic_of(o.base, name);
    assert(is_command_topic(topic, o.base, name));
    let n = choose|n: Seq<char>| is_command_topic(topic, o.base, n) && has_name(commands, n);
    lemma_command_topic_names_one(o.base, n, name);
}

} // verus!
