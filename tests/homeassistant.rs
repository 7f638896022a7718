use resymo_agent::collector::Collector;
use resymo_agent::command::Command;
use resymo_agent::discovery::{Availability, AvailabilityMode, Discovery};
use resymo_agent::homeassistant::{
    default_base, Action, Component, RunnerOptions, UplinkOptions, PAYLOAD_RUNNING, PAYLOAD_STOPPED,
};
use resymo_agent::manager::Manager;

struct Nothing;

impl Collector for Nothing {
    type Snapshot = ();

    fn answered(&self, answer: Result<(), String>) -> bool {
        answer.is_ok()
    }

    fn described(&self, entities: Vec<Discovery>) -> bool {
        entities.is_empty()
    }

    fn collect(&self) -> Result<(), String> {
        Ok(())
    }

    fn describe_ha(&self) -> Vec<Discovery> {
        vec![]
    }
}

struct Cmd;

impl Command for Cmd {
    fn described(&self, button: Option<Discovery>) -> bool {
        button.is_none()
    }

    fn describe_ha(&self) -> Option<Discovery> {
        None
    }
}

fn options() -> RunnerOptions {
    RunnerOptions::new(&UplinkOptions { device_id: Some("devA".into()), base: default_base() }, "host")
}

fn entity(id: Option<&str>) -> Discovery {
    Discovery { unique_id: id.map(|s| s.to_string()), name: Some("E".into()), ..Default::default() }
}

#[test]
fn runner_options() {
    let o = options();
    assert_eq!(o.device_id, "devA");
    assert_eq!(o.base, "resymo/devA");
    assert_eq!(o.availability_topic, "resymo/devA/availability");
    let o = RunnerOptions::new(&UplinkOptions { device_id: None, base: "b".into() }, "host");
    assert_eq!(o.device_id, "host");
    assert_eq!(o.base, "b/host");
}

#[test]
fn trigger_runs_then_stops() {
    let o = options();
    let mut m: Manager<Nothing, Cmd> = Manager::new();
    m.register_command("myCmd", Cmd);
    let actions = o.message(&m, "resymo/devA/myCmd/command", "payload");
    assert_eq!(
        actions,
        vec![
            Action::UpdateState { topic: "resymo/devA/myCmd/state".into(), payload: PAYLOAD_RUNNING.into() },
            Action::Start { name: "myCmd".into(), payload: "payload".into() },
        ]
    );
    for success in [true, false] {
        assert_eq!(
            o.completed("myCmd", success),
            vec![Action::UpdateState { topic: "resymo/devA/myCmd/state".into(), payload: PAYLOAD_STOPPED.into() }]
        );
    }
}

#[test]
fn unknown_command_or_topic_is_ignored() {
    let o = options();
    let mut m: Manager<Nothing, Cmd> = Manager::new();
    m.register_command("myCmd", Cmd);
    assert!(o.message(&m, "resymo/devA/other/command", "x").is_empty());
    assert!(o.message(&m, "resymo/devB/myCmd/command", "x").is_empty());
    assert!(o.message(&m, "resymo/devA/myCmd/state", "x").is_empty());
}

#[test]
fn announces_collector_entities() {
    let o = options();
    let device = o.device("1.2.3");
    let collectors = vec![("memory".to_string(), vec![entity(Some("free")), entity(None)])];
    let actions = o.announce(&device, &collectors, &vec![]);
    assert_eq!(actions.len(), 1);
    let Action::Announce(a) = &actions[0] else { panic!("not an announcement") };
    assert_eq!(a.unique_id, "devA_memory_free");
    assert_eq!(a.component, Component::Sensor);
    assert_eq!(a.entity.unique_id.as_deref(), Some("devA_memory_free"));
    assert_eq!(a.entity.state_topic.as_deref(), Some("resymo/devA/memory/state"));
    assert_eq!(a.entity.availability_mode, AvailabilityMode::All);
    assert_eq!(a.entity.availability.last().unwrap().topic, "resymo/devA/availability");
    let d = a.entity.device.as_ref().unwrap();
    assert_eq!(d.identifiers, vec!["devA".to_string()]);
    assert_eq!(d.name.as_deref(), Some("ReSyMo: devA"));
    assert_eq!(d.sw_version.as_deref(), Some("1.2.3"));
}

#[test]
fn announces_command_button_and_state() {
    let o = options();
    let device = o.device("1");
    let mut button = entity(Some("reboot"));
    button.device_class = Some("restart".into());
    button.value_template = Some("t".into());
    button.availability = vec![Availability::new("up".into())];
    let commands = vec![("reboot".to_string(), Some(button)), ("hidden".to_string(), None)];
    let actions = o.announce(&device, &vec![], &commands);
    assert_eq!(actions.len(), 3);
    let Action::Announce(b) = &actions[0] else { panic!("not an announcement") };
    assert_eq!(b.unique_id, "devA_reboot");
    assert_eq!(b.component, Component::Button);
    assert_eq!(b.entity.command_topic.as_deref(), Some("resymo/devA/reboot/command"));
    let topics: Vec<_> = b.entity.availability.iter().map(|a| a.topic.as_str()).collect();
    assert_eq!(topics, vec!["resymo/devA/reboot/up", "resymo/devA/availability"]);
    let Action::Announce(s) = &actions[1] else { panic!("not an announcement") };
    assert_eq!(s.unique_id, "devA_reboot_running");
    assert_eq!(s.component, Component::BinarySensor);
    assert_eq!(s.entity.state_topic.as_deref(), Some("resymo/devA/reboot/state"));
    assert_eq!(s.entity.command_topic, None);
    assert_eq!(s.entity.device_class, None);
    assert_eq!(s.entity.value_template, None);
    let sensor_topics: Vec<_> = s.entity.availability.iter().map(|a| a.topic.as_str()).collect();
    assert_eq!(sensor_topics, vec!["resymo/devA/reboot/up", "resymo/devA/availability"]);
    assert_eq!(s.entity.availability, b.entity.availability);
    assert_eq!(s.entity.availability_mode, AvailabilityMode::All);
    assert_eq!(
        actions[2],
        Action::UpdateState { topic: "resymo/devA/reboot/state".into(), payload: "OFF".into() }
    );
}

#[test]
fn connect_subscribes_then_announces() {
    let o = options();
    let device = o.device("1");
    let commands = vec![("a".to_string(), Some(entity(Some("a")))), ("b".to_string(), None)];
    let actions = o.connected(true, &device, &vec![], &commands);
    assert_eq!(actions[0], Action::Subscribe { topic: "resymo/devA/a/command".into() });
    assert_eq!(actions.len(), 4);
    assert!(o.connected(false, &device, &vec![], &commands).is_empty());
    assert_eq!(o.restarted(&device, &vec![], &commands), o.announce(&device, &vec![], &commands));
    assert_eq!(o.subscribe(&commands), vec![Action::Subscribe { topic: "resymo/devA/a/command".into() }]);
}

#[test]
fn reannouncing_is_identical() {
    let o = options();
    let device = o.device("1");
    let collectors = vec![("c".to_string(), vec![entity(Some("x"))])];
    let commands = vec![("k".to_string(), Some(entity(None)))];
    assert_eq!(o.announce(&device, &collectors, &commands), o.announce(&device, &collectors, &commands));
}

#[test]
fn state_updates_go_to_state_topics() {
    let o = options();
    let updates = o.state_updates(vec![("memory".to_string(), 1), ("swap".to_string(), 2)]);
    assert_eq!(
        updates,
        vec![("resymo/devA/memory/state".to_string(), 1), ("resymo/devA/swap/state".to_string(), 2)]
    );
    assert_eq!(o.command_topic("x"), "resymo/devA/x/command");
}
