use resymo_agent::collector::{Collector, Error};
use resymo_agent::command::Command;
use resymo_agent::discovery::Discovery;
use resymo_agent::manager::Manager;
use std::cell::Cell;

struct Fixed {
    answer: Result<u64, String>,
    calls: Cell<u32>,
}

fn fixed(answer: Result<u64, &str>) -> Fixed {
    Fixed { answer: answer.map_err(|e| e.to_string()), calls: Cell::new(0) }
}

impl Collector for Fixed {
    type Snapshot = u64;

    fn answered(&self, answer: Result<u64, String>) -> bool {
        answer == self.answer
    }

    fn described(&self, entities: Vec<Discovery>) -> bool {
        entities == self.describe_ha()
    }

    fn collect(&self) -> Result<u64, String> {
        self.calls.set(self.calls.get() + 1);
        self.answer.clone()
    }

    fn describe_ha(&self) -> Vec<Discovery> {
        vec![Discovery { unique_id: Some("value".into()), ..Default::default() }]
    }
}

struct Button(Option<Discovery>);

impl Command for Button {
    fn described(&self, button: Option<Discovery>) -> bool {
        button == self.0
    }

    fn describe_ha(&self) -> Option<Discovery> {
        self.0.clone()
    }
}

#[test]
fn collect_one_known_and_unknown() {
    let mut m: Manager<Fixed, Button> = Manager::new();
    m.register_collector("memory", fixed(Ok(42)));
    assert_eq!(m.collect_one("memory"), Ok(Some(42)));
    assert_eq!(m.collect_one("doesnotexist"), Ok(None));
}

#[test]
fn collect_one_failure() {
    let m: Manager<Fixed, Button> = Manager::new().register("bad", fixed(Err("broken")));
    assert_eq!(m.collect_one("bad"), Err(Error::Collector("broken".into())));
}

#[test]
fn collect_all_success() {
    let m: Manager<Fixed, Button> = Manager::new()
        .register("swap", fixed(Ok(2)))
        .register("memory", fixed(Ok(1)));
    let all = m.collect_all().unwrap();
    assert_eq!(all, vec![("memory".to_string(), 1), ("swap".to_string(), 2)]);
}

#[test]
fn collect_all_fails_fast() {
    let m: Manager<Fixed, Button> = Manager::new()
        .register("a", fixed(Ok(1)))
        .register("b", fixed(Err("b failed")))
        .register("c", fixed(Err("c failed")));
    assert_eq!(m.collect_all(), Err(Error::Collector("b failed".into())));
    assert_eq!(m.collector("c").unwrap().calls.get(), 0);
    let e = m.collect_all().unwrap_err();
    assert_eq!(e.message(), "b failed");
    assert_eq!(e.kind(), "CollectorError");
}

#[test]
fn collect_all_empty() {
    let m: Manager<Fixed, Button> = Manager::new();
    assert_eq!(m.collect_all(), Ok(vec![]));
}

#[test]
fn register_overwrites() {
    let mut m: Manager<Fixed, Button> = Manager::new();
    m.register_collector("x", fixed(Ok(1)));
    m.register_collector("x", fixed(Ok(2)));
    assert_eq!(m.collect_all(), Ok(vec![("x".to_string(), 2)]));
    m.extend_collectors(vec![("y".to_string(), fixed(Ok(3))), ("x".to_string(), fixed(Ok(4)))]);
    assert_eq!(m.collect_all(), Ok(vec![("x".to_string(), 4), ("y".to_string(), 3)]));
}

#[test]
fn commands_by_name() {
    let mut m: Manager<Fixed, Button> = Manager::new();
    m.register_command("plain", Button(None));
    m.extend_commands(vec![("shown".to_string(), Button(Some(Discovery::default())))]);
    assert!(m.command("plain").is_some());
    assert!(m.command("missing").is_none());
    let described = m.describe_commands();
    assert_eq!(described.len(), 2);
    assert_eq!(described[0].0, "plain");
    assert!(described[0].1.is_none());
    assert!(described[1].1.is_some());
    m.register_collector("c", fixed(Ok(0)));
    let collectors = m.describe_collectors();
    assert_eq!(collectors[0].0, "c");
    assert_eq!(collectors[0].1[0].unique_id.as_deref(), Some("value"));
}

#[test]
fn names_come_back_in_alphabetic_order() {
    let names = ["swap", "b", "a", "disk_free", "Z", "é", "memory", "ab", ""];
    let mut m: Manager<Fixed, Button> = Manager::new();
    for (i, n) in names.iter().enumerate() {
        m.register_collector(n, fixed(Ok(i as u64)));
    }
    let got: Vec<String> = m.collect_all().unwrap().into_iter().map(|(n, _)| n).collect();
    let mut want: Vec<String> = names.iter().map(|n| n.to_string()).collect();
    want.sort();
    assert_eq!(got, want);
    let described: Vec<String> = m.describe_collectors().into_iter().map(|(n, _)| n).collect();
    assert_eq!(described, want);
}

#[test]
fn commands_in_alphabetic_order() {
    let mut m: Manager<Fixed, Button> = Manager::new();
    m.register_command("b", Button(None));
    m.register_command("a", Button(None));
    m.register_command("b", Button(Some(Discovery::default())));
    let names: Vec<String> = m.describe_commands().into_iter().map(|(n, _)| n).collect();
    assert_eq!(names, vec!["a".to_string(), "b".to_string()]);
    assert!(m.describe_commands()[1].1.is_some());
}
