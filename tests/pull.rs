use resymo_agent::collector::{Collector, Error};
use resymo_agent::command::Command;
use resymo_agent::discovery::Discovery;
use resymo_agent::manager::Manager;
use resymo_agent::pull::{collect_all, collect_one, Reply};

/// Memory figures as a host reports them.
struct Memory;

impl Collector for Memory {
    type Snapshot = Vec<(&'static str, u64)>;

    fn answered(&self, answer: Result<Self::Snapshot, String>) -> bool {
        answer.is_ok()
    }

    fn described(&self, entities: Vec<Discovery>) -> bool {
        entities.is_empty()
    }

    fn collect(&self) -> Result<Self::Snapshot, String> {
        Ok(vec![("free", 10), ("total", 40), ("used", 30), ("available", 12)])
    }

    fn describe_ha(&self) -> Vec<Discovery> {
        vec![]
    }
}

struct Broken;

impl Collector for Broken {
    type Snapshot = Vec<(&'static str, u64)>;

    fn answered(&self, answer: Result<Self::Snapshot, String>) -> bool {
        answer == Err("no data".to_string())
    }

    fn described(&self, entities: Vec<Discovery>) -> bool {
        entities.is_empty()
    }

    fn collect(&self) -> Result<Self::Snapshot, String> {
        Err("no data".into())
    }

    fn describe_ha(&self) -> Vec<Discovery> {
        vec![]
    }
}

enum Source {
    Memory(Memory),
    Broken(Broken),
}

impl Collector for Source {
    type Snapshot = Vec<(&'static str, u64)>;

    fn answered(&self, answer: Result<Self::Snapshot, String>) -> bool {
        match self {
            Source::Memory(m) => m.answered(answer),
            Source::Broken(b) => b.answered(answer),
        }
    }

    fn described(&self, entities: Vec<Discovery>) -> bool {
        entities.is_empty()
    }

    fn collect(&self) -> Result<Self::Snapshot, String> {
        match self {
            Source::Memory(m) => m.collect(),
            Source::Broken(b) => b.collect(),
        }
    }

    fn describe_ha(&self) -> Vec<Discovery> {
        vec![]
    }
}

struct NoCommand;

impl Command for NoCommand {
    fn described(&self, button: Option<Discovery>) -> bool {
        button.is_none()
    }

    fn describe_ha(&self) -> Option<Discovery> {
        None
    }
}

#[test]
fn memory_found_and_unknown_not_found() {
    let m: Manager<Source, NoCommand> = Manager::new().register("memory", Source::Memory(Memory));
    let reply = collect_one(&m, "memory");
    assert_eq!(reply.status(), 200);
    let Reply::Found(fields) = reply else { panic!("not found") };
    let names: Vec<_> = fields.iter().map(|(n, _)| *n).collect();
    assert_eq!(names, vec!["free", "total", "used", "available"]);
    let reply = collect_one(&m, "doesnotexist");
    assert_eq!(reply.status(), 404);
    assert_eq!(reply, Reply::NotFound);
}

#[test]
fn failure_is_a_server_error() {
    let m: Manager<Source, NoCommand> = Manager::new()
        .register("memory", Source::Memory(Memory))
        .register("broken", Source::Broken(Broken));
    let reply = collect_one(&m, "broken");
    assert_eq!(reply.status(), 500);
    assert_eq!(reply, Reply::Failed(Error::Collector("no data".into())));
    let all = collect_all(&m);
    assert_eq!(all.status(), 500);
}

#[test]
fn all_snapshots() {
    let m: Manager<Source, NoCommand> = Manager::new().register("memory", Source::Memory(Memory));
    let Reply::Found(all) = collect_all(&m) else { panic!("failed") };
    assert_eq!(all.len(), 1);
    assert_eq!(all[0].0, "memory");
}
