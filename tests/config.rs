use resymo_agent::config::{
    commands, period, sources, Collectors, CommonCollector, CommonCommand, ExecCollectors,
    ExecCommands, Commands, Process, Run, Source, Task,
};
use resymo_agent::discovery::Discovery;

fn task() -> Task {
    Task {
        period: period(),
        process: Process { command: "date".into(), ..Default::default() },
        discovery: vec![Discovery::default(), Discovery::default()],
    }
}

#[test]
fn default_period_is_a_minute() {
    assert_eq!(period(), 60_000_000_000);
}

#[test]
fn everything_enabled_by_default() {
    let mut c = Collectors::default();
    c.tasks.items = vec![("exec1".into(), task())];
    let s = sources(c);
    let names: Vec<_> = s.iter().map(|(n, _)| n.as_str()).collect();
    assert_eq!(names, vec!["memory", "swap", "disk_free", "load_avg", "exec1"]);
    let Source::Exec(t) = &s[4].1 else { panic!("not a task") };
    assert_eq!(t.discovery[0].unique_id.as_deref(), Some("exec1"));
    assert_eq!(t.discovery[1].unique_id.as_deref(), Some("exec1_1"));
}

#[test]
fn disabled_collectors_are_left_out() {
    let off = CommonCollector { disabled: true };
    let c = Collectors {
        memory: off,
        swap: CommonCollector::default(),
        disk_free: off,
        load_avg: off,
        tasks: ExecCollectors { common: off, items: vec![("exec1".into(), task())] },
    };
    let names: Vec<_> = sources(c).into_iter().map(|(n, _)| n).collect();
    assert_eq!(names, vec!["swap".to_string()]);
}

#[test]
fn enabled_commands() {
    let run = Run { process: Process::default(), discovery: Some(Discovery::default()) };
    let c = Commands { runs: ExecCommands { common: CommonCommand::default(), items: vec![("k".into(), run.clone())] } };
    let k = commands(c);
    assert_eq!(k.len(), 1);
    assert_eq!(k[0].0, "k");
    assert_eq!(k[0].1.discovery.as_ref().unwrap().unique_id.as_deref(), Some("k"));
    let c = Commands { runs: ExecCommands { common: CommonCommand { disabled: true }, items: vec![("k".into(), run)] } };
    assert!(commands(c).is_empty());
}
