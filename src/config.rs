//! The configuration of collectors and commands, and what it enables.

use vstd::prelude::*;
use crate::discovery::{
    auto_id, command_descriptor, completed, discovery_views, missing_ids, task_descriptors,
    Discovery, DiscoveryView,
};
use crate::homeassistant::{optional_view, Options as HomeAssistantOptions};
use crate::http::Options as HttpOptions;
use crate::mqtt::Options as MqttOptions;

verus! {

/// The period of a process-backed collector task where none is configured:
/// sixty seconds, in nanoseconds.
pub fn period() -> (r: u64)
    ensures
        r == 60_000_000_000u64,
{
    60_000_000_000u64
}

/// Settings that every built-in collector has.
#[derive(Clone, Copy, Debug, PartialEq, Eq, Default, Structural)]
pub struct CommonCollector {
    pub disabled: bool,
}

/// Settings that every kind of command has.
#[derive(Clone, Copy, Debug, PartialEq, Eq, Default, Structural)]
pub struct CommonCommand {
    pub disabled: bool,
}

/// A process to run: the program, its arguments, the environment variables
/// to set, and whether to start from an empty environment.
#[derive(Clone, Debug, PartialEq, Eq, Default)]
pub struct Process {
    pub command: String,
    pub args: Vec<String>,
    pub envs: Vec<(String, String)>,
    pub clean_env: bool,
}

pub struct ProcessView {
    pub command: Seq<char>,
    pub args: Seq<Seq<char>>,
    pub envs: Seq<(Seq<char>, Seq<char>)>,
    pub clean_env: bool,
}

impl View for Process {
    type V = ProcessView;

    open spec fn view(&self) -> ProcessView {
        ProcessView {
            command: self.command@,
            args: self.args.deep_view(),
            envs: self.envs@.map_values(|e: (String, String)| (e.0@, e.1@)),
            clean_env: self.clean_env,
        }
    }
}

impl Process {
    /// A copy of this process.
    pub fn duplicate(&self) -> (r: Process)
        ensures
            r@ == self@,
    {
        let mut args: Vec<String> = Vec::new();
        let mut i: usize = 0;
        while i < self.args.len()
            invariant
                i <= self.args@.len(),
                args@.len() == i,
                forall|j: int| 0 <= j < i ==> #[trigger] args@[j]@ == self.args@[j]@,
            decreases self.args@.len() - i,
        {
            args.push(self.args[i].clone());
            i = i + 1;
        }
        assert(args.deep_view() =~= self.args.deep_view());
        let mut envs: Vec<(String, String)> = Vec::new();
        let mut j: usize = 0;
        while j < self.envs.len()
            invariant
                j <= self.envs@.len(),
                envs@.len() == j,
                forall|k: int| 0 <= k < j ==> #[trigger] envs@[k].0@ == self.envs@[k].0@ && envs@[k].1@ == self.envs@[k].1@,
            decreases self.envs@.len() - j,
        {
            envs.push((self.envs[j].0.clone(), self.envs[j].1.clone()));
            j = j + 1;
        }
        let r = Process { command: self.command.clone(), args, envs, clean_env: self.clean_env };
        assert(r@.envs =~= self@.envs);
        r
    }
}

/// A process-backed collector task: the process, how often it may run at
/// most (in nanoseconds), and the entities that present its output.
#[derive(Clone, Debug, PartialEq, Eq)]
pub struct Task {
    pub period: u64,
    pub process: Process,
    pub discovery: Vec<Discovery>,
}

/// The process-backed collectors, by name.
#[derive(Clone, Debug, PartialEq, Eq, Default)]
pub struct ExecCollectors {
    pub common: CommonCollector,
    pub items: Vec<(String, Task)>,
}

/// A process-backed command: the process and its button, if it has one.
#[derive(Clone, Debug, PartialEq, Eq, Default)]
pub struct Run {
    pub process: Process,
    pub discovery: Option<Discovery>,
}

/// The process-backed commands, by name.
#[derive(Clone, Debug, PartialEq, Eq, Default)]
pub struct ExecCommands {
    pub common: CommonCommand,
    pub items: Vec<(String, Run)>,
}

/// The collector configuration.
#[derive(Clone, Debug, PartialEq, Eq, Default)]
pub struct Collectors {
    pub load_avg: CommonCollector,
    pub swap: CommonCollector,
    pub memory: CommonCollector,
    pub disk_free: CommonCollector,
    pub tasks: ExecCollectors,
}

/// The command configuration.
#[derive(Clone, Debug, PartialEq, Eq, Default)]
pub struct Commands {
    pub runs: ExecCommands,
}

/// The uplinks to run.
pub struct Uplinks {
    pub http_server: Option<HttpOptions>,
    pub homeassistant: Option<HomeAssistantOptions>,
    pub mqtt: Option<MqttOptions>,
}

/// The agent's configuration.
pub struct Config {
    pub uplinks: Uplinks,
    pub collectors: Collectors,
    pub commands: Commands,
}

/// A collector that a configuration enables.
#[derive(Debug)]
pub enum Source {
    Memory,
    Swap,
    DiskFree,
    LoadAvg,
    /// A process-backed task, with its entities completed.
    Exec(Task),
}

pub enum SourceView {
    Memory,
    Swap,
    DiskFree,
    LoadAvg,
    Exec { period: nat, process: ProcessView, discovery: Seq<DiscoveryView> },
}

impl View for Source {
    type V = SourceView;

    open spec fn view(&self) -> SourceView {
        match self {
            Source::Memory => SourceView::Memory,
            Source::Swap => SourceView::Swap,
            Source::DiskFree => SourceView::DiskFree,
            Source::LoadAvg => SourceView::LoadAvg,
            Source::Exec(t) => SourceView::Exec {
                period: t.period as nat,
                process: t.process@,
                discovery: discovery_views(t.discovery@),
            },
        }
    }
}

pub open spec fn named_sources(s: Seq<(String, Source)>) -> Seq<(Seq<char>, SourceView)> {
    s.map_values(|e: (String, Source)| (e.0@, e.1@))
}

/// One built-in collector, unless disabled.
pub open spec fn builtin(c: CommonCollector, name: Seq<char>, s: SourceView) -> Seq<(Seq<char>, SourceView)> {
    if c.disabled {
        Seq::empty()
    } else {
        seq![(name, s)]
    }
}

/// The process-backed tasks with their entities completed, in order.
pub open spec fn exec_sources(items: Seq<(String, Task)>) -> Seq<(Seq<char>, SourceView)> {
    Seq::new(
        items.len(),
        |i: int| {
            let ds = discovery_views(items[i].1.discovery@);
            (
                items[i].0@,
                SourceView::Exec {
                    period: items[i].1.period as nat,
                    process: items[i].1.process@,
                    discovery: Seq::new(ds.len(), |j: int| completed(ds[j], auto_id(items[i].0@, missing_ids(ds, j)))),
                },
            )
        },
    )
}

/// The collectors that `c` enables: memory, swap, disk and load average
/// unless disabled, then each process-backed task unless those are disabled.
pub open spec fn enabled_sources(c: Collectors) -> Seq<(Seq<char>, SourceView)> {
    builtin(c.memory, "memory"@, SourceView::Memory)
        + builtin(c.swap, "swap"@, SourceView::Swap)
        + builtin(c.disk_free, "disk_free"@, SourceView::DiskFree)
        + builtin(c.load_avg, "load_avg"@, SourceView::LoadAvg)
        + if c.tasks.common.disabled { Seq::empty() } else { exec_sources(c.tasks.items@) }
}

fn push_builtin(out: &mut Vec<(String, Source)>, c: CommonCollector, name: &str, s: Source)
    ensures
        named_sources(final(out)@) == named_sources(old(out)@) + builtin(c, name@, s@),
{
    let ghost before = named_sources(out@);
    if !c.disabled {
        out.push((String::from_str(name), s));
    }
    assert(named_sources(out@) =~= before + builtin(c, name@, s@));
}

/// The collectors that a configuration enables, in order, each under its
/// name: the built-in ones, then the process-backed tasks, whose entities
/// receive default ids and templates.
pub fn sources(config: Collectors) -> (r: Vec<(String, Source)>)
    ensures
        named_sources(r@) == enabled_sources(config),
{
    let ghost c = config;
    let mut out: Vec<(String, Source)> = Vec::new();
    assert(named_sources(out@) =~= Seq::<(Seq<char>, SourceView)>::empty());
    push_builtin(&mut out, config.memory, "memory", Source::Memory);
    push_builtin(&mut out, config.swap, "swap", Source::Swap);
    push_builtin(&mut out, config.disk_free, "disk_free", Source::DiskFree);
    push_builtin(&mut out, config.load_avg, "load_avg", Source::LoadAvg);
    let ghost builtins = named_sources(out@);
    if !config.tasks.common.disabled {
        let items = config.tasks.items;
        let ghost all = exec_sources(items@);
        let mut i: usize = 0;
        while i < items.len()
            invariant
                i <= items@.len(),
                all == exec_sources(items@),
                named_sources(out@) == builtins + all.take(i as int),
            decreases items@.len() - i,
        {
            let (name, task) = (&items[i].0, &items[i].1);
            let mut ds: Vec<Discovery> = Vec::new();
            let mut j: usize = 0;
            while j < task.discovery.len()
                invariant
                    j <= task.discovery@.len(),
                    ds@.len() == j,
                    forall|k: int| 0 <= k < j ==> #[trigger] ds@[k]@ == task.discovery@[k]@,
                decreases task.discovery@.len() - j,
            {
                ds.push(task.discovery[j].duplicate());
                j = j + 1;
            }
            assert(discovery_views(ds@) =~= discovery_views(task.discovery@));
            let discovery = task_descriptors(name.as_str(), ds);
            let ghost dv = discovery_views(task.discovery@);
            assert(discovery_views(discovery@) =~= Seq::new(dv.len(), |j: int| completed(dv[j], auto_id(name@, missing_ids(dv, j)))));
            let ghost before = named_sources(out@);
            out.push((name.clone(), Source::Exec(Task { period: task.period, process: task.process.duplicate(), discovery })));
            assert(named_sources(out@) =~= before.push(all[i as int]));
            assert(all.take(i as int + 1) =~= all.take(i as int).push(all[i as int]));
            i = i + 1;
        }
        assert(all.take(i as int) =~= all);
    } else {
        assert(builtins =~= builtins + Seq::<(Seq<char>, SourceView)>::empty());
    }
    out
}

/// A command that a configuration enables: its process and its completed
/// button, if it has one.
#[derive(Debug)]
pub struct ExecCommand {
    pub process: Process,
    pub discovery: Option<Discovery>,
}

/// The commands that `c` enables, each with its process and its button
/// completed (id and template by default); none when they are disabled.
pub open spec fn enabled_commands(c: Commands) -> Seq<(Seq<char>, ProcessView, Option<DiscoveryView>)> {
    if c.runs.common.disabled {
        Seq::empty()
    } else {
        Seq::new(
            c.runs.items@.len(),
            |i: int| (
                c.runs.items@[i].0@,
                c.runs.items@[i].1.process@,
                match optional_view(c.runs.items@[i].1.discovery) {
                    Some(d) => Some(completed(d, c.runs.items@[i].0@)),
                    None => None,
                },
            ),
        )
    }
}

pub open spec fn command_entries(s: Seq<(String, ExecCommand)>) -> Seq<(Seq<char>, ProcessView, Option<DiscoveryView>)> {
    s.map_values(|e: (String, ExecCommand)| (e.0@, e.1.process@, optional_view(e.1.discovery)))
}

/// The commands that a configuration enables, in order, each under its name.
pub fn commands(config: Commands) -> (r: Vec<(String, ExecCommand)>)
    ensures
        command_entries(r@) == enabled_commands(config),
{
    let mut out: Vec<(String, ExecCommand)> = Vec::new();
    if config.runs.common.disabled {
        assert(command_entries(out@) =~= enabled_commands(config));
        return out;
    }
    let ghost all = enabled_commands(config);
    let mut i: usize = 0;
    while i < config.runs.items.len()
        invariant
            i <= config.runs.items@.len(),
            !config.runs.common.disabled,
            all == enabled_commands(config),
            command_entries(out@) =~= all.take(i as int),
        decreases config.runs.items@.len() - i,
    {
        let (name, run) = (&config.runs.items[i].0, &config.runs.items[i].1);
        let d = match &run.discovery {
            Some(d) => Some(d.duplicate()),
            None => None,
        };
        let discovery = command_descriptor(name.as_str(), d);
        let ghost before = command_entries(out@);
        out.push((name.clone(), ExecCommand { process: run.process.duplicate(), discovery }));
        assert(command_entries(out@) =~= before.push(all[i as int]));
        i = i + 1;
    }
    assert(all.take(i as int) =~= all);
    out
}

} // verus!
