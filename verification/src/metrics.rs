//! The exported gauges: their names, their label schemas, and the shape of
//! one write to one labelled series.

use vstd::prelude::*;
use crate::value::{GaugeValue, Reading};

verus! {

/// One exported gauge. `Total` has a single unlabelled series, `Count` one
/// series per pod, every other gauge one series per pod and container.
#[derive(Clone, Copy, Debug, PartialEq, Eq, Hash, Structural)]
pub enum Metric {
    Total,
    Count,
    State,
    Uptime,
    SystemNano,
    Pids,
    AvgCpu,
    Cpu,
    CpuNano,
    CpuSystemNano,
    MemUsage,
    MemLimit,
    MemPerc,
    NetworkInput,
    NetworkOutput,
    BlockInput,
    BlockOutput,
}

impl Metric {
    /// The name a gauge is exported under.
    pub open spec fn spec_name(self) -> Seq<char> {
        match self {
            Metric::Total => "container_total"@,
            Metric::Count => "container_count"@,
            Metric::State => "container_state"@,
            Metric::Uptime => "container_uptime"@,
            Metric::SystemNano => "container_system_nano"@,
            Metric::Pids => "container_pids"@,
            Metric::AvgCpu => "container_avg_cpu"@,
            Metric::Cpu => "container_cpu"@,
            Metric::CpuNano => "container_cpu_nano"@,
            Metric::CpuSystemNano => "container_cpu_system_nano"@,
            Metric::MemUsage => "container_mem_usage"@,
            Metric::MemLimit => "container_mem_limit"@,
            Metric::MemPerc => "container_mem_perc"@,
            Metric::NetworkInput => "container_network_input"@,
            Metric::NetworkOutput => "container_network_output"@,
            Metric::BlockInput => "container_block_input"@,
            Metric::BlockOutput => "container_block_output"@,
        }
    }

    /// The help line shown with a gauge.
    pub open spec fn spec_help(self) -> Seq<char> {
        match self {
            Metric::Total => "Total count of containers"@,
            Metric::Count => "Count of containers"@,
            Metric::State =>
                "Container current state (-1=unknown,0=exited/stopped,1=running,2=created)"@,
            Metric::Uptime => "Container uptime"@,
            Metric::SystemNano => "Container system nano"@,
            Metric::Pids => "Count of running pids in container"@,
            Metric::AvgCpu => "Container Avg CPU usage"@,
            Metric::Cpu => "Container CPU usage"@,
            Metric::CpuNano => "Container CPU usage (nano)"@,
            Metric::CpuSystemNano => "Container CPU usage (system nano)"@,
            Metric::MemUsage => "Container memory usage (bytes)"@,
            Metric::MemLimit => "Container memory limit"@,
            Metric::MemPerc => "Container memory usage (percentage)"@,
            Metric::NetworkInput => "Container network input"@,
            Metric::NetworkOutput => "Container network output"@,
            Metric::BlockInput => "Container block input"@,
            Metric::BlockOutput => "Container block output"@,
        }
    }

    /// The label names of a gauge, in the order its label values are given.
    pub open spec fn spec_label_names(self) -> Seq<Seq<char>> {
        match self {
            Metric::Total => Seq::empty(),
            Metric::Count => seq!["pod"@],
            _ => seq!["pod"@, "container"@],
        }
    }

    /// Every gauge, each once, in the order they are registered.
    pub open spec fn spec_all() -> Seq<Metric> {
        seq![
            Metric::Total,
            Metric::Count,
            Metric::State,
            Metric::Uptime,
            Metric::SystemNano,
            Metric::Pids,
            Metric::AvgCpu,
            Metric::Cpu,
            Metric::CpuNano,
            Metric::CpuSystemNano,
            Metric::MemUsage,
            Metric::MemLimit,
            Metric::MemPerc,
            Metric::NetworkInput,
            Metric::NetworkOutput,
            Metric::BlockInput,
            Metric::BlockOutput,
        ]
    }

    /// The name the gauge is exported under.
    pub fn name(self) -> (name: &'static str)
        ensures
            name@ == self.spec_name(),
    {
        match self {
            Metric::Total => "container_total",
            Metric::Count => "container_count",
            Metric::State => "container_state",
            Metric::Uptime => "container_uptime",
            Metric::SystemNano => "container_system_nano",
            Metric::Pids => "container_pids",
            Metric::AvgCpu => "container_avg_cpu",
            Metric::Cpu => "container_cpu",
            Metric::CpuNano => "container_cpu_nano",
            Metric::CpuSystemNano => "container_cpu_system_nano",
            Metric::MemUsage => "container_mem_usage",
            Metric::MemLimit => "container_mem_limit",
            Metric::MemPerc => "container_mem_perc",
            Metric::NetworkInput => "container_network_input",
            Metric::NetworkOutput => "container_network_output",
            Metric::BlockInput => "container_block_input",
            Metric::BlockOutput => "container_block_output",
        }
    }

    /// The help line shown with the gauge.
    pub fn help(self) -> (help: &'static str)
        ensures
            help@ == self.spec_help(),
    {
        match self {
            Metric::Total => "Total count of containers",
            Metric::Count => "Count of containers",
            Metric::State =>
                "Container current state (-1=unknown,0=exited/stopped,1=running,2=created)",
            Metric::Uptime => "Container uptime",
            Metric::SystemNano => "Container system nano",
            Metric::Pids => "Count of running pids in container",
            Metric::AvgCpu => "Container Avg CPU usage",
            Metric::Cpu => "Container CPU usage",
            Metric::CpuNano => "Container CPU usage (nano)",
            Metric::CpuSystemNano => "Container CPU usage (system nano)",
            Metric::MemUsage => "Container memory usage (bytes)",
            Metric::MemLimit => "Container memory limit",
            Metric::MemPerc => "Container memory usage (percentage)",
            Metric::NetworkInput => "Container network input",
            Metric::NetworkOutput => "Container network output",
            Metric::BlockInput => "Container block input",
            Metric::BlockOutput => "Container block output",
        }
    }

    /// The label names of the gauge.
    pub fn label_names(self) -> (names: Vec<&'static str>)
        ensures
            names.deep_view() == self.spec_label_names(),
    {
        let mut names: Vec<&'static str> = Vec::new();
        match self {
            Metric::Total => {},
            Metric::Count => {
                names.push("pod");
            },
            _ => {
                names.push("pod");
                names.push("container");
            },
        }
        assert(names.deep_view() =~= self.spec_label_names());
        names
    }

    /// Every gauge, each once.
    pub fn all() -> (metrics: Vec<Metric>)
        ensures
            metrics@ == Metric::spec_all(),
    {
        let metrics = vec![
            Metric::Total,
            Metric::Count,
            Metric::State,
            Metric::Uptime,
            Metric::SystemNano,
            Metric::Pids,
            Metric::AvgCpu,
            Metric::Cpu,
            Metric::CpuNano,
            Metric::CpuSystemNano,
            Metric::MemUsage,
            Metric::MemLimit,
            Metric::MemPerc,
            Metric::NetworkInput,
            Metric::NetworkOutput,
            Metric::BlockInput,
            Metric::BlockOutput,
        ];
        assert(metrics@ =~= Metric::spec_all());
        metrics
    }
}

/// One write to one labelled series of a gauge.
#[derive(Clone, Debug, PartialEq, Eq)]
pub struct GaugeWrite {
    pub metric: Metric,
    /// The label values, in the order of the gauge's label names.
    pub labels: Vec<String>,
    pub value: GaugeValue,
}

/// A gauge write as contracts see it.
pub struct WriteView {
    pub metric: Metric,
    pub labels: Seq<Seq<char>>,
    pub value: Reading,
}

impl WriteView {
    /// The write gives as many label values as its gauge has label names.
    pub open spec fn fits_schema(self) -> bool {
        self.labels.len() == self.metric.spec_label_names().len()
    }
}

impl DeepView for GaugeWrite {
    type V = WriteView;

    open spec fn deep_view(&self) -> WriteView {
        WriteView {
            metric: self.metric,
            labels: self.labels.deep_view(),
            value: self.value@,
        }
    }
}

/// `spec_all` lists every gauge, and none twice.
pub proof fn lemma_all_metrics_listed(metric: Metric)
    ensures
        Metric::spec_all().contains(metric),
        Metric::spec_all().no_duplicates(),
        Metric::spec_all().len() == 17,
{
    let all = Metric::spec_all();
    let i: int = match metric {
        Metric::Total => 0,
        Metric::Count => 1,
        Metric::State => 2,
        Metric::Uptime => 3,
        Metric::SystemNano => 4,
        Metric::Pids => 5,
        Metric::AvgCpu => 6,
        Metric::Cpu => 7,
        Metric::CpuNano => 8,
        Metric::CpuSystemNano => 9,
        Metric::MemUsage => 10,
        Metric::MemLimit => 11,
        Metric::MemPerc => 12,
        Metric::NetworkInput => 13,
        Metric::NetworkOutput => 14,
        Metric::BlockInput => 15,
        Metric::BlockOutput => 16,
    };
    assert(all[i] == metric);
}

/// No two gauges share a name, so each can be registered under its own.
pub proof fn lemma_names_distinct(a: Metric, b: Metric)
    requires
        a != b,
    ensures
        a.spec_name() != b.spec_name(),
{
    reveal_strlit("container_total");
    reveal_strlit("container_count");
    reveal_strlit("container_state");
    reveal_strlit("container_uptime");
    reveal_strlit("container_system_nano");
    reveal_strlit("container_pids");
    reveal_strlit("container_avg_cpu");
    reveal_strlit("container_cpu");
    reveal_strlit("container_cpu_nano");
    reveal_strlit("container_cpu_system_nano");
    reveal_strlit("container_mem_usage");
    reveal_strlit("container_mem_limit");
    reveal_strlit("container_mem_perc");
    reveal_strlit("container_network_input");
    reveal_strlit("container_network_output");
    reveal_strlit("container_block_input");
    reveal_strlit("container_block_output");
    let x = a.spec_name();
    let y = b.spec_name();
    if x.len() == y.len() {
        assert(x[10] != y[10] || x[14] != y[14]);
    }
}

} // verus!
