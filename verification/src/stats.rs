//! The live statistics snapshot of the engine, as it arrives.

use vstd::prelude::*;
use crate::value::Double;

verus! {

/// The resource usage of one container at the moment of the snapshot. The
/// engine may leave any reading out.
#[derive(Clone, Debug, Default, PartialEq, Eq)]
pub struct StatSample {
    pub container_id: Option<String>,
    pub up_time: Option<i64>,
    pub system_nano: Option<u64>,
    pub pids: Option<u64>,
    pub avg_cpu: Option<Double>,
    pub cpu: Option<Double>,
    pub cpu_nano: Option<u64>,
    pub cpu_system_nano: Option<u64>,
    pub mem_usage: Option<u64>,
    pub mem_limit: Option<u64>,
    pub mem_perc: Option<Double>,
    pub net_input: Option<u64>,
    pub net_output: Option<u64>,
    pub block_input: Option<u64>,
    pub block_output: Option<u64>,
}

/// A sample as contracts see it.
pub struct SampleView {
    pub container_id: Option<Seq<char>>,
    pub up_time: Option<i64>,
    pub system_nano: Option<u64>,
    pub pids: Option<u64>,
    pub avg_cpu: Option<Double>,
    pub cpu: Option<Double>,
    pub cpu_nano: Option<u64>,
    pub cpu_system_nano: Option<u64>,
    pub mem_usage: Option<u64>,
    pub mem_limit: Option<u64>,
    pub mem_perc: Option<Double>,
    pub net_input: Option<u64>,
    pub net_output: Option<u64>,
    pub block_input: Option<u64>,
    pub block_output: Option<u64>,
}

impl DeepView for StatSample {
    type V = SampleView;

    open spec fn deep_view(&self) -> SampleView {
        SampleView {
            container_id: self.container_id.deep_view(),
            up_time: self.up_time,
            system_nano: self.system_nano,
            pids: self.pids,
            avg_cpu: self.avg_cpu,
            cpu: self.cpu,
            cpu_nano: self.cpu_nano,
            cpu_system_nano: self.cpu_system_nano,
            mem_usage: self.mem_usage,
            mem_limit: self.mem_limit,
            mem_perc: self.mem_perc,
            net_input: self.net_input,
            net_output: self.net_output,
            block_input: self.block_input,
            block_output: self.block_output,
        }
    }
}

impl SampleView {
    /// The sample carries no reading at all.
    pub open spec fn blank(self) -> bool {
        &&& self.up_time is None
        &&& self.system_nano is None
        &&& self.pids is None
        &&& self.avg_cpu is None
        &&& self.cpu is None
        &&& self.cpu_nano is None
        &&& self.cpu_system_nano is None
        &&& self.mem_usage is None
        &&& self.mem_limit is None
        &&& self.mem_perc is None
        &&& self.net_input is None
        &&& self.net_output is None
        &&& self.block_input is None
        &&& self.block_output is None
    }
}

/// What the engine answered to the statistics query. An answer that
/// arrived may still carry an error of the engine's own, and may lack the
/// samples.
#[derive(Clone, Debug, Default, PartialEq, Eq)]
pub struct StatsResponse {
    /// The error that the engine put into its answer, if any.
    pub error: Option<String>,
    pub stats: Option<Vec<StatSample>>,
}

/// A statistics answer as contracts see it.
pub struct ResponseView {
    pub error: Option<Seq<char>>,
    pub stats: Option<Seq<SampleView>>,
}

impl DeepView for StatsResponse {
    type V = ResponseView;

    open spec fn deep_view(&self) -> ResponseView {
        ResponseView { error: self.error.deep_view(), stats: self.stats.deep_view() }
    }
}

} // verus!
