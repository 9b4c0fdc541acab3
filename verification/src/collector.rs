//! The collector: it turns what the engine answered to the two queries of
//! a scrape into the gauge writes of that scrape.

use vstd::prelude::*;
use crate::error::{CollectorError, EngineError};
use crate::inventory::{inventory_of, ContainerRecord, Inventory, InventoryEntry};
use crate::metrics::{GaugeWrite, Metric};
use crate::plan::{
    container_write, lemma_pod_names, lemma_pod_names_empty, lemma_pod_names_push,
    lemma_pod_size_push,
    lemma_stats_writes_push, pod_names, pod_size, pod_write, pod_writes, sample_writes,
    scrape_writes, stats_writes, total_write, writes_for,
};
use crate::stats::{StatSample, StatsResponse};
use crate::value::GaugeValue;

verus! {

/// The number of containers in one pod.
#[derive(Clone, Debug, PartialEq, Eq)]
pub struct PodCount {
    pub pod: String,
    pub containers: usize,
}

/// What a scrape came to, once both queries were answered.
#[derive(Clone, Debug, PartialEq, Eq)]
pub struct Scrape {
    /// The error that the engine put into its statistics answer. It is
    /// for the log only: the writes do not depend on it.
    pub api_error: Option<String>,
    /// The gauge writes of the scrape, in the order to make them.
    pub writes: Vec<GaugeWrite>,
}

/// The place of a pod among the counts.
fn find_pod(counts: &Vec<PodCount>, pod: &String) -> (found: Option<usize>)
    ensures
        match found {
            Some(at) => at < counts.len() && counts[at as int].pod@ == pod@,
            None => forall|j: int| 0 <= j < counts.len() ==> (#[trigger] counts[j]).pod@ != pod@,
        },
{
    let mut at: usize = 0;
    while at < counts.len()
        invariant
            at <= counts.len(),
            forall|j: int| 0 <= j < at ==> (#[trigger] counts[j]).pod@ != pod@,
        decreases counts.len() - at,
    {
        if counts[at].pod == *pod {
            return Some(at);
        }
        at += 1;
    }
    None
}

/// Counts the containers of each pod. Pods come in the order the
/// inventory first names them; a container outside any pod is counted
/// nowhere.
pub fn pod_counts(inventory: &Inventory) -> (counts: Vec<PodCount>)
    ensures
        counts.len() == pod_names(inventory@).len(),
        forall|i: int|
            0 <= i < counts.len() ==> {
                &&& (#[trigger] counts[i]).pod@ == pod_names(inventory@)[i]
                &&& counts[i].containers == pod_size(inventory@, pod_names(inventory@)[i])
            },
{
    let entries = inventory.entries();
    let ghost all = inventory@;
    let mut counts: Vec<PodCount> = Vec::new();
    let mut index: usize = 0;
    proof {
        lemma_pod_names_empty();
    }
    while index < entries.len()
        invariant
            index <= entries.len(),
            entries.deep_view() == all,
            counts.len() == pod_names(all.take(index as int)).len(),
            forall|i: int|
                0 <= i < counts.len() ==> {
                    &&& (#[trigger] counts[i]).pod@ == pod_names(all.take(index as int))[i]
                    &&& counts[i].containers == pod_size(
                        all.take(index as int),
                        pod_names(all.take(index as int))[i],
                    )
                },
        decreases entries.len() - index,
    {
        let entry = &entries[index];
        let ghost seen = all.take(index as int);
        let ghost names = pod_names(seen);
        proof {
            assert(all.take(index as int + 1) =~= seen.push(entry.deep_view()));
            lemma_pod_names(seen);
            lemma_pod_names_push(seen, entry.deep_view());
            assert forall|pod: Seq<char>|
                pod_size(seen.push(entry.deep_view()), pod) == #[trigger] pod_size(seen, pod) + (
                if entry.deep_view().pod == Some(pod) {
                    1int
                } else {
                    0int
                }) && pod_size(seen, pod) <= seen.len() by {
                lemma_pod_size_push(seen, entry.deep_view(), pod);
            }
        }
        match &entry.pod {
            Some(pod) => {
                match find_pod(&counts, pod) {
                    Some(at) => {
                        let containers = counts[at].containers;
                        counts.set(at, PodCount { pod: pod.clone(), containers: containers + 1 });
                    },
                    None => {
                        proof {
                            assert(!names.contains(pod@)) by {
                                if names.contains(pod@) {
                                    let j = choose|j: int| 0 <= j < names.len() && names[j] == pod@;
                                    assert(counts[j].pod@ == names[j]);
                                }
                            }
                        }
                        counts.push(PodCount { pod: pod.clone(), containers: 1 });
                    },
                }
            },
            None => {},
        }
        index += 1;
    }
    proof {
        assert(all.take(index as int) =~= all);
    }
    counts
}

/// The value of the `pod` label of a container.
fn pod_label(entry: &InventoryEntry) -> (label: String)
    ensures
        label@ == entry.deep_view().pod_label(),
{
    match &entry.pod {
        Some(pod) => pod.clone(),
        None => String::new(),
    }
}

/// A write to the series of one container.
fn container_gauge(
    metric: Metric,
    entry: &InventoryEntry,
    value: GaugeValue,
) -> (write: GaugeWrite)
    ensures
        write.deep_view() == container_write(metric, entry.deep_view(), value@),
{
    let mut labels: Vec<String> = Vec::new();
    labels.push(pod_label(entry));
    labels.push(entry.name.clone());
    assert(labels.deep_view() =~= seq![entry.deep_view().pod_label(), entry.deep_view().name]);
    GaugeWrite { metric, labels, value }
}

/// The writes for one container that has a sample: its state, then every
/// reading, a missing one as zero.
pub fn sample_gauges(entry: &InventoryEntry, sample: &StatSample) -> (writes: Vec<GaugeWrite>)
    ensures
        writes.deep_view() == sample_writes(entry.deep_view(), sample.deep_view()),
{
    let mut writes: Vec<GaugeWrite> = Vec::new();
    writes.push(container_gauge(Metric::State, entry, GaugeValue::Signed(entry.state.code())));
    writes.push(container_gauge(Metric::Uptime, entry, GaugeValue::of_signed(sample.up_time)));
    writes.push(
        container_gauge(Metric::SystemNano, entry, GaugeValue::of_unsigned(sample.system_nano)),
    );
    writes.push(container_gauge(Metric::Pids, entry, GaugeValue::of_unsigned(sample.pids)));
    writes.push(container_gauge(Metric::AvgCpu, entry, GaugeValue::of_double(sample.avg_cpu)));
    writes.push(container_gauge(Metric::Cpu, entry, GaugeValue::of_double(sample.cpu)));
    writes.push(container_gauge(Metric::CpuNano, entry, GaugeValue::of_unsigned(sample.cpu_nano)));
    writes.push(
        container_gauge(
            Metric::CpuSystemNano,
            entry,
            GaugeValue::of_unsigned(sample.cpu_system_nano),
        ),
    );
    writes.push(
        container_gauge(Metric::MemUsage, entry, GaugeValue::of_unsigned(sample.mem_usage)),
    );
    writes.push(
        container_gauge(Metric::MemLimit, entry, GaugeValue::of_unsigned(sample.mem_limit)),
    );
    writes.push(container_gauge(Metric::MemPerc, entry, GaugeValue::of_double(sample.mem_perc)));
    writes.push(
        container_gauge(Metric::NetworkInput, entry, GaugeValue::of_unsigned(sample.net_input)),
    );
    writes.push(
        container_gauge(Metric::NetworkOutput, entry, GaugeValue::of_unsigned(sample.net_output)),
    );
    writes.push(
        container_gauge(Metric::BlockInput, entry, GaugeValue::of_unsigned(sample.block_input)),
    );
    writes.push(
        container_gauge(Metric::BlockOutput, entry, GaugeValue::of_unsigned(sample.block_output)),
    );
    writes
}

/// The collector. It keeps nothing between scrapes: every scrape starts
/// from what the engine answers.
pub struct Collector {}

impl Collector {
    /// The first half of a scrape: takes what the container listing
    /// returned and builds the inventory from it. A failed listing aborts
    /// the update.
    pub fn containers(
        listing: Result<Vec<ContainerRecord>, EngineError>,
    ) -> (outcome: Result<Inventory, CollectorError>)
        ensures
            match listing {
                Ok(records) => outcome matches Ok(inventory) && inventory@ == inventory_of(
                    records.deep_view(),
                ),
                Err(cause) => outcome matches Err(error) && error == CollectorError::Inventory(
                    cause,
                ),
            },
    {
        match listing {
            Ok(records) => Ok(Inventory::collect(&records)),
            Err(cause) => Err(CollectorError::Inventory(cause)),
        }
    }

    /// The second half of a scrape: takes the inventory and what the
    /// statistics query returned, and plans the writes. A failed query
    /// aborts the update with nothing written. An answer that arrived
    /// always gives the total; the error that it may carry is handed on
    /// for the log and changes nothing else.
    pub fn update_stat(
        inventory: &Inventory,
        answer: Result<StatsResponse, EngineError>,
    ) -> (outcome: Result<Scrape, CollectorError>)
        ensures
            match answer {
                Ok(response) => {
                    &&& outcome matches Ok(scrape)
                    &&& scrape.api_error == response.error
                    &&& scrape.writes.deep_view() == scrape_writes(
                        inventory@,
                        response.deep_view().stats,
                    )
                },
                Err(cause) => outcome matches Err(error) && error == CollectorError::Stats(cause),
            },
    {
        let response = match answer {
            Ok(response) => response,
            Err(cause) => {
                return Err(CollectorError::Stats(cause));
            },
        };
        let ghost all = inventory@;
        let mut writes: Vec<GaugeWrite> = Vec::new();
        writes.push(
            GaugeWrite {
                metric: Metric::Total,
                labels: Vec::new(),
                value: GaugeValue::of_count(inventory.len()),
            },
        );
        assert(writes.deep_view() =~= seq![total_write(all)]) by {
            assert(writes[0].labels.deep_view() =~= Seq::empty());
        }
        let StatsResponse { error, stats } = response;
        let samples = match stats {
            Some(samples) => samples,
            None => {
                return Ok(Scrape { api_error: error, writes });
            },
        };
        let counts = pod_counts(inventory);
        let mut at: usize = 0;
        while at < counts.len()
            invariant
                at <= counts.len(),
                counts.len() == pod_names(all).len(),
                forall|i: int|
                    0 <= i < counts.len() ==> {
                        &&& (#[trigger] counts[i]).pod@ == pod_names(all)[i]
                        &&& counts[i].containers == pod_size(all, pod_names(all)[i])
                    },
                writes.deep_view() == seq![total_write(all)] + pod_writes(all).take(at as int),
            decreases counts.len() - at,
        {
            let count = &counts[at];
            let mut labels: Vec<String> = Vec::new();
            labels.push(count.pod.clone());
            assert(labels.deep_view() =~= seq![count.pod@]);
            let ghost before = writes.deep_view();
            writes.push(
                GaugeWrite {
                    metric: Metric::Count,
                    labels,
                    value: GaugeValue::of_count(count.containers),
                },
            );
            proof {
                let write = pod_write(all, pod_names(all)[at as int]);
                assert(writes.deep_view() =~= before.push(write));
            }
            at += 1;
        }
        let ghost sampled = samples.deep_view();
        let mut next: usize = 0;
        while next < samples.len()
            invariant
                next <= samples.len(),
                all == inventory@,
                sampled == samples.deep_view(),
                writes.deep_view() == seq![total_write(all)] + pod_writes(all) + stats_writes(
                    all,
                    sampled.take(next as int),
                ),
            decreases samples.len() - next,
        {
            let sample = &samples[next];
            let ghost before = writes.deep_view();
            proof {
                assert(sampled.take(next as int + 1) =~= sampled.take(next as int).push(
                    sample.deep_view(),
                ));
                lemma_stats_writes_push(all, sampled.take(next as int), sample.deep_view());
            }
            let owner = match &sample.container_id {
                Some(id) => inventory.get(id),
                None => None,
            };
            match owner {
                Some(entry) => {
                    let mut batch = sample_gauges(entry, sample);
                    let ghost added = batch.deep_view();
                    writes.append(&mut batch);
                    assert(writes.deep_view() =~= before + added);
                },
                None => {},
            }
            next += 1;
        }
        assert(sampled.take(next as int) =~= sampled);
        Ok(Scrape { api_error: error, writes })
    }
}

} // verus!
