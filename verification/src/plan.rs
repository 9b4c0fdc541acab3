//! What one scrape writes: the reconciliation of the inventory with the
//! statistics snapshot, stated over plain sequences.

use vstd::prelude::*;
use crate::inventory::{lookup, EntryView};
use crate::metrics::{Metric, WriteView};
use crate::stats::SampleView;
use crate::value::{double_or_zero, signed_or_zero, unsigned_or_zero, Reading};

verus! {

/// The write of the total gauge: the number of containers in the
/// inventory.
pub open spec fn total_write(entries: Seq<EntryView>) -> WriteView {
    WriteView {
        metric: Metric::Total,
        labels: Seq::empty(),
        value: Reading::Integer(entries.len() as int),
    }
}

/// The pod of an entry, as a function to pass on.
pub open spec fn pod_field() -> spec_fn(EntryView) -> Option<Seq<char>> {
    |entry: EntryView| entry.pod
}

/// The test whether an entry belongs to the given pod.
pub open spec fn in_pod(pod: Seq<char>) -> spec_fn(EntryView) -> bool {
    |entry: EntryView| entry.pod == Some(pod)
}

/// The pods that the entries name, each once, in the order they first
/// occur. An entry outside any pod names none.
pub open spec fn pod_names(entries: Seq<EntryView>) -> Seq<Seq<char>> {
    entries.filter_map(pod_field()).remove_duplicates(Seq::empty())
}

/// The number of entries in the given pod.
pub open spec fn pod_size(entries: Seq<EntryView>, pod: Seq<char>) -> nat {
    entries.filter(in_pod(pod)).len()
}

/// The write of the count gauge for one pod.
pub open spec fn pod_write(entries: Seq<EntryView>, pod: Seq<char>) -> WriteView {
    WriteView {
        metric: Metric::Count,
        labels: seq![pod],
        value: Reading::Integer(pod_size(entries, pod) as int),
    }
}

/// The writes of the count gauge: one for each pod that an entry names.
pub open spec fn pod_writes(entries: Seq<EntryView>) -> Seq<WriteView> {
    pod_names(entries).map_values(|pod: Seq<char>| pod_write(entries, pod))
}

/// A write to the series of one container, labelled by its pod (empty
/// where it has none) and its name.
pub open spec fn container_write(metric: Metric, entry: EntryView, value: Reading) -> WriteView {
    WriteView { metric, labels: seq![entry.pod_label(), entry.name], value }
}

/// The writes that one sample gives rise to, for the container that the
/// inventory holds under the sample's id: its state, then each reading of
/// the sample, a missing reading as zero.
pub open spec fn sample_writes(entry: EntryView, sample: SampleView) -> Seq<WriteView> {
    seq![
        container_write(Metric::State, entry, Reading::Integer(entry.state.spec_code())),
        container_write(Metric::Uptime, entry, Reading::Integer(signed_or_zero(sample.up_time))),
        container_write(
            Metric::SystemNano,
            entry,
            Reading::Integer(unsigned_or_zero(sample.system_nano)),
        ),
        container_write(Metric::Pids, entry, Reading::Integer(unsigned_or_zero(sample.pids))),
        container_write(Metric::AvgCpu, entry, Reading::Double(double_or_zero(sample.avg_cpu))),
        container_write(Metric::Cpu, entry, Reading::Double(double_or_zero(sample.cpu))),
        container_write(
            Metric::CpuNano,
            entry,
            Reading::Integer(unsigned_or_zero(sample.cpu_nano)),
        ),
        container_write(
            Metric::CpuSystemNano,
            entry,
            Reading::Integer(unsigned_or_zero(sample.cpu_system_nano)),
        ),
        container_write(
            Metric::MemUsage,
            entry,
            Reading::Integer(unsigned_or_zero(sample.mem_usage)),
        ),
        container_write(
            Metric::MemLimit,
            entry,
            Reading::Integer(unsigned_or_zero(sample.mem_limit)),
        ),
        container_write(Metric::MemPerc, entry, Reading::Double(double_or_zero(sample.mem_perc))),
        container_write(
            Metric::NetworkInput,
            entry,
            Reading::Integer(unsigned_or_zero(sample.net_input)),
        ),
        container_write(
            Metric::NetworkOutput,
            entry,
            Reading::Integer(unsigned_or_zero(sample.net_output)),
        ),
        container_write(
            Metric::BlockInput,
            entry,
            Reading::Integer(unsigned_or_zero(sample.block_input)),
        ),
        container_write(
            Metric::BlockOutput,
            entry,
            Reading::Integer(unsigned_or_zero(sample.block_output)),
        ),
    ]
}

/// The inventory entry that a sample belongs to. A sample without an id,
/// or with an id that the inventory does not hold, is an orphan and
/// belongs to none.
pub open spec fn owner(entries: Seq<EntryView>, sample: SampleView) -> Option<EntryView> {
    match sample.container_id {
        Some(id) => lookup(entries, id),
        None => None,
    }
}

/// The writes of one sample: those of its container, or none for an
/// orphan.
pub open spec fn writes_for(entries: Seq<EntryView>, sample: SampleView) -> Seq<WriteView> {
    match owner(entries, sample) {
        Some(entry) => sample_writes(entry, sample),
        None => Seq::empty(),
    }
}

/// `writes_for` with the inventory fixed, as a function to pass on.
pub open spec fn writes_in(entries: Seq<EntryView>) -> spec_fn(SampleView) -> Seq<WriteView> {
    |sample: SampleView| writes_for(entries, sample)
}

/// The writes of all samples, in the order of the samples.
pub open spec fn stats_writes(entries: Seq<EntryView>, samples: Seq<SampleView>) -> Seq<
    WriteView,
> {
    samples.flat_map(writes_in(entries))
}

/// Everything one scrape writes, in order. Without a statistics payload
/// only the total is written; with one, the total, then the count of each
/// pod, then the series of each container that has a sample.
pub open spec fn scrape_writes(entries: Seq<EntryView>, stats: Option<Seq<SampleView>>) -> Seq<
    WriteView,
> {
    match stats {
        None => seq![total_write(entries)],
        Some(samples) => seq![total_write(entries)] + pod_writes(entries) + stats_writes(
            entries,
            samples,
        ),
    }
}

/// An empty inventory names no pod.
pub proof fn lemma_pod_names_empty()
    ensures
        pod_names(Seq::empty()) == Seq::<Seq<char>>::empty(),
{
}

/// Reading one more entry adds its pod to the names where it is new.
pub proof fn lemma_pod_names_push(entries: Seq<EntryView>, entry: EntryView)
    ensures
        pod_names(entries.push(entry)) == match entry.pod {
            Some(pod) => if pod_names(entries).contains(pod) {
                pod_names(entries)
            } else {
                pod_names(entries).push(pod)
            },
            None => pod_names(entries),
        },
{
    let more = entries.push(entry);
    let pods = entries.filter_map(pod_field());
    assert(more.drop_last() =~= entries);
    match entry.pod {
        Some(pod) => {
            pods.lemma_remove_duplicates_append(pod, Seq::empty());
            pods.lemma_remove_duplicates_properties(Seq::empty());
        },
        None => {},
    }
}

/// Reading one more entry adds one to the size of its pod, and to no
/// other.
pub proof fn lemma_pod_size_push(entries: Seq<EntryView>, entry: EntryView, pod: Seq<char>)
    ensures
        pod_size(entries.push(entry), pod) == pod_size(entries, pod) + (if entry.pod == Some(
            pod,
        ) {
            1int
        } else {
            0int
        }),
        pod_size(entries, pod) <= entries.len(),
{
    entries.lemma_filter_len_push(in_pod(pod), entry);
    entries.lemma_filter_len(in_pod(pod));
}

/// The names of the pods hold no pod twice, and hold exactly the pods
/// that some entry names.
pub proof fn lemma_pod_names(entries: Seq<EntryView>)
    ensures
        pod_names(entries).no_duplicates(),
        forall|pod: Seq<char>| #[trigger]
            pod_names(entries).contains(pod) <==> pod_size(entries, pod) > 0,
    decreases entries.len(),
{
    if entries.len() == 0 {
        lemma_pod_names_empty();
        assert forall|pod: Seq<char>| #[trigger]
            pod_names(entries).contains(pod) <==> pod_size(entries, pod) > 0 by {
            entries.lemma_filter_len(in_pod(pod));
        }
    } else {
        let rest = entries.drop_last();
        let last = entries.last();
        assert(rest.push(last) =~= entries);
        lemma_pod_names(rest);
        lemma_pod_names_push(rest, last);
        let before = pod_names(rest);
        assert forall|pod: Seq<char>| #[trigger]
            pod_names(entries).contains(pod) <==> pod_size(entries, pod) > 0 by {
            lemma_pod_size_push(rest, last, pod);
            match last.pod {
                Some(new) => {
                    if !before.contains(new) {
                        let after = before.push(new);
                        assert(after[before.len() as int] == new);
                        if before.contains(pod) {
                            let i = choose|i: int| 0 <= i < before.len() && before[i] == pod;
                            assert(after[i] == pod);
                        }
                    }
                },
                None => {},
            }
        }
    }
}

/// Reading one more sample appends its writes.
pub proof fn lemma_stats_writes_push(
    entries: Seq<EntryView>,
    samples: Seq<SampleView>,
    sample: SampleView,
)
    ensures
        stats_writes(entries, samples.push(sample)) == stats_writes(entries, samples)
            + writes_for(entries, sample),
{
    samples.lemma_flat_map_push(writes_in(entries), sample);
}

} // verus!
