//! What holds of every scrape, proved from the definitions of the plan.

use vstd::prelude::*;
use crate::inventory::{
    inventory_of, lemma_position, lookup, position, upsert, well_formed, EntryView, RecordView,
};
use crate::metrics::Metric;
use crate::plan::{
    in_pod, lemma_pod_names, lemma_pod_names_push, lemma_pod_size_push, lemma_stats_writes_push,
    owner, pod_names, pod_size, pod_write, pod_writes, sample_writes, scrape_writes, stats_writes,
    total_write, writes_for, writes_in,
};
use crate::value::Reading;
use crate::stats::SampleView;

verus! {

/// The test whether a sample belongs to a container of the inventory.
pub open spec fn owned_in(entries: Seq<EntryView>) -> spec_fn(SampleView) -> bool {
    |sample: SampleView| owner(entries, sample) is Some
}

/// The test whether an entry names a pod.
pub open spec fn has_pod() -> spec_fn(EntryView) -> bool {
    |entry: EntryView| entry.pod is Some
}

/// The test whether a record can enter the inventory.
pub open spec fn addressable() -> spec_fn(RecordView) -> bool {
    |record: RecordView| record.addressable()
}

/// The entry of a record, as a function to pass on.
pub open spec fn entry_of() -> spec_fn(RecordView) -> EntryView {
    |record: RecordView| record.entry()
}

/// No two addressable records of the listing share an id.
pub open spec fn distinct_ids(records: Seq<RecordView>) -> bool {
    forall|i: int, j: int|
        0 <= i < j < records.len() && (#[trigger] records[i]).addressable() && (
        #[trigger] records[j]).addressable() ==> records[i].id != records[j].id
}

/// The last addressable record of the listing that carries the given id.
pub open spec fn last_record(records: Seq<RecordView>, id: Seq<char>) -> Option<RecordView>
    decreases records.len(),
{
    if records.len() == 0 {
        None
    } else if records.last().addressable() && records.last().id == Some(id) {
        Some(records.last())
    } else {
        last_record(records.drop_last(), id)
    }
}

/// Every sample has one series for each per-container gauge, under the
/// labels of its container, whatever readings it carries.
pub proof fn lemma_sample_series(entry: EntryView, sample: SampleView)
    ensures
        sample_writes(entry, sample).len() == 15,
        forall|k: int|
            0 <= k < 15 ==> {
                &&& (#[trigger] sample_writes(entry, sample)[k]).metric == Metric::spec_all()[k
                    + 2]
                &&& sample_writes(entry, sample)[k].labels == seq![entry.pod_label(), entry.name]
                &&& sample_writes(entry, sample)[k].fits_schema()
            },
{
}

/// A reading that the sample lacks is exported as zero, in the series it
/// would have had. The state, which comes from the inventory, is the one
/// write that no reading decides.
pub proof fn lemma_missing_readings_are_zero(entry: EntryView, sample: SampleView)
    ensures
        sample.up_time is None ==> sample_writes(entry, sample)[1].value.is_zero(),
        sample.system_nano is None ==> sample_writes(entry, sample)[2].value.is_zero(),
        sample.pids is None ==> sample_writes(entry, sample)[3].value.is_zero(),
        sample.avg_cpu is None ==> sample_writes(entry, sample)[4].value.is_zero(),
        sample.cpu is None ==> sample_writes(entry, sample)[5].value.is_zero(),
        sample.cpu_nano is None ==> sample_writes(entry, sample)[6].value.is_zero(),
        sample.cpu_system_nano is None ==> sample_writes(entry, sample)[7].value.is_zero(),
        sample.mem_usage is None ==> sample_writes(entry, sample)[8].value.is_zero(),
        sample.mem_limit is None ==> sample_writes(entry, sample)[9].value.is_zero(),
        sample.mem_perc is None ==> sample_writes(entry, sample)[10].value.is_zero(),
        sample.net_input is None ==> sample_writes(entry, sample)[11].value.is_zero(),
        sample.net_output is None ==> sample_writes(entry, sample)[12].value.is_zero(),
        sample.block_input is None ==> sample_writes(entry, sample)[13].value.is_zero(),
        sample.block_output is None ==> sample_writes(entry, sample)[14].value.is_zero(),
        sample.blank() ==> forall|k: int|
            1 <= k < 15 ==> (#[trigger] sample_writes(entry, sample)[k]).value.is_zero(),
{
}

/// Orphan samples write nothing: the writes of a snapshot are those of
/// its samples that belong to a container of the inventory.
pub proof fn lemma_orphans_write_nothing(entries: Seq<EntryView>, samples: Seq<SampleView>)
    ensures
        stats_writes(entries, samples) == stats_writes(
            entries,
            samples.filter(owned_in(entries)),
        ),
        scrape_writes(entries, Some(samples)) == scrape_writes(
            entries,
            Some(samples.filter(owned_in(entries))),
        ),
    decreases samples.len(),
{
    if samples.len() == 0 {
        assert(samples.filter(owned_in(entries)) =~= samples) by {
            samples.lemma_filter_len(owned_in(entries));
        }
    } else {
        let rest = samples.drop_last();
        let last = samples.last();
        assert(rest.push(last) =~= samples);
        lemma_orphans_write_nothing(entries, rest);
        lemma_stats_writes_push(entries, rest, last);
        rest.lemma_filter_push(last, owned_in(entries));
        if owner(entries, last) is Some {
            lemma_stats_writes_push(entries, rest.filter(owned_in(entries)), last);
        } else {
            assert(stats_writes(entries, rest) + writes_for(entries, last) =~= stats_writes(
                entries,
                rest,
            ));
        }
    }
}

/// Every write of a snapshot is one of the writes of a sample that
/// belongs to a container of the inventory: no series is written for an
/// id that the inventory does not hold.
pub proof fn lemma_writes_have_owners(
    entries: Seq<EntryView>,
    samples: Seq<SampleView>,
    k: int,
)
    requires
        0 <= k < stats_writes(entries, samples).len(),
    ensures
        exists|i: int|
            0 <= i < samples.len() && (#[trigger] owner(entries, samples[i])) is Some
                && sample_writes(owner(entries, samples[i])->0, samples[i]).contains(
                stats_writes(entries, samples)[k],
            ),
    decreases samples.len(),
{
    if samples.len() == 0 {
        assert(stats_writes(entries, samples) =~= Seq::empty()) by {
            assert(samples =~= Seq::empty());
            assert(samples.map_values(writes_in(entries)) =~= Seq::empty());
        }
    } else {
        let rest = samples.drop_last();
        let last = samples.last();
        assert(rest.push(last) =~= samples);
        lemma_stats_writes_push(entries, rest, last);
        let before = stats_writes(entries, rest);
        if k < before.len() {
            lemma_writes_have_owners(entries, rest, k);
            let i = choose|i: int|
                0 <= i < rest.len() && (#[trigger] owner(entries, rest[i])) is Some
                    && sample_writes(owner(entries, rest[i])->0, rest[i]).contains(before[k]);
            assert(samples[i] == rest[i]);
            assert(owner(entries, samples[i]) is Some);
        } else {
            let i = samples.len() - 1;
            let batch = writes_for(entries, last);
            assert(batch[k - before.len()] == stats_writes(entries, samples)[k]);
            assert(owner(entries, samples[i]) is Some);
            assert(sample_writes(owner(entries, samples[i])->0, samples[i]).contains(
                batch[k - before.len()],
            ));
        }
    }
}

/// Each write of the count gauge stands for one pod that the inventory
/// names: under that pod's name, which is not empty, with the number of
/// its containers, which is at least one.
pub proof fn lemma_pod_writes(entries: Seq<EntryView>, k: int)
    requires
        well_formed(entries),
        0 <= k < pod_writes(entries).len(),
    ensures
        pod_writes(entries).len() == pod_names(entries).len(),
        pod_writes(entries)[k] == pod_write(entries, pod_names(entries)[k]),
        pod_writes(entries)[k].fits_schema(),
        pod_names(entries)[k].len() > 0,
        pod_size(entries, pod_names(entries)[k]) > 0,
{
    let pod = pod_names(entries)[k];
    lemma_pod_names(entries);
    assert(pod_names(entries).contains(pod));
    assert(pod_size(entries, pod) > 0);
    let members = entries.filter(in_pod(pod));
    entries.lemma_filter_pred(in_pod(pod), 0);
    assert(in_pod(pod)(members[0]));
    assert(members.contains(members[0]));
    entries.lemma_filter_contains_rev(in_pod(pod), members[0]);
    let i = choose|i: int| 0 <= i < entries.len() && entries[i] == members[0];
    assert(entries[i].pod == Some(pod));
    assert(pod_writes(entries)[k].labels.len() == 1);
}

/// Containers outside any pod are counted in no pod: the count writes
/// are those of the inventory without them.
pub proof fn lemma_pod_less_not_counted(entries: Seq<EntryView>)
    ensures
        pod_names(entries) == pod_names(entries.filter(has_pod())),
        forall|pod: Seq<char>| #[trigger]
            pod_size(entries, pod) == pod_size(entries.filter(has_pod()), pod),
        pod_writes(entries) == pod_writes(entries.filter(has_pod())),
    decreases entries.len(),
{
    let kept = entries.filter(has_pod());
    if entries.len() == 0 {
        assert(kept =~= entries) by {
            entries.lemma_filter_len(has_pod());
        }
    } else {
        let rest = entries.drop_last();
        let last = entries.last();
        assert(rest.push(last) =~= entries);
        lemma_pod_less_not_counted(rest);
        rest.lemma_filter_push(last, has_pod());
        lemma_pod_names_push(rest, last);
        assert forall|pod: Seq<char>| #[trigger]
            pod_size(entries, pod) == pod_size(kept, pod) by {
            lemma_pod_size_push(rest, last, pod);
            assert(pod_size(rest, pod) == pod_size(rest.filter(has_pod()), pod));
            if last.pod is Some {
                lemma_pod_size_push(rest.filter(has_pod()), last, pod);
            }
        }
        if last.pod is Some {
            lemma_pod_names_push(rest.filter(has_pod()), last);
        }
    }
    assert(pod_writes(entries) =~= pod_writes(kept)) by {
        assert forall|k: int| 0 <= k < pod_names(entries).len() implies pod_write(
            entries,
            pod_names(entries)[k],
        ) == pod_write(kept, pod_names(entries)[k]) by {
            let pod = pod_names(entries)[k];
            assert(pod_size(entries, pod) == pod_size(kept, pod));
        }
    }
}

/// A container outside any pod that has a sample still gets all its
/// series, under an empty pod label.
pub proof fn lemma_pod_less_series(entry: EntryView, sample: SampleView)
    requires
        entry.pod is None,
    ensures
        sample_writes(entry, sample).len() == 15,
        forall|k: int|
            0 <= k < 15 ==> (#[trigger] sample_writes(entry, sample)[k]).labels == seq![
                Seq::<char>::empty(),
                entry.name,
            ],
{
    lemma_sample_series(entry, sample);
}

/// The total is the first write of every scrape whose queries were both
/// answered, with or without a statistics payload, and it is the number
/// of containers in the inventory. No later write touches it.
pub proof fn lemma_total_written_once(entries: Seq<EntryView>, stats: Option<Seq<SampleView>>)
    ensures
        scrape_writes(entries, stats).len() >= 1,
        scrape_writes(entries, stats)[0] == total_write(entries),
        total_write(entries).value == Reading::Integer(entries.len() as int),
        forall|k: int|
            1 <= k < scrape_writes(entries, stats).len() ==> (#[trigger] scrape_writes(
                entries,
                stats,
            )[k]).metric != Metric::Total,
{
    match stats {
        None => {},
        Some(samples) => {
            let writes = scrape_writes(entries, stats);
            let pods = pod_writes(entries);
            assert forall|k: int| 1 <= k < writes.len() implies (#[trigger] writes[k]).metric
                != Metric::Total by {
                if k < 1 + pods.len() {
                    assert(writes[k] == pods[k - 1]);
                } else {
                    let at = k - 1 - pods.len();
                    assert(writes[k] == stats_writes(entries, samples)[at]);
                    lemma_writes_have_owners(entries, samples, at);
                    let i = choose|i: int|
                        0 <= i < samples.len() && (#[trigger] owner(entries, samples[i])) is Some
                            && sample_writes(owner(entries, samples[i])->0, samples[i]).contains(
                            stats_writes(entries, samples)[at],
                        );
                    let batch = sample_writes(owner(entries, samples[i])->0, samples[i]);
                    lemma_sample_series(owner(entries, samples[i])->0, samples[i]);
                    let j = choose|j: int| 0 <= j < batch.len() && batch[j] == writes[k];
                    assert(batch[j].metric == Metric::spec_all()[j + 2]);
                }
            }
        },
    }
}

/// Whether or not the statistics answer holds a payload, the total that a
/// scrape writes is the number of addressable records of the listing,
/// where no two of them share an id.
pub proof fn lemma_total_counts_addressable(
    records: Seq<RecordView>,
    stats: Option<Seq<SampleView>>,
)
    requires
        distinct_ids(records),
    ensures
        scrape_writes(inventory_of(records), stats)[0].metric == Metric::Total,
        scrape_writes(inventory_of(records), stats)[0].value == Reading::Integer(
            records.filter(addressable()).len() as int,
        ),
{
    lemma_inventory_of_distinct(records);
    lemma_total_written_once(inventory_of(records), stats);
}

/// Every write of a scrape gives as many label values as its gauge has
/// label names.
pub proof fn lemma_writes_fit_schema(
    entries: Seq<EntryView>,
    stats: Option<Seq<SampleView>>,
    k: int,
)
    requires
        0 <= k < scrape_writes(entries, stats).len(),
    ensures
        scrape_writes(entries, stats)[k].fits_schema(),
{
    let writes = scrape_writes(entries, stats);
    if k == 0 {
        assert(writes[0] == total_write(entries));
        assert(total_write(entries).labels.len() == 0);
    } else {
        let samples = stats->0;
        let pods = pod_writes(entries);
        if k < 1 + pods.len() {
            assert(writes[k] == pods[k - 1]);
            assert(pods[k - 1].labels.len() == 1);
        } else {
            let at = k - 1 - pods.len();
            assert(writes[k] == stats_writes(entries, samples)[at]);
            lemma_writes_have_owners(entries, samples, at);
            let i = choose|i: int|
                0 <= i < samples.len() && (#[trigger] owner(entries, samples[i])) is Some
                    && sample_writes(owner(entries, samples[i])->0, samples[i]).contains(
                    stats_writes(entries, samples)[at],
                );
            let batch = sample_writes(owner(entries, samples[i])->0, samples[i]);
            lemma_sample_series(owner(entries, samples[i])->0, samples[i]);
            let j = choose|j: int| 0 <= j < batch.len() && batch[j] == writes[k];
            assert(batch[j].fits_schema());
        }
    }
}

/// Looking up after putting an entry in: the entry itself under its own
/// id, and what was there before under any other.
pub proof fn lemma_lookup_upsert(entries: Seq<EntryView>, entry: EntryView, id: Seq<char>)
    ensures
        lookup(upsert(entries, entry), id) == if id == entry.id {
            Some(entry)
        } else {
            lookup(entries, id)
        },
{
    let after = upsert(entries, entry);
    lemma_position(entries, entry.id);
    lemma_position(entries, id);
    lemma_position(after, id);
    match position(entries, entry.id) {
        Some(index) => {
            // The new entry took the place of the old one: every id stands where it stood.
            assert forall|j: int| 0 <= j < entries.len() implies (#[trigger] after[j]).id
                == entries[j].id by {}
            assert(after[index] == entry);
        },
        None => {
            // The new entry went to the end: what stood before it stands unchanged.
            assert forall|j: int| 0 <= j < entries.len() implies (#[trigger] after[j])
                == entries[j] by {}
            assert(after[entries.len() as int] == entry);
        },
    }
    if position(entries, id) is Some {
        let at = position(entries, id)->0;
        assert(after[at].id == entries[at].id);
    }
}

/// The inventory is the listing keyed by id: it holds an id exactly when
/// an addressable record carries it, and what it knows of the id is what
/// the last such record says.
pub proof fn lemma_inventory_lookup(records: Seq<RecordView>, id: Seq<char>)
    ensures
        lookup(inventory_of(records), id) == match last_record(records, id) {
            Some(record) => Some(record.entry()),
            None => None,
        },
    decreases records.len(),
{
    if records.len() == 0 {
        lemma_position(inventory_of(records), id);
    } else {
        let rest = records.drop_last();
        let last = records.last();
        lemma_inventory_lookup(rest, id);
        if last.addressable() {
            lemma_lookup_upsert(inventory_of(rest), last.entry(), id);
        }
    }
}

/// Where no two addressable records share an id, the inventory is the
/// addressable records one for one, so the total equals their number.
pub proof fn lemma_inventory_of_distinct(records: Seq<RecordView>)
    requires
        distinct_ids(records),
    ensures
        inventory_of(records) == records.filter(addressable()).map_values(entry_of()),
        inventory_of(records).len() == records.filter(addressable()).len(),
    decreases records.len(),
{
    if records.len() == 0 {
        assert(records.filter(addressable()) =~= Seq::empty()) by {
            records.lemma_filter_len(addressable());
        }
        assert(inventory_of(records) =~= records.filter(addressable()).map_values(entry_of()));
    } else {
        let rest = records.drop_last();
        let last = records.last();
        assert(rest.push(last) =~= records);
        assert(distinct_ids(rest)) by {
            assert forall|i: int, j: int|
                0 <= i < j < rest.len() && (#[trigger] rest[i]).addressable() && (
                #[trigger] rest[j]).addressable() implies rest[i].id != rest[j].id by {
                assert(records[i] == rest[i] && records[j] == rest[j]);
            }
        }
        lemma_inventory_of_distinct(rest);
        rest.lemma_filter_push(last, addressable());
        let kept = rest.filter(addressable());
        if last.addressable() {
            let entry = last.entry();
            assert(position(inventory_of(rest), entry.id) is None) by {
                lemma_position(inventory_of(rest), entry.id);
                if position(inventory_of(rest), entry.id) is Some {
                    let at = position(inventory_of(rest), entry.id)->0;
                    assert(inventory_of(rest)[at] == kept[at].entry());
                    rest.lemma_filter_pred(addressable(), at);
                    assert(kept.contains(kept[at]));
                    rest.lemma_filter_contains_rev(addressable(), kept[at]);
                    let i = choose|i: int| 0 <= i < rest.len() && rest[i] == kept[at];
                    assert(records[i] == rest[i]);
                    assert(records[records.len() - 1] == last);
                    assert(records[i].addressable());
                    assert(records[i].id != last.id);
                }
            }
            assert(inventory_of(records) =~= kept.push(last).map_values(entry_of()));
        }
    }
}

} // verus!
