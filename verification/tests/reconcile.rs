use podman_exporter::collector::{pod_counts, sample_gauges, Collector, PodCount, Scrape};
use podman_exporter::error::{CollectorError, EngineError};
use podman_exporter::inventory::{ContainerRecord, Inventory};
use podman_exporter::metrics::{GaugeWrite, Metric};
use podman_exporter::stats::{StatSample, StatsResponse};
use podman_exporter::value::{Double, GaugeValue};

fn rec(id: &str, name: &str, pod: Option<&str>, state: &str) -> ContainerRecord {
    ContainerRecord {
        id: Some(id.to_string()),
        names: Some(vec![name.to_string()]),
        pod_name: pod.map(|p| p.to_string()),
        state: Some(state.to_string()),
    }
}

fn sample_for(id: &str) -> StatSample {
    StatSample { container_id: Some(id.to_string()), ..StatSample::default() }
}

fn labels_of(write: &GaugeWrite) -> Vec<&str> {
    write.labels.iter().map(|l| l.as_str()).collect()
}

fn run(listing: Vec<ContainerRecord>, stats: Option<Vec<StatSample>>) -> Scrape {
    let inventory = Inventory::collect(&listing);
    Collector::update_stat(&inventory, Ok(StatsResponse { error: None, stats })).unwrap()
}

fn write(metric: Metric, labels: &[&str], value: GaugeValue) -> GaugeWrite {
    GaugeWrite { metric, labels: labels.iter().map(|l| l.to_string()).collect(), value }
}

#[test]
fn orphan_sample_writes_nothing() {
    let listing = vec![rec("a1", "web", Some("group1"), "running")];
    let scrape = run(listing.clone(), Some(vec![sample_for("ghost")]));
    assert_eq!(
        scrape.writes,
        vec![
            write(Metric::Total, &[], GaugeValue::Unsigned(1)),
            write(Metric::Count, &["group1"], GaugeValue::Unsigned(1)),
        ]
    );
}

#[test]
fn orphan_samples_do_not_change_the_writes_of_the_others() {
    let listing = vec![
        rec("a1", "web", Some("group1"), "running"),
        rec("a2", "worker", None, "created"),
    ];
    let with_orphans = run(
        listing.clone(),
        Some(vec![sample_for("ghost"), sample_for("a2"), sample_for("gone"), sample_for("a1")]),
    );
    let without = run(listing, Some(vec![sample_for("a2"), sample_for("a1")]));
    assert_eq!(with_orphans.writes, without.writes);
    assert_eq!(with_orphans.writes.len(), 1 + 1 + 2 * 15);
}

#[test]
fn sample_without_an_id_writes_nothing() {
    let listing = vec![rec("a1", "web", None, "running")];
    let scrape = run(listing, Some(vec![StatSample::default()]));
    assert_eq!(scrape.writes, vec![write(Metric::Total, &[], GaugeValue::Unsigned(1))]);
}

#[test]
fn total_counts_addressable_records_with_stats() {
    let mut no_id = rec("x", "lost", None, "running");
    no_id.id = None;
    let mut no_name = rec("a9", "lost", None, "running");
    no_name.names = Some(vec![]);
    let listing = vec![
        rec("a1", "web", Some("group1"), "running"),
        no_id,
        rec("a2", "worker", None, "created"),
        no_name,
        rec("", "blank", Some("group1"), "running"),
        rec("a3", "db", Some("group2"), "stopped"),
    ];
    let scrape = run(listing.clone(), Some(vec![]));
    assert_eq!(scrape.writes[0], write(Metric::Total, &[], GaugeValue::Unsigned(3)));
    assert_eq!(scrape.writes[1], write(Metric::Count, &["group1"], GaugeValue::Unsigned(1)));
    let scrape = run(listing, None);
    assert_eq!(scrape.writes[0], write(Metric::Total, &[], GaugeValue::Unsigned(3)));
}

#[test]
fn total_is_written_without_a_stats_payload() {
    let listing = vec![
        rec("a1", "web", Some("group1"), "running"),
        rec("a2", "worker", None, "created"),
    ];
    let scrape = run(listing, None);
    assert_eq!(scrape.writes, vec![write(Metric::Total, &[], GaugeValue::Unsigned(2))]);
}

#[test]
fn total_of_an_empty_inventory_is_zero() {
    let scrape = run(vec![], None);
    assert_eq!(scrape.writes, vec![write(Metric::Total, &[], GaugeValue::Unsigned(0))]);
    let scrape = run(vec![], Some(vec![sample_for("a1")]));
    assert_eq!(scrape.writes, vec![write(Metric::Total, &[], GaugeValue::Unsigned(0))]);
}

#[test]
fn total_counts_an_id_once() {
    let listing = vec![
        rec("a1", "web", Some("group1"), "running"),
        rec("a1", "web", Some("group1"), "stopped"),
    ];
    let scrape = run(listing, Some(vec![]));
    assert_eq!(scrape.writes[0], write(Metric::Total, &[], GaugeValue::Unsigned(1)));
    assert_eq!(scrape.writes[1], write(Metric::Count, &["group1"], GaugeValue::Unsigned(1)));
}

#[test]
fn pod_counts_group_by_pod_in_order_of_first_mention() {
    let listing = vec![
        rec("a1", "web", Some("front"), "running"),
        rec("a2", "worker", None, "created"),
        rec("a3", "db", Some("back"), "running"),
        rec("a4", "cache", Some("front"), "running"),
        rec("a5", "proxy", Some("front"), "stopped"),
        rec("a6", "solo", Some(""), "running"),
    ];
    let inventory = Inventory::collect(&listing);
    assert_eq!(
        pod_counts(&inventory),
        vec![
            PodCount { pod: "front".to_string(), containers: 3 },
            PodCount { pod: "back".to_string(), containers: 1 },
        ]
    );
    let scrape = run(listing, Some(vec![]));
    assert_eq!(
        scrape.writes,
        vec![
            write(Metric::Total, &[], GaugeValue::Unsigned(6)),
            write(Metric::Count, &["front"], GaugeValue::Unsigned(3)),
            write(Metric::Count, &["back"], GaugeValue::Unsigned(1)),
        ]
    );
}

#[test]
fn pod_less_container_is_counted_nowhere_but_exported() {
    let listing = vec![
        rec("a1", "web", Some("group1"), "running"),
        rec("a2", "worker", None, "created"),
    ];
    let inventory = Inventory::collect(&listing);
    assert_eq!(
        pod_counts(&inventory),
        vec![PodCount { pod: "group1".to_string(), containers: 1 }]
    );
    let scrape = run(listing, Some(vec![sample_for("a2")]));
    let counts: Vec<&GaugeWrite> =
        scrape.writes.iter().filter(|w| w.metric == Metric::Count).collect();
    assert_eq!(counts.len(), 1);
    assert_eq!(labels_of(counts[0]), vec!["group1"]);
    let of_worker: Vec<&GaugeWrite> =
        scrape.writes.iter().filter(|w| w.labels.len() == 2).collect();
    assert_eq!(of_worker.len(), 15);
    for w in of_worker {
        assert_eq!(labels_of(w), vec!["", "worker"]);
    }
    assert_eq!(scrape.writes[2], write(Metric::State, &["", "worker"], GaugeValue::Signed(2)));
}

#[test]
fn inventory_without_pods_writes_no_count() {
    let listing = vec![rec("a1", "web", None, "running"), rec("a2", "worker", Some(""), "x")];
    let scrape = run(listing, Some(vec![]));
    assert_eq!(scrape.writes, vec![write(Metric::Total, &[], GaugeValue::Unsigned(2))]);
}

#[test]
fn missing_readings_are_exported_as_zero() {
    let listing = vec![rec("a1", "web", Some("group1"), "running")];
    let scrape = run(listing, Some(vec![sample_for("a1")]));
    let l = ["group1", "web"];
    assert_eq!(
        scrape.writes[2..].to_vec(),
        vec![
            write(Metric::State, &l, GaugeValue::Signed(1)),
            write(Metric::Uptime, &l, GaugeValue::Signed(0)),
            write(Metric::SystemNano, &l, GaugeValue::Unsigned(0)),
            write(Metric::Pids, &l, GaugeValue::Unsigned(0)),
            write(Metric::AvgCpu, &l, GaugeValue::Double(Double { bits: 0 })),
            write(Metric::Cpu, &l, GaugeValue::Double(Double { bits: 0 })),
            write(Metric::CpuNano, &l, GaugeValue::Unsigned(0)),
            write(Metric::CpuSystemNano, &l, GaugeValue::Unsigned(0)),
            write(Metric::MemUsage, &l, GaugeValue::Unsigned(0)),
            write(Metric::MemLimit, &l, GaugeValue::Unsigned(0)),
            write(Metric::MemPerc, &l, GaugeValue::Double(Double { bits: 0 })),
            write(Metric::NetworkInput, &l, GaugeValue::Unsigned(0)),
            write(Metric::NetworkOutput, &l, GaugeValue::Unsigned(0)),
            write(Metric::BlockInput, &l, GaugeValue::Unsigned(0)),
            write(Metric::BlockOutput, &l, GaugeValue::Unsigned(0)),
        ]
    );
    assert_eq!(f64::from_bits(Double::zero().bits), 0.0);
}

#[test]
fn present_readings_are_exported_as_they_came() {
    let listing = vec![rec("a1", "web", Some("group1"), "exited")];
    let inventory = Inventory::collect(&listing);
    let sample = StatSample {
        container_id: Some("a1".to_string()),
        up_time: Some(-5),
        system_nano: Some(11),
        pids: Some(7),
        avg_cpu: Some(Double { bits: 0.25f64.to_bits() }),
        cpu: Some(Double { bits: 12.5f64.to_bits() }),
        cpu_nano: Some(13),
        cpu_system_nano: Some(17),
        mem_usage: Some(1048576),
        mem_limit: Some(u64::MAX),
        mem_perc: Some(Double { bits: 99.5f64.to_bits() }),
        net_input: Some(19),
        net_output: Some(23),
        block_input: Some(29),
        block_output: Some(31),
    };
    let entry = inventory.get(&"a1".to_string()).unwrap();
    let l = ["group1", "web"];
    assert_eq!(
        sample_gauges(entry, &sample),
        vec![
            write(Metric::State, &l, GaugeValue::Signed(0)),
            write(Metric::Uptime, &l, GaugeValue::Signed(-5)),
            write(Metric::SystemNano, &l, GaugeValue::Unsigned(11)),
            write(Metric::Pids, &l, GaugeValue::Unsigned(7)),
            write(Metric::AvgCpu, &l, GaugeValue::Double(Double { bits: 0.25f64.to_bits() })),
            write(Metric::Cpu, &l, GaugeValue::Double(Double { bits: 12.5f64.to_bits() })),
            write(Metric::CpuNano, &l, GaugeValue::Unsigned(13)),
            write(Metric::CpuSystemNano, &l, GaugeValue::Unsigned(17)),
            write(Metric::MemUsage, &l, GaugeValue::Unsigned(1048576)),
            write(Metric::MemLimit, &l, GaugeValue::Unsigned(u64::MAX)),
            write(Metric::MemPerc, &l, GaugeValue::Double(Double { bits: 99.5f64.to_bits() })),
            write(Metric::NetworkInput, &l, GaugeValue::Unsigned(19)),
            write(Metric::NetworkOutput, &l, GaugeValue::Unsigned(23)),
            write(Metric::BlockInput, &l, GaugeValue::Unsigned(29)),
            write(Metric::BlockOutput, &l, GaugeValue::Unsigned(31)),
        ]
    );
}

#[test]
fn container_without_a_sample_has_no_state_series() {
    let listing = vec![
        rec("a1", "web", Some("group1"), "running"),
        rec("a2", "worker", Some("group1"), "created"),
    ];
    let scrape = run(listing, Some(vec![sample_for("a1")]));
    assert!(scrape.writes.iter().all(|w| !w.labels.iter().any(|l| l == "worker")));
    let states: Vec<&GaugeWrite> =
        scrape.writes.iter().filter(|w| w.metric == Metric::State).collect();
    assert_eq!(states.len(), 1);
    assert_eq!(labels_of(states[0]), vec!["group1", "web"]);
}

#[test]
fn samples_are_written_in_their_order() {
    let listing = vec![rec("a1", "web", None, "running"), rec("a2", "worker", None, "created")];
    let scrape = run(listing, Some(vec![sample_for("a2"), sample_for("a1"), sample_for("a2")]));
    assert_eq!(scrape.writes.len(), 1 + 3 * 15);
    assert_eq!(labels_of(&scrape.writes[1]), vec!["", "worker"]);
    assert_eq!(labels_of(&scrape.writes[16]), vec!["", "web"]);
    assert_eq!(labels_of(&scrape.writes[31]), vec!["", "worker"]);
}

#[test]
fn update_twice_gives_the_same_writes() {
    let listing = vec![
        rec("a1", "web", Some("group1"), "running"),
        rec("a2", "worker", None, "created"),
    ];
    let mut sample = sample_for("a1");
    sample.mem_usage = Some(4096);
    let first = run(listing.clone(), Some(vec![sample.clone()]));
    let second = run(listing, Some(vec![sample]));
    assert_eq!(first, second);
}

#[test]
fn embedded_error_is_handed_on_and_changes_nothing() {
    let listing = vec![rec("a1", "web", Some("group1"), "running")];
    let inventory = Inventory::collect(&listing);
    let clean = Collector::update_stat(
        &inventory,
        Ok(StatsResponse { error: None, stats: Some(vec![sample_for("a1")]) }),
    )
    .unwrap();
    let noisy = Collector::update_stat(
        &inventory,
        Ok(StatsResponse {
            error: Some("no such container".to_string()),
            stats: Some(vec![sample_for("a1")]),
        }),
    )
    .unwrap();
    assert_eq!(clean.api_error, None);
    assert_eq!(noisy.api_error.as_deref(), Some("no such container"));
    assert_eq!(clean.writes, noisy.writes);
    let bare = Collector::update_stat(
        &inventory,
        Ok(StatsResponse { error: Some("stats unavailable".to_string()), stats: None }),
    )
    .unwrap();
    assert_eq!(bare.api_error.as_deref(), Some("stats unavailable"));
    assert_eq!(bare.writes, vec![write(Metric::Total, &[], GaugeValue::Unsigned(1))]);
}

#[test]
fn failed_stats_query_aborts_the_update() {
    let inventory = Inventory::collect(&vec![rec("a1", "web", None, "running")]);
    let cause = EngineError { message: "timed out".to_string() };
    match Collector::update_stat(&inventory, Err(cause.clone())) {
        Err(error) => {
            assert_eq!(error, CollectorError::Stats(cause));
            assert_eq!(error.message(), "Stats request: timed out");
        }
        Ok(_) => panic!("a failed stats query gave writes"),
    }
}

#[test]
fn gauge_values_take_zero_for_a_missing_reading() {
    assert_eq!(GaugeValue::of_unsigned(None), GaugeValue::Unsigned(0));
    assert_eq!(GaugeValue::of_unsigned(Some(9)), GaugeValue::Unsigned(9));
    assert_eq!(GaugeValue::of_signed(None), GaugeValue::Signed(0));
    assert_eq!(GaugeValue::of_signed(Some(-9)), GaugeValue::Signed(-9));
    assert_eq!(GaugeValue::of_double(None), GaugeValue::Double(Double { bits: 0 }));
    assert_eq!(
        GaugeValue::of_double(Some(Double { bits: 1.5f64.to_bits() })),
        GaugeValue::Double(Double { bits: 1.5f64.to_bits() })
    );
    assert_eq!(GaugeValue::of_count(42), GaugeValue::Unsigned(42));
}
