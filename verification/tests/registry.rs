use podman_exporter::collector::{Collector, Scrape};
use podman_exporter::inventory::{ContainerRecord, Inventory};
use podman_exporter::metrics::{GaugeWrite, Metric};
use podman_exporter::stats::{StatSample, StatsResponse};
use podman_exporter::value::{Double, GaugeValue};
use prometheus::{Encoder, Gauge, GaugeVec, Opts, Registry, TextEncoder};
use std::collections::HashMap;

struct Gauges {
    registry: Registry,
    total: Gauge,
    vecs: HashMap<Metric, GaugeVec>,
}

fn gauges() -> Gauges {
    let registry = Registry::new();
    let total = Gauge::with_opts(Opts::new(Metric::Total.name(), Metric::Total.help())).unwrap();
    registry.register(Box::new(total.clone())).unwrap();
    let mut vecs = HashMap::new();
    for metric in Metric::all() {
        let labels = metric.label_names();
        if labels.is_empty() {
            continue;
        }
        let vec = GaugeVec::new(Opts::new(metric.name(), metric.help()), &labels).unwrap();
        registry.register(Box::new(vec.clone())).unwrap();
        vecs.insert(metric, vec);
    }
    Gauges { registry, total, vecs }
}

fn number(value: &GaugeValue) -> f64 {
    match value {
        GaugeValue::Unsigned(n) => *n as f64,
        GaugeValue::Signed(n) => *n as f64,
        GaugeValue::Double(d) => f64::from_bits(d.bits),
    }
}

fn apply(gauges: &Gauges, writes: &[GaugeWrite]) {
    for write in writes {
        let labels: Vec<&str> = write.labels.iter().map(|l| l.as_str()).collect();
        match gauges.vecs.get(&write.metric) {
            Some(vec) => vec.with_label_values(&labels).set(number(&write.value)),
            None => gauges.total.set(number(&write.value)),
        }
    }
}

fn exposition(gauges: &Gauges) -> String {
    let mut buffer = vec![];
    TextEncoder::new().encode(&gauges.registry.gather(), &mut buffer).unwrap();
    String::from_utf8(buffer).unwrap()
}

fn rec(id: &str, name: &str, pod: Option<&str>, state: &str) -> ContainerRecord {
    ContainerRecord {
        id: Some(id.to_string()),
        names: Some(vec![name.to_string()]),
        pod_name: pod.map(|p| p.to_string()),
        state: Some(state.to_string()),
    }
}

fn scrape(listing: Vec<ContainerRecord>, samples: Vec<StatSample>) -> Scrape {
    let inventory = Inventory::collect(&listing);
    Collector::update_stat(&inventory, Ok(StatsResponse { error: None, stats: Some(samples) }))
        .unwrap()
}

fn web_sample(mem: u64) -> StatSample {
    StatSample {
        container_id: Some("a1".to_string()),
        cpu: Some(Double { bits: 12.5f64.to_bits() }),
        mem_usage: Some(mem),
        ..StatSample::default()
    }
}

#[test]
fn registry_every_write_fits_its_gauge() {
    let gauges = gauges();
    let listing = vec![
        rec("a1", "web", Some("group1"), "running"),
        rec("a2", "worker", None, "created"),
    ];
    let plan = scrape(listing, vec![web_sample(1048576), StatSample::default()]);
    for write in &plan.writes {
        assert_eq!(write.labels.len(), write.metric.label_names().len());
    }
    apply(&gauges, &plan.writes);
    assert_eq!(gauges.total.get(), 2.0);
    assert_eq!(gauges.vecs[&Metric::Count].with_label_values(&["group1"]).get(), 1.0);
    assert_eq!(gauges.vecs[&Metric::State].with_label_values(&["group1", "web"]).get(), 1.0);
    assert_eq!(gauges.vecs[&Metric::Cpu].with_label_values(&["group1", "web"]).get(), 12.5);
    assert_eq!(
        gauges.vecs[&Metric::MemUsage].with_label_values(&["group1", "web"]).get(),
        1048576.0
    );
}

#[test]
fn registry_exposition_of_the_scenario() {
    let gauges = gauges();
    let listing = vec![
        rec("a1", "web", Some("group1"), "running"),
        rec("a2", "worker", None, "created"),
    ];
    apply(&gauges, &scrape(listing, vec![web_sample(1048576)]).writes);
    let text = exposition(&gauges);
    assert!(text.contains("container_total 2\n"));
    assert!(text.contains("container_count{pod=\"group1\"} 1\n"));
    assert!(text.contains("container_state{container=\"web\",pod=\"group1\"} 1\n"));
    assert!(text.contains("container_cpu{container=\"web\",pod=\"group1\"} 12.5\n"));
    assert!(text.contains("container_mem_usage{container=\"web\",pod=\"group1\"} 1048576\n"));
    assert!(text.contains("container_pids{container=\"web\",pod=\"group1\"} 0\n"));
    assert!(!text.contains("worker"));
}

#[test]
fn registry_update_twice_does_not_accumulate() {
    let gauges = gauges();
    let listing = vec![
        rec("a1", "web", Some("group1"), "running"),
        rec("a2", "worker", None, "created"),
    ];
    apply(&gauges, &scrape(listing.clone(), vec![web_sample(4096)]).writes);
    let once = exposition(&gauges);
    apply(&gauges, &scrape(listing, vec![web_sample(4096)]).writes);
    let twice = exposition(&gauges);
    assert_eq!(once, twice);
    assert_eq!(gauges.total.get(), 2.0);
    assert_eq!(gauges.vecs[&Metric::MemUsage].with_label_values(&["group1", "web"]).get(), 4096.0);
}

#[test]
fn registry_later_scrape_overwrites_by_label() {
    let gauges = gauges();
    let listing = vec![rec("a1", "web", Some("group1"), "running")];
    apply(&gauges, &scrape(listing, vec![web_sample(4096)]).writes);
    let listing = vec![rec("a1", "web", Some("group1"), "exited")];
    apply(&gauges, &scrape(listing, vec![web_sample(8192)]).writes);
    assert_eq!(gauges.vecs[&Metric::MemUsage].with_label_values(&["group1", "web"]).get(), 8192.0);
    assert_eq!(gauges.vecs[&Metric::State].with_label_values(&["group1", "web"]).get(), 0.0);
}

#[test]
fn registry_series_of_a_removed_container_stays() {
    let gauges = gauges();
    let listing = vec![
        rec("a1", "web", Some("group1"), "running"),
        rec("a2", "worker", Some("group2"), "running"),
    ];
    let mut worker = web_sample(512);
    worker.container_id = Some("a2".to_string());
    apply(&gauges, &scrape(listing, vec![web_sample(4096), worker]).writes);
    let listing = vec![rec("a1", "web", Some("group1"), "running")];
    apply(&gauges, &scrape(listing, vec![web_sample(4096)]).writes);
    let text = exposition(&gauges);
    assert!(text.contains("container_total 1\n"));
    assert!(text.contains("container_count{pod=\"group2\"} 1\n"));
    assert!(text.contains("container_mem_usage{container=\"worker\",pod=\"group2\"} 512\n"));
}

#[test]
fn registry_pod_less_container_has_an_empty_pod_label() {
    let gauges = gauges();
    let listing = vec![rec("a2", "worker", None, "created")];
    let mut worker = web_sample(512);
    worker.container_id = Some("a2".to_string());
    apply(&gauges, &scrape(listing, vec![worker]).writes);
    let text = exposition(&gauges);
    assert!(text.contains("container_state{container=\"worker\",pod=\"\"} 2\n"));
    assert!(!text.contains("container_count{"));
}
