use std::time::Duration;

use kube_agent::name_map::NameMap;
use kube_agent::section::KubeAgentHealthV1;
use kube_agent::snapshot;
use kube_agent::snapshot::{ClusterAggregatorBuildInfo, SelfHealth};

fn s(text: &str) -> String {
    text.to_string()
}

#[test]
fn kube_agent_health_v1() {
    let mut node_node_scrapers = NameMap::new();
    node_node_scrapers.insert(
        s("node01"),
        snapshot::NodeNodeScraperHealth {
            kubelet_stats: snapshot::NodeScraperIngestionHealth {
                last_heard_age: Some(Duration::from_secs(26)),
                scrape_time: Some(Duration::from_millis(150)),
                version: Some(s("1.1000.0")),
                git_sha: Some(s("39ead942a6da3e42c8b0fb37810eca12344a56c7")),
            },
            kubelet_health: snapshot::NodeScraperIngestionHealth {
                last_heard_age: Some(Duration::from_secs(24)),
                scrape_time: Some(Duration::from_millis(45)),
                version: Some(s("1.1000.0")),
                git_sha: Some(s("39ead942a6da3e42c8b0fb37810eca12344a56c7")),
            },
            system_agent: snapshot::NodeScraperIngestionHealth {
                last_heard_age: None,
                scrape_time: None,
                version: None,
                git_sha: None,
            },
        },
    );
    node_node_scrapers.insert(
        s("offline01"),
        snapshot::NodeNodeScraperHealth::default(),
    );
    let mut reflector_healths = NameMap::new();
    reflector_healths.insert("Pod", snapshot::ReflectorHealth::default());
    reflector_healths.insert(
        "ReplicaSet",
        snapshot::ReflectorHealth::default(),
    );
    reflector_healths.insert(
        "DaemonSet",
        snapshot::ReflectorHealth::default(),
    );
    let cluster_aggregator_build_info = ClusterAggregatorBuildInfo {
        version: "1.1000.1",
        git_sha: Some("40abc123a6da3e42c8b0fb37810eca54321a56a1"),
    };
    let self_health = SelfHealth {
        node_node_scrapers,
        reflector_healths,
        cluster_aggregator_build_info,
    };
    let section = KubeAgentHealthV1::from_self_health(&self_health);

    assert_eq!(KubeAgentHealthV1::name(), "kube_agent_health_v1");
    assert_eq!(section.node_scrapers.len(), 2);
    assert_eq!(*section.node_scrapers.key_at(0), "node01");
    assert_eq!(*section.node_scrapers.key_at(1), "offline01");
    let node01 = section.node_scrapers.value_at(0);
    assert_eq!(node01.kubelet_stats.last_heard_age_secs, Some(Duration::from_secs(26)));
    assert_eq!(node01.kubelet_stats.scrape_time_secs, Some(Duration::from_millis(150)));
    assert_eq!(node01.kubelet_stats.version, Some("1.1000.0"));
    assert_eq!(
        node01.kubelet_stats.git_sha,
        Some("39ead942a6da3e42c8b0fb37810eca12344a56c7")
    );
    assert_eq!(node01.kubelet_health.last_heard_age_secs, Some(Duration::from_secs(24)));
    assert_eq!(node01.kubelet_health.scrape_time_secs, Some(Duration::from_millis(45)));
    assert_eq!(node01.kubelet_health.version, Some("1.1000.0"));
    assert_eq!(node01.system_agent.last_heard_age_secs, None);
    assert_eq!(node01.system_agent.scrape_time_secs, None);
    assert_eq!(node01.system_agent.version, None);
    assert_eq!(node01.system_agent.git_sha, None);
    let offline01 = section.node_scrapers.value_at(1);
    assert_eq!(offline01.kubelet_stats.last_heard_age_secs, None);
    assert_eq!(offline01.kubelet_health.version, None);

    assert_eq!(section.reflector_healths.len(), 3);
    assert_eq!(*section.reflector_healths.key_at(0), "DaemonSet");
    assert_eq!(*section.reflector_healths.key_at(1), "Pod");
    assert_eq!(*section.reflector_healths.key_at(2), "ReplicaSet");
    let pod = section.reflector_healths.get("Pod").expect("Pod reflector");
    assert!(!pod.has_been_initialized);
    assert_eq!(pod.relist_started_age_secs, None);
    assert_eq!(pod.errors_total, 0);

    assert_eq!(section.cluster_aggregator.version, "1.1000.1");
    assert_eq!(
        section.cluster_aggregator.git_sha,
        Some("40abc123a6da3e42c8b0fb37810eca54321a56a1")
    );
}

#[test]
fn an_empty_record_gives_an_empty_section() {
    let self_health = SelfHealth {
        node_node_scrapers: NameMap::new(),
        reflector_healths: NameMap::new(),
        cluster_aggregator_build_info: ClusterAggregatorBuildInfo {
            version: "1.0.0",
            git_sha: None,
        },
    };
    let section = KubeAgentHealthV1::from_self_health(&self_health);
    assert_eq!(section.node_scrapers.len(), 0);
    assert_eq!(section.reflector_healths.len(), 0);
    assert_eq!(section.cluster_aggregator.version, "1.0.0");
    assert_eq!(section.cluster_aggregator.git_sha, None);
}
