//! The self-health section of the Kubernetes agent: the current health of the
//! agent and of its two components (cluster-aggregator and node-scraper), as
//! it is emitted on the cluster piggyback host.
use std::time::Duration;
use vstd::prelude::*;

use crate::name_map::{key_less, lemma_lookup_sorted, lookup, sorted_by_key, NameMap};
use crate::snapshot;
use crate::text::{opt_str_view, opt_string_view};

verus! {

/// How one kind of data from one node scraper has been arriving. The ages
/// are written out in seconds.
#[derive(Debug)]
pub struct NodeScraperIngestionHealth<'a> {
    pub last_heard_age_secs: Option<Duration>,
    pub scrape_time_secs: Option<Duration>,
    pub version: Option<&'a str>,
    pub git_sha: Option<&'a str>,
}

/// `r` reports what the record `v` holds.
pub open spec fn reports_ingestion(
    r: NodeScraperIngestionHealth,
    v: snapshot::NodeScraperIngestionHealth,
) -> bool {
    &&& r.last_heard_age_secs == v.last_heard_age
    &&& r.scrape_time_secs == v.scrape_time
    &&& opt_str_view(r.version) == opt_string_view(v.version)
    &&& opt_str_view(r.git_sha) == opt_string_view(v.git_sha)
}

fn as_deref<'a>(o: &'a Option<String>) -> (r: Option<&'a str>)
    ensures
        opt_str_view(r) == opt_string_view(*o),
{
    match o {
        Some(s) => Some(s.as_str()),
        None => None,
    }
}

impl<'a> NodeScraperIngestionHealth<'a> {
    /// The section's view of one record.
    pub fn from(value: &'a snapshot::NodeScraperIngestionHealth) -> (r: Self)
        ensures
            reports_ingestion(r, *value),
    {
        NodeScraperIngestionHealth {
            last_heard_age_secs: value.last_heard_age,
            scrape_time_secs: value.scrape_time,
            version: as_deref(&value.version),
            git_sha: as_deref(&value.git_sha),
        }
    }
}

/// The health of the data that one node's scraper sends.
#[derive(Debug)]
pub struct NodeNodeScraperHealth<'a> {
    pub kubelet_stats: NodeScraperIngestionHealth<'a>,
    pub kubelet_health: NodeScraperIngestionHealth<'a>,
    pub system_agent: NodeScraperIngestionHealth<'a>,
}

/// `r` reports what the record `v` holds.
pub open spec fn reports_node(r: NodeNodeScraperHealth, v: snapshot::NodeNodeScraperHealth) -> bool {
    &&& reports_ingestion(r.kubelet_stats, v.kubelet_stats)
    &&& reports_ingestion(r.kubelet_health, v.kubelet_health)
    &&& reports_ingestion(r.system_agent, v.system_agent)
}

impl<'a> NodeNodeScraperHealth<'a> {
    /// The section's view of one node's record.
    pub fn from(value: &'a snapshot::NodeNodeScraperHealth) -> (r: Self)
        ensures
            reports_node(r, *value),
    {
        NodeNodeScraperHealth {
            kubelet_stats: NodeScraperIngestionHealth::from(&value.kubelet_stats),
            kubelet_health: NodeScraperIngestionHealth::from(&value.kubelet_health),
            system_agent: NodeScraperIngestionHealth::from(&value.system_agent),
        }
    }
}

/// The health of the watch that mirrors one kind of Kubernetes object. The
/// ages and the duration are written out in seconds.
#[derive(Debug, Clone, Copy)]
pub struct ReflectorHealth {
    pub has_been_initialized: bool,
    pub relist_started_age_secs: Option<Duration>,
    pub relist_completed_age_secs: Option<Duration>,
    pub relist_duration_secs: Option<Duration>,
    pub last_error_age_secs: Option<Duration>,
    pub errors_total: u64,
}

/// The section's view of a watch's record.
pub open spec fn reflector_report(v: snapshot::ReflectorHealth) -> ReflectorHealth {
    ReflectorHealth {
        has_been_initialized: v.has_been_initialized,
        relist_started_age_secs: v.relist_started_age,
        relist_completed_age_secs: v.relist_completed_age,
        relist_duration_secs: v.relist_duration,
        last_error_age_secs: v.last_error_age,
        errors_total: v.errors_total,
    }
}

/// Each field of a watch's report is the same-named field of its record:
/// the ages, the duration and the error count are handed on unchanged.
pub proof fn law_reflector_report_keeps_each_field(v: snapshot::ReflectorHealth)
    ensures
        reflector_report(v).has_been_initialized == v.has_been_initialized,
        reflector_report(v).relist_started_age_secs == v.relist_started_age,
        reflector_report(v).relist_completed_age_secs == v.relist_completed_age,
        reflector_report(v).relist_duration_secs == v.relist_duration,
        reflector_report(v).last_error_age_secs == v.last_error_age,
        reflector_report(v).errors_total == v.errors_total,
{
}

impl ReflectorHealth {
    /// The section's view of a watch's record.
    pub fn from(value: &snapshot::ReflectorHealth) -> (r: Self)
        ensures
            r == reflector_report(*value),
    {
        ReflectorHealth {
            has_been_initialized: value.has_been_initialized,
            relist_started_age_secs: value.relist_started_age,
            relist_completed_age_secs: value.relist_completed_age,
            relist_duration_secs: value.relist_duration,
            last_error_age_secs: value.last_error_age,
            errors_total: value.errors_total,
        }
    }
}

/// The version and commit of the cluster aggregator.
#[derive(Debug, Clone, Copy)]
pub struct ClusterAggregatorMetadata<'a> {
    pub version: &'a str,
    pub git_sha: Option<&'a str>,
}

impl<'a> ClusterAggregatorMetadata<'a> {
    pub fn new(version: &'a str, git_sha: Option<&'a str>) -> (r: Self)
        ensures
            r.version == version,
            r.git_sha == git_sha,
    {
        ClusterAggregatorMetadata { version, git_sha }
    }
}

/// The self-health section, first version.
pub struct KubeAgentHealthV1<'a> {
    /// Per node, the health of the data that its scraper sends.
    pub node_scrapers: NameMap<&'a str, NodeNodeScraperHealth<'a>>,
    /// Per kind of object, the health of its watch.
    pub reflector_healths: NameMap<&'static str, ReflectorHealth>,
    /// The aggregator's own build.
    pub cluster_aggregator: ClusterAggregatorMetadata<'a>,
}

/// `section` reports exactly what `self_health` records: one entry per node
/// and per kind of object, in the same order and under the same names.
pub open spec fn reports_self_health(section: KubeAgentHealthV1, self_health: snapshot::SelfHealth) -> bool {
    let nodes = section.node_scrapers@;
    let recorded_nodes = self_health.node_node_scrapers@;
    let reflectors = section.reflector_healths@;
    let recorded_reflectors = self_health.reflector_healths@;
    &&& nodes.len() == recorded_nodes.len()
    &&& forall|i: int|
        0 <= i < nodes.len() ==> (#[trigger] nodes[i]).0 == recorded_nodes[i].0 && reports_node(
            nodes[i].1,
            recorded_nodes[i].1,
        )
    &&& reflectors.len() == recorded_reflectors.len()
    &&& forall|i: int|
        0 <= i < reflectors.len() ==> (#[trigger] reflectors[i]).0 == recorded_reflectors[i].0
            && reflectors[i].1 == reflector_report(recorded_reflectors[i].1)
    &&& section.cluster_aggregator.version == self_health.cluster_aggregator_build_info.version
    &&& section.cluster_aggregator.git_sha == self_health.cluster_aggregator_build_info.git_sha
}

/// The section reports each node under its name: where the record holds a
/// node, the section holds the same name with a report of that node's health,
/// and it holds no other names.
pub proof fn law_section_reports_each_node(section: KubeAgentHealthV1, self_health: snapshot::SelfHealth, name: Seq<char>)
    requires
        reports_self_health(section, self_health),
        sorted_by_key(self_health.node_node_scrapers@),
    ensures
        match lookup(self_health.node_node_scrapers@, name) {
            Some(recorded) => lookup(section.node_scrapers@, name) matches Some(reported) && reports_node(
                reported,
                recorded,
            ),
            None => lookup(section.node_scrapers@, name) is None,
        },
{
    let nodes = section.node_scrapers@;
    let recorded = self_health.node_node_scrapers@;
    assert(sorted_by_key(nodes)) by {
        assert forall|i: int, j: int| 0 <= i < j < nodes.len() implies key_less(
            #[trigger] nodes[i].0,
            #[trigger] nodes[j].0,
        ) by {
            assert(nodes[i].0 == recorded[i].0);
            assert(nodes[j].0 == recorded[j].0);
        }
    }
    lemma_lookup_sorted(nodes, name);
    lemma_lookup_sorted(recorded, name);
    if exists|p: int| 0 <= p < recorded.len() && (#[trigger] recorded[p]).0 == name {
        let p = choose|p: int| 0 <= p < recorded.len() && (#[trigger] recorded[p]).0 == name;
        assert(nodes[p].0 == recorded[p].0);
    } else {
        assert forall|p: int| 0 <= p < nodes.len() implies (#[trigger] nodes[p]).0 != name by {
            assert(nodes[p].0 == recorded[p].0);
        }
    }
}

/// The section reports each watch under its kind, in the record's order,
/// with every field of the record handed on unchanged.
pub proof fn law_section_reports_each_reflector(
    section: KubeAgentHealthV1,
    self_health: snapshot::SelfHealth,
    i: int,
)
    requires
        reports_self_health(section, self_health),
        0 <= i < self_health.reflector_healths@.len(),
    ensures
        i < section.reflector_healths@.len(),
        ({
            let reported = section.reflector_healths@[i];
            let recorded = self_health.reflector_healths@[i];
            &&& reported.0 == recorded.0
            &&& reported.1.has_been_initialized == recorded.1.has_been_initialized
            &&& reported.1.relist_started_age_secs == recorded.1.relist_started_age
            &&& reported.1.relist_completed_age_secs == recorded.1.relist_completed_age
            &&& reported.1.relist_duration_secs == recorded.1.relist_duration
            &&& reported.1.last_error_age_secs == recorded.1.last_error_age
            &&& reported.1.errors_total == recorded.1.errors_total
        }),
{
    assert(section.reflector_healths@[i].0 == self_health.reflector_healths@[i].0);
}

impl<'a> KubeAgentHealthV1<'a> {
    /// The name of the section.
    pub fn name() -> (r: &'static str)
        ensures
            r@ == "kube_agent_health_v1"@,
    {
        "kube_agent_health_v1"
    }

    /// The section for the aggregator's health record.
    pub fn from_self_health(self_health: &'a snapshot::SelfHealth) -> (r: KubeAgentHealthV1<'a>)
        ensures
            reports_self_health(r, *self_health),
    {
        let recorded_nodes = &self_health.node_node_scrapers;
        let recorded_reflectors = &self_health.reflector_healths;

        let mut node_scrapers: NameMap<&'a str, NodeNodeScraperHealth<'a>> = NameMap::new();
        let n = recorded_nodes.len();
        let mut i: usize = 0;
        while i < n
            invariant
                i <= n,
                n == recorded_nodes@.len(),
                sorted_by_key(recorded_nodes@),
                node_scrapers@.len() == i,
                forall|j: int|
                    0 <= j < i ==> (#[trigger] node_scrapers@[j]).0 == recorded_nodes@[j].0
                        && reports_node(node_scrapers@[j].1, recorded_nodes@[j].1),
            decreases n - i,
        {
            let name: &'a String = recorded_nodes.key_at(i);
            let health = recorded_nodes.value_at(i);
            proof {
                if i > 0 {
                    assert(node_scrapers@[i - 1].0 == recorded_nodes@[i - 1].0);
                    assert(key_less(recorded_nodes@[i - 1].0, recorded_nodes@[i as int].0));
                }
            }
            node_scrapers.push_last(name.as_str(), NodeNodeScraperHealth::from(health));
            i = i + 1;
        }

        let mut reflector_healths: NameMap<&'static str, ReflectorHealth> = NameMap::new();
        let m = recorded_reflectors.len();
        let mut k: usize = 0;
        while k < m
            invariant
                k <= m,
                m == recorded_reflectors@.len(),
                sorted_by_key(recorded_reflectors@),
                reflector_healths@.len() == k,
                forall|j: int|
                    0 <= j < k ==> (#[trigger] reflector_healths@[j]).0 == recorded_reflectors@[j].0
                        && reflector_healths@[j].1 == reflector_report(recorded_reflectors@[j].1),
            decreases m - k,
        {
            let kind: &&'static str = recorded_reflectors.key_at(k);
            let health = recorded_reflectors.value_at(k);
            proof {
                if k > 0 {
                    assert(reflector_healths@[k - 1].0 == recorded_reflectors@[k - 1].0);
                    assert(key_less(recorded_reflectors@[k - 1].0, recorded_reflectors@[k as int].0));
                }
            }
            reflector_healths.push_last(*kind, ReflectorHealth::from(health));
            k = k + 1;
        }

        KubeAgentHealthV1 {
            node_scrapers,
            reflector_healths,
            cluster_aggregator: ClusterAggregatorMetadata::new(
                self_health.cluster_aggregator_build_info.version,
                self_health.cluster_aggregator_build_info.git_sha,
            ),
        }
    }
}

} // verus!
