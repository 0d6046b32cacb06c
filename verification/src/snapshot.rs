//! The cluster aggregator's record of its own health and that of the node
//! scrapers that report to it.
use std::time::Duration;
use vstd::prelude::*;

use crate::name_map::NameMap;

verus! {

/// How one kind of data from one node scraper has been arriving.
#[derive(Debug, Clone)]
pub struct NodeScraperIngestionHealth {
    /// How long ago data of this kind last arrived.
    pub last_heard_age: Option<Duration>,
    /// How long the scraper took to gather it.
    pub scrape_time: Option<Duration>,
    /// The scraper's version.
    pub version: Option<String>,
    /// The scraper's git commit.
    pub git_sha: Option<String>,
}

impl Default for NodeScraperIngestionHealth {
    fn default() -> (r: Self)
        ensures
            r.last_heard_age is None,
            r.scrape_time is None,
            r.version is None,
            r.git_sha is None,
    {
        NodeScraperIngestionHealth {
            last_heard_age: None,
            scrape_time: None,
            version: None,
            git_sha: None,
        }
    }
}

/// The health of the data that one node's scraper sends.
#[derive(Debug, Clone)]
pub struct NodeNodeScraperHealth {
    pub kubelet_stats: NodeScraperIngestionHealth,
    pub kubelet_health: NodeScraperIngestionHealth,
    pub system_agent: NodeScraperIngestionHealth,
}

/// Nothing has been heard of this kind of data.
pub open spec fn nothing_heard(h: NodeScraperIngestionHealth) -> bool {
    &&& h.last_heard_age is None
    &&& h.scrape_time is None
    &&& h.version is None
    &&& h.git_sha is None
}

impl Default for NodeNodeScraperHealth {
    fn default() -> (r: Self)
        ensures
            nothing_heard(r.kubelet_stats),
            nothing_heard(r.kubelet_health),
            nothing_heard(r.system_agent),
    {
        NodeNodeScraperHealth {
            kubelet_stats: NodeScraperIngestionHealth::default(),
            kubelet_health: NodeScraperIngestionHealth::default(),
            system_agent: NodeScraperIngestionHealth::default(),
        }
    }
}

/// The health of the watch that mirrors one kind of Kubernetes object.
#[derive(Debug, Clone, Copy)]
pub struct ReflectorHealth {
    pub has_been_initialized: bool,
    pub relist_started_age: Option<Duration>,
    pub relist_completed_age: Option<Duration>,
    pub relist_duration: Option<Duration>,
    pub last_error_age: Option<Duration>,
    pub errors_total: u64,
}

impl Default for ReflectorHealth {
    fn default() -> (r: Self)
        ensures
            !r.has_been_initialized,
            r.relist_started_age is None,
            r.relist_completed_age is None,
            r.relist_duration is None,
            r.last_error_age is None,
            r.errors_total == 0,
    {
        ReflectorHealth {
            has_been_initialized: false,
            relist_started_age: None,
            relist_completed_age: None,
            relist_duration: None,
            last_error_age: None,
            errors_total: 0,
        }
    }
}

/// The version and commit that the cluster aggregator was built from.
#[derive(Debug, Clone, Copy)]
pub struct ClusterAggregatorBuildInfo {
    pub version: &'static str,
    pub git_sha: Option<&'static str>,
}

/// The aggregator's health record: per node, the health of its scraper's
/// data; per kind of object, the health of its watch; and the aggregator's
/// own build.
pub struct SelfHealth {
    pub node_node_scrapers: NameMap<String, NodeNodeScraperHealth>,
    pub reflector_healths: NameMap<&'static str, ReflectorHealth>,
    pub cluster_aggregator_build_info: ClusterAggregatorBuildInfo,
}

} // verus!
